//! Type identity and type erasure from `std::any`: the identifiers that
//! message specs are made of, and the box that carries a signal value whose
//! type only the message spec records.

use vstd::prelude::*;
use std::any::{Any, TypeId};
use crate::message::Signal;

verus! {

/// `std::any::TypeId`: an opaque identifier of a type.
#[verifier::external_type_specification]
#[verifier::external_body]
pub struct ExTypeId(TypeId);

/// Calls `std::any::TypeId::of::<T>()`. The identifier depends on the type
/// argument alone, which no contract here can name, so nothing is claimed of it.
#[verifier::external_body]
pub(crate) fn type_id_of<T: ?Sized + 'static>() -> TypeId {
    TypeId::of::<T>()
}

/// Calls `<TypeId as PartialEq>::eq`. Claims that two identifiers compare
/// equal exactly when they are the same identifier: `TypeId` documents itself
/// as a globally unique identifier of a type and derives its equality.
#[verifier::external_body]
pub(crate) fn type_ids_equal(a: &TypeId, b: &TypeId) -> (same: bool)
    ensures
        same == (*a == *b),
{
    *a == *b
}

/// A signal value whose type has been erased: a `Box<dyn Any>`. `dyn Any`
/// cannot stand in a verified signature and `Box<dyn Any>` cannot be
/// declared as an outside type, so the box is held in a private field and
/// reached only through the methods below.
#[verifier::external_body]
#[derive(Debug)]
pub struct ErasedPayload {
    value: Box<dyn Any>,
}

impl ErasedPayload {
    /// Calls `Box::new` and erases the value's type. Only signal values are
    /// erased: a bus payload is always a signal. Nothing is claimed of the
    /// result: what it holds is not visible to contracts.
    #[verifier::external_body]
    pub(crate) fn new<T: Signal>(value: T) -> ErasedPayload {
        ErasedPayload { value: Box::new(value) }
    }

    /// Calls `<Box<dyn Any>>::downcast::<T>`. Claims only what its
    /// documentation promises on failure: the box comes back unchanged.
    /// Whether it succeeds depends on the erased type, which no contract
    /// here can name.
    #[verifier::external_body]
    pub(crate) fn downcast<T: 'static>(self) -> (result: Result<T, ErasedPayload>)
        ensures
            result matches Err(back) ==> back == self,
    {
        match self.value.downcast::<T>() {
            Ok(value) => Ok(*value),
            Err(value) => Err(ErasedPayload { value }),
        }
    }

    /// Calls `<dyn Any>::downcast_ref::<T>`. Whether it finds a `T` depends
    /// on the erased type, so nothing is claimed of the result.
    #[verifier::external_body]
    pub(crate) fn downcast_ref<T: 'static>(&self) -> Option<&T> {
        self.value.downcast_ref::<T>()
    }
}

} // verus!
