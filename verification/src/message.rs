//! Ironbird signals: values that can travel over the message bus, the spec
//! that identifies their type, and the typed and type-erased messages that
//! carry them.

use vstd::prelude::*;
use std::any::TypeId;
use chrono::NaiveTime;
use crate::time::WallTime;
use vstd::std_specs::cmp::PartialEqSpecImpl;
use vstd::std_specs::convert::{FromSpecImpl, TryFromSpecImpl};
use crate::erased::{type_id_of, type_ids_equal, ErasedPayload};
use crate::error::IronbirdError;

verus! {

/// Identifies the type of a signal both internally (the compiler's type id and
/// type name) and by a stable name that stays the same across builds.
#[derive(Debug, Clone, Copy, Eq, Hash)]
pub struct MessageSpec {
    pub internal_type_id: TypeId,
    pub internal_type_name: &'static str,
    pub stable_type_name: &'static str,
}

/// What a message spec is, for contracts: two specs are equal exactly when
/// their views are.
pub ghost struct MessageSpecView {
    pub type_id: TypeId,
    pub internal_type_name: Seq<char>,
    pub stable_type_name: Seq<char>,
}

impl View for MessageSpec {
    type V = MessageSpecView;

    open spec fn view(&self) -> MessageSpecView {
        MessageSpecView {
            type_id: self.internal_type_id,
            internal_type_name: self.internal_type_name@,
            stable_type_name: self.stable_type_name@,
        }
    }
}

/// Compares two strings by their characters.
pub(crate) fn str_equal(a: &str, b: &str) -> (same: bool)
    ensures
        same == (a@ == b@),
{
    let a_owned: String = a.to_owned();
    let b_owned: String = b.to_owned();
    a_owned == b_owned
}

impl PartialEq for MessageSpec {
    fn eq(&self, other: &MessageSpec) -> (same: bool) {
        type_ids_equal(&self.internal_type_id, &other.internal_type_id)
            && str_equal(self.internal_type_name, other.internal_type_name)
            && str_equal(self.stable_type_name, other.stable_type_name)
    }
}

impl PartialEqSpecImpl for MessageSpec {
    open spec fn obeys_eq_spec() -> bool {
        true
    }

    open spec fn eq_spec(&self, other: &MessageSpec) -> bool {
        self@ == other@
    }
}

/// `spec` names the signal type `T`: its stable name and its compiler name
/// are `T`'s. (Its type id is `TypeId::of::<T>()`, which contracts cannot
/// name.)
pub open spec fn is_signal_spec<T: Signal>(spec: MessageSpec) -> bool {
    &&& spec.stable_type_name@ == T::STABLE_TYPE_NAME@
    &&& spec.internal_type_name@ == T::spec_internal_type_name()@
}

/// A data type can travel over the bus if it implements `Signal`: it can be
/// sent across threads, erased to `dyn Any`, and it names itself by a stable
/// type name from which its message spec is made.
pub trait Signal: Send + 'static {
    const STABLE_TYPE_NAME: &'static str;

    /// The compiler's name for this type, as `std::any` reports it: the
    /// name that `internal_type_name` returns. An implementation returns the
    /// same string here.
    spec fn spec_internal_type_name() -> &'static str;

    /// The compiler's name for this type, as `std::any` reports it.
    fn internal_type_name() -> (name: &'static str)
        ensures
            name@ == Self::spec_internal_type_name()@,
    ;

    /// The spec of this signal type: its type id, its compiler name and its
    /// stable name.
    fn message_spec() -> (spec: MessageSpec)
        ensures
            spec.stable_type_name@ == Self::STABLE_TYPE_NAME@,
            spec.internal_type_name@ == Self::spec_internal_type_name()@,
    {
        MessageSpec {
            internal_type_id: type_id_of::<Self>(),
            internal_type_name: Self::internal_type_name(),
            stable_type_name: Self::STABLE_TYPE_NAME,
        }
    }
}

impl Signal for u64 {
    const STABLE_TYPE_NAME: &'static str = "ironbird/u64";

    open spec fn spec_internal_type_name() -> &'static str {
        "u64"
    }

    fn internal_type_name() -> (name: &'static str)
        ensures
            name@ == "u64"@,
    {
        "u64"
    }
}

impl Signal for u32 {
    const STABLE_TYPE_NAME: &'static str = "ironbird/u32";

    open spec fn spec_internal_type_name() -> &'static str {
        "u32"
    }

    fn internal_type_name() -> (name: &'static str)
        ensures
            name@ == "u32"@,
    {
        "u32"
    }
}

impl Signal for usize {
    const STABLE_TYPE_NAME: &'static str = "ironbird/usize";

    open spec fn spec_internal_type_name() -> &'static str {
        "usize"
    }

    fn internal_type_name() -> (name: &'static str)
        ensures
            name@ == "usize"@,
    {
        "usize"
    }
}

impl Signal for bool {
    const STABLE_TYPE_NAME: &'static str = "ironbird/bool";

    open spec fn spec_internal_type_name() -> &'static str {
        "bool"
    }

    fn internal_type_name() -> (name: &'static str)
        ensures
            name@ == "bool"@,
    {
        "bool"
    }
}

/// A typed bus message: owns its data and stamps it with the wall-clock time
/// and the simulation time.
#[derive(Debug, Clone, Copy)]
pub struct BusMessage<T: Signal> {
    pub wall_time: WallTime,
    pub sim_time: NaiveTime,
    pub inner: T,
}

/// A type-erased bus message, as channels store it. `message_spec` records
/// the type of the value in `inner`.
#[derive(Debug)]
pub struct OpaqueBusMessage {
    pub wall_time: WallTime,
    pub sim_time: NaiveTime,
    pub message_spec: MessageSpec,
    pub inner: ErasedPayload,
}

impl<T: Signal> From<BusMessage<T>> for OpaqueBusMessage {
    /// Erases the type of the message's data and records the spec of `T`.
    fn from(msg: BusMessage<T>) -> (opaque: OpaqueBusMessage)
        ensures
            opaque.wall_time == msg.wall_time,
            opaque.sim_time == msg.sim_time,
            is_signal_spec::<T>(opaque.message_spec),
    {
        let message_spec = T::message_spec();
        OpaqueBusMessage {
            wall_time: msg.wall_time,
            sim_time: msg.sim_time,
            message_spec,
            inner: ErasedPayload::new(msg.inner),
        }
    }
}

impl<T: Signal> FromSpecImpl<BusMessage<T>> for OpaqueBusMessage {
    /// The erased data is not visible to contracts, so the conversion is
    /// described by the `ensures` of `from` rather than by a whole value.
    open spec fn obeys_from_spec() -> bool {
        false
    }

    open spec fn from_spec(msg: BusMessage<T>) -> OpaqueBusMessage {
        arbitrary()
    }
}

impl<T: Signal> TryFrom<OpaqueBusMessage> for BusMessage<T> {
    type Error = IronbirdError;

    /// Recovers the typed message; fails when the erased data is not a `T`.
    fn try_from(msg: OpaqueBusMessage) -> (result: Result<BusMessage<T>, IronbirdError>)
        ensures
            result matches Ok(typed) ==> typed.wall_time == msg.wall_time
                && typed.sim_time == msg.sim_time,
            result matches Err(e) ==> e matches IronbirdError::DowncastFailed {
                message_spec,
                target_type_name,
            } && message_spec == msg.message_spec
                && target_type_name@ == T::spec_internal_type_name()@,
    {
        let OpaqueBusMessage { wall_time, sim_time, message_spec, inner } = msg;
        match inner.downcast::<T>() {
            Ok(value) => Ok(BusMessage { wall_time, sim_time, inner: value }),
            Err(_not_downcast) => Err(
                IronbirdError::DowncastFailed {
                    message_spec,
                    target_type_name: T::internal_type_name(),
                },
            ),
        }
    }
}

impl<T: Signal> TryFromSpecImpl<OpaqueBusMessage> for BusMessage<T> {
    /// Whether the erased data is a `T` is not visible to contracts, so the
    /// conversion is described by the `ensures` of `try_from`.
    open spec fn obeys_try_from_spec() -> bool {
        false
    }

    open spec fn try_from_spec(msg: OpaqueBusMessage) -> Result<BusMessage<T>, IronbirdError> {
        arbitrary()
    }
}

} // verus!
