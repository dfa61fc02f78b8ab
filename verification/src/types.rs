//! State vectors locked to a reference frame.

use vstd::prelude::*;
use std::marker::PhantomData;

verus! {

/// `<PhantomData<T> as Clone>::clone`: `PhantomData` has a single value, so
/// the clone is that value.
pub assume_specification<T>[ <PhantomData<T> as Clone>::clone ](marker: &PhantomData<T>) -> (copy: PhantomData<T>)
    where
        T: std::marker::PointeeSized,
    ensures
        copy == *marker,
;

/// The world reference frame.
#[derive(Debug, Clone, Copy)]
pub struct World;

/// A vector of `N` states of type `T`, locked to the frame `Frame`.
#[derive(Debug, Clone, Copy)]
pub struct StateVec<T, const N: usize, Frame> {
    pub data: [T; N],
    pub _frame: PhantomData<Frame>,
}

impl<T, const N: usize, Frame> StateVec<T, N, Frame> {
    /// A state vector holding `data` in the frame `Frame`.
    pub fn new(data: [T; N]) -> (v: StateVec<T, N, Frame>)
        ensures
            v.data == data,
    {
        StateVec { data, _frame: PhantomData }
    }
}

} // verus!
