//! Core of the ironbird simulation framework: typed signals carried as
//! type-erased messages over named bus channels, component ports and the
//! bookkeeping that wires them together.

use vstd::prelude::*;

pub mod bus;
pub mod channel;
pub mod component;
pub mod erased;
pub mod error;
pub mod keyed;
pub mod message;
pub mod port;
pub mod project;
pub mod sim_context;
pub mod time;
pub mod types;

verus! {

/// Adds two numbers.
pub fn add(left: u64, right: u64) -> (sum: u64)
    requires
        left + right <= u64::MAX,
    ensures
        sum == left + right,
{
    left + right
}

} // verus!
