//! Time as messages and step contexts carry it: wall-clock stamps, the
//! simulation's time of day, and durations.

use vstd::prelude::*;
use chrono::{NaiveTime, TimeDelta};

verus! {

/// A wall-clock instant in UTC, as whole seconds since the Unix epoch and the
/// nanoseconds within that second (`chrono::DateTime::<Utc>::timestamp` and
/// `timestamp_subsec_nanos`; the nanoseconds exceed 999_999_999 only during a
/// leap second). The stamp is kept as these two plain numbers, which
/// determine it, because `chrono::DateTime` cannot be declared for contracts
/// (its time-zone parameter is bounded by a trait that contracts cannot use).
#[derive(Debug, Clone, Copy, PartialEq, Eq, Structural)]
pub struct WallTime {
    pub secs: i64,
    pub nanos: u32,
}

/// `chrono::NaiveTime`: a time of day, used as simulation time.
#[verifier::external_type_specification]
#[verifier::external_body]
pub struct ExNaiveTime(NaiveTime);

/// `chrono::TimeDelta`: a signed duration.
#[verifier::external_type_specification]
#[verifier::external_body]
pub struct ExTimeDelta(TimeDelta);

/// `<NaiveTime as Clone>::clone`: `NaiveTime` derives `Clone` and `Copy`, so
/// the clone is the same time.
pub assume_specification[ <NaiveTime as Clone>::clone ](time: &NaiveTime) -> (copy: NaiveTime)
    ensures
        copy == *time,
;

} // verus!
