use chrono::{DateTime, NaiveTime, TimeDelta, Utc};
use ironbird_core::channel::BusMessageChannel;
use ironbird_core::error::IronbirdError;
use ironbird_core::message::{BusMessage, OpaqueBusMessage, Signal};
use ironbird_core::time::WallTime;

fn wall(stamp: DateTime<Utc>) -> WallTime {
    WallTime { secs: stamp.timestamp(), nanos: stamp.timestamp_subsec_nanos() }
}

fn make_opaque<T: Signal>(wall_time: DateTime<Utc>, sim_time: NaiveTime, inner: T) -> OpaqueBusMessage {
    BusMessage { wall_time: wall(wall_time), sim_time, inner }.into()
}

/// A 64-bit float signal. The library cannot name floating-point types, so
/// the float signal used by these tests is declared here.
struct Real(f64);

impl Signal for Real {
    const STABLE_TYPE_NAME: &'static str = "ironbird/f64";

    fn spec_internal_type_name() -> &'static str {
        "Real"
    }

    fn internal_type_name() -> &'static str {
        "Real"
    }
}

#[test]
fn new_channel_starts_empty() {
    let ch = BusMessageChannel::new::<u32>("test".to_string());
    assert!(ch.read().is_none());
    assert!(ch.read_prev().is_none());
}

#[test]
fn write_and_read_current() {
    let mut ch = BusMessageChannel::new::<u32>("test".to_string());
    let now = Utc::now();
    let start_of_sim = NaiveTime::from_hms_opt(0, 0, 0).unwrap();
    ch.write(make_opaque(now, start_of_sim, 42u32)).unwrap();
    assert_eq!(ch.read().unwrap().wall_time, wall(now));
}

#[test]
fn second_write_advances_prev() {
    let mut ch = BusMessageChannel::new::<u32>("test".to_string());
    let now = Utc::now();
    let start_of_sim = NaiveTime::from_hms_opt(0, 0, 0).unwrap();
    ch.write(make_opaque(now, start_of_sim, 1u32)).unwrap();
    ch.write(make_opaque(now + TimeDelta::nanoseconds(3), start_of_sim + TimeDelta::seconds(3), 2u32))
        .unwrap();
    assert_eq!(ch.read().unwrap().wall_time, wall(now + TimeDelta::nanoseconds(3)));
    assert_eq!(ch.read_prev().unwrap().sim_time, start_of_sim);
}

#[test]
fn write_wrong_type_returns_error() {
    let mut ch = BusMessageChannel::new::<u32>("test".to_string());
    let now = Utc::now();
    let start_of_sim = NaiveTime::from_hms_opt(0, 0, 0).unwrap();
    assert!(ch.write(make_opaque(now, start_of_sim, Real(1.0f64))).is_err());
}

#[test]
fn prev_is_none_after_single_write() {
    let mut ch = BusMessageChannel::new::<u32>("test".to_string());
    let now = Utc::now();
    let start_of_sim = NaiveTime::from_hms_opt(0, 0, 0).unwrap();
    ch.write(make_opaque(now, start_of_sim, 42u32)).unwrap();
    assert!(ch.read_prev().is_none());
}

#[test]
fn channel_counts_only_accepted_writes() {
    let mut ch = BusMessageChannel::new::<u64>("count".to_string());
    let start = NaiveTime::from_hms_opt(0, 0, 0).unwrap();
    assert_eq!(ch.num_writes(), 0);
    ch.write(make_opaque(Utc::now(), start, 1u64)).unwrap();
    assert!(ch.write(make_opaque(Utc::now(), start, 1u32)).is_err());
    ch.write(make_opaque(Utc::now(), start, 2u64)).unwrap();
    ch.write(make_opaque(Utc::now(), start, 3u64)).unwrap();
    assert_eq!(ch.num_writes(), 3);
    assert_eq!(ch.id(), "count");
}

#[test]
fn channel_mismatch_reports_both_specs() {
    let mut ch = BusMessageChannel::new::<usize>("sizes".to_string());
    let start = NaiveTime::from_hms_opt(0, 0, 0).unwrap();
    match ch.write(make_opaque(Utc::now(), start, 9u64)) {
        Err(IronbirdError::MessageSpecMismatch { expected, actual }) => {
            assert_eq!(expected.stable_type_name, "ironbird/usize");
            assert_eq!(actual.stable_type_name, "ironbird/u64");
        }
        other => panic!("unexpected result {:?}", other),
    }
    assert!(ch.read().is_none());
}

#[test]
fn channel_three_writes_keep_last_two() {
    let mut ch = BusMessageChannel::new::<u32>("seq".to_string());
    let start = NaiveTime::from_hms_opt(0, 0, 0).unwrap();
    for s in 1..=3i64 {
        ch.write(make_opaque(Utc::now(), start + TimeDelta::seconds(s), s as u32)).unwrap();
    }
    assert_eq!(ch.read().unwrap().sim_time, start + TimeDelta::seconds(3));
    assert_eq!(ch.read_prev().unwrap().sim_time, start + TimeDelta::seconds(2));
}
