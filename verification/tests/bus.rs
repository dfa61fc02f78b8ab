use chrono::{DateTime, NaiveTime, TimeDelta, Utc};
use ironbird_core::bus::Bus;
use ironbird_core::error::{ChannelAccess, IronbirdError};
use ironbird_core::message::{BusMessage, OpaqueBusMessage, Signal};
use ironbird_core::time::WallTime;

fn wall(stamp: DateTime<Utc>) -> WallTime {
    WallTime { secs: stamp.timestamp(), nanos: stamp.timestamp_subsec_nanos() }
}

fn make_opaque<T: Signal>(wall_time: DateTime<Utc>, sim_time: NaiveTime, inner: T) -> OpaqueBusMessage {
    BusMessage { wall_time: wall(wall_time), sim_time, inner }.into()
}

#[test]
fn add_channel_write_and_read() {
    let mut bus = Bus::default();
    let now = Utc::now();
    let start_of_sim = NaiveTime::from_hms_opt(0, 0, 0).unwrap();
    bus.add_new_channel::<u32>("ch".to_string()).unwrap();
    bus.write_latest_to_channel("ch", make_opaque(now, start_of_sim, 42u32)).unwrap();
    let msg = bus.read_current_from_channel("ch").unwrap().unwrap();
    assert_eq!(msg.wall_time, wall(now));
}

#[test]
fn add_duplicate_channel_errors() {
    let mut bus = Bus::default();
    bus.add_new_channel::<u32>("dup".to_string()).unwrap();
    assert!(bus.add_new_channel::<u32>("dup".to_string()).is_err());
}

#[test]
fn write_to_nonexistent_channel_errors() {
    let mut bus = Bus::default();
    let now = Utc::now();
    let start_of_sim = NaiveTime::from_hms_opt(0, 0, 0).unwrap();
    assert!(bus.write_latest_to_channel("nope", make_opaque(now, start_of_sim, 0u32)).is_err());
}

#[test]
fn read_from_nonexistent_channel_errors() {
    let bus = Bus::default();
    assert!(bus.read_current_from_channel("nope").is_err());
    assert!(bus.read_prev_from_channel("nope").is_err());
}

#[test]
fn read_empty_channel_returns_none() {
    let mut bus = Bus::default();
    bus.add_new_channel::<u32>("empty".to_string()).unwrap();
    assert!(bus.read_current_from_channel("empty").unwrap().is_none());
    assert!(bus.read_prev_from_channel("empty").unwrap().is_none());
}

#[test]
fn read_prev_returns_previous_write() {
    let mut bus = Bus::default();
    bus.add_new_channel::<u32>("ch".to_string()).unwrap();
    let now = Utc::now();
    let start_of_sim = NaiveTime::from_hms_opt(0, 0, 0).unwrap();
    bus.write_latest_to_channel("ch", make_opaque(now, start_of_sim, 1u32)).unwrap();
    bus.write_latest_to_channel(
        "ch",
        make_opaque(now + TimeDelta::nanoseconds(3), start_of_sim + TimeDelta::seconds(3), 2u32),
    )
    .unwrap();
    let prev = bus.read_prev_from_channel("ch").unwrap().unwrap();
    assert_eq!(prev.wall_time, wall(now));
}

#[test]
fn bus_duplicate_channel_error_names_the_channel() {
    let mut bus = Bus::new();
    bus.add_new_channel::<u64>("speed".to_string()).unwrap();
    match bus.add_new_channel::<u32>("speed".to_string()) {
        Err(IronbirdError::ChannelAlreadyExists { channel_id }) => assert_eq!(channel_id, "speed"),
        other => panic!("unexpected result {:?}", other),
    }
    // The first channel is untouched: it still takes u64 messages.
    let start = NaiveTime::from_hms_opt(0, 0, 0).unwrap();
    assert!(bus.write_latest_to_channel("speed", make_opaque(Utc::now(), start, 7u64)).is_ok());
}

#[test]
fn bus_missing_channel_error_names_the_channel() {
    let mut bus = Bus::new();
    let start = NaiveTime::from_hms_opt(0, 0, 0).unwrap();
    match bus.write_latest_to_channel("ghost", make_opaque(Utc::now(), start, 1u32)) {
        Err(IronbirdError::ChannelNotFound { channel_id, access }) => {
            assert_eq!(channel_id, "ghost");
            assert_eq!(access, ChannelAccess::Write);
        }
        other => panic!("unexpected result {:?}", other),
    }
    match bus.read_prev_from_channel("ghost") {
        Err(IronbirdError::ChannelNotFound { channel_id, access }) => {
            assert_eq!(channel_id, "ghost");
            assert_eq!(access, ChannelAccess::Read);
        }
        other => panic!("unexpected result {:?}", other),
    }
}

#[test]
fn bus_write_of_wrong_type_is_refused_and_changes_nothing() {
    let mut bus = Bus::new();
    bus.add_new_channel::<u32>("ch".to_string()).unwrap();
    let start = NaiveTime::from_hms_opt(0, 0, 0).unwrap();
    let now = Utc::now();
    bus.write_latest_to_channel("ch", make_opaque(now, start, 5u32)).unwrap();
    match bus.write_latest_to_channel("ch", make_opaque(now, start, true)) {
        Err(IronbirdError::MessageSpecMismatch { expected, actual }) => {
            assert_eq!(expected, <u32 as Signal>::message_spec());
            assert_eq!(actual, <bool as Signal>::message_spec());
        }
        other => panic!("unexpected result {:?}", other),
    }
    assert_eq!(bus.num_writes_of_channel("ch"), Some(1));
    assert!(bus.read_prev_from_channel("ch").unwrap().is_none());
    assert_eq!(bus.read_current_from_channel("ch").unwrap().unwrap().wall_time, wall(now));
}

#[test]
fn bus_write_to_one_channel_leaves_others() {
    let mut bus = Bus::new();
    bus.add_new_channel::<u32>("a".to_string()).unwrap();
    bus.add_new_channel::<u32>("b".to_string()).unwrap();
    let start = NaiveTime::from_hms_opt(0, 0, 0).unwrap();
    bus.write_latest_to_channel("a", make_opaque(Utc::now(), start, 1u32)).unwrap();
    bus.write_latest_to_channel("a", make_opaque(Utc::now(), start, 2u32)).unwrap();
    assert_eq!(bus.num_writes_of_channel("a"), Some(2));
    assert_eq!(bus.num_writes_of_channel("b"), Some(0));
    assert_eq!(bus.num_writes_of_channel("c"), None);
    assert!(bus.read_current_from_channel("b").unwrap().is_none());
}
