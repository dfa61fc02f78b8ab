use chrono::{NaiveTime, TimeDelta};
use ironbird_core::message::BusMessage;
use ironbird_core::port::{InputPort, OutputPort, Port, PortDirection};
use ironbird_core::project::{Ports, Wire};
use ironbird_core::time::WallTime;
use ironbird_core::types::{StateVec, World};
use ironbird_core::component::ComponentId;

struct Owner;

#[test]
fn state_vec_keeps_its_data() {
    let v = StateVec::<u32, 3, World>::new([1, 2, 3]);
    let copy = v.clone();
    assert_eq!(copy.data, [1, 2, 3]);
    assert_eq!(v.data, copy.data);
}

#[test]
fn bus_message_clone_keeps_its_stamps() {
    let sim_time = NaiveTime::from_hms_opt(1, 2, 3).unwrap() + TimeDelta::milliseconds(4);
    let msg = BusMessage { wall_time: WallTime { secs: 17, nanos: 9 }, sim_time, inner: 5u64 };
    let copy = msg.clone();
    assert_eq!(copy.sim_time, sim_time);
    assert_eq!(copy.wall_time, WallTime { secs: 17, nanos: 9 });
    assert_eq!(copy.inner, 5);
}

#[test]
fn ports_describe_themselves() {
    let owner = ComponentId::new::<Owner>(99, "Owner");
    let input: InputPort<u32> = InputPort::new(owner, "speed");
    let output: OutputPort<bool> = OutputPort::new(owner, "ready");
    assert_eq!(input.get_name(), "speed");
    assert_eq!(input.parent(), owner);
    assert_eq!(input.spec().direction, PortDirection::Input);
    assert_eq!(input.spec().message_spec.stable_type_name, "ironbird/u32");
    assert_eq!(output.spec().direction, PortDirection::Output);
    assert_eq!(output.spec().name, "ready");
    assert_eq!(output.spec(), output.spec().clone());
    assert_ne!(input.spec(), InputPort::<u32>::new(owner, "other").spec());
}

#[test]
fn project_records_hold_names() {
    let ports = Ports { inputs: vec!["torque".to_string()], outputs: vec!["angular_state".to_string()] };
    let wire = Wire {
        from: "pendulum".to_string(),
        from_port: "angular_state".to_string(),
        to: "controller".to_string(),
        to_port: "angular_state".to_string(),
    };
    assert_eq!(ports.clone().inputs, vec!["torque".to_string()]);
    assert_eq!(wire.clone().to, "controller");
}
