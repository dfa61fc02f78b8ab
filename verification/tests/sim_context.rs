use chrono::{NaiveTime, TimeDelta};
use ironbird_core::component::ComponentCore;
use ironbird_core::message::{BusMessage, OpaqueBusMessage};
use ironbird_core::port::{InputPort, OutputPort};
use ironbird_core::sim_context::{SimContext, StepContext};
use ironbird_core::time::WallTime;

struct Marker;

#[test]
fn step_context_reads_inputs_and_collects_outputs() {
    let mut core = ComponentCore::new::<Marker>(1, "Marker");
    let input: InputPort<u32> = core.add_input("in");
    let wrong: InputPort<bool> = core.add_input("wrong");
    let unwired: InputPort<u32> = core.add_input("unwired");
    let output: OutputPort<u64> = core.add_output("out");

    let sim_time = NaiveTime::from_hms_opt(0, 0, 5).unwrap();
    let stamp = WallTime { secs: 100, nanos: 5 };
    let incoming: OpaqueBusMessage = BusMessage { wall_time: stamp, sim_time, inner: 41u32 }.into();

    let mut ctx = StepContext::new(stamp, sim_time, TimeDelta::seconds(1), TimeDelta::milliseconds(10), 3);
    ctx.set_input("in".to_string(), &incoming);
    ctx.set_input("wrong".to_string(), &incoming);

    assert_eq!(ctx.read(&input), Some(&41u32));
    assert_eq!(ctx.read(&wrong), None);
    assert_eq!(ctx.read(&unwired), None);

    assert!(ctx.output("out").is_none());
    ctx.write_at(&output, 42u64, stamp);
    let written = ctx.output("out").unwrap();
    assert_eq!(written.sim_time, sim_time);
    assert_eq!(written.message_spec.stable_type_name, "ironbird/u64");
    assert_eq!(written.wall_time, stamp);

    let stamped_at = WallTime { secs: 1_700_000_000, nanos: 250 };
    ctx.write_at(&output, 43u64, stamped_at);
    let rewritten = ctx.output("out").unwrap();
    assert_eq!(rewritten.wall_time, stamped_at);
    assert_eq!(rewritten.sim_time, sim_time);

    assert_eq!(ctx.tick_number(), 3);
    assert_eq!(ctx.sim_dt(), TimeDelta::milliseconds(10));
    assert_eq!(ctx.wall_dt(), TimeDelta::seconds(1));
    assert_eq!(ctx.sim_time(), sim_time);
    assert_eq!(ctx.wall_time(), stamp);
}

struct Idle {
    core: ComponentCore,
}

impl ironbird_core::component::Component for Idle {
    fn step(&mut self, _ctx: &mut StepContext) -> Result<(), ironbird_core::error::IronbirdError> {
        Ok(())
    }
    fn spec_core(&self) -> &ComponentCore {
        &self.core
    }

    fn component_core(&self) -> &ComponentCore {
        &self.core
    }
    fn component_core_mut(&mut self) -> &mut ComponentCore {
        &mut self.core
    }
}

#[test]
fn sim_context_accepts_components() {
    let mut sim = SimContext::new();
    let idle = Idle { core: ComponentCore::new::<Idle>(1, "Idle") };
    assert!(sim.register_component(Box::new(idle)).is_ok());
    assert_eq!(sim.num_components(), 1);
}
