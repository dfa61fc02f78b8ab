//! The simulation: the context a component steps in, and the controller
//! that owns the bus and the components.

use vstd::prelude::*;
use chrono::{NaiveTime, TimeDelta};
use vstd::hash_map::StringHashMap;
use crate::bus::Bus;
use crate::channel::ChannelView;
use crate::component::Component;
use crate::error::IronbirdError;
use crate::message::{is_signal_spec, BusMessage, OpaqueBusMessage, Signal};
use crate::port::{InputPort, OutputPort, Port};
use crate::time::WallTime;

verus! {

/// The context through which a component, during one step, reads the
/// inputs and writes the outputs it declared. Fields are private and reached
/// through getters.
pub struct StepContext<'a> {
    /// Wall-clock time of this simulation step.
    wall_time: WallTime,
    /// Simulation time.
    sim_time: NaiveTime,
    /// Real time elapsed since the last tick.
    wall_dt: TimeDelta,
    /// Simulation time elapsed since the last tick.
    sim_dt: TimeDelta,
    /// Tick number, increasing from tick to tick.
    tick_number: u64,
    /// Messages currently on bus channels, by the name of the input port
    /// they feed.
    inputs: StringHashMap<&'a OpaqueBusMessage>,
    /// Messages written during the step, by the name of the output port they
    /// were written to; the simulation moves them onto the bus.
    outputs: StringHashMap<OpaqueBusMessage>,
}

impl<'a> StepContext<'a> {
    /// The inputs, by port name.
    pub closed spec fn input_map(&self) -> Map<Seq<char>, &'a OpaqueBusMessage> {
        self.inputs@
    }

    /// The outputs written so far, by port name.
    pub closed spec fn output_map(&self) -> Map<Seq<char>, OpaqueBusMessage> {
        self.outputs@
    }

    /// The simulation time of the step.
    pub closed spec fn spec_sim_time(&self) -> NaiveTime {
        self.sim_time
    }

    /// The step's times and tick number.
    pub closed spec fn timing(&self) -> (WallTime, NaiveTime, TimeDelta, TimeDelta, u64) {
        (self.wall_time, self.sim_time, self.wall_dt, self.sim_dt, self.tick_number)
    }

    /// A context for one step, with no inputs and no outputs yet.
    pub fn new(
        wall_time: WallTime,
        sim_time: NaiveTime,
        wall_dt: TimeDelta,
        sim_dt: TimeDelta,
        tick_number: u64,
    ) -> (ctx: StepContext<'a>)
        ensures
            ctx.timing() == (wall_time, sim_time, wall_dt, sim_dt, tick_number),
            ctx.input_map() == Map::<Seq<char>, &'a OpaqueBusMessage>::empty(),
            ctx.output_map() == Map::<Seq<char>, OpaqueBusMessage>::empty(),
    {
        StepContext {
            wall_time,
            sim_time,
            wall_dt,
            sim_dt,
            tick_number,
            inputs: StringHashMap::new(),
            outputs: StringHashMap::new(),
        }
    }

    /// Feeds `message` to the input port named `port_name` for this step.
    pub fn set_input(&mut self, port_name: String, message: &'a OpaqueBusMessage)
        ensures
            final(self).input_map() == old(self).input_map().insert(port_name@, message),
            final(self).output_map() == old(self).output_map(),
            final(self).timing() == old(self).timing(),
    {
        self.inputs.insert(port_name, message);
    }

    /// Wall-clock time of this step.
    pub fn wall_time(&self) -> (t: WallTime)
        ensures
            t == self.timing().0,
    {
        self.wall_time
    }

    /// Simulation time of this step.
    pub fn sim_time(&self) -> (t: NaiveTime)
        ensures
            t == self.timing().1,
    {
        self.sim_time
    }

    /// Real time elapsed since the last tick.
    pub fn wall_dt(&self) -> (dt: TimeDelta)
        ensures
            dt == self.timing().2,
    {
        self.wall_dt
    }

    /// Simulation time elapsed since the last tick.
    pub fn sim_dt(&self) -> (dt: TimeDelta)
        ensures
            dt == self.timing().3,
    {
        self.sim_dt
    }

    /// The tick number of this step.
    pub fn tick_number(&self) -> (n: u64)
        ensures
            n == self.timing().4,
    {
        self.tick_number
    }

    /// Reads the value on an input port. A port that is not connected to
    /// anything reads `None`, and so does one whose message does not hold a
    /// `T`.
    pub fn read<T: Signal>(&self, port: &InputPort<T>) -> (value: Option<&T>)
        ensures
            !self.input_map().contains_key(port.port_name()) ==> value is None,
            value is Some ==> self.input_map().contains_key(port.port_name()),
    {
        match self.inputs.get(port.get_name()) {
            Some(message) => message.inner.downcast_ref::<T>(),
            None => None,
        }
    }

    /// Writes `value` to an output port, stamped with the wall-clock time
    /// `now` and the step's simulation time. A port need not be connected to
    /// anything to be written; a second write to the same port replaces the
    /// first. (Reading the clock for `now` is left to the caller: the clock
    /// read panics on a clock outside chrono's range.)
    pub fn write_at<T: Signal>(&mut self, port: &OutputPort<T>, value: T, now: WallTime)
        ensures
            final(self).output_map() == old(self).output_map().insert(
                port.port_name(),
                final(self).output_map()[port.port_name()],
            ),
            final(self).output_map()[port.port_name()].wall_time == now,
            final(self).output_map()[port.port_name()].sim_time == old(self).spec_sim_time(),
            is_signal_spec::<T>(final(self).output_map()[port.port_name()].message_spec),
            final(self).input_map() == old(self).input_map(),
            final(self).timing() == old(self).timing(),
    {
        let wrapped = BusMessage { wall_time: now, sim_time: self.sim_time, inner: value };
        let boxed: OpaqueBusMessage = OpaqueBusMessage::from(wrapped);
        self.outputs.insert(port.get_name().to_owned(), boxed);
    }

    /// The message written to the output port named `port_name` during this
    /// step, if any.
    pub fn output(&self, port_name: &str) -> (message: Option<&OpaqueBusMessage>)
        ensures
            match message {
                Some(m) => self.output_map().contains_key(port_name@) && *m == self.output_map()[port_name@],
                None => !self.output_map().contains_key(port_name@),
            },
    {
        self.outputs.get(port_name)
    }
}

/// Pushing an element makes a sequence one longer. Proved for any element
/// type, so that it also serves sequences of trait objects, for which the
/// solver is given no type facts about the elements.
proof fn lemma_push_len<T>(s: Seq<T>, x: T)
    ensures
        s.push(x).len() == s.len() + 1,
{
}

/// The controller of a simulation. Owns the message bus, the notion of
/// global time, and the components, on whose behalf it will run the update
/// loop and propagate state.
pub struct SimContext {
    global_nanos: u64,
    bus: Bus,
    components: Vec<Box<dyn Component>>,
}

impl SimContext {
    /// The simulation's bus and global time.
    pub closed spec fn state(&self) -> (Map<Seq<char>, ChannelView>, u64) {
        (self.bus@, self.global_nanos)
    }

    /// The registered components, in the order they were registered.
    pub closed spec fn components(&self) -> Seq<Box<dyn Component>> {
        self.components@
    }

    /// The number of registered components.
    pub closed spec fn registered(&self) -> nat {
        self.components@.len()
    }

    /// A simulation at time zero, with an empty bus and no components.
    pub fn new() -> (sim: SimContext)
        ensures
            sim.state() == (Map::<Seq<char>, ChannelView>::empty(), 0u64),
            sim.registered() == 0,
            sim.components() == Seq::<Box<dyn Component>>::empty(),
    {
        SimContext { global_nanos: 0, bus: Bus::new(), components: Vec::new() }
    }

    /// The number of registered components.
    pub fn num_components(&self) -> (n: usize)
        ensures
            n == self.registered(),
    {
        self.components.len()
    }

    /// Hands a component to the simulation: it is stored after the
    /// components registered before it. The bus and the time are untouched.
    pub fn register_component(&mut self, component: Box<dyn Component>) -> (result: Result<(), IronbirdError>)
        ensures
            result is Ok,
            final(self).state() == old(self).state(),
            final(self).components() == old(self).components().push(component),
            final(self).registered() == old(self).registered() + 1,
    {
        self.components.push(component);
        proof {
            lemma_push_len(old(self).components@, component);
        }
        Ok(())
    }
}

} // verus!
