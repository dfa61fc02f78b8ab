//! Components: the units of a simulation. A component declares input and
//! output ports, keeps its own state, and records which of its ports are
//! wired to which other ports.

use vstd::prelude::*;
use std::any::TypeId;
use vstd::std_specs::cmp::PartialEqSpecImpl;
use crate::erased::{type_id_of, type_ids_equal};
use crate::error::IronbirdError;
use crate::keyed::{keyed_map, keys_distinct, lemma_keyed_map_at, lemma_keyed_map_push, lemma_keyed_map_update};
use crate::message::{is_signal_spec, str_equal, Signal};
use crate::port::{InputPort, OutputPort, Port, PortSpec, PortSpecView};
use crate::sim_context::StepContext;

verus! {

/// A component can be as simple or as complex as you want. Ports describe its
/// inputs and outputs (read and written through the step context); its own
/// state lives in `self`.
///
/// Component inputs and outputs are wired together with `connect`; the
/// simulation context calls each component's `step` in dependency order.
pub trait Component: 'static {
    /// The component's core: the one that `component_core` and
    /// `component_core_mut` hand out. An implementation returns a reference
    /// to the core it keeps.
    spec fn spec_core(&self) -> &ComponentCore;

    fn step(&mut self, ctx: &mut StepContext) -> Result<(), IronbirdError>;

    /// The component's core.
    fn component_core(&self) -> (core: &ComponentCore)
        ensures
            *core == *self.spec_core(),
    ;

    /// The component's core, to change; what it is changed to is the
    /// component's core afterwards.
    fn component_core_mut(&mut self) -> (core: &mut ComponentCore)
        ensures
            *core == *old(self).spec_core(),
            *final(self).spec_core() == *final(core),
    ;

    /// The component's id, as its core records it.
    fn id(&self) -> (id: ComponentId)
        ensures
            id == self.spec_core()@.id,
    {
        self.component_core().id()
    }

    /// A summary of the component, as its core describes it.
    fn spec(&self) -> (summary: ComponentSpec)
        ensures
            summary.component_type@ == self.spec_core()@.id@.type_label,
            summary.inputs@ == self.spec_core()@.inputs,
            summary.outputs@ == self.spec_core()@.outputs,
    {
        self.component_core().spec()
    }

    /// Connects two ports, at least one of which must belong to this
    /// component, by recording the pair in the component's connection table
    /// (replacing an earlier connection of `left`). When neither port belongs
    /// to the component nothing changes. Has to be called before the
    /// component is added to the simulation.
    fn connect<L: Port, R: Port>(&mut self, left: &L, right: &R) -> (result: Result<(), IronbirdError>) where
        Self: Sized,
        ensures
            result is Err <==> left.port_parent()@ != old(self).spec_core()@.id@
                && right.port_parent()@ != old(self).spec_core()@.id@,
            result matches Err(e) ==> e == (IronbirdError::PortsNotOwned {
                component: old(self).spec_core()@.id,
            }) && final(self).spec_core()@ == old(self).spec_core()@,
            result is Ok ==> final(self).spec_core()@ == (ComponentCoreView {
                connections: old(self).spec_core()@.connections.insert(
                    left.port_spec()@,
                    right.port_spec(),
                ),
                ..old(self).spec_core()@
            }),
     {
        let left_parent = left.parent();
        let right_parent = right.parent();
        let left_spec = left.spec();
        let right_spec = right.spec();
        match self.component_core_mut().connect(left_parent, left_spec, right_parent, right_spec) {
            Ok(_previous) => Ok(()),
            Err(e) => Err(e),
        }
    }
}

/// Identifies a component instance: a process-wide instance number together
/// with the component's type.
#[derive(Debug, Clone, Copy)]
pub struct ComponentId {
    instance: u64,
    type_id: TypeId,
    type_label: &'static str,
}

/// What a component id is, for contracts: two ids are equal exactly when
/// their views are.
pub ghost struct ComponentIdView {
    pub instance: u64,
    pub type_id: TypeId,
    pub type_label: Seq<char>,
}

impl View for ComponentId {
    type V = ComponentIdView;

    closed spec fn view(&self) -> ComponentIdView {
        ComponentIdView {
            instance: self.instance,
            type_id: self.type_id,
            type_label: self.type_label@,
        }
    }
}

impl PartialEq for ComponentId {
    fn eq(&self, other: &ComponentId) -> (same: bool) {
        self.instance == other.instance && type_ids_equal(&self.type_id, &other.type_id)
            && str_equal(self.type_label, other.type_label)
    }
}

impl PartialEqSpecImpl for ComponentId {
    open spec fn obeys_eq_spec() -> bool {
        true
    }

    open spec fn eq_spec(&self, other: &ComponentId) -> bool {
        self@ == other@
    }
}

impl Eq for ComponentId {
}

impl ComponentId {
    /// The id of instance number `instance` of component type `T`, whose
    /// name is `type_label`. Instance numbers are handed out by the caller,
    /// one per component made in the process.
    pub fn new<T: 'static>(instance: u64, type_label: &'static str) -> (id: ComponentId)
        ensures
            id@.instance == instance,
            id@.type_label == type_label@,
    {
        ComponentId { instance, type_id: type_id_of::<T>(), type_label }
    }

    /// The name of the component's type.
    pub fn type_label(&self) -> (label: &'static str)
        ensures
            label@ == self@.type_label,
    {
        self.type_label
    }
}

/// A connection is found by its left port.
pub open spec fn connection_key() -> spec_fn((PortSpec, PortSpec)) -> PortSpecView {
    |entry: (PortSpec, PortSpec)| entry.0@
}

/// The port a connection leads to.
pub open spec fn connection_value() -> spec_fn((PortSpec, PortSpec)) -> PortSpec {
    |entry: (PortSpec, PortSpec)| entry.1
}

/// The part of a component that the framework manages: its id, the specs of
/// its declared ports, and its connection table.
pub struct ComponentCore {
    id: ComponentId,
    inputs: Vec<PortSpec>,
    outputs: Vec<PortSpec>,
    connection_table: Vec<(PortSpec, PortSpec)>,
}

/// What a component core holds, for contracts.
pub ghost struct ComponentCoreView {
    pub id: ComponentId,
    pub inputs: Seq<PortSpec>,
    pub outputs: Seq<PortSpec>,
    pub connections: Map<PortSpecView, PortSpec>,
}

impl View for ComponentCore {
    type V = ComponentCoreView;

    closed spec fn view(&self) -> ComponentCoreView {
        ComponentCoreView {
            id: self.id,
            inputs: self.inputs@,
            outputs: self.outputs@,
            connections: keyed_map(self.connection_table@, connection_key(), connection_value()),
        }
    }
}

impl ComponentCore {
    /// The core's invariant: no two connections share a left port.
    #[verifier::type_invariant]
    spec fn wf(&self) -> bool {
        keys_distinct(self.connection_table@, connection_key())
    }

    /// A core for a component of type `CompType`, with no ports and no
    /// connections, whose id is instance number `instance` of that type.
    pub fn new<CompType: 'static>(instance: u64, type_label: &'static str) -> (core: ComponentCore)
        ensures
            core@.id@.instance == instance,
            core@.id@.type_label == type_label@,
            core@.inputs.len() == 0,
            core@.outputs.len() == 0,
            core@.connections == Map::<PortSpecView, PortSpec>::empty(),
    {
        let core = ComponentCore {
            id: ComponentId::new::<CompType>(instance, type_label),
            inputs: Vec::new(),
            outputs: Vec::new(),
            connection_table: Vec::new(),
        };
        assert(core@.connections =~= Map::<PortSpecView, PortSpec>::empty());
        core
    }

    /// Declares an input port of type `T` with the given name and returns it.
    pub fn add_input<T: Signal>(&mut self, name: &str) -> (port: InputPort<T>)
        ensures
            port.port_parent() == old(self)@.id,
            port.port_name() == name@,
            port.port_spec().name@ == name@,
            port.port_spec().direction == crate::port::PortDirection::Input,
            is_signal_spec::<T>(port.port_spec().message_spec),
            final(self)@.inputs.len() == old(self)@.inputs.len() + 1,
            final(self)@.inputs == old(self)@.inputs.push(port.port_spec()),
            final(self)@.inputs.last().name@ == name@,
            final(self)@.inputs.last().direction == crate::port::PortDirection::Input,
            is_signal_spec::<T>(final(self)@.inputs.last().message_spec),
            final(self)@.id == old(self)@.id,
            final(self)@.outputs == old(self)@.outputs,
            final(self)@.connections == old(self)@.connections,
    {
        proof {
            use_type_invariant(&*self);
        }
        let port = InputPort::new(self.id, name);
        let spec = port.spec();
        let mut inputs = Vec::new();
        std::mem::swap(&mut inputs, &mut self.inputs);
        inputs.push(spec);
        self.inputs = inputs;
        port
    }

    /// Declares an output port of type `T` with the given name and returns it.
    pub fn add_output<T: Signal>(&mut self, name: &str) -> (port: OutputPort<T>)
        ensures
            port.port_parent() == old(self)@.id,
            port.port_name() == name@,
            port.port_spec().name@ == name@,
            port.port_spec().direction == crate::port::PortDirection::Output,
            is_signal_spec::<T>(port.port_spec().message_spec),
            final(self)@.outputs.len() == old(self)@.outputs.len() + 1,
            final(self)@.outputs == old(self)@.outputs.push(port.port_spec()),
            final(self)@.outputs.last().name@ == name@,
            final(self)@.outputs.last().direction == crate::port::PortDirection::Output,
            is_signal_spec::<T>(final(self)@.outputs.last().message_spec),
            final(self)@.id == old(self)@.id,
            final(self)@.inputs == old(self)@.inputs,
            final(self)@.connections == old(self)@.connections,
    {
        proof {
            use_type_invariant(&*self);
        }
        let port = OutputPort::new(self.id, name);
        let spec = port.spec();
        let mut outputs = Vec::new();
        std::mem::swap(&mut outputs, &mut self.outputs);
        outputs.push(spec);
        self.outputs = outputs;
        port
    }

    /// The component's id.
    pub fn id(&self) -> (id: ComponentId)
        ensures
            id == self@.id,
    {
        self.id
    }

    /// A summary of the component: its type name and its ports.
    pub fn spec(&self) -> (summary: ComponentSpec)
        ensures
            summary.component_type@ == self@.id@.type_label,
            summary.inputs@ == self@.inputs,
            summary.outputs@ == self@.outputs,
    {
        let inputs = self.inputs.clone();
        let outputs = self.outputs.clone();
        proof {
            assert forall|i: int| 0 <= i < inputs@.len() implies inputs@[i] == self.inputs@[i] by {
                assert(cloned::<PortSpec>(self.inputs[i], inputs[i]));
            }
            assert(inputs@ =~= self.inputs@);
            assert forall|i: int| 0 <= i < outputs@.len() implies outputs@[i] == self.outputs@[i] by {
                assert(cloned::<PortSpec>(self.outputs[i], outputs[i]));
            }
            assert(outputs@ =~= self.outputs@);
        }
        ComponentSpec { component_type: self.id.type_label.to_owned(), inputs, outputs }
    }

    /// Records that port `left` is wired to port `right`, provided that one
    /// of the two ports (owned by `left_parent` and `right_parent`) belongs
    /// to this component. A connection already recorded for `left` is
    /// replaced, and the port it led to is returned. When neither port
    /// belongs to the component the table is left as it was.
    #[verifier::loop_isolation(false)]
    pub fn connect(
        &mut self,
        left_parent: ComponentId,
        left: PortSpec,
        right_parent: ComponentId,
        right: PortSpec,
    ) -> (result: Result<Option<PortSpec>, IronbirdError>)
        ensures
            result is Err <==> left_parent@ != old(self)@.id@ && right_parent@ != old(self)@.id@,
            result matches Err(e) ==> final(self)@ == old(self)@ && e == (
            IronbirdError::PortsNotOwned { component: old(self)@.id }),
            result matches Ok(previous) ==> {
                &&& final(self)@.connections == old(self)@.connections.insert(left@, right)
                &&& previous == (if old(self)@.connections.contains_key(left@) {
                    Some(old(self)@.connections[left@])
                } else {
                    None
                })
                &&& final(self)@.id == old(self)@.id
                &&& final(self)@.inputs == old(self)@.inputs
                &&& final(self)@.outputs == old(self)@.outputs
            },
    {
        proof {
            use_type_invariant(&*self);
        }
        if !(left_parent == self.id) && !(right_parent == self.id) {
            return Err(IronbirdError::PortsNotOwned { component: self.id });
        }
        let mut table = Vec::new();
        std::mem::swap(&mut table, &mut self.connection_table);
        let ghost before = table@;
        let mut i: usize = 0;
        while i < table.len()
            invariant
                i <= table@.len(),
                table@ == before,
                keys_distinct(before, connection_key()),
                self.id == old(self).id,
                self.inputs@ == old(self).inputs@,
                self.outputs@ == old(self).outputs@,
                forall|j: int| 0 <= j < i ==> #[trigger] before[j].0@ != left@,
            decreases table@.len() - i,
        {
            if table[i].0 == left {
                proof {
                    lemma_keyed_map_at(before, connection_key(), connection_value(), i as int);
                    lemma_keyed_map_update(before, connection_key(), connection_value(), i as int, (left, right));
                }
                let (_, previous) = table.remove(i);
                table.insert(i, (left, right));
                proof {
                    assert(table@ =~= before.update(i as int, (left, right)));
                }
                self.connection_table = table;
                return Ok(Some(previous));
            }
            i = i + 1;
        }
        proof {
            if keyed_map(before, connection_key(), connection_value()).contains_key(left@) {
                let j = choose|j: int| 0 <= j < before.len() && #[trigger] before[j].0@ == left@;
                assert(before[j].0@ != left@);
            }
            lemma_keyed_map_push(before, connection_key(), connection_value(), (left, right));
        }
        table.push((left, right));
        self.connection_table = table;
        Ok(None)
    }
}

/// A serializable summary of a component: its type and its inputs and
/// outputs.
#[derive(Debug, Clone)]
pub struct ComponentSpec {
    pub component_type: String,
    pub inputs: Vec<PortSpec>,
    pub outputs: Vec<PortSpec>,
}

/// Law: connecting a port a second time replaces its earlier connection;
/// the table never holds two connections for one port.
pub proof fn law_reconnect_replaces(
    connections: Map<PortSpecView, PortSpec>,
    left: PortSpecView,
    first: PortSpec,
    second: PortSpec,
)
    ensures
        connections.insert(left, first).insert(left, second) == connections.insert(left, second),
{
    assert(connections.insert(left, first).insert(left, second) =~= connections.insert(left, second));
}

} // verus!
