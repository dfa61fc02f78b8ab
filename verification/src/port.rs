//! Ports: the named, typed inputs and outputs that components declare.

use vstd::prelude::*;
use std::marker::PhantomData;
use vstd::std_specs::cmp::PartialEqSpecImpl;
use crate::component::ComponentId;
use crate::message::{is_signal_spec, MessageSpec, MessageSpecView, Signal};

verus! {

/// Whether a port takes data in or sends data out.
#[derive(Debug, Clone, Copy, PartialEq, Eq, Structural, Hash)]
pub enum PortDirection {
    Input,
    Output,
}

/// A serializable description of a port: its name, its direction and the
/// spec of the signals it carries.
#[derive(Debug, Hash)]
pub struct PortSpec {
    pub name: String,
    pub direction: PortDirection,
    pub message_spec: MessageSpec,
}

/// What a port spec is, for contracts: two port specs are equal exactly when
/// their views are.
pub ghost struct PortSpecView {
    pub name: Seq<char>,
    pub direction: PortDirection,
    pub message_spec: MessageSpecView,
}

impl View for PortSpec {
    type V = PortSpecView;

    open spec fn view(&self) -> PortSpecView {
        PortSpecView { name: self.name@, direction: self.direction, message_spec: self.message_spec@ }
    }
}

impl Clone for PortSpec {
    fn clone(&self) -> (copy: PortSpec)
        ensures
            copy == *self,
    {
        PortSpec {
            name: self.name.clone(),
            direction: self.direction,
            message_spec: self.message_spec,
        }
    }
}

impl PartialEq for PortSpec {
    fn eq(&self, other: &PortSpec) -> (same: bool) {
        self.name == other.name && self.direction == other.direction && self.message_spec
            == other.message_spec
    }
}

impl PartialEqSpecImpl for PortSpec {
    open spec fn obeys_eq_spec() -> bool {
        true
    }

    open spec fn eq_spec(&self, other: &PortSpec) -> bool {
        self@ == other@
    }
}

impl Eq for PortSpec {
}

/// A port of a component.
pub trait Port {
    /// The port's name.
    spec fn port_name(&self) -> Seq<char>;

    /// The component that owns the port.
    spec fn port_parent(&self) -> ComponentId;

    /// The port's direction.
    spec fn port_direction(&self) -> PortDirection;

    /// The port's full description: its name, its direction and the spec of
    /// the signals it carries.
    spec fn port_spec(&self) -> PortSpec;

    fn get_name(&self) -> (name: &str)
        ensures
            name@ == self.port_name(),
    ;

    fn parent(&self) -> (parent: ComponentId)
        ensures
            parent == self.port_parent(),
    ;

    fn spec(&self) -> (spec: PortSpec)
        ensures
            spec == self.port_spec(),
            spec.name@ == self.port_name(),
            spec.direction == self.port_direction(),
    ;
}

/// An input port declaration: an owner and a name; `T` is the type of data
/// the port expects.
pub struct InputPort<T: Signal> {
    parent: ComponentId,
    name: String,
    message_spec: MessageSpec,
    _input_type: PhantomData<T>,
}

impl<T: Signal> InputPort<T> {
    pub fn new(parent: ComponentId, name: &str) -> (port: InputPort<T>)
        ensures
            port.port_parent() == parent,
            port.port_name() == name@,
            port.port_spec().name@ == name@,
            port.port_spec().direction == PortDirection::Input,
            is_signal_spec::<T>(port.port_spec().message_spec),
    {
        InputPort { parent, name: name.to_owned(), message_spec: T::message_spec(), _input_type: PhantomData }
    }
}

impl<T: Signal> Port for InputPort<T> {
    closed spec fn port_name(&self) -> Seq<char> {
        self.name@
    }

    closed spec fn port_parent(&self) -> ComponentId {
        self.parent
    }

    open spec fn port_direction(&self) -> PortDirection {
        PortDirection::Input
    }

    closed spec fn port_spec(&self) -> PortSpec {
        PortSpec { name: self.name, direction: PortDirection::Input, message_spec: self.message_spec }
    }

    fn get_name(&self) -> (name: &str) {
        self.name.as_str()
    }

    fn parent(&self) -> (parent: ComponentId) {
        self.parent
    }

    fn spec(&self) -> (spec: PortSpec) {
        PortSpec {
            name: self.name.clone(),
            direction: PortDirection::Input,
            message_spec: self.message_spec,
        }
    }
}

/// An output port declaration: an owner and a name; `T` is the type of data
/// the port produces.
pub struct OutputPort<T: Signal> {
    parent: ComponentId,
    name: String,
    message_spec: MessageSpec,
    _output_type: PhantomData<T>,
}

impl<T: Signal> OutputPort<T> {
    pub fn new(parent: ComponentId, name: &str) -> (port: OutputPort<T>)
        ensures
            port.port_parent() == parent,
            port.port_name() == name@,
            port.port_spec().name@ == name@,
            port.port_spec().direction == PortDirection::Output,
            is_signal_spec::<T>(port.port_spec().message_spec),
    {
        OutputPort { parent, name: name.to_owned(), message_spec: T::message_spec(), _output_type: PhantomData }
    }
}

impl<T: Signal> Port for OutputPort<T> {
    closed spec fn port_name(&self) -> Seq<char> {
        self.name@
    }

    closed spec fn port_parent(&self) -> ComponentId {
        self.parent
    }

    open spec fn port_direction(&self) -> PortDirection {
        PortDirection::Output
    }

    closed spec fn port_spec(&self) -> PortSpec {
        PortSpec { name: self.name, direction: PortDirection::Output, message_spec: self.message_spec }
    }

    fn get_name(&self) -> (name: &str) {
        self.name.as_str()
    }

    fn parent(&self) -> (parent: ComponentId) {
        self.parent
    }

    fn spec(&self) -> (spec: PortSpec) {
        PortSpec {
            name: self.name.clone(),
            direction: PortDirection::Output,
            message_spec: self.message_spec,
        }
    }
}

} // verus!
