//! The parts of a project (`.ibd`) file that hold no numbers: the port
//! lists of a component and the wires between components.

use vstd::prelude::*;

verus! {

/// The names of a component's input and output ports.
#[derive(Debug, Clone)]
pub struct Ports {
    pub inputs: Vec<String>,
    pub outputs: Vec<String>,
}

/// A wire from an output port of one component to an input port of another.
#[derive(Debug, Clone)]
pub struct Wire {
    pub from: String,
    pub from_port: String,
    pub to: String,
    pub to_port: String,
}

} // verus!
