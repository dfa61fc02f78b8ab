//! Errors reported by the bus, its channels, message conversion and
//! component wiring.

use vstd::prelude::*;
use crate::component::ComponentId;
use crate::message::MessageSpec;

verus! {

/// Whether a channel was to be read or written.
#[derive(Debug, Clone, Copy, PartialEq, Eq, Structural)]
pub enum ChannelAccess {
    Read,
    Write,
}

/// Every way in which an operation of the library can be refused.
#[derive(Debug)]
pub enum IronbirdError {
    /// A channel with this id is already on the bus.
    ChannelAlreadyExists { channel_id: String },
    /// No channel with this id is on the bus to be read or written.
    ChannelNotFound { channel_id: String, access: ChannelAccess },
    /// A message was published to a channel that carries another message spec.
    MessageSpecMismatch { expected: MessageSpec, actual: MessageSpec },
    /// A type-erased message does not hold a value of the requested type,
    /// named by its internal type name.
    DowncastFailed { message_spec: MessageSpec, target_type_name: &'static str },
    /// Neither of two ports to be connected belongs to the component.
    PortsNotOwned { component: ComponentId },
    /// A component could not step because an input it needs had no value.
    MissingInput { port_name: String },
}

impl IronbirdError {
    /// The error reports that no channel with the given id exists for the
    /// given kind of access.
    pub open spec fn is_channel_not_found(self, id: Seq<char>, kind: ChannelAccess) -> bool {
        self matches IronbirdError::ChannelNotFound { channel_id, access } && channel_id@ == id
            && access == kind
    }
}

/// An error message in a form that can be sent across the command boundary
/// of the desktop application.
pub struct CommandError(pub String);

} // verus!
