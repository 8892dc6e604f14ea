//! Message protocol of a distributed storage network: the requests, responses,
//! errors and events that clients and nodes exchange, the envelope that
//! carries them over the wire, and a payment-gated group messaging protocol.

use vstd::prelude::*;
use vstd::std_specs::convert::FromSpecImpl;

pub mod address;
pub mod client;
pub mod data_types;
mod errors;
pub mod infrastructure;
pub mod location;
mod msg_id;
pub mod node;
pub mod serialisation;

pub use crate::client::ClientMessage;
pub use crate::errors::{Error, ErrorView, Result};
pub use crate::location::{EndUser, SrcLocation};
pub use crate::msg_id::MessageId;
pub use crate::node::NodeMessage;
pub use crate::serialisation::{MessageKind, SectionKey, WireMsg, WireMsgView};

verus! {

/// Type of message: the channels that share the wire.
#[derive(PartialEq, Debug, Clone)]
#[allow(clippy::large_enum_variant)]
pub enum MessageType {
    /// A heartbeat, with nothing in it.
    Ping,
    /// A query about the layout of the network.
    InfrastructureQuery(infrastructure::Query),
    /// A message between a client and the network.
    ClientMessage(client::Message),
    /// A message between nodes.
    NodeMessage(node::NodeMessage),
    /// A message of the routing layer.
    RoutingMessage(node::RoutingMessage),
}

impl MessageType {
    /// The channel that carries the message.
    pub open spec fn spec_kind(&self) -> MessageKind {
        match self {
            MessageType::Ping => MessageKind::Ping,
            MessageType::InfrastructureQuery(_) => MessageKind::InfrastructureQuery,
            MessageType::ClientMessage(_) => MessageKind::ClientMessage,
            MessageType::NodeMessage(_) => MessageKind::NodeMessage,
            MessageType::RoutingMessage(_) => MessageKind::RoutingMessage,
        }
    }

    /// The channel that carries the message: the kind that the header of its
    /// envelope names.
    pub fn kind(&self) -> (kind: MessageKind)
        ensures
            kind == self.spec_kind(),
    {
        match self {
            MessageType::Ping => MessageKind::Ping,
            MessageType::InfrastructureQuery(_) => MessageKind::InfrastructureQuery,
            MessageType::ClientMessage(_) => MessageKind::ClientMessage,
            MessageType::NodeMessage(_) => MessageKind::NodeMessage,
            MessageType::RoutingMessage(_) => MessageKind::RoutingMessage,
        }
    }
}

/// A message of either kind that has an identifier.
#[allow(clippy::large_enum_variant)]
#[derive(Debug, Eq, PartialEq, Clone)]
pub enum Message {
    /// A message between a client and the network.
    Client(ClientMessage),
    /// A message between nodes.
    Node(NodeMessage),
}

impl Message {
    /// The identifier of the message.
    pub open spec fn spec_id(&self) -> MessageId {
        match self {
            Message::Node(msg) => msg.spec_id(),
            Message::Client(msg) => msg.spec_id(),
        }
    }

    /// Gets the message ID.
    pub fn id(&self) -> (id: MessageId)
        ensures
            id == self.spec_id(),
    {
        match self {
            Message::Node(msg) => msg.id(),
            Message::Client(msg) => msg.id(),
        }
    }
}

impl From<NodeMessage> for Message {
    fn from(msg: NodeMessage) -> (r: Message) {
        Message::Node(msg)
    }
}

impl FromSpecImpl<NodeMessage> for Message {
    open spec fn obeys_from_spec() -> bool {
        true
    }

    open spec fn from_spec(msg: NodeMessage) -> Message {
        Message::Node(msg)
    }
}

} // verus!
