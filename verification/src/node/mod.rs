//! Messages between the nodes of the network.

pub mod node_msg;
pub mod routing;

pub use self::node_msg::{
    NodeCmd, NodeCmdError, NodeDataError, NodeDataQueryResponse, NodeEvent, NodeMsg, NodeQuery,
    NodeQueryResponse, NodeSystemCmd, NodeSystemQuery, NodeSystemQueryResponse,
    NodeTransferError,
};
pub use self::routing::RoutingMessage;

use vstd::prelude::*;
use sn_data_types::PublicKey;
use crate::{MessageId, SrcLocation};

verus! {

/// Node-to-Node comms back and forth.
///
/// Every variant carries the sender's belief about the current key of the
/// destination section. A key that does not match tells the routing layer
/// that someone's view of the network is out of date; it is no error here.
#[allow(clippy::large_enum_variant)]
#[derive(Debug, PartialEq, Eq, Clone)]
pub enum NodeMessage {
    /// Cmds only sent internally in the network.
    NodeCmd {
        /// NodeCmd.
        cmd: NodeCmd,
        /// Message ID.
        id: MessageId,
        /// Target section's current PublicKey
        target_section_pk: Option<PublicKey>,
    },
    /// An error of a NodeCmd.
    NodeCmdError {
        /// The error.
        error: NodeCmdError,
        /// Message ID.
        id: MessageId,
        /// ID of causing cmd.
        correlation_id: MessageId,
        /// The sender of the causing cmd.
        cmd_origin: SrcLocation,
        /// Target section's current PublicKey
        target_section_pk: Option<PublicKey>,
    },
    /// Events only sent internally in the network.
    NodeEvent {
        /// Event.
        event: NodeEvent,
        /// Message ID.
        id: MessageId,
        /// ID of causing cmd.
        correlation_id: MessageId,
        /// Target section's current PublicKey
        target_section_pk: Option<PublicKey>,
    },
    /// Queries is a read-only operation.
    NodeQuery {
        /// Query.
        query: NodeQuery,
        /// Message ID.
        id: MessageId,
        /// Target section's current PublicKey
        target_section_pk: Option<PublicKey>,
    },
    /// The response to a query, containing the query result.
    NodeQueryResponse {
        /// QueryResponse.
        response: NodeQueryResponse,
        /// Message ID.
        id: MessageId,
        /// ID of causing query.
        correlation_id: MessageId,
        /// The sender of the causing query.
        query_origin: SrcLocation,
        /// Target section's current PublicKey
        target_section_pk: Option<PublicKey>,
    },
}

impl NodeMessage {
    /// The identifier of the message.
    pub open spec fn spec_id(&self) -> MessageId {
        match self {
            NodeMessage::NodeCmd { id, .. } => *id,
            NodeMessage::NodeCmdError { id, .. } => *id,
            NodeMessage::NodeEvent { id, .. } => *id,
            NodeMessage::NodeQuery { id, .. } => *id,
            NodeMessage::NodeQueryResponse { id, .. } => *id,
        }
    }

    /// The identifier of the message that caused this one: every event,
    /// response and error names it; a request has none.
    pub open spec fn spec_correlation_id(&self) -> Option<MessageId> {
        match self {
            NodeMessage::NodeCmdError { correlation_id, .. } => Some(*correlation_id),
            NodeMessage::NodeEvent { correlation_id, .. } => Some(*correlation_id),
            NodeMessage::NodeQueryResponse { correlation_id, .. } => Some(*correlation_id),
            _ => None,
        }
    }

    /// Gets the message ID.
    pub fn id(&self) -> (id: MessageId)
        ensures
            id == self.spec_id(),
    {
        match self {
            NodeMessage::NodeCmd { id, .. }
            | NodeMessage::NodeEvent { id, .. }
            | NodeMessage::NodeQuery { id, .. }
            | NodeMessage::NodeCmdError { id, .. }
            | NodeMessage::NodeQueryResponse { id, .. } => *id,
        }
    }

    /// Gets the ID of the message that caused this one, if it names one.
    pub fn correlation_id(&self) -> (id: Option<MessageId>)
        ensures
            id == self.spec_correlation_id(),
    {
        match self {
            NodeMessage::NodeCmdError { correlation_id, .. }
            | NodeMessage::NodeEvent { correlation_id, .. }
            | NodeMessage::NodeQueryResponse { correlation_id, .. } => Some(*correlation_id),
            _ => None,
        }
    }
}

} // verus!
