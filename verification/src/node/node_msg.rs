//! Messages that nodes exchange among themselves.

use vstd::prelude::*;
use std::collections::BTreeMap;
use sn_data_types::{Blob, BlobAddress, NodeAge, PublicKey, SectionElders, Signature};
use xor_name::XorName;
use crate::client::{
    BlobRead, BlobWrite, ClientSigned, CmdError, DataCmd as NodeDataCmd, DataExchange,
    DataQuery as NodeDataQuery, Error, Result,
};
use crate::{EndUser, MessageId};

verus! {

/// A message between nodes, without routing metadata.
#[allow(clippy::large_enum_variant)]
#[derive(Debug, Eq, PartialEq, Clone)]
pub enum NodeMsg {
    /// Cmds only sent internally in the network.
    NodeCmd {
        /// NodeCmd.
        cmd: NodeCmd,
        /// Message ID.
        id: MessageId,
    },
    /// An error of a NodeCmd.
    NodeCmdError {
        /// The error.
        error: NodeCmdError,
        /// Message ID.
        id: MessageId,
        /// ID of causing cmd.
        correlation_id: MessageId,
    },
    /// Events only sent internally in the network.
    NodeEvent {
        /// Event.
        event: NodeEvent,
        /// Message ID.
        id: MessageId,
        /// ID of causing cmd.
        correlation_id: MessageId,
    },
    /// Queries is a read-only operation.
    NodeQuery {
        /// Query.
        query: NodeQuery,
        /// Message ID.
        id: MessageId,
    },
    /// The response to a query, containing the query result.
    NodeQueryResponse {
        /// QueryResponse.
        response: NodeQueryResponse,
        /// Message ID.
        id: MessageId,
        /// ID of causing query.
        correlation_id: MessageId,
    },
    /// The returned error, from any msg handling on recipient node.
    NodeMsgError {
        /// The error.
        error: Error,
        /// Message ID.
        id: MessageId,
        /// ID of causing cmd.
        correlation_id: MessageId,
    },
}

impl NodeMsg {
    /// The identifier of the message.
    pub open spec fn spec_id(&self) -> MessageId {
        match self {
            NodeMsg::NodeCmd { id, .. } => *id,
            NodeMsg::NodeCmdError { id, .. } => *id,
            NodeMsg::NodeEvent { id, .. } => *id,
            NodeMsg::NodeQuery { id, .. } => *id,
            NodeMsg::NodeQueryResponse { id, .. } => *id,
            NodeMsg::NodeMsgError { id, .. } => *id,
        }
    }

    /// The identifier of the message that caused this one: every event,
    /// response and error names it; a request has none.
    pub open spec fn spec_correlation_id(&self) -> Option<MessageId> {
        match self {
            NodeMsg::NodeCmdError { correlation_id, .. } => Some(*correlation_id),
            NodeMsg::NodeEvent { correlation_id, .. } => Some(*correlation_id),
            NodeMsg::NodeQueryResponse { correlation_id, .. } => Some(*correlation_id),
            NodeMsg::NodeMsgError { correlation_id, .. } => Some(*correlation_id),
            _ => None,
        }
    }

    /// Gets the message ID.
    pub fn id(&self) -> (id: MessageId)
        ensures
            id == self.spec_id(),
    {
        match self {
            NodeMsg::NodeCmd { id, .. }
            | NodeMsg::NodeQuery { id, .. }
            | NodeMsg::NodeEvent { id, .. }
            | NodeMsg::NodeQueryResponse { id, .. }
            | NodeMsg::NodeCmdError { id, .. }
            | NodeMsg::NodeMsgError { id, .. } => *id,
        }
    }

    /// Gets the ID of the message that caused this one, if it names one.
    pub fn correlation_id(&self) -> (id: Option<MessageId>)
        ensures
            id == self.spec_correlation_id(),
    {
        match self {
            NodeMsg::NodeCmdError { correlation_id, .. }
            | NodeMsg::NodeEvent { correlation_id, .. }
            | NodeMsg::NodeQueryResponse { correlation_id, .. }
            | NodeMsg::NodeMsgError { correlation_id, .. } => Some(*correlation_id),
            _ => None,
        }
    }
}

/// A command from one node to others. A command that comes from a client's
/// request carries the client's credential and identity, so that the
/// receiving node can act on the client's behalf without asking it again.
#[allow(clippy::large_enum_variant)]
#[derive(Debug, Eq, PartialEq, Clone)]
pub enum NodeCmd {
    /// Metadata is handled by Elders
    Metadata {
        /// The write.
        cmd: NodeDataCmd,
        /// The credential of the client.
        client_signed: ClientSigned,
        /// The client that asked for the write.
        origin: EndUser,
    },
    /// Chunks are handled by Adults
    Chunks {
        /// The write.
        cmd: BlobWrite,
        /// The credential of the client.
        client_signed: ClientSigned,
        /// The client that asked for the write.
        origin: EndUser,
    },
    /// Cmds related to the running of a node.
    System(NodeSystemCmd),
}

/// Cmds related to the running of a node.
#[allow(clippy::large_enum_variant)]
#[derive(Debug, Eq, PartialEq, Clone)]
pub enum NodeSystemCmd {
    /// Register a wallet for rewards.
    RegisterWallet(PublicKey),
    /// Notify Elders on nearing max capacity
    StorageFull {
        /// Node Id
        node_id: PublicKey,
        /// Section to which the message needs to be sent: the section of
        /// the node.
        section: XorName,
    },
    /// Replicate a given chunk at an Adult
    ReplicateChunk(Blob),
    /// Tells the Elders to re-publish a chunk in the data section
    RepublishChunk(Blob),
    /// Sent to all promoted nodes (also sibling if any) after
    /// a completed transition to a new constellation.
    ReceiveExistingData {
        /// Age and wallets of registered nodes, keyed by node name.
        node_wallets: BTreeMap<XorName, (NodeAge, PublicKey)>,
        /// Metadata
        metadata: DataExchange,
    },
}

/// An event that one node tells others about.
#[allow(clippy::large_enum_variant)]
#[derive(Debug, Eq, PartialEq, Clone)]
pub enum NodeEvent {
    /// Replication completed event, emitted by a node, received by elders.
    ReplicationCompleted {
        /// The address of the chunk.
        chunk: BlobAddress,
        /// The Elder's accumulated signature
        /// over the chunk address. This is sent back
        /// to them so that any uninformed Elder knows
        /// that this is all good.
        proof: Signature,
    },
    /// Adults ack read/write of chunks as to convey responsivity.
    ChunkWriteHandled(std::result::Result<(), CmdError>),
}

/// A query from one node to others.
#[derive(Debug, Eq, PartialEq, Clone)]
pub enum NodeQuery {
    /// Metadata is handled by Elders
    Metadata {
        /// The read.
        query: NodeDataQuery,
        /// The credential of the client.
        client_signed: ClientSigned,
        /// The client that asked for the read.
        origin: EndUser,
    },
    /// Chunks are handled by Adults
    Chunks {
        /// The read.
        query: BlobRead,
        /// The client that asked for the read.
        origin: EndUser,
    },
    /// Related to the running of a node
    System(NodeSystemQuery),
}

/// Queries related to the running of a node.
#[derive(Debug, Eq, PartialEq, Clone)]
pub enum NodeSystemQuery {
    /// On Elder change, all Elders need to query
    /// network for the new wallet's replicas' public key set
    GetSectionElders,
    /// Acquire the chunk from current holders for replication.
    /// providing the address of the blob to be replicated.
    GetChunk(BlobAddress),
    /// The wallet a node has registered for rewards.
    GetNodeWalletKey(XorName),
}

/// Responses to queries related to the running of a node.
#[derive(Debug, Eq, PartialEq, Clone)]
pub enum NodeSystemQueryResponse {
    /// On Elder change, all Elders need to query
    /// network for the new wallet's replicas' public key set
    GetSectionElders(SectionElders),
    /// Respond elders with the requested chunk for replication
    GetChunk(Blob),
}

/// The response to a query from a node.
#[allow(clippy::large_enum_variant)]
#[derive(Debug, Eq, PartialEq, Clone)]
pub enum NodeQueryResponse {
    /// The response to a query for data.
    Data(NodeDataQueryResponse),
    /// The response to a query about the running of a node.
    System(NodeSystemQueryResponse),
}

/// The response to a query for data from a node.
#[allow(clippy::large_enum_variant)]
#[derive(Debug, Hash, Eq, PartialEq, Clone)]
pub enum NodeDataQueryResponse {
    /// Elder to Adult Get.
    GetChunk(Result<Blob>),
}

/// The error of a command from a node.
#[allow(clippy::large_enum_variant)]
#[derive(Debug, Hash, Eq, PartialEq, Clone)]
pub enum NodeCmdError {
    /// The error of a command about data.
    Data(NodeDataError),
    /// The error of a command about transfers.
    Transfers(NodeTransferError),
}

/// The error of a command about data from a node.
#[derive(Debug, Hash, Eq, PartialEq, Clone)]
pub enum NodeDataError {
    /// A chunk could not be replicated.
    ChunkReplication {
        /// The address of the chunk.
        address: BlobAddress,
        /// Why it could not be replicated.
        error: Error,
    },
}

/// The error of a command about transfers from a node.
#[derive(Debug, Hash, Eq, PartialEq, Clone)]
pub enum NodeTransferError {
    /// The error of propagation of TransferRegistered event.
    TransferPropagation(Error),
}

} // verus!
