//! Messages between clients and the network.

pub mod cmd;
pub mod data;
pub mod errors;
pub mod messaging;
pub mod query;
pub mod query_response;
pub mod transfer;

pub use self::cmd::Cmd;
pub use self::data::{
    BlobRead, BlobWrite, DataCmd, DataQuery, MapRead, MapWrite, RegisterEdit, RegisterRead,
    RegisterWrite, SequenceEdit, SequenceRead, SequenceWrite,
};
pub use self::errors::{Error, Result};
pub use self::messaging::{
    group_id, name_len, AgentId, AgentType, ClientId, CostScheme, GPMGroupCmd, GPMGroupQuery,
    GPMMsg, GroupConfig, GroupId, MsgReceived, MsgSettings, MIN_GROUP_NAME_LEN,
};
pub use self::query::Query;
pub use self::query_response::{QueryResponse, TryFromError};
pub use self::transfer::{TransferCmd, TransferQuery};

use vstd::prelude::*;
use vstd::string::StringExecFns;
use std::collections::{BTreeMap, BTreeSet};
use sn_data_types::{
    BlobAddress, PublicKey, Signature, TransferAgreementProof, TransferValidated,
};
use xor_name::XorName;
use crate::data_types::debug_of;
use crate::node::{NodeCmd, NodeCmdError, NodeEvent, NodeQuery, NodeQueryResponse};
use crate::MessageId;

verus! {

/// A message between a client and the network, under the name that tells it
/// apart from the messages between nodes.
pub type ClientMessage = Message;

/// A message between a client and the network.
#[allow(clippy::large_enum_variant)]
#[derive(Debug, Eq, PartialEq, Clone)]
pub enum Message {
    /// A message to process.
    Process(ProcessMsg),
    /// The report that a message could not be processed.
    ProcessingError(ProcessingError),
}

/// The recipient was unable to process a message, for a reason that no typed
/// error covers.
///
/// The report is a message of its own: it has its own identifier and returns
/// the message that caused it in full. The sender finds the message it belongs to
/// by looking at `source_message`, not by comparing identifiers.
#[allow(clippy::large_enum_variant)]
#[derive(Debug, Eq, PartialEq, Clone)]
pub struct ProcessingError {
    /// Optional reason for the error, to help the receiver handle it.
    pub reason: Option<Error>,
    /// The message that triggered this error.
    pub source_message: Option<ProcessMsg>,
    /// The identifier of the report itself.
    pub id: MessageId,
}

impl ProcessingError {
    /// The report with the given parts.
    pub fn new(source_message: ProcessMsg, reason: Option<Error>, id: MessageId) -> (report: Self)
        ensures
            report == (ProcessingError { reason, source_message: Some(source_message), id }),
    {
        ProcessingError { reason, source_message: Some(source_message), id }
    }

    /// The identifier of the report.
    pub fn id(&self) -> (id: MessageId)
        ensures
            id == self.id,
    {
        self.id
    }

    /// The debug text of the reason: `None`, or `Some` with the debug text of
    /// the error in round brackets.
    pub open spec fn spec_reason_debug(&self) -> Seq<char> {
        match self.reason {
            Some(error) => "Some("@ + error.spec_debug() + ")"@,
            None => "None"@,
        }
    }

    /// The debug text of the message that caused the report, where this
    /// layer decides it: `None`, or `Some` with the debug text of the message
    /// in round brackets.
    pub open spec fn spec_source_debug(&self) -> Option<Seq<char>> {
        match self.source_message {
            Some(msg) => match msg.spec_debug() {
                Some(text) => Some("Some("@ + text + ")"@),
                None => None,
            },
            None => Some("None"@),
        }
    }

    /// The debug text of the report, given the text of the message that
    /// caused it: the name of the type and its three fields by name.
    pub open spec fn spec_debug_with(&self, source: Seq<char>) -> Seq<char> {
        "ProcessingError { reason: "@ + self.spec_reason_debug() + ", source_message: "@ + source
            + ", id: "@ + self.id.spec_debug() + " }"@
    }

    /// The debug text of the report, given the text of the message that
    /// caused it.
    pub fn debug_string_with(&self, source: &str) -> (text: String)
        ensures
            text@ == self.spec_debug_with(source@),
    {
        let reason = match &self.reason {
            Some(error) => String::from_str("Some(").concat(error.debug_string().as_str()).concat(
                ")",
            ),
            None => String::from_str("None"),
        };
        String::from_str("ProcessingError { reason: ")
            .concat(reason.as_str())
            .concat(", source_message: ")
            .concat(source)
            .concat(", id: ")
            .concat(self.id.debug_string().as_str())
            .concat(" }")
    }

    /// The debug text of the report. It shows the reason, the message that
    /// caused the report and the identifier of the report.
    pub fn debug_string(&self) -> (text: String)
        ensures
            self.spec_source_debug() matches Some(source) ==> text@ == self.spec_debug_with(source),
    {
        let source = match &self.source_message {
            Some(msg) => String::from_str("Some(").concat(msg.debug_string().as_str()).concat(")"),
            None => String::from_str("None"),
        };
        self.debug_string_with(source.as_str())
    }
}

impl Message {
    /// The identifier of the message.
    pub open spec fn spec_id(&self) -> MessageId {
        match self {
            Message::Process(msg) => msg.spec_id(),
            Message::ProcessingError(error) => error.id,
        }
    }

    /// Gets the message ID.
    pub fn id(&self) -> (id: MessageId)
        ensures
            id == self.spec_id(),
    {
        match self {
            Message::Process(ProcessMsg::Cmd { id, .. })
            | Message::Process(ProcessMsg::Query { id, .. })
            | Message::Process(ProcessMsg::Event { id, .. })
            | Message::Process(ProcessMsg::QueryResponse { id, .. })
            | Message::Process(ProcessMsg::CmdError { id, .. })
            | Message::Process(ProcessMsg::NodeCmd { id, .. })
            | Message::Process(ProcessMsg::NodeEvent { id, .. })
            | Message::Process(ProcessMsg::NodeQuery { id, .. })
            | Message::Process(ProcessMsg::NodeCmdError { id, .. })
            | Message::Process(ProcessMsg::NodeQueryResponse { id, .. })
            | Message::ProcessingError(ProcessingError { id, .. }) => *id,
        }
    }

    /// Returns the message to process, if this is one.
    pub fn get_process(&self) -> (process: Option<&ProcessMsg>)
        ensures
            match self {
                Message::Process(msg) => process == Some(msg),
                Message::ProcessingError(_) => process is None,
            },
    {
        match self {
            Message::Process(msg) => Some(msg),
            Message::ProcessingError(_) => None,
        }
    }

    /// Returns the processing error, if this is one.
    pub fn get_processing_error(&self) -> (report: Option<&ProcessingError>)
        ensures
            match self {
                Message::Process(_) => report is None,
                Message::ProcessingError(error) => report == Some(error),
            },
    {
        match self {
            Message::Process(_) => None,
            Message::ProcessingError(error) => Some(error),
        }
    }
}

/// A message to process: a request, or what a request led to.
#[allow(clippy::large_enum_variant)]
#[derive(Debug, Eq, PartialEq, Clone)]
pub enum ProcessMsg {
    /// A Cmd leads to a write or another change of state.
    /// It is expected to succeed: a message comes back only if something
    /// went wrong.
    Cmd {
        /// Cmd.
        cmd: Cmd,
        /// Message ID.
        id: MessageId,
    },
    /// A Query is a read-only operation.
    Query {
        /// Query.
        query: Query,
        /// Message ID.
        id: MessageId,
    },
    /// An Event is a fact about something that happened.
    Event {
        /// Event.
        event: Event,
        /// Message ID.
        id: MessageId,
        /// ID of causing cmd.
        correlation_id: MessageId,
    },
    /// The response to a query, containing the query result.
    QueryResponse {
        /// QueryResponse.
        response: QueryResponse,
        /// Message ID.
        id: MessageId,
        /// ID of causing query.
        correlation_id: MessageId,
    },
    /// Cmd error.
    CmdError {
        /// The error.
        error: CmdError,
        /// Message ID.
        id: MessageId,
        /// ID of causing cmd.
        correlation_id: MessageId,
    },
    /// Cmds only sent internally in the network.
    NodeCmd {
        /// NodeCmd.
        cmd: NodeCmd,
        /// Message ID.
        id: MessageId,
    },
    /// An error of a NodeCmd.
    NodeCmdError {
        /// The error.
        error: NodeCmdError,
        /// Message ID.
        id: MessageId,
        /// ID of causing cmd.
        correlation_id: MessageId,
    },
    /// Events only sent internally in the network.
    NodeEvent {
        /// Event.
        event: NodeEvent,
        /// Message ID.
        id: MessageId,
        /// ID of causing cmd.
        correlation_id: MessageId,
    },
    /// Queries only sent internally in the network.
    NodeQuery {
        /// Query.
        query: NodeQuery,
        /// Message ID.
        id: MessageId,
    },
    /// The response to a node query, containing the query result.
    NodeQueryResponse {
        /// QueryResponse.
        response: NodeQueryResponse,
        /// Message ID.
        id: MessageId,
        /// ID of causing query.
        correlation_id: MessageId,
    },
}

impl ProcessMsg {
    /// The identifier of the message.
    pub open spec fn spec_id(&self) -> MessageId {
        match self {
            ProcessMsg::Cmd { id, .. } => *id,
            ProcessMsg::Query { id, .. } => *id,
            ProcessMsg::Event { id, .. } => *id,
            ProcessMsg::QueryResponse { id, .. } => *id,
            ProcessMsg::CmdError { id, .. } => *id,
            ProcessMsg::NodeCmd { id, .. } => *id,
            ProcessMsg::NodeCmdError { id, .. } => *id,
            ProcessMsg::NodeEvent { id, .. } => *id,
            ProcessMsg::NodeQuery { id, .. } => *id,
            ProcessMsg::NodeQueryResponse { id, .. } => *id,
        }
    }

    /// The identifier of the message that caused this one: every event,
    /// response and error names it; a request has none.
    pub open spec fn spec_correlation_id(&self) -> Option<MessageId> {
        match self {
            ProcessMsg::Event { correlation_id, .. } => Some(*correlation_id),
            ProcessMsg::QueryResponse { correlation_id, .. } => Some(*correlation_id),
            ProcessMsg::CmdError { correlation_id, .. } => Some(*correlation_id),
            ProcessMsg::NodeCmdError { correlation_id, .. } => Some(*correlation_id),
            ProcessMsg::NodeEvent { correlation_id, .. } => Some(*correlation_id),
            ProcessMsg::NodeQueryResponse { correlation_id, .. } => Some(*correlation_id),
            _ => None,
        }
    }

    /// The message that reports the failure of this command, under the
    /// identifier `id`: there is one if this is a command and `id` is not the
    /// command's own identifier.
    pub open spec fn spec_cmd_error(&self, error: Error, id: MessageId) -> Option<ProcessMsg> {
        match self {
            ProcessMsg::Cmd { cmd, id: cause } if id != *cause => Some(
                ProcessMsg::CmdError { error: cmd.spec_error(error), id, correlation_id: *cause },
            ),
            _ => None,
        }
    }

    /// The message that reports the failure of this query, under the
    /// identifier `id`: there is one if this is a query and `id` is not the
    /// query's own identifier.
    pub open spec fn spec_query_error(&self, error: Error, id: MessageId) -> Option<ProcessMsg> {
        match self {
            ProcessMsg::Query { query, id: cause } if id != *cause => Some(
                ProcessMsg::QueryResponse {
                    response: query.spec_error(error),
                    id,
                    correlation_id: *cause,
                },
            ),
            _ => None,
        }
    }

    /// The debug text of the message, where this layer decides it. A query
    /// and the response to a query are printed as the variant's name and its
    /// fields by name, with the query or the response in the text that it
    /// gives itself. Any other message is printed as its parts print
    /// themselves.
    pub open spec fn spec_debug(&self) -> Option<Seq<char>> {
        match self {
            ProcessMsg::Query { query, id } => match query.spec_debug() {
                Some(text) => Some(
                    "Query { query: "@ + text + ", id: "@ + id.spec_debug() + " }"@,
                ),
                None => None,
            },
            ProcessMsg::QueryResponse { response, id, correlation_id } => Some(
                "QueryResponse { response: "@ + response.spec_debug() + ", id: "@ + id.spec_debug()
                    + ", correlation_id: "@ + correlation_id.spec_debug() + " }"@,
            ),
            _ => None,
        }
    }

    /// Gets the message ID.
    pub fn id(&self) -> (id: MessageId)
        ensures
            id == self.spec_id(),
    {
        match self {
            ProcessMsg::Cmd { id, .. }
            | ProcessMsg::Query { id, .. }
            | ProcessMsg::Event { id, .. }
            | ProcessMsg::QueryResponse { id, .. }
            | ProcessMsg::CmdError { id, .. }
            | ProcessMsg::NodeCmd { id, .. }
            | ProcessMsg::NodeEvent { id, .. }
            | ProcessMsg::NodeQuery { id, .. }
            | ProcessMsg::NodeCmdError { id, .. }
            | ProcessMsg::NodeQueryResponse { id, .. } => *id,
        }
    }

    /// Gets the ID of the message that caused this one, if it names one.
    pub fn correlation_id(&self) -> (id: Option<MessageId>)
        ensures
            id == self.spec_correlation_id(),
    {
        match self {
            ProcessMsg::Event { correlation_id, .. }
            | ProcessMsg::QueryResponse { correlation_id, .. }
            | ProcessMsg::CmdError { correlation_id, .. }
            | ProcessMsg::NodeCmdError { correlation_id, .. }
            | ProcessMsg::NodeEvent { correlation_id, .. }
            | ProcessMsg::NodeQueryResponse { correlation_id, .. } => Some(*correlation_id),
            _ => None,
        }
    }

    /// The debug text of the message.
    pub fn debug_string(&self) -> (text: String)
        ensures
            self.spec_debug() matches Some(expected) ==> text@ == expected,
    {
        match self {
            ProcessMsg::Query { query, id } => String::from_str("Query { query: ")
                .concat(query.debug_string().as_str())
                .concat(", id: ")
                .concat(id.debug_string().as_str())
                .concat(" }"),
            ProcessMsg::QueryResponse { response, id, correlation_id } => String::from_str(
                "QueryResponse { response: ",
            )
                .concat(response.debug_string().as_str())
                .concat(", id: ")
                .concat(id.debug_string().as_str())
                .concat(", correlation_id: ")
                .concat(correlation_id.debug_string().as_str())
                .concat(" }"),
            _ => debug_of(self),
        }
    }

    /// Wraps the message into the report that it could not be processed.
    ///
    /// The report carries the whole message and the reason, under a new
    /// identifier. The identifier is random, so nothing is known about it.
    pub fn create_processing_error(self, reason: Option<Error>) -> (report: ProcessingError)
        ensures
            report.source_message == Some(self),
            report.reason == reason,
    {
        ProcessingError::new(self, reason, MessageId::new())
    }

    /// The message that reports the failure of this command, under the
    /// identifier `id`.
    ///
    /// Returns `None` if this is not a command, or if `id` is the command's
    /// own identifier: an error is a new message.
    pub fn cmd_error_with_id(&self, error: Error, id: MessageId) -> (report: Option<ProcessMsg>)
        ensures
            report == self.spec_cmd_error(error, id),
    {
        match self {
            ProcessMsg::Cmd { cmd, id: cause } => {
                if id.equals(cause) {
                    None
                } else {
                    Some(
                        ProcessMsg::CmdError {
                            error: cmd.error(error),
                            id,
                            correlation_id: *cause,
                        },
                    )
                }
            },
            _ => None,
        }
    }

    /// The message that reports the failure of this command, under a new
    /// random identifier.
    ///
    /// Whatever identifier is drawn, a report that comes back names this
    /// command as its cause and has an identifier of its own.
    pub fn create_cmd_error(&self, error: Error) -> (report: Option<ProcessMsg>)
        ensures
            report matches Some(msg) ==> self is Cmd && self.spec_cmd_error(error, msg.spec_id())
                == report,
            !(self is Cmd) ==> report is None,
    {
        self.cmd_error_with_id(error, MessageId::new())
    }

    /// The response that reports the failure of this query, under the
    /// identifier `id`.
    ///
    /// Returns `None` if this is not a query, or if `id` is the query's own
    /// identifier: a response is a new message.
    pub fn query_error_with_id(&self, error: Error, id: MessageId) -> (report: Option<ProcessMsg>)
        ensures
            report == self.spec_query_error(error, id),
    {
        match self {
            ProcessMsg::Query { query, id: cause } => {
                if id.equals(cause) {
                    None
                } else {
                    Some(
                        ProcessMsg::QueryResponse {
                            response: query.error(error),
                            id,
                            correlation_id: *cause,
                        },
                    )
                }
            },
            _ => None,
        }
    }

    /// The response that reports the failure of this query, under a new
    /// random identifier.
    pub fn create_query_error(&self, error: Error) -> (report: Option<ProcessMsg>)
        ensures
            report matches Some(msg) ==> self is Query && self.spec_query_error(
                error,
                msg.spec_id(),
            ) == report,
            !(self is Query) ==> report is None,
    {
        self.query_error_with_id(error, MessageId::new())
    }
}

/// The error of a command.
#[derive(Debug, Hash, Eq, PartialEq, Clone)]
pub enum CmdError {
    /// The error of a command that writes data.
    Data(Error),
    /// The error of a command that moves tokens.
    Transfer(TransferError),
}

/// The error of a command that moves tokens.
#[derive(Debug, Hash, Eq, PartialEq, Clone)]
pub enum TransferError {
    /// The error of a ValidateTransfer cmd.
    TransferValidation(Error),
    /// The error of a RegisterTransfer cmd.
    TransferRegistration(Error),
}

/// Events from the network that are pushed to the client.
#[allow(clippy::large_enum_variant, clippy::type_complexity)]
#[derive(Debug, Eq, PartialEq, Clone)]
pub enum Event {
    /// The transfer was validated by a Replica instance.
    TransferValidated {
        /// This is the validation of the transfer
        /// requested by the client for an account.
        event: TransferValidated,
    },
    /// An aggregate event created client side out of a quorum of
    /// TransferValidated events.
    TransferAgreementReached {
        /// The accumulated proof.
        proof: TransferAgreementProof,
    },
}

/// The credential of a client: its key and its signature over the request,
/// which lets a node act on the client's behalf.
#[derive(Debug, Eq, PartialEq, Clone)]
pub struct ClientSigned {
    /// The key of the client.
    pub public_key: PublicKey,
    /// The client's signature over the request.
    pub signature: Signature,
}

/// A snapshot of what the elders of a section know about stored data, handed
/// to nodes that have been promoted.
#[derive(Debug, Eq, PartialEq, Clone)]
pub struct DataExchange {
    /// The adults that cannot take more data.
    pub full_adults: BTreeSet<XorName>,
    /// For each blob, the adults that hold it.
    pub blob_holders: BTreeMap<BlobAddress, BTreeSet<XorName>>,
}

/// Correlation: the error that is reported for a command is a `CmdError`
/// that names the command as its cause and has an identifier of its own.
pub proof fn lemma_cmd_error_correlates(msg: ProcessMsg, error: Error, id: MessageId)
    requires
        msg.spec_cmd_error(error, id) is Some,
    ensures
        msg is Cmd,
        msg.spec_cmd_error(error, id)->Some_0 is CmdError,
        msg.spec_cmd_error(error, id)->Some_0.spec_correlation_id() == Some(msg.spec_id()),
        msg.spec_cmd_error(error, id)->Some_0.spec_id() == id,
        msg.spec_cmd_error(error, id)->Some_0.spec_id() != msg.spec_id(),
{
}

/// Every command can be answered with an error under any identifier but its
/// own.
pub proof fn lemma_cmd_error_exists(msg: ProcessMsg, error: Error, id: MessageId)
    requires
        msg is Cmd,
        id != msg.spec_id(),
    ensures
        msg.spec_cmd_error(error, id) is Some,
{
}

/// Correlation: the response that reports the failure of a query is a
/// `QueryResponse` of the variant that answers the query, names the query as
/// its cause and has an identifier of its own.
pub proof fn lemma_query_error_correlates(msg: ProcessMsg, error: Error, id: MessageId)
    requires
        msg.spec_query_error(error, id) is Some,
    ensures
        msg is Query,
        msg.spec_query_error(error, id)->Some_0 is QueryResponse,
        msg.spec_query_error(error, id)->Some_0.spec_correlation_id() == Some(msg.spec_id()),
        msg.spec_query_error(error, id)->Some_0.spec_id() == id,
        msg.spec_query_error(error, id)->Some_0.spec_id() != msg.spec_id(),
        msg.spec_query_error(error, id)->Some_0->QueryResponse_response
            == msg->Query_query.spec_error(error),
{
}

} // verus!
