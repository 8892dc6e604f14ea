//! Group messaging: a payment-gated publish/subscribe protocol over named,
//! addressable groups.

use vstd::prelude::*;
use vstd::string::StringSliceAdditionalSpecFns;
use std::collections::BTreeMap;
use sn_data_types::{CreditAgreementProof as CreditProof, PublicKey, Token};
use xor_name::XorName;
use super::errors::{Error, Result};
use super::query_response::QueryResponse;
use crate::address::{content_name, name_from_content};
use crate::location::EndUser;

verus! {

/// Identifier of an agent within a group.
pub type AgentId = u64;

/// Address of a client.
pub type ClientId = XorName;

/// Address of a group.
pub type GroupId = XorName;

/// The least number of bytes in the name of a group.
pub const MIN_GROUP_NAME_LEN: usize = 3;

/// Group to agent: what the recipient of a message gets.
///
/// An agent sends a message to the group, and the group hands it to the
/// recipient as this event.
#[derive(Debug, Eq, PartialEq, Clone)]
pub struct MsgReceived {
    /// The group that delivers the message.
    pub src: GroupId,
    /// The message.
    pub msg: GPMMsg,
}

/// Queries about a group.
#[derive(Hash, Eq, PartialEq, Debug, Clone)]
pub enum GPMGroupQuery {
    /// Get the configuration of the group at this address.
    GetConfig(GroupId),
}

impl GPMGroupQuery {
    /// The response that reports `error` for this query.
    pub open spec fn spec_error(&self, error: Error) -> QueryResponse {
        match self {
            GPMGroupQuery::GetConfig(_) => QueryResponse::GetGroupConfig(Err(error)),
        }
    }

    /// The address of the group that the query is about.
    pub open spec fn spec_dst_address(&self) -> XorName {
        match self {
            GPMGroupQuery::GetConfig(group_id) => *group_id,
        }
    }

    /// Creates a response containing an error, of the variant that answers
    /// this query.
    pub fn error(&self, error: Error) -> (response: QueryResponse)
        ensures
            response == self.spec_error(error),
    {
        match self {
            GPMGroupQuery::GetConfig(_) => QueryResponse::GetGroupConfig(Err(error)),
        }
    }

    /// Returns the address of the destination for the query.
    pub fn dst_address(&self) -> (address: XorName)
        ensures
            address == self.spec_dst_address(),
    {
        match self {
            GPMGroupQuery::GetConfig(group_id) => *group_id,
        }
    }
}

/// Commands to a group: membership, moderation and sending.
#[allow(clippy::large_enum_variant)]
#[derive(Eq, PartialEq, Debug, Clone)]
pub enum GPMGroupCmd {
    /// Create the group, or replace its configuration.
    SetOrCreate(GroupConfig),
    /// Join the group in the given role.
    Join(AgentType),
    /// Leave the given role.
    Leave(AgentType),
    /// Send a message to one agent.
    Send {
        /// The recipient.
        agent: u64,
        /// The message.
        msg: GPMMsg,
    },
    /// Send a message to all agents.
    SendToAll(GPMMsg),
    /// Block one agent in the given role.
    Block {
        /// The agent.
        agent: u64,
        /// The role.
        agent_type: AgentType,
    },
    /// Block all agents in the given role.
    BlockAll(AgentType),
}

/// A message exchanged in a group.
#[derive(Debug, Eq, PartialEq, Clone)]
pub struct GPMMsg {
    /// The type of the message, unique within the group.
    pub msg_type: u16,
    /// The address of the group.
    pub group: GroupId,
    /// The payment, if the type of the message asks for one.
    pub payment: Option<CreditProof>,
    /// The message itself.
    pub msg: Vec<u8>,
}

/// The role of an agent in a group, or the role that a message type asks for.
#[derive(Eq, PartialEq, Debug, Clone, Copy)]
pub enum AgentType {
    /// Sends messages.
    Producer,
    /// Receives messages.
    Consumer,
    /// Both sends and receives.
    Both,
    /// As a requirement: any role will do.
    Either,
}

impl AgentType {
    /// Whether an agent in role `self` meets the requirement `required`:
    /// `Either` asks for nothing, `Both` meets every requirement, and any
    /// other role meets only itself.
    pub open spec fn spec_satisfies(&self, required: AgentType) -> bool {
        required is Either || *self is Both || *self == required
    }

    /// Whether an agent in this role meets the requirement `required`.
    pub fn satisfies(&self, required: &AgentType) -> (ok: bool)
        ensures
            ok == self.spec_satisfies(*required),
    {
        match (required, self) {
            (AgentType::Either, _) => true,
            (_, AgentType::Both) => true,
            (AgentType::Producer, AgentType::Producer) => true,
            (AgentType::Consumer, AgentType::Consumer) => true,
            _ => false,
        }
    }
}

/// How a message type is paid for.
#[derive(Eq, PartialEq, Debug, Clone)]
pub enum CostScheme {
    /// Messages are free.
    Free,
    /// Paid to the section.
    Section(Token),
    /// Paid to a wallet.
    Wallet {
        /// The key of the wallet.
        key: PublicKey,
        /// The price of one message.
        cost: Token,
    },
}

impl CostScheme {
    /// Whether a message under this scheme must carry a payment.
    pub open spec fn spec_requires_payment(&self) -> bool {
        !(*self is Free)
    }

    /// Whether a message under this scheme must carry a payment.
    pub fn requires_payment(&self) -> (required: bool)
        ensures
            required == self.spec_requires_payment(),
    {
        match self {
            CostScheme::Free => false,
            _ => true,
        }
    }
}

/// The rules for one type of message in a group.
#[derive(Eq, PartialEq, Debug, Clone)]
pub struct MsgSettings {
    /// The type of the message, unique within the group.
    pub msg_type: u16,
    /// A hint at the schema of the message.
    pub schema: Option<String>,
    /// How the message is paid for.
    pub cost_scheme: CostScheme,
    /// The role that the recipient must have.
    pub sent_to: AgentType,
    /// The role that the sender must have.
    pub sent_by: AgentType,
}

impl MsgSettings {
    /// What must hold of a message of this type: the sender's role meets
    /// `sent_by`, the recipient's role, when the message names a recipient,
    /// meets `sent_to`, and the message carries a payment exactly when the
    /// cost scheme asks for one.
    pub open spec fn spec_admits(
        &self,
        msg: GPMMsg,
        sender: AgentType,
        recipient: Option<AgentType>,
    ) -> bool {
        &&& msg.msg_type == self.msg_type
        &&& sender.spec_satisfies(self.sent_by)
        &&& (recipient matches Some(role) ==> role.spec_satisfies(self.sent_to))
        &&& (msg.payment is Some <==> self.cost_scheme.spec_requires_payment())
    }

    /// Whether a message of this type may be sent by an agent in role
    /// `sender` to an agent in role `recipient`, or to all when there is none.
    /// Whether the payment pays the right wallet the right amount is for the
    /// component that accepts the message to check.
    pub fn admits(&self, msg: &GPMMsg, sender: &AgentType, recipient: Option<&AgentType>) -> (ok:
        bool)
        ensures
            ok == self.spec_admits(
                *msg,
                *sender,
                match recipient {
                    Some(role) => Some(*role),
                    None => None,
                },
            ),
    {
        let recipient_ok = match recipient {
            Some(role) => role.satisfies(&self.sent_to),
            None => true,
        };
        msg.msg_type == self.msg_type && sender.satisfies(&self.sent_by) && recipient_ok
            && msg.payment.is_some() == self.cost_scheme.requires_payment()
    }
}

/// The address of the group with the given name: the content address of the
/// tag `GroupId` followed by the name.
pub open spec fn group_id(name: Seq<char>) -> XorName {
    content_name(seq!["GroupId".spec_bytes(), vstd::utf8::encode_utf8(name)])
}

/// The number of bytes in a name.
pub open spec fn name_len(name: Seq<char>) -> nat {
    vstd::utf8::encode_utf8(name).len()
}

/// The configuration of a group: its owner and the rules for each type of
/// message. The address of a group follows from its name alone.
#[derive(Eq, PartialEq, Debug, Clone)]
pub struct GroupConfig {
    id: GroupId,
    name: String,
    owner: EndUser,
    msgs: BTreeMap<u16, MsgSettings>,
}

impl GroupConfig {
    /// The address of the group.
    pub closed spec fn spec_id(&self) -> XorName {
        self.id
    }

    /// The name of the group.
    pub closed spec fn spec_name(&self) -> Seq<char> {
        self.name@
    }

    /// The owner of the group.
    pub closed spec fn spec_owner(&self) -> EndUser {
        self.owner
    }

    /// The settings of the group, by message type.
    pub closed spec fn settings(&self) -> Map<u16, MsgSettings> {
        self.msgs@
    }

    /// What holds of every configuration that `new` returns: the name has at
    /// least three bytes, there is at least one message type, and the address
    /// is the one that belongs to the name.
    pub open spec fn wf(&self) -> bool {
        &&& name_len(self.spec_name()) >= MIN_GROUP_NAME_LEN
        &&& !self.settings().is_empty()
        &&& self.spec_id() == group_id(self.spec_name())
    }

    /// Creates the configuration of a group.
    ///
    /// Fails with `InvalidOperation` when the name is shorter than three
    /// bytes or when there are no settings.
    pub fn new(name: String, owner: EndUser, msgs: BTreeMap<u16, MsgSettings>) -> (r: Result<Self>)
        ensures
            r is Ok <==> name_len(name@) >= MIN_GROUP_NAME_LEN && !msgs@.is_empty(),
            r matches Ok(config) ==> {
                &&& config.wf()
                &&& config.spec_id() == group_id(name@)
                &&& config.spec_name() == name@
                &&& config.spec_owner() == owner
                &&& config.settings() == msgs@
            },
            r matches Err(error) ==> error == Error::InvalidOperation,
    {
        if msgs.is_empty() {
            return Err(Error::InvalidOperation);
        }
        match Self::id_from(name.as_str()) {
            Ok(id) => Ok(Self { id, name, owner, msgs }),
            Err(error) => Err(error),
        }
    }

    /// The address of the group with the given name.
    ///
    /// Fails with `InvalidOperation` when the name is shorter than three bytes.
    pub fn id_from(name: &str) -> (r: Result<GroupId>)
        ensures
            r is Ok <==> name_len(name@) >= MIN_GROUP_NAME_LEN,
            r matches Ok(id) ==> id == group_id(name@),
            r matches Err(error) ==> error == Error::InvalidOperation,
    {
        let bytes = name.as_bytes();
        if MIN_GROUP_NAME_LEN > bytes.len() {
            return Err(Error::InvalidOperation);
        }
        Ok(name_from_content("GroupId".as_bytes(), bytes))
    }

    /// The address of the group.
    pub fn id(&self) -> (id: GroupId)
        ensures
            id == self.spec_id(),
    {
        self.id
    }

    /// The name of the group.
    pub fn name(&self) -> (name: &str)
        ensures
            name@ == self.spec_name(),
    {
        self.name.as_str()
    }

    /// The owner of the group.
    pub fn owner(&self) -> (owner: &EndUser)
        ensures
            *owner == self.spec_owner(),
    {
        &self.owner
    }

    /// The settings of the group, by message type.
    pub fn msgs(&self) -> (msgs: &BTreeMap<u16, MsgSettings>)
        ensures
            msgs@ == self.settings(),
    {
        &self.msgs
    }

    /// The settings for one type of message, if the group has that type.
    pub fn get_settings(&self, msg_type: &u16) -> (r: Option<&MsgSettings>)
        ensures
            match r {
                Some(settings) => self.settings().contains_key(*msg_type)
                    && *settings == self.settings()[*msg_type],
                None => !self.settings().contains_key(*msg_type),
            },
    {
        self.msgs.get(msg_type)
    }
}

/// Shape symmetry for group queries: the response that reports an error holds
/// exactly that error, and its variant depends on the query alone.
pub proof fn lemma_group_error_response_is_paired(
    query: GPMGroupQuery,
    error: Error,
    other: Error,
)
    ensures
        query.spec_error(error).spec_error() == Some(error),
        query.spec_error(error).spec_variant_name() == query.spec_error(other).spec_variant_name(),
{
}

/// The destination of a group query is a function of the query.
pub proof fn lemma_group_dst_address_is_a_function(
    first: GPMGroupQuery,
    second: GPMGroupQuery,
)
    requires
        first == second,
    ensures
        first.spec_dst_address() == second.spec_dst_address(),
{
}

/// The address of a group is a function of its name: two valid
/// configurations with the same name have the same address.
pub proof fn lemma_group_address_follows_from_name(first: GroupConfig, second: GroupConfig)
    requires
        first.wf(),
        second.wf(),
        first.spec_name() == second.spec_name(),
    ensures
        first.spec_id() == second.spec_id(),
{
}

} // verus!
