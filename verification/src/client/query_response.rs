//! Responses to queries, and the typed extraction of what they carry.

use vstd::prelude::*;
use vstd::string::StringExecFns;
use vstd::std_specs::convert::{TryFromSpec, TryFromSpecImpl};
use std::collections::{BTreeMap, BTreeSet};
use std::convert::TryFrom;
use sn_data_types::register::{Entry, EntryHash, Permissions, Policy, Register};
use sn_data_types::{
    ActorHistory, Blob, MapEntries, MapPermissionSet, MapValue, MapValues, PublicKey, Sequence,
    SequenceEntries, SequenceEntry, SequencePermissions, SequencePrivatePolicy,
    SequencePublicPolicy, Token,
};
use super::errors::{Error, Result};
use super::messaging::GroupConfig;

verus! {

/// Query responses from the network.
///
/// Every query has one variant here that answers it. Success and failure
/// live in the same variant, as `Ok` and `Err`.
#[allow(clippy::large_enum_variant, clippy::type_complexity)]
#[derive(Eq, PartialEq, Clone, Debug)]
pub enum QueryResponse {
    //
    // ===== Blob =====
    //
    /// Get Blob.
    GetBlob(Result<Blob>),
    //
    // ===== Map =====
    //
    /// Get Map.
    GetMap(Result<sn_data_types::Map>),
    /// Get Map shell.
    GetMapShell(Result<sn_data_types::Map>),
    /// Get Map version.
    GetMapVersion(Result<u64>),
    /// List all Map entries (key-value pairs).
    ListMapEntries(Result<MapEntries>),
    /// List all Map keys.
    ListMapKeys(Result<BTreeSet<Vec<u8>>>),
    /// List all Map values.
    ListMapValues(Result<MapValues>),
    /// Get Map permissions for a user.
    ListMapUserPermissions(Result<MapPermissionSet>),
    /// List all Map permissions.
    ListMapPermissions(Result<BTreeMap<PublicKey, MapPermissionSet>>),
    /// Get Map value.
    GetMapValue(Result<MapValue>),
    //
    // ===== Sequence =====
    //
    /// Get Sequence.
    GetSequence(Result<Sequence>),
    /// Get Sequence entries from a range.
    GetSequenceRange(Result<SequenceEntries>),
    /// Get Sequence last entry, with its index.
    GetSequenceLastEntry(Result<(u64, SequenceEntry)>),
    /// Get the policy of a public Sequence.
    GetSequencePublicPolicy(Result<SequencePublicPolicy>),
    /// Get the policy of a private Sequence.
    GetSequencePrivatePolicy(Result<SequencePrivatePolicy>),
    /// Get Sequence permissions for a user.
    GetSequenceUserPermissions(Result<SequencePermissions>),
    //
    // ===== Register =====
    //
    /// Get Register.
    GetRegister(Result<Register>),
    /// Get Register owner.
    GetRegisterOwner(Result<PublicKey>),
    /// Read Register.
    ReadRegister(Result<BTreeSet<(EntryHash, Entry)>>),
    /// Get the policy of a Register.
    GetRegisterPolicy(Result<Policy>),
    /// Get Register permissions for a user.
    GetRegisterUserPermissions(Result<Permissions>),
    //
    // ===== Tokens =====
    //
    /// Get key balance.
    GetBalance(Result<Token>),
    /// Get key transfer history.
    GetHistory(Result<ActorHistory>),
    /// Get store cost.
    GetStoreCost(Result<Token>),
    //
    // ===== Group messaging =====
    //
    /// Get the configuration of a messaging group.
    GetGroupConfig(Result<GroupConfig>),
}

/// Why a response could not be turned into the value that was asked for.
#[derive(Debug, PartialEq)]
#[allow(clippy::large_enum_variant)]
pub enum TryFromError {
    /// The response is not of the variant that carries the expected type:
    /// the two sides disagree about the protocol.
    WrongType,
    /// The response is of the expected variant and carries this error from
    /// the network.
    Response(Error),
}

impl QueryResponse {
    /// The name of the variant, as it is written in the source.
    pub open spec fn spec_variant_name(&self) -> Seq<char> {
        match self {
            QueryResponse::GetBlob(_) => "GetBlob"@,
            QueryResponse::GetMap(_) => "GetMap"@,
            QueryResponse::GetMapShell(_) => "GetMapShell"@,
            QueryResponse::GetMapVersion(_) => "GetMapVersion"@,
            QueryResponse::ListMapEntries(_) => "ListMapEntries"@,
            QueryResponse::ListMapKeys(_) => "ListMapKeys"@,
            QueryResponse::ListMapValues(_) => "ListMapValues"@,
            QueryResponse::ListMapUserPermissions(_) => "ListMapUserPermissions"@,
            QueryResponse::ListMapPermissions(_) => "ListMapPermissions"@,
            QueryResponse::GetMapValue(_) => "GetMapValue"@,
            QueryResponse::GetSequence(_) => "GetSequence"@,
            QueryResponse::GetSequenceRange(_) => "GetSequenceRange"@,
            QueryResponse::GetSequenceLastEntry(_) => "GetSequenceLastEntry"@,
            QueryResponse::GetSequencePublicPolicy(_) => "GetSequencePublicPolicy"@,
            QueryResponse::GetSequencePrivatePolicy(_) => "GetSequencePrivatePolicy"@,
            QueryResponse::GetSequenceUserPermissions(_) => "GetSequenceUserPermissions"@,
            QueryResponse::GetRegister(_) => "GetRegister"@,
            QueryResponse::GetRegisterOwner(_) => "GetRegisterOwner"@,
            QueryResponse::ReadRegister(_) => "ReadRegister"@,
            QueryResponse::GetRegisterPolicy(_) => "GetRegisterPolicy"@,
            QueryResponse::GetRegisterUserPermissions(_) => "GetRegisterUserPermissions"@,
            QueryResponse::GetBalance(_) => "GetBalance"@,
            QueryResponse::GetHistory(_) => "GetHistory"@,
            QueryResponse::GetStoreCost(_) => "GetStoreCost"@,
            QueryResponse::GetGroupConfig(_) => "GetGroupConfig"@,
        }
    }

    /// The error that the response carries, if the query failed.
    pub open spec fn spec_error(&self) -> Option<Error> {
        match self {
            QueryResponse::GetBlob(Err(error)) => Some(*error),
            QueryResponse::GetMap(Err(error)) => Some(*error),
            QueryResponse::GetMapShell(Err(error)) => Some(*error),
            QueryResponse::GetMapVersion(Err(error)) => Some(*error),
            QueryResponse::ListMapEntries(Err(error)) => Some(*error),
            QueryResponse::ListMapKeys(Err(error)) => Some(*error),
            QueryResponse::ListMapValues(Err(error)) => Some(*error),
            QueryResponse::ListMapUserPermissions(Err(error)) => Some(*error),
            QueryResponse::ListMapPermissions(Err(error)) => Some(*error),
            QueryResponse::GetMapValue(Err(error)) => Some(*error),
            QueryResponse::GetSequence(Err(error)) => Some(*error),
            QueryResponse::GetSequenceRange(Err(error)) => Some(*error),
            QueryResponse::GetSequenceLastEntry(Err(error)) => Some(*error),
            QueryResponse::GetSequencePublicPolicy(Err(error)) => Some(*error),
            QueryResponse::GetSequencePrivatePolicy(Err(error)) => Some(*error),
            QueryResponse::GetSequenceUserPermissions(Err(error)) => Some(*error),
            QueryResponse::GetRegister(Err(error)) => Some(*error),
            QueryResponse::GetRegisterOwner(Err(error)) => Some(*error),
            QueryResponse::ReadRegister(Err(error)) => Some(*error),
            QueryResponse::GetRegisterPolicy(Err(error)) => Some(*error),
            QueryResponse::GetRegisterUserPermissions(Err(error)) => Some(*error),
            QueryResponse::GetBalance(Err(error)) => Some(*error),
            QueryResponse::GetHistory(Err(error)) => Some(*error),
            QueryResponse::GetStoreCost(Err(error)) => Some(*error),
            QueryResponse::GetGroupConfig(Err(error)) => Some(*error),
            _ => None,
        }
    }

    /// Whether the response carries the answer rather than an error.
    pub open spec fn spec_is_success(&self) -> bool {
        self.spec_error() is None
    }

    /// What stands for the result in the debug text: the debug text of the
    /// error, or the word `Success`. The answer itself is not printed.
    pub open spec fn spec_result_debug(&self) -> Seq<char> {
        match self.spec_error() {
            Some(error) => error.spec_debug(),
            None => "Success"@,
        }
    }

    /// The debug text of the response: `QueryResponse::`, the variant's name
    /// and, in round brackets, the outcome.
    pub open spec fn spec_debug(&self) -> Seq<char> {
        "QueryResponse::"@ + self.spec_variant_name() + "("@ + self.spec_result_debug() + ")"@
    }

    /// The name of the variant, as it is written in the source.
    pub fn variant_name(&self) -> (name: &'static str)
        ensures
            name@ == self.spec_variant_name(),
    {
        match self {
            QueryResponse::GetBlob(_) => "GetBlob",
            QueryResponse::GetMap(_) => "GetMap",
            QueryResponse::GetMapShell(_) => "GetMapShell",
            QueryResponse::GetMapVersion(_) => "GetMapVersion",
            QueryResponse::ListMapEntries(_) => "ListMapEntries",
            QueryResponse::ListMapKeys(_) => "ListMapKeys",
            QueryResponse::ListMapValues(_) => "ListMapValues",
            QueryResponse::ListMapUserPermissions(_) => "ListMapUserPermissions",
            QueryResponse::ListMapPermissions(_) => "ListMapPermissions",
            QueryResponse::GetMapValue(_) => "GetMapValue",
            QueryResponse::GetSequence(_) => "GetSequence",
            QueryResponse::GetSequenceRange(_) => "GetSequenceRange",
            QueryResponse::GetSequenceLastEntry(_) => "GetSequenceLastEntry",
            QueryResponse::GetSequencePublicPolicy(_) => "GetSequencePublicPolicy",
            QueryResponse::GetSequencePrivatePolicy(_) => "GetSequencePrivatePolicy",
            QueryResponse::GetSequenceUserPermissions(_) => "GetSequenceUserPermissions",
            QueryResponse::GetRegister(_) => "GetRegister",
            QueryResponse::GetRegisterOwner(_) => "GetRegisterOwner",
            QueryResponse::ReadRegister(_) => "ReadRegister",
            QueryResponse::GetRegisterPolicy(_) => "GetRegisterPolicy",
            QueryResponse::GetRegisterUserPermissions(_) => "GetRegisterUserPermissions",
            QueryResponse::GetBalance(_) => "GetBalance",
            QueryResponse::GetHistory(_) => "GetHistory",
            QueryResponse::GetStoreCost(_) => "GetStoreCost",
            QueryResponse::GetGroupConfig(_) => "GetGroupConfig",
        }
    }

    /// The error that the response carries, if the query failed.
    pub fn error(&self) -> (error: Option<&Error>)
        ensures
            match error {
                Some(error) => self.spec_error() == Some(*error),
                None => self.spec_error() is None,
            },
    {
        match self {
            QueryResponse::GetBlob(Err(error)) => Some(error),
            QueryResponse::GetMap(Err(error)) => Some(error),
            QueryResponse::GetMapShell(Err(error)) => Some(error),
            QueryResponse::GetMapVersion(Err(error)) => Some(error),
            QueryResponse::ListMapEntries(Err(error)) => Some(error),
            QueryResponse::ListMapKeys(Err(error)) => Some(error),
            QueryResponse::ListMapValues(Err(error)) => Some(error),
            QueryResponse::ListMapUserPermissions(Err(error)) => Some(error),
            QueryResponse::ListMapPermissions(Err(error)) => Some(error),
            QueryResponse::GetMapValue(Err(error)) => Some(error),
            QueryResponse::GetSequence(Err(error)) => Some(error),
            QueryResponse::GetSequenceRange(Err(error)) => Some(error),
            QueryResponse::GetSequenceLastEntry(Err(error)) => Some(error),
            QueryResponse::GetSequencePublicPolicy(Err(error)) => Some(error),
            QueryResponse::GetSequencePrivatePolicy(Err(error)) => Some(error),
            QueryResponse::GetSequenceUserPermissions(Err(error)) => Some(error),
            QueryResponse::GetRegister(Err(error)) => Some(error),
            QueryResponse::GetRegisterOwner(Err(error)) => Some(error),
            QueryResponse::ReadRegister(Err(error)) => Some(error),
            QueryResponse::GetRegisterPolicy(Err(error)) => Some(error),
            QueryResponse::GetRegisterUserPermissions(Err(error)) => Some(error),
            QueryResponse::GetBalance(Err(error)) => Some(error),
            QueryResponse::GetHistory(Err(error)) => Some(error),
            QueryResponse::GetStoreCost(Err(error)) => Some(error),
            QueryResponse::GetGroupConfig(Err(error)) => Some(error),
            _ => None,
        }
    }

    /// Whether the response carries the answer rather than an error.
    pub fn is_success(&self) -> (success: bool)
        ensures
            success == self.spec_is_success(),
    {
        self.error().is_none()
    }

    /// The debug text of the response. It names the variant and shows the
    /// error, if there is one; a successful answer is shown as `Success`.
    pub fn debug_string(&self) -> (text: String)
        ensures
            text@ == self.spec_debug(),
    {
        let outcome = match self.error() {
            Some(error) => error.debug_string(),
            None => String::from_str("Success"),
        };
        String::from_str("QueryResponse::")
            .concat(self.variant_name())
            .concat("(")
            .concat(outcome.as_str())
            .concat(")")
    }
}

impl TryFrom<QueryResponse> for Blob {
    type Error = TryFromError;

    fn try_from(response: QueryResponse) -> (r: std::result::Result<Self, TryFromError>) {
        match response {
            QueryResponse::GetBlob(Ok(data)) => Ok(data),
            QueryResponse::GetBlob(Err(error)) => Err(TryFromError::Response(error)),
            _ => Err(TryFromError::WrongType),
        }
    }
}

impl TryFromSpecImpl<QueryResponse> for Blob {
    open spec fn obeys_try_from_spec() -> bool {
        true
    }

    /// The answer of a `GetBlob` response, its error, or `WrongType` for any
    /// other response.
    open spec fn try_from_spec(response: QueryResponse) -> std::result::Result<Self, TryFromError> {
        match response {
            QueryResponse::GetBlob(Ok(data)) => Ok(data),
            QueryResponse::GetBlob(Err(error)) => Err(TryFromError::Response(error)),
            _ => Err(TryFromError::WrongType),
        }
    }
}

impl TryFrom<QueryResponse> for sn_data_types::Map {
    type Error = TryFromError;

    fn try_from(response: QueryResponse) -> (r: std::result::Result<Self, TryFromError>) {
        match response {
            QueryResponse::GetMap(Ok(data)) => Ok(data),
            QueryResponse::GetMap(Err(error)) => Err(TryFromError::Response(error)),
            QueryResponse::GetMapShell(Ok(data)) => Ok(data),
            QueryResponse::GetMapShell(Err(error)) => Err(TryFromError::Response(error)),
            _ => Err(TryFromError::WrongType),
        }
    }
}

impl TryFromSpecImpl<QueryResponse> for sn_data_types::Map {
    open spec fn obeys_try_from_spec() -> bool {
        true
    }

    /// The answer of a `GetMap` or `GetMapShell` response, its error, or `WrongType` for any
    /// other response.
    open spec fn try_from_spec(response: QueryResponse) -> std::result::Result<Self, TryFromError> {
        match response {
            QueryResponse::GetMap(Ok(data)) => Ok(data),
            QueryResponse::GetMap(Err(error)) => Err(TryFromError::Response(error)),
            QueryResponse::GetMapShell(Ok(data)) => Ok(data),
            QueryResponse::GetMapShell(Err(error)) => Err(TryFromError::Response(error)),
            _ => Err(TryFromError::WrongType),
        }
    }
}

impl TryFrom<QueryResponse> for u64 {
    type Error = TryFromError;

    fn try_from(response: QueryResponse) -> (r: std::result::Result<Self, TryFromError>) {
        match response {
            QueryResponse::GetMapVersion(Ok(data)) => Ok(data),
            QueryResponse::GetMapVersion(Err(error)) => Err(TryFromError::Response(error)),
            _ => Err(TryFromError::WrongType),
        }
    }
}

impl TryFromSpecImpl<QueryResponse> for u64 {
    open spec fn obeys_try_from_spec() -> bool {
        true
    }

    /// The answer of a `GetMapVersion` response, its error, or `WrongType` for any
    /// other response.
    open spec fn try_from_spec(response: QueryResponse) -> std::result::Result<Self, TryFromError> {
        match response {
            QueryResponse::GetMapVersion(Ok(data)) => Ok(data),
            QueryResponse::GetMapVersion(Err(error)) => Err(TryFromError::Response(error)),
            _ => Err(TryFromError::WrongType),
        }
    }
}

impl TryFrom<QueryResponse> for MapEntries {
    type Error = TryFromError;

    fn try_from(response: QueryResponse) -> (r: std::result::Result<Self, TryFromError>) {
        match response {
            QueryResponse::ListMapEntries(Ok(data)) => Ok(data),
            QueryResponse::ListMapEntries(Err(error)) => Err(TryFromError::Response(error)),
            _ => Err(TryFromError::WrongType),
        }
    }
}

impl TryFromSpecImpl<QueryResponse> for MapEntries {
    open spec fn obeys_try_from_spec() -> bool {
        true
    }

    /// The answer of a `ListMapEntries` response, its error, or `WrongType` for any
    /// other response.
    open spec fn try_from_spec(response: QueryResponse) -> std::result::Result<Self, TryFromError> {
        match response {
            QueryResponse::ListMapEntries(Ok(data)) => Ok(data),
            QueryResponse::ListMapEntries(Err(error)) => Err(TryFromError::Response(error)),
            _ => Err(TryFromError::WrongType),
        }
    }
}

impl TryFrom<QueryResponse> for BTreeSet<Vec<u8>> {
    type Error = TryFromError;

    fn try_from(response: QueryResponse) -> (r: std::result::Result<Self, TryFromError>) {
        match response {
            QueryResponse::ListMapKeys(Ok(data)) => Ok(data),
            QueryResponse::ListMapKeys(Err(error)) => Err(TryFromError::Response(error)),
            _ => Err(TryFromError::WrongType),
        }
    }
}

impl TryFromSpecImpl<QueryResponse> for BTreeSet<Vec<u8>> {
    open spec fn obeys_try_from_spec() -> bool {
        true
    }

    /// The answer of a `ListMapKeys` response, its error, or `WrongType` for any
    /// other response.
    open spec fn try_from_spec(response: QueryResponse) -> std::result::Result<Self, TryFromError> {
        match response {
            QueryResponse::ListMapKeys(Ok(data)) => Ok(data),
            QueryResponse::ListMapKeys(Err(error)) => Err(TryFromError::Response(error)),
            _ => Err(TryFromError::WrongType),
        }
    }
}

impl TryFrom<QueryResponse> for MapValues {
    type Error = TryFromError;

    fn try_from(response: QueryResponse) -> (r: std::result::Result<Self, TryFromError>) {
        match response {
            QueryResponse::ListMapValues(Ok(data)) => Ok(data),
            QueryResponse::ListMapValues(Err(error)) => Err(TryFromError::Response(error)),
            _ => Err(TryFromError::WrongType),
        }
    }
}

impl TryFromSpecImpl<QueryResponse> for MapValues {
    open spec fn obeys_try_from_spec() -> bool {
        true
    }

    /// The answer of a `ListMapValues` response, its error, or `WrongType` for any
    /// other response.
    open spec fn try_from_spec(response: QueryResponse) -> std::result::Result<Self, TryFromError> {
        match response {
            QueryResponse::ListMapValues(Ok(data)) => Ok(data),
            QueryResponse::ListMapValues(Err(error)) => Err(TryFromError::Response(error)),
            _ => Err(TryFromError::WrongType),
        }
    }
}

impl TryFrom<QueryResponse> for MapPermissionSet {
    type Error = TryFromError;

    fn try_from(response: QueryResponse) -> (r: std::result::Result<Self, TryFromError>) {
        match response {
            QueryResponse::ListMapUserPermissions(Ok(data)) => Ok(data),
            QueryResponse::ListMapUserPermissions(Err(error)) => Err(TryFromError::Response(error)),
            _ => Err(TryFromError::WrongType),
        }
    }
}

impl TryFromSpecImpl<QueryResponse> for MapPermissionSet {
    open spec fn obeys_try_from_spec() -> bool {
        true
    }

    /// The answer of a `ListMapUserPermissions` response, its error, or `WrongType` for any
    /// other response.
    open spec fn try_from_spec(response: QueryResponse) -> std::result::Result<Self, TryFromError> {
        match response {
            QueryResponse::ListMapUserPermissions(Ok(data)) => Ok(data),
            QueryResponse::ListMapUserPermissions(Err(error)) => Err(TryFromError::Response(error)),
            _ => Err(TryFromError::WrongType),
        }
    }
}

impl TryFrom<QueryResponse> for BTreeMap<PublicKey, MapPermissionSet> {
    type Error = TryFromError;

    fn try_from(response: QueryResponse) -> (r: std::result::Result<Self, TryFromError>) {
        match response {
            QueryResponse::ListMapPermissions(Ok(data)) => Ok(data),
            QueryResponse::ListMapPermissions(Err(error)) => Err(TryFromError::Response(error)),
            _ => Err(TryFromError::WrongType),
        }
    }
}

impl TryFromSpecImpl<QueryResponse> for BTreeMap<PublicKey, MapPermissionSet> {
    open spec fn obeys_try_from_spec() -> bool {
        true
    }

    /// The answer of a `ListMapPermissions` response, its error, or `WrongType` for any
    /// other response.
    open spec fn try_from_spec(response: QueryResponse) -> std::result::Result<Self, TryFromError> {
        match response {
            QueryResponse::ListMapPermissions(Ok(data)) => Ok(data),
            QueryResponse::ListMapPermissions(Err(error)) => Err(TryFromError::Response(error)),
            _ => Err(TryFromError::WrongType),
        }
    }
}

impl TryFrom<QueryResponse> for MapValue {
    type Error = TryFromError;

    fn try_from(response: QueryResponse) -> (r: std::result::Result<Self, TryFromError>) {
        match response {
            QueryResponse::GetMapValue(Ok(data)) => Ok(data),
            QueryResponse::GetMapValue(Err(error)) => Err(TryFromError::Response(error)),
            _ => Err(TryFromError::WrongType),
        }
    }
}

impl TryFromSpecImpl<QueryResponse> for MapValue {
    open spec fn obeys_try_from_spec() -> bool {
        true
    }

    /// The answer of a `GetMapValue` response, its error, or `WrongType` for any
    /// other response.
    open spec fn try_from_spec(response: QueryResponse) -> std::result::Result<Self, TryFromError> {
        match response {
            QueryResponse::GetMapValue(Ok(data)) => Ok(data),
            QueryResponse::GetMapValue(Err(error)) => Err(TryFromError::Response(error)),
            _ => Err(TryFromError::WrongType),
        }
    }
}

impl TryFrom<QueryResponse> for Sequence {
    type Error = TryFromError;

    fn try_from(response: QueryResponse) -> (r: std::result::Result<Self, TryFromError>) {
        match response {
            QueryResponse::GetSequence(Ok(data)) => Ok(data),
            QueryResponse::GetSequence(Err(error)) => Err(TryFromError::Response(error)),
            _ => Err(TryFromError::WrongType),
        }
    }
}

impl TryFromSpecImpl<QueryResponse> for Sequence {
    open spec fn obeys_try_from_spec() -> bool {
        true
    }

    /// The answer of a `GetSequence` response, its error, or `WrongType` for any
    /// other response.
    open spec fn try_from_spec(response: QueryResponse) -> std::result::Result<Self, TryFromError> {
        match response {
            QueryResponse::GetSequence(Ok(data)) => Ok(data),
            QueryResponse::GetSequence(Err(error)) => Err(TryFromError::Response(error)),
            _ => Err(TryFromError::WrongType),
        }
    }
}

impl TryFrom<QueryResponse> for SequenceEntries {
    type Error = TryFromError;

    fn try_from(response: QueryResponse) -> (r: std::result::Result<Self, TryFromError>) {
        match response {
            QueryResponse::GetSequenceRange(Ok(data)) => Ok(data),
            QueryResponse::GetSequenceRange(Err(error)) => Err(TryFromError::Response(error)),
            _ => Err(TryFromError::WrongType),
        }
    }
}

impl TryFromSpecImpl<QueryResponse> for SequenceEntries {
    open spec fn obeys_try_from_spec() -> bool {
        true
    }

    /// The answer of a `GetSequenceRange` response, its error, or `WrongType` for any
    /// other response.
    open spec fn try_from_spec(response: QueryResponse) -> std::result::Result<Self, TryFromError> {
        match response {
            QueryResponse::GetSequenceRange(Ok(data)) => Ok(data),
            QueryResponse::GetSequenceRange(Err(error)) => Err(TryFromError::Response(error)),
            _ => Err(TryFromError::WrongType),
        }
    }
}

impl TryFrom<QueryResponse> for (u64, SequenceEntry) {
    type Error = TryFromError;

    fn try_from(response: QueryResponse) -> (r: std::result::Result<Self, TryFromError>) {
        match response {
            QueryResponse::GetSequenceLastEntry(Ok(data)) => Ok(data),
            QueryResponse::GetSequenceLastEntry(Err(error)) => Err(TryFromError::Response(error)),
            _ => Err(TryFromError::WrongType),
        }
    }
}

impl TryFromSpecImpl<QueryResponse> for (u64, SequenceEntry) {
    open spec fn obeys_try_from_spec() -> bool {
        true
    }

    /// The answer of a `GetSequenceLastEntry` response, its error, or `WrongType` for any
    /// other response.
    open spec fn try_from_spec(response: QueryResponse) -> std::result::Result<Self, TryFromError> {
        match response {
            QueryResponse::GetSequenceLastEntry(Ok(data)) => Ok(data),
            QueryResponse::GetSequenceLastEntry(Err(error)) => Err(TryFromError::Response(error)),
            _ => Err(TryFromError::WrongType),
        }
    }
}

impl TryFrom<QueryResponse> for SequencePublicPolicy {
    type Error = TryFromError;

    fn try_from(response: QueryResponse) -> (r: std::result::Result<Self, TryFromError>) {
        match response {
            QueryResponse::GetSequencePublicPolicy(Ok(data)) => Ok(data),
            QueryResponse::GetSequencePublicPolicy(Err(error)) => Err(
                TryFromError::Response(error),
            ),
            _ => Err(TryFromError::WrongType),
        }
    }
}

impl TryFromSpecImpl<QueryResponse> for SequencePublicPolicy {
    open spec fn obeys_try_from_spec() -> bool {
        true
    }

    /// The answer of a `GetSequencePublicPolicy` response, its error, or `WrongType` for any
    /// other response.
    open spec fn try_from_spec(response: QueryResponse) -> std::result::Result<Self, TryFromError> {
        match response {
            QueryResponse::GetSequencePublicPolicy(Ok(data)) => Ok(data),
            QueryResponse::GetSequencePublicPolicy(Err(error)) => Err(
                TryFromError::Response(error),
            ),
            _ => Err(TryFromError::WrongType),
        }
    }
}

impl TryFrom<QueryResponse> for SequencePrivatePolicy {
    type Error = TryFromError;

    fn try_from(response: QueryResponse) -> (r: std::result::Result<Self, TryFromError>) {
        match response {
            QueryResponse::GetSequencePrivatePolicy(Ok(data)) => Ok(data),
            QueryResponse::GetSequencePrivatePolicy(Err(error)) => Err(
                TryFromError::Response(error),
            ),
            _ => Err(TryFromError::WrongType),
        }
    }
}

impl TryFromSpecImpl<QueryResponse> for SequencePrivatePolicy {
    open spec fn obeys_try_from_spec() -> bool {
        true
    }

    /// The answer of a `GetSequencePrivatePolicy` response, its error, or `WrongType` for any
    /// other response.
    open spec fn try_from_spec(response: QueryResponse) -> std::result::Result<Self, TryFromError> {
        match response {
            QueryResponse::GetSequencePrivatePolicy(Ok(data)) => Ok(data),
            QueryResponse::GetSequencePrivatePolicy(Err(error)) => Err(
                TryFromError::Response(error),
            ),
            _ => Err(TryFromError::WrongType),
        }
    }
}

impl TryFrom<QueryResponse> for SequencePermissions {
    type Error = TryFromError;

    fn try_from(response: QueryResponse) -> (r: std::result::Result<Self, TryFromError>) {
        match response {
            QueryResponse::GetSequenceUserPermissions(Ok(data)) => Ok(data),
            QueryResponse::GetSequenceUserPermissions(Err(error)) => Err(
                TryFromError::Response(error),
            ),
            _ => Err(TryFromError::WrongType),
        }
    }
}

impl TryFromSpecImpl<QueryResponse> for SequencePermissions {
    open spec fn obeys_try_from_spec() -> bool {
        true
    }

    /// The answer of a `GetSequenceUserPermissions` response, its error, or `WrongType` for any
    /// other response.
    open spec fn try_from_spec(response: QueryResponse) -> std::result::Result<Self, TryFromError> {
        match response {
            QueryResponse::GetSequenceUserPermissions(Ok(data)) => Ok(data),
            QueryResponse::GetSequenceUserPermissions(Err(error)) => Err(
                TryFromError::Response(error),
            ),
            _ => Err(TryFromError::WrongType),
        }
    }
}

impl TryFrom<QueryResponse> for Register {
    type Error = TryFromError;

    fn try_from(response: QueryResponse) -> (r: std::result::Result<Self, TryFromError>) {
        match response {
            QueryResponse::GetRegister(Ok(data)) => Ok(data),
            QueryResponse::GetRegister(Err(error)) => Err(TryFromError::Response(error)),
            _ => Err(TryFromError::WrongType),
        }
    }
}

impl TryFromSpecImpl<QueryResponse> for Register {
    open spec fn obeys_try_from_spec() -> bool {
        true
    }

    /// The answer of a `GetRegister` response, its error, or `WrongType` for any
    /// other response.
    open spec fn try_from_spec(response: QueryResponse) -> std::result::Result<Self, TryFromError> {
        match response {
            QueryResponse::GetRegister(Ok(data)) => Ok(data),
            QueryResponse::GetRegister(Err(error)) => Err(TryFromError::Response(error)),
            _ => Err(TryFromError::WrongType),
        }
    }
}

impl TryFrom<QueryResponse> for PublicKey {
    type Error = TryFromError;

    fn try_from(response: QueryResponse) -> (r: std::result::Result<Self, TryFromError>) {
        match response {
            QueryResponse::GetRegisterOwner(Ok(data)) => Ok(data),
            QueryResponse::GetRegisterOwner(Err(error)) => Err(TryFromError::Response(error)),
            _ => Err(TryFromError::WrongType),
        }
    }
}

impl TryFromSpecImpl<QueryResponse> for PublicKey {
    open spec fn obeys_try_from_spec() -> bool {
        true
    }

    /// The answer of a `GetRegisterOwner` response, its error, or `WrongType` for any
    /// other response.
    open spec fn try_from_spec(response: QueryResponse) -> std::result::Result<Self, TryFromError> {
        match response {
            QueryResponse::GetRegisterOwner(Ok(data)) => Ok(data),
            QueryResponse::GetRegisterOwner(Err(error)) => Err(TryFromError::Response(error)),
            _ => Err(TryFromError::WrongType),
        }
    }
}

impl TryFrom<QueryResponse> for BTreeSet<(EntryHash, Entry)> {
    type Error = TryFromError;

    fn try_from(response: QueryResponse) -> (r: std::result::Result<Self, TryFromError>) {
        match response {
            QueryResponse::ReadRegister(Ok(data)) => Ok(data),
            QueryResponse::ReadRegister(Err(error)) => Err(TryFromError::Response(error)),
            _ => Err(TryFromError::WrongType),
        }
    }
}

impl TryFromSpecImpl<QueryResponse> for BTreeSet<(EntryHash, Entry)> {
    open spec fn obeys_try_from_spec() -> bool {
        true
    }

    /// The answer of a `ReadRegister` response, its error, or `WrongType` for any
    /// other response.
    open spec fn try_from_spec(response: QueryResponse) -> std::result::Result<Self, TryFromError> {
        match response {
            QueryResponse::ReadRegister(Ok(data)) => Ok(data),
            QueryResponse::ReadRegister(Err(error)) => Err(TryFromError::Response(error)),
            _ => Err(TryFromError::WrongType),
        }
    }
}

impl TryFrom<QueryResponse> for Policy {
    type Error = TryFromError;

    fn try_from(response: QueryResponse) -> (r: std::result::Result<Self, TryFromError>) {
        match response {
            QueryResponse::GetRegisterPolicy(Ok(data)) => Ok(data),
            QueryResponse::GetRegisterPolicy(Err(error)) => Err(TryFromError::Response(error)),
            _ => Err(TryFromError::WrongType),
        }
    }
}

impl TryFromSpecImpl<QueryResponse> for Policy {
    open spec fn obeys_try_from_spec() -> bool {
        true
    }

    /// The answer of a `GetRegisterPolicy` response, its error, or `WrongType` for any
    /// other response.
    open spec fn try_from_spec(response: QueryResponse) -> std::result::Result<Self, TryFromError> {
        match response {
            QueryResponse::GetRegisterPolicy(Ok(data)) => Ok(data),
            QueryResponse::GetRegisterPolicy(Err(error)) => Err(TryFromError::Response(error)),
            _ => Err(TryFromError::WrongType),
        }
    }
}

impl TryFrom<QueryResponse> for Permissions {
    type Error = TryFromError;

    fn try_from(response: QueryResponse) -> (r: std::result::Result<Self, TryFromError>) {
        match response {
            QueryResponse::GetRegisterUserPermissions(Ok(data)) => Ok(data),
            QueryResponse::GetRegisterUserPermissions(Err(error)) => Err(
                TryFromError::Response(error),
            ),
            _ => Err(TryFromError::WrongType),
        }
    }
}

impl TryFromSpecImpl<QueryResponse> for Permissions {
    open spec fn obeys_try_from_spec() -> bool {
        true
    }

    /// The answer of a `GetRegisterUserPermissions` response, its error, or `WrongType` for any
    /// other response.
    open spec fn try_from_spec(response: QueryResponse) -> std::result::Result<Self, TryFromError> {
        match response {
            QueryResponse::GetRegisterUserPermissions(Ok(data)) => Ok(data),
            QueryResponse::GetRegisterUserPermissions(Err(error)) => Err(
                TryFromError::Response(error),
            ),
            _ => Err(TryFromError::WrongType),
        }
    }
}

impl TryFrom<QueryResponse> for Token {
    type Error = TryFromError;

    fn try_from(response: QueryResponse) -> (r: std::result::Result<Self, TryFromError>) {
        match response {
            QueryResponse::GetBalance(Ok(data)) => Ok(data),
            QueryResponse::GetBalance(Err(error)) => Err(TryFromError::Response(error)),
            _ => Err(TryFromError::WrongType),
        }
    }
}

impl TryFromSpecImpl<QueryResponse> for Token {
    open spec fn obeys_try_from_spec() -> bool {
        true
    }

    /// The answer of a `GetBalance` response, its error, or `WrongType` for any
    /// other response.
    open spec fn try_from_spec(response: QueryResponse) -> std::result::Result<Self, TryFromError> {
        match response {
            QueryResponse::GetBalance(Ok(data)) => Ok(data),
            QueryResponse::GetBalance(Err(error)) => Err(TryFromError::Response(error)),
            _ => Err(TryFromError::WrongType),
        }
    }
}

impl TryFrom<QueryResponse> for ActorHistory {
    type Error = TryFromError;

    fn try_from(response: QueryResponse) -> (r: std::result::Result<Self, TryFromError>) {
        match response {
            QueryResponse::GetHistory(Ok(data)) => Ok(data),
            QueryResponse::GetHistory(Err(error)) => Err(TryFromError::Response(error)),
            _ => Err(TryFromError::WrongType),
        }
    }
}

impl TryFromSpecImpl<QueryResponse> for ActorHistory {
    open spec fn obeys_try_from_spec() -> bool {
        true
    }

    /// The answer of a `GetHistory` response, its error, or `WrongType` for any
    /// other response.
    open spec fn try_from_spec(response: QueryResponse) -> std::result::Result<Self, TryFromError> {
        match response {
            QueryResponse::GetHistory(Ok(data)) => Ok(data),
            QueryResponse::GetHistory(Err(error)) => Err(TryFromError::Response(error)),
            _ => Err(TryFromError::WrongType),
        }
    }
}

impl TryFrom<QueryResponse> for GroupConfig {
    type Error = TryFromError;

    fn try_from(response: QueryResponse) -> (r: std::result::Result<Self, TryFromError>) {
        match response {
            QueryResponse::GetGroupConfig(Ok(data)) => Ok(data),
            QueryResponse::GetGroupConfig(Err(error)) => Err(TryFromError::Response(error)),
            _ => Err(TryFromError::WrongType),
        }
    }
}

impl TryFromSpecImpl<QueryResponse> for GroupConfig {
    open spec fn obeys_try_from_spec() -> bool {
        true
    }

    /// The answer of a `GetGroupConfig` response, its error, or `WrongType` for any
    /// other response.
    open spec fn try_from_spec(response: QueryResponse) -> std::result::Result<Self, TryFromError> {
        match response {
            QueryResponse::GetGroupConfig(Ok(data)) => Ok(data),
            QueryResponse::GetGroupConfig(Err(error)) => Err(TryFromError::Response(error)),
            _ => Err(TryFromError::WrongType),
        }
    }
}

/// Extraction of a balance: a `GetBalance` response gives its answer or its
/// error, and a response of another variant is a mismatch of types, not an
/// answer from the network.
pub proof fn lemma_extract_balance(balance: Token, error: Error, sequence: Result<Sequence>)
    ensures
        <Token as TryFromSpec<QueryResponse>>::try_from_spec(
            QueryResponse::GetBalance(Ok(balance)),
        ) == Ok::<Token, TryFromError>(balance),
        <Token as TryFromSpec<QueryResponse>>::try_from_spec(
            QueryResponse::GetBalance(Err(error)),
        ) == Err::<Token, TryFromError>(TryFromError::Response(error)),
        <Token as TryFromSpec<QueryResponse>>::try_from_spec(
            QueryResponse::GetSequence(sequence),
        ) == Err::<Token, TryFromError>(TryFromError::WrongType),
{
}

/// The extraction found either a mismatch of types or exactly this error
/// from the network: it did not find an answer.
pub open spec fn reports_only<T>(
    extracted: std::result::Result<T, TryFromError>,
    error: Error,
) -> bool {
    extracted == Err::<T, TryFromError>(TryFromError::WrongType) || extracted == Err::<
        T,
        TryFromError,
    >(TryFromError::Response(error))
}

/// The extraction found either an answer or a mismatch of types: it did not
/// find an error from the network.
pub open spec fn never_reports<T>(extracted: std::result::Result<T, TryFromError>) -> bool {
    extracted is Ok || extracted == Err::<T, TryFromError>(TryFromError::WrongType)
}

/// A response that carries an error never extracts as an answer, whatever
/// type is asked for: the extraction gives that very error, or a mismatch of
/// types.
pub proof fn lemma_failed_response_never_extracts_as_an_answer(
    response: QueryResponse,
    error: Error,
)
    requires
        response.spec_error() == Some(error),
    ensures
        reports_only(<Blob as TryFromSpec<QueryResponse>>::try_from_spec(response), error),
        reports_only(<sn_data_types::Map as TryFromSpec<QueryResponse>>::try_from_spec(response), error),
        reports_only(<u64 as TryFromSpec<QueryResponse>>::try_from_spec(response), error),
        reports_only(<MapEntries as TryFromSpec<QueryResponse>>::try_from_spec(response), error),
        reports_only(<BTreeSet<Vec<u8>> as TryFromSpec<QueryResponse>>::try_from_spec(response), error),
        reports_only(<MapValues as TryFromSpec<QueryResponse>>::try_from_spec(response), error),
        reports_only(<MapPermissionSet as TryFromSpec<QueryResponse>>::try_from_spec(response), error),
        reports_only(<BTreeMap<PublicKey, MapPermissionSet> as TryFromSpec<QueryResponse>>::try_from_spec(response), error),
        reports_only(<MapValue as TryFromSpec<QueryResponse>>::try_from_spec(response), error),
        reports_only(<Sequence as TryFromSpec<QueryResponse>>::try_from_spec(response), error),
        reports_only(<SequenceEntries as TryFromSpec<QueryResponse>>::try_from_spec(response), error),
        reports_only(<(u64, SequenceEntry) as TryFromSpec<QueryResponse>>::try_from_spec(response), error),
        reports_only(<SequencePublicPolicy as TryFromSpec<QueryResponse>>::try_from_spec(response), error),
        reports_only(<SequencePrivatePolicy as TryFromSpec<QueryResponse>>::try_from_spec(response), error),
        reports_only(<SequencePermissions as TryFromSpec<QueryResponse>>::try_from_spec(response), error),
        reports_only(<Register as TryFromSpec<QueryResponse>>::try_from_spec(response), error),
        reports_only(<PublicKey as TryFromSpec<QueryResponse>>::try_from_spec(response), error),
        reports_only(<BTreeSet<(EntryHash, Entry)> as TryFromSpec<QueryResponse>>::try_from_spec(response), error),
        reports_only(<Policy as TryFromSpec<QueryResponse>>::try_from_spec(response), error),
        reports_only(<Permissions as TryFromSpec<QueryResponse>>::try_from_spec(response), error),
        reports_only(<Token as TryFromSpec<QueryResponse>>::try_from_spec(response), error),
        reports_only(<ActorHistory as TryFromSpec<QueryResponse>>::try_from_spec(response), error),
        reports_only(<GroupConfig as TryFromSpec<QueryResponse>>::try_from_spec(response), error),
{
}

/// A response that carries an answer never extracts as an error from the
/// network, whatever type is asked for.
pub proof fn lemma_successful_response_never_extracts_as_an_error(response: QueryResponse)
    requires
        response.spec_is_success(),
    ensures
        never_reports(<Blob as TryFromSpec<QueryResponse>>::try_from_spec(response)),
        never_reports(<sn_data_types::Map as TryFromSpec<QueryResponse>>::try_from_spec(response)),
        never_reports(<u64 as TryFromSpec<QueryResponse>>::try_from_spec(response)),
        never_reports(<MapEntries as TryFromSpec<QueryResponse>>::try_from_spec(response)),
        never_reports(<BTreeSet<Vec<u8>> as TryFromSpec<QueryResponse>>::try_from_spec(response)),
        never_reports(<MapValues as TryFromSpec<QueryResponse>>::try_from_spec(response)),
        never_reports(<MapPermissionSet as TryFromSpec<QueryResponse>>::try_from_spec(response)),
        never_reports(<BTreeMap<PublicKey, MapPermissionSet> as TryFromSpec<QueryResponse>>::try_from_spec(response)),
        never_reports(<MapValue as TryFromSpec<QueryResponse>>::try_from_spec(response)),
        never_reports(<Sequence as TryFromSpec<QueryResponse>>::try_from_spec(response)),
        never_reports(<SequenceEntries as TryFromSpec<QueryResponse>>::try_from_spec(response)),
        never_reports(<(u64, SequenceEntry) as TryFromSpec<QueryResponse>>::try_from_spec(response)),
        never_reports(<SequencePublicPolicy as TryFromSpec<QueryResponse>>::try_from_spec(response)),
        never_reports(<SequencePrivatePolicy as TryFromSpec<QueryResponse>>::try_from_spec(response)),
        never_reports(<SequencePermissions as TryFromSpec<QueryResponse>>::try_from_spec(response)),
        never_reports(<Register as TryFromSpec<QueryResponse>>::try_from_spec(response)),
        never_reports(<PublicKey as TryFromSpec<QueryResponse>>::try_from_spec(response)),
        never_reports(<BTreeSet<(EntryHash, Entry)> as TryFromSpec<QueryResponse>>::try_from_spec(response)),
        never_reports(<Policy as TryFromSpec<QueryResponse>>::try_from_spec(response)),
        never_reports(<Permissions as TryFromSpec<QueryResponse>>::try_from_spec(response)),
        never_reports(<Token as TryFromSpec<QueryResponse>>::try_from_spec(response)),
        never_reports(<ActorHistory as TryFromSpec<QueryResponse>>::try_from_spec(response)),
        never_reports(<GroupConfig as TryFromSpec<QueryResponse>>::try_from_spec(response)),
{
}

} // verus!
