//! Operations on token balances.

use vstd::prelude::*;
use vstd::string::StringExecFns;
use sn_data_types::{PublicKey, SignedTransfer, TransferAgreementProof};
use xor_name::XorName;
use super::errors::Error;
use super::query_response::QueryResponse;
use super::{CmdError, TransferError};
use crate::data_types::{
    key_name, name_of_key, proof_sender, sender_of_proof, sender_of_transfer, transfer_sender,
};

verus! {

/// A command that moves tokens.
#[allow(clippy::large_enum_variant)]
#[derive(Eq, PartialEq, Debug, Clone)]
pub enum TransferCmd {
    /// Ask the replicas of the sender to validate a transfer.
    ValidateTransfer(SignedTransfer),
    /// Register a transfer that the replicas have agreed to.
    RegisterTransfer(TransferAgreementProof),
}

impl TransferCmd {
    /// The error that reports `error` for this command: a validation error
    /// for a validation, a registration error for a registration.
    pub open spec fn spec_error(&self, error: Error) -> CmdError {
        match self {
            TransferCmd::ValidateTransfer(_) => CmdError::Transfer(
                TransferError::TransferValidation(error),
            ),
            TransferCmd::RegisterTransfer(_) => CmdError::Transfer(
                TransferError::TransferRegistration(error),
            ),
        }
    }

    /// The address of the sender's key, where its replicas are.
    pub open spec fn spec_dst_address(&self) -> XorName {
        match self {
            TransferCmd::ValidateTransfer(transfer) => key_name(transfer_sender(*transfer)),
            TransferCmd::RegisterTransfer(proof) => key_name(proof_sender(*proof)),
        }
    }

    /// Creates the error that reports `error` for this command.
    pub fn error(&self, error: Error) -> (cmd_error: CmdError)
        ensures
            cmd_error == self.spec_error(error),
    {
        match self {
            TransferCmd::ValidateTransfer(_) => CmdError::Transfer(
                TransferError::TransferValidation(error),
            ),
            TransferCmd::RegisterTransfer(_) => CmdError::Transfer(
                TransferError::TransferRegistration(error),
            ),
        }
    }

    /// Returns the address of the destination for the command.
    pub fn dst_address(&self) -> (address: XorName)
        ensures
            address == self.spec_dst_address(),
    {
        match self {
            TransferCmd::ValidateTransfer(transfer) => {
                let sender = sender_of_transfer(transfer);
                name_of_key(&sender)
            },
            TransferCmd::RegisterTransfer(proof) => {
                let sender = sender_of_proof(proof);
                name_of_key(&sender)
            },
        }
    }
}

/// A query about the tokens of a key.
#[derive(Hash, Eq, PartialEq, Debug, Clone)]
pub enum TransferQuery {
    /// Get the balance of a key.
    GetBalance(PublicKey),
    /// Get the transfers of a key.
    GetHistory {
        /// The key.
        at: PublicKey,
        /// The version from which on the history is asked for.
        since_version: usize,
    },
}

impl TransferQuery {
    /// The response that reports `error` for this query: the variant that
    /// answers it, holding the error.
    pub open spec fn spec_error(&self, error: Error) -> QueryResponse {
        match self {
            TransferQuery::GetBalance(_) => QueryResponse::GetBalance(Err(error)),
            TransferQuery::GetHistory { .. } => QueryResponse::GetHistory(Err(error)),
        }
    }

    /// The name of the variant, as it is written in the source.
    pub open spec fn spec_variant_name(&self) -> Seq<char> {
        match self {
            TransferQuery::GetBalance(_) => "GetBalance"@,
            TransferQuery::GetHistory { .. } => "GetHistory"@,
        }
    }

    /// The debug text of the query: `TransferQuery::` and the variant's name.
    /// The key is not printed.
    pub open spec fn spec_debug(&self) -> Seq<char> {
        "TransferQuery::"@ + self.spec_variant_name()
    }

    /// The address of the key that the query is about.
    pub open spec fn spec_dst_address(&self) -> XorName {
        match self {
            TransferQuery::GetBalance(at) => key_name(*at),
            TransferQuery::GetHistory { at, .. } => key_name(*at),
        }
    }

    /// Creates a response containing an error, of the variant that answers
    /// this query.
    pub fn error(&self, error: Error) -> (response: QueryResponse)
        ensures
            response == self.spec_error(error),
    {
        match self {
            TransferQuery::GetBalance(_) => QueryResponse::GetBalance(Err(error)),
            TransferQuery::GetHistory { .. } => QueryResponse::GetHistory(Err(error)),
        }
    }

    /// Returns the address of the destination for the query.
    pub fn dst_address(&self) -> (address: XorName)
        ensures
            address == self.spec_dst_address(),
    {
        match self {
            TransferQuery::GetBalance(at) => name_of_key(at),
            TransferQuery::GetHistory { at, .. } => name_of_key(at),
        }
    }

    /// The name of the variant, as it is written in the source.
    pub fn variant_name(&self) -> (name: &'static str)
        ensures
            name@ == self.spec_variant_name(),
    {
        match self {
            TransferQuery::GetBalance(_) => "GetBalance",
            TransferQuery::GetHistory { .. } => "GetHistory",
        }
    }

    /// The debug text of the query. It names the variant and leaves the key
    /// out.
    pub fn debug_string(&self) -> (text: String)
        ensures
            text@ == self.spec_debug(),
    {
        String::from_str("TransferQuery::").concat(self.variant_name())
    }
}

} // verus!
