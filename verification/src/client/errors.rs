//! Errors that the network reports about a client's request.

use vstd::prelude::*;
use vstd::string::StringExecFns;
use sn_data_types::PublicKey;
use crate::data_types::{debug_of_key, debug_of_text, key_debug, text_debug};

verus! {

/// A specialised `Result` for requests to the network.
pub type Result<T> = std::result::Result<T, Error>;

/// Why the network turned a request down.
///
/// An error always travels inside the response or error message that is
/// paired with the request: it is a value, never an abort.
#[derive(Hash, Eq, PartialEq, Clone, Debug)]
pub enum Error {
    /// The key is not allowed to perform the operation.
    AccessDenied(PublicKey),
    /// The requested data was not found.
    NoSuchData,
    /// Data with this address exists already.
    DataExists,
    /// The requested entry was not found in the data.
    NoSuchEntry,
    /// The operation is not valid, for example a group configuration that
    /// breaks the rules for its name or its settings.
    InvalidOperation,
    /// The signature does not match the request.
    InvalidSignature,
    /// The balance does not cover the transfer.
    InsufficientBalance,
    /// The sending key has no balance.
    NoSuchSender,
    /// The receiving key has no balance.
    NoSuchRecipient,
    /// A value could not be parsed; the text says which.
    FailedToParse(String),
    /// An error of the data or storage layer, passed on as the text it gave.
    NetworkData(String),
}

impl Error {
    /// The name of the variant, as it is written in the source.
    pub open spec fn spec_variant_name(&self) -> Seq<char> {
        match self {
            Error::AccessDenied(_) => "AccessDenied"@,
            Error::NoSuchData => "NoSuchData"@,
            Error::DataExists => "DataExists"@,
            Error::NoSuchEntry => "NoSuchEntry"@,
            Error::InvalidOperation => "InvalidOperation"@,
            Error::InvalidSignature => "InvalidSignature"@,
            Error::InsufficientBalance => "InsufficientBalance"@,
            Error::NoSuchSender => "NoSuchSender"@,
            Error::NoSuchRecipient => "NoSuchRecipient"@,
            Error::FailedToParse(_) => "FailedToParse"@,
            Error::NetworkData(_) => "NetworkData"@,
        }
    }

    /// The debug text of what the variant carries, if it carries anything.
    pub open spec fn spec_payload_debug(&self) -> Option<Seq<char>> {
        match self {
            Error::AccessDenied(key) => Some(key_debug(*key)),
            Error::FailedToParse(text) => Some(text_debug(text@)),
            Error::NetworkData(text) => Some(text_debug(text@)),
            _ => None,
        }
    }

    /// The debug text of the error: the variant's name, followed by the debug
    /// text of its payload in round brackets where it has one.
    pub open spec fn spec_debug(&self) -> Seq<char> {
        match self.spec_payload_debug() {
            Some(payload) => self.spec_variant_name() + "("@ + payload + ")"@,
            None => self.spec_variant_name(),
        }
    }

    /// The name of the variant, as it is written in the source.
    pub fn variant_name(&self) -> (name: &'static str)
        ensures
            name@ == self.spec_variant_name(),
    {
        match self {
            Error::AccessDenied(_) => "AccessDenied",
            Error::NoSuchData => "NoSuchData",
            Error::DataExists => "DataExists",
            Error::NoSuchEntry => "NoSuchEntry",
            Error::InvalidOperation => "InvalidOperation",
            Error::InvalidSignature => "InvalidSignature",
            Error::InsufficientBalance => "InsufficientBalance",
            Error::NoSuchSender => "NoSuchSender",
            Error::NoSuchRecipient => "NoSuchRecipient",
            Error::FailedToParse(_) => "FailedToParse",
            Error::NetworkData(_) => "NetworkData",
        }
    }

    /// The debug text of the error, as `{:?}` prints it.
    pub fn debug_string(&self) -> (text: String)
        ensures
            text@ == self.spec_debug(),
    {
        let payload: Option<String> = match self {
            Error::AccessDenied(key) => Some(debug_of_key(key)),
            Error::FailedToParse(text) => Some(debug_of_text(text.as_str())),
            Error::NetworkData(text) => Some(debug_of_text(text.as_str())),
            _ => None,
        };
        let name = String::from_str(self.variant_name());
        match payload {
            Some(payload) => name.concat("(").concat(payload.as_str()).concat(")"),
            None => name,
        }
    }
}

} // verus!
