//! Queries: requests that read state.

use vstd::prelude::*;
use vstd::string::StringExecFns;
use xor_name::XorName;
use super::data::DataQuery;
use super::errors::Error;
use super::query_response::QueryResponse;
use super::transfer::TransferQuery;
use crate::data_types::debug_of;

verus! {

/// A request that reads state. Every query is answered with exactly one
/// `QueryResponse`, of the variant that belongs to the query.
#[allow(clippy::large_enum_variant)]
#[derive(Hash, Eq, PartialEq, Debug, Clone)]
pub enum Query {
    /// Read data.
    Data(DataQuery),
    /// Ask about the tokens of a key.
    Transfer(TransferQuery),
    /// Get the latest cost for writing the given number of bytes to the network.
    GetStoreCost {
        /// The number of bytes to write.
        bytes: u64,
        /// The hash of the data.
        data_name: XorName,
    },
}

impl Query {
    /// The response that reports `error` for this query: the variant that
    /// answers the query, holding the error.
    pub open spec fn spec_error(&self, error: Error) -> QueryResponse {
        match self {
            Query::Data(query) => query.spec_error(error),
            Query::Transfer(query) => query.spec_error(error),
            Query::GetStoreCost { .. } => QueryResponse::GetStoreCost(Err(error)),
        }
    }

    /// The address that the query is for: of the data it reads, of the key it
    /// asks about, or the one it names.
    pub open spec fn spec_dst_address(&self) -> XorName {
        match self {
            Query::Data(query) => query.spec_dst_address(),
            Query::Transfer(query) => query.spec_dst_address(),
            Query::GetStoreCost { data_name, .. } => *data_name,
        }
    }

    /// The debug text of the query, where this layer decides it: a query
    /// about tokens is printed as `Transfer` with the text of that query in
    /// round brackets. Any other query is printed as its parts print
    /// themselves.
    pub open spec fn spec_debug(&self) -> Option<Seq<char>> {
        match self {
            Query::Transfer(query) => Some("Transfer("@ + query.spec_debug() + ")"@),
            _ => None,
        }
    }

    /// Creates a response containing an error, of the variant that answers
    /// this query.
    pub fn error(&self, error: Error) -> (response: QueryResponse)
        ensures
            response == self.spec_error(error),
    {
        match self {
            Query::Data(query) => query.error(error),
            Query::Transfer(query) => query.error(error),
            Query::GetStoreCost { .. } => QueryResponse::GetStoreCost(Err(error)),
        }
    }

    /// Returns the address of the destination for the query.
    pub fn dst_address(&self) -> (address: XorName)
        ensures
            address == self.spec_dst_address(),
    {
        match self {
            Query::Data(query) => query.dst_address(),
            Query::Transfer(query) => query.dst_address(),
            Query::GetStoreCost { data_name, .. } => *data_name,
        }
    }

    /// The debug text of the query.
    pub fn debug_string(&self) -> (text: String)
        ensures
            self.spec_debug() matches Some(expected) ==> text@ == expected,
    {
        match self {
            Query::Transfer(query) => String::from_str("Transfer(").concat(
                query.debug_string().as_str(),
            ).concat(")"),
            _ => debug_of(self),
        }
    }
}

/// Shape symmetry: the response that reports an error for a query holds
/// exactly that error, and which variant it is depends on the query alone,
/// never on the error.
pub proof fn lemma_error_response_is_paired(query: Query, error: Error, other: Error)
    ensures
        query.spec_error(error).spec_error() == Some(error),
        !query.spec_error(error).spec_is_success(),
        query.spec_error(error).spec_variant_name() == query.spec_error(other).spec_variant_name(),
{
}

/// The destination of a query is a function of the query: equal queries
/// have equal destinations.
pub proof fn lemma_query_dst_address_is_a_function(first: Query, second: Query)
    requires
        first == second,
    ensures
        first.spec_dst_address() == second.spec_dst_address(),
{
}

} // verus!
