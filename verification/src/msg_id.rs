//! Message identifiers.

use vstd::prelude::*;
use vstd::string::StringExecFns;
use xor_name::XorName;
use crate::address::{debug_of_name, name_debug, names_equal, random_name};

verus! {

/// Identifier of one message. It serves causal correlation only: a response
/// or an error names the identifier of the message that caused it.
#[derive(Ord, PartialOrd, Clone, Copy, Eq, PartialEq, Hash, Debug)]
pub struct MessageId(pub XorName);

impl MessageId {
    /// The debug text of the identifier: `MessageId`, and the debug text of
    /// its address in round brackets.
    pub open spec fn spec_debug(&self) -> Seq<char> {
        "MessageId("@ + name_debug(self.0) + ")"@
    }

    /// Generates a new identifier from a random address.
    ///
    /// The address comes from the operating system's random source, so no two
    /// calls are related and nothing is known about the result.
    pub fn new() -> MessageId {
        MessageId(random_name())
    }

    /// Whether the two identifiers are the same.
    pub fn equals(&self, other: &MessageId) -> (same: bool)
        ensures
            same == (*self == *other),
    {
        names_equal(&self.0, &other.0)
    }

    /// The debug text of the identifier, as `{:?}` prints it.
    pub fn debug_string(&self) -> (text: String)
        ensures
            text@ == self.spec_debug(),
    {
        String::from_str("MessageId(").concat(debug_of_name(&self.0).as_str()).concat(")")
    }
}

} // verus!
