//! Queries about the layout of the network.

use vstd::prelude::*;
use sn_data_types::SectionElders;
use xor_name::XorName;

verus! {

/// A question about which section is responsible for a name, or its answer.
#[derive(Debug, Eq, PartialEq, Clone)]
pub enum Query {
    /// Ask for the section that is responsible for this name.
    GetSectionRequest(XorName),
    /// The elders of the section that is responsible.
    GetSectionResponse(SectionElders),
}

} // verus!
