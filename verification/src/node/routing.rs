//! Messages of the routing layer.

use vstd::prelude::*;

verus! {

/// A message of the routing layer, carried as the bytes that layer made.
#[derive(Debug, Eq, PartialEq, Clone)]
pub struct RoutingMessage(pub Vec<u8>);

} // verus!
