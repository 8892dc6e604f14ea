//! Who a message comes from.

use vstd::prelude::*;
use sn_data_types::PublicKey;
use xor_name::XorName;
use crate::data_types::{key_name, name_of_key};

verus! {

/// An end user of the network: a client outside it, on whose behalf nodes act.
#[derive(Debug, Clone, Copy, PartialEq, Eq, Hash)]
pub enum EndUser {
    /// All the clients that use this key.
    AllClients(PublicKey),
    /// One client, told apart from others with the same key by the
    /// identifier of its connection.
    Client {
        /// The key of the client.
        public_key: PublicKey,
        /// The identifier of the connection.
        socket_id: XorName,
    },
}

impl EndUser {
    /// The key of the user.
    pub open spec fn spec_id(&self) -> PublicKey {
        match self {
            EndUser::AllClients(public_key) => *public_key,
            EndUser::Client { public_key, .. } => *public_key,
        }
    }

    /// The address of the user: the address of its key.
    pub open spec fn spec_name(&self) -> XorName {
        key_name(self.spec_id())
    }

    /// The key of the user.
    pub fn id(&self) -> (key: &PublicKey)
        ensures
            *key == self.spec_id(),
    {
        match self {
            EndUser::AllClients(public_key) => public_key,
            EndUser::Client { public_key, .. } => public_key,
        }
    }

    /// The address of the user: the address of its key.
    pub fn name(&self) -> (name: XorName)
        ensures
            name == self.spec_name(),
    {
        name_of_key(self.id())
    }
}

/// Where a message comes from.
#[derive(Debug, Clone, Copy, PartialEq, Eq, Hash)]
pub enum SrcLocation {
    /// An end user.
    EndUser(EndUser),
    /// A single node with the given name.
    Node(XorName),
    /// A section: the nodes closest to the given name.
    Section(XorName),
}

impl SrcLocation {
    /// The address of the sender: of the user, the node or the section.
    pub open spec fn spec_name(&self) -> XorName {
        match self {
            SrcLocation::EndUser(user) => user.spec_name(),
            SrcLocation::Node(name) => *name,
            SrcLocation::Section(name) => *name,
        }
    }

    /// The address of the sender, to which an error can be routed back.
    pub fn name(&self) -> (name: XorName)
        ensures
            name == self.spec_name(),
    {
        match self {
            SrcLocation::EndUser(user) => user.name(),
            SrcLocation::Node(name) => *name,
            SrcLocation::Section(name) => *name,
        }
    }
}

} // verus!
