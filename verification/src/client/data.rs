//! Operations on stored data: reading and writing blobs, maps, sequences
//! and registers.
//!
//! Every operation knows the address it is for, and every read knows which
//! response answers it. Both follow from the operation alone.

use vstd::prelude::*;
use sn_data_types::register::{Address as RegisterAddress, Register, User as RegisterUser};
use sn_data_types::{
    Blob, BlobAddress, MapAddress, MapEntryActions, MapPermissionSet, PublicKey, Sequence,
    SequenceAddress, SequenceIndex, SequenceUser, Signature,
};
use xor_name::XorName;
use super::errors::Error;
use super::query_response::QueryResponse;
use super::CmdError;
use crate::data_types::{
    blob_address_name, blob_name, map_address_name, map_name, name_of_blob,
    name_of_blob_address, name_of_map, name_of_map_address, name_of_register,
    name_of_register_address, name_of_sequence, name_of_sequence_address,
    register_address_name, register_name, sequence_address_name, sequence_name,
};

verus! {

/// Reading of a blob.
#[allow(clippy::large_enum_variant)]
#[derive(Hash, Eq, PartialEq, Debug, Clone)]
pub enum BlobRead {
    /// Get the blob at this address.
    Get(BlobAddress),
}

impl BlobRead {
    /// The response that reports `error` for this query: the variant that
    /// answers it, holding the error.
    pub open spec fn spec_error(&self, error: Error) -> QueryResponse {
        match self {
            BlobRead::Get(_) => QueryResponse::GetBlob(Err(error)),
        }
    }

    /// The address of the blob that the query reads.
    pub open spec fn spec_dst_address(&self) -> XorName {
        match self {
            BlobRead::Get(address) => blob_address_name(*address),
        }
    }

    /// Creates a response containing an error, of the variant that answers
    /// this query.
    pub fn error(&self, error: Error) -> (response: QueryResponse)
        ensures
            response == self.spec_error(error),
    {
        match self {
            BlobRead::Get(_) => QueryResponse::GetBlob(Err(error)),
        }
    }

    /// Returns the address of the destination for the query.
    pub fn dst_address(&self) -> (address: XorName)
        ensures
            address == self.spec_dst_address(),
    {
        match self {
            BlobRead::Get(address) => name_of_blob_address(address),
        }
    }
}

/// Writing of a blob.
#[allow(clippy::large_enum_variant)]
#[derive(Eq, PartialEq, Debug, Clone)]
pub enum BlobWrite {
    /// Store a new blob. Its address is the hash of its content.
    New(Blob),
    /// Delete the private blob at this address.
    DeletePrivate(BlobAddress),
}

impl BlobWrite {
    /// The error that reports `error` for this command: a data error.
    pub open spec fn spec_error(&self, error: Error) -> CmdError {
        CmdError::Data(error)
    }

    /// The address of the blob that the command writes.
    pub open spec fn spec_dst_address(&self) -> XorName {
        match self {
            BlobWrite::New(blob) => blob_name(*blob),
            BlobWrite::DeletePrivate(address) => blob_address_name(*address),
        }
    }

    /// Creates the error that reports `error` for this command.
    pub fn error(&self, error: Error) -> (cmd_error: CmdError)
        ensures
            cmd_error == self.spec_error(error),
    {
        CmdError::Data(error)
    }

    /// Returns the address of the destination for the command.
    pub fn dst_address(&self) -> (address: XorName)
        ensures
            address == self.spec_dst_address(),
    {
        match self {
            BlobWrite::New(blob) => name_of_blob(blob),
            BlobWrite::DeletePrivate(address) => name_of_blob_address(address),
        }
    }
}

/// Reading of a map.
#[allow(clippy::large_enum_variant)]
#[derive(Hash, Eq, PartialEq, Debug, Clone)]
pub enum MapRead {
    /// Get the map.
    Get(MapAddress),
    /// Get the value under a key.
    GetValue {
        /// The address of the map.
        address: MapAddress,
        /// The key to look up.
        key: Vec<u8>,
    },
    /// Get the map without its entries.
    GetShell(MapAddress),
    /// Get the version of the map.
    GetVersion(MapAddress),
    /// List all entries.
    ListEntries(MapAddress),
    /// List all keys.
    ListKeys(MapAddress),
    /// List all values.
    ListValues(MapAddress),
    /// List the permissions of all users.
    ListPermissions(MapAddress),
    /// List the permissions of one user.
    ListUserPermissions {
        /// The address of the map.
        address: MapAddress,
        /// The user whose permissions are asked for.
        user: PublicKey,
    },
}

impl MapRead {
    /// The response that reports `error` for this query: the variant that
    /// answers it, holding the error.
    pub open spec fn spec_error(&self, error: Error) -> QueryResponse {
        match self {
            MapRead::Get(_) => QueryResponse::GetMap(Err(error)),
            MapRead::GetValue { .. } => QueryResponse::GetMapValue(Err(error)),
            MapRead::GetShell(_) => QueryResponse::GetMapShell(Err(error)),
            MapRead::GetVersion(_) => QueryResponse::GetMapVersion(Err(error)),
            MapRead::ListEntries(_) => QueryResponse::ListMapEntries(Err(error)),
            MapRead::ListKeys(_) => QueryResponse::ListMapKeys(Err(error)),
            MapRead::ListValues(_) => QueryResponse::ListMapValues(Err(error)),
            MapRead::ListPermissions(_) => QueryResponse::ListMapPermissions(Err(error)),
            MapRead::ListUserPermissions { .. } => QueryResponse::ListMapUserPermissions(
                Err(error),
            ),
        }
    }

    /// The address of the map that the query reads.
    pub open spec fn spec_dst_address(&self) -> XorName {
        match self {
            MapRead::Get(address) => map_address_name(*address),
            MapRead::GetValue { address, .. } => map_address_name(*address),
            MapRead::GetShell(address) => map_address_name(*address),
            MapRead::GetVersion(address) => map_address_name(*address),
            MapRead::ListEntries(address) => map_address_name(*address),
            MapRead::ListKeys(address) => map_address_name(*address),
            MapRead::ListValues(address) => map_address_name(*address),
            MapRead::ListPermissions(address) => map_address_name(*address),
            MapRead::ListUserPermissions { address, .. } => map_address_name(*address),
        }
    }

    /// Creates a response containing an error, of the variant that answers
    /// this query.
    pub fn error(&self, error: Error) -> (response: QueryResponse)
        ensures
            response == self.spec_error(error),
    {
        match self {
            MapRead::Get(_) => QueryResponse::GetMap(Err(error)),
            MapRead::GetValue { .. } => QueryResponse::GetMapValue(Err(error)),
            MapRead::GetShell(_) => QueryResponse::GetMapShell(Err(error)),
            MapRead::GetVersion(_) => QueryResponse::GetMapVersion(Err(error)),
            MapRead::ListEntries(_) => QueryResponse::ListMapEntries(Err(error)),
            MapRead::ListKeys(_) => QueryResponse::ListMapKeys(Err(error)),
            MapRead::ListValues(_) => QueryResponse::ListMapValues(Err(error)),
            MapRead::ListPermissions(_) => QueryResponse::ListMapPermissions(Err(error)),
            MapRead::ListUserPermissions { .. } => QueryResponse::ListMapUserPermissions(
                Err(error),
            ),
        }
    }

    /// Returns the address of the destination for the query.
    pub fn dst_address(&self) -> (address: XorName)
        ensures
            address == self.spec_dst_address(),
    {
        match self {
            MapRead::Get(address) => name_of_map_address(address),
            MapRead::GetValue { address, .. } => name_of_map_address(address),
            MapRead::GetShell(address) => name_of_map_address(address),
            MapRead::GetVersion(address) => name_of_map_address(address),
            MapRead::ListEntries(address) => name_of_map_address(address),
            MapRead::ListKeys(address) => name_of_map_address(address),
            MapRead::ListValues(address) => name_of_map_address(address),
            MapRead::ListPermissions(address) => name_of_map_address(address),
            MapRead::ListUserPermissions { address, .. } => name_of_map_address(address),
        }
    }
}

/// Writing of a map.
#[allow(clippy::large_enum_variant)]
#[derive(Eq, PartialEq, Debug, Clone)]
pub enum MapWrite {
    /// Store a new map under the name it carries.
    New(sn_data_types::Map),
    /// Delete the map.
    Delete(MapAddress),
    /// Change entries.
    Edit {
        /// The address of the map.
        address: MapAddress,
        /// The changes to its entries.
        changes: MapEntryActions,
    },
    /// Delete the permissions of one user.
    DelUserPermissions {
        /// The address of the map.
        address: MapAddress,
        /// The user to delete the permissions of.
        user: PublicKey,
        /// The version that the change leads to.
        version: u64,
    },
    /// Set the permissions of one user.
    SetUserPermissions {
        /// The address of the map.
        address: MapAddress,
        /// The user to set the permissions of.
        user: PublicKey,
        /// The new permissions.
        permissions: MapPermissionSet,
        /// The version that the change leads to.
        version: u64,
    },
}

impl MapWrite {
    /// The error that reports `error` for this command: a data error.
    pub open spec fn spec_error(&self, error: Error) -> CmdError {
        CmdError::Data(error)
    }

    /// The address of the map that the command writes.
    pub open spec fn spec_dst_address(&self) -> XorName {
        match self {
            MapWrite::New(map) => map_name(*map),
            MapWrite::Delete(address) => map_address_name(*address),
            MapWrite::Edit { address, .. } => map_address_name(*address),
            MapWrite::DelUserPermissions { address, .. } => map_address_name(*address),
            MapWrite::SetUserPermissions { address, .. } => map_address_name(*address),
        }
    }

    /// Creates the error that reports `error` for this command.
    pub fn error(&self, error: Error) -> (cmd_error: CmdError)
        ensures
            cmd_error == self.spec_error(error),
    {
        CmdError::Data(error)
    }

    /// Returns the address of the destination for the command.
    pub fn dst_address(&self) -> (address: XorName)
        ensures
            address == self.spec_dst_address(),
    {
        match self {
            MapWrite::New(map) => name_of_map(map),
            MapWrite::Delete(address) => name_of_map_address(address),
            MapWrite::Edit { address, .. } => name_of_map_address(address),
            MapWrite::DelUserPermissions { address, .. } => name_of_map_address(address),
            MapWrite::SetUserPermissions { address, .. } => name_of_map_address(address),
        }
    }
}

/// One change to a sequence, as its author signed it.
#[derive(Eq, PartialEq, Debug, Clone)]
pub struct SequenceEdit {
    /// The address of the sequence.
    pub address: SequenceAddress,
    /// The operation to apply, in the serialised form of the data-type layer.
    pub crdt_op: Vec<u8>,
    /// The key of the author.
    pub source: PublicKey,
    /// The author's signature over the operation.
    pub signature: Option<Signature>,
}

/// One change to a register, as its author signed it.
#[derive(Eq, PartialEq, Debug, Clone)]
pub struct RegisterEdit {
    /// The address of the register.
    pub address: RegisterAddress,
    /// The operation to apply, in the serialised form of the data-type layer.
    pub crdt_op: Vec<u8>,
    /// The key of the author.
    pub source: PublicKey,
    /// The author's signature over the operation.
    pub signature: Option<Signature>,
}

/// Reading of a sequence.
#[allow(clippy::large_enum_variant)]
#[derive(Hash, Eq, PartialEq, Debug, Clone)]
pub enum SequenceRead {
    /// Get the sequence.
    Get(SequenceAddress),
    /// Get the entries in a range.
    GetRange {
        /// The address of the sequence.
        address: SequenceAddress,
        /// Where the range starts.
        start: SequenceIndex,
        /// Where the range ends.
        end: SequenceIndex,
    },
    /// Get the last entry.
    GetLastEntry(SequenceAddress),
    /// Get the policy of a public sequence.
    GetPublicPolicy(SequenceAddress),
    /// Get the policy of a private sequence.
    GetPrivatePolicy(SequenceAddress),
    /// Get the permissions of one user.
    GetUserPermissions {
        /// The address of the sequence.
        address: SequenceAddress,
        /// The user whose permissions are asked for.
        user: SequenceUser,
    },
}

impl SequenceRead {
    /// The response that reports `error` for this query: the variant that
    /// answers it, holding the error.
    pub open spec fn spec_error(&self, error: Error) -> QueryResponse {
        match self {
            SequenceRead::Get(_) => QueryResponse::GetSequence(Err(error)),
            SequenceRead::GetRange { .. } => QueryResponse::GetSequenceRange(Err(error)),
            SequenceRead::GetLastEntry(_) => QueryResponse::GetSequenceLastEntry(Err(error)),
            SequenceRead::GetPublicPolicy(_) => QueryResponse::GetSequencePublicPolicy(Err(error)),
            SequenceRead::GetPrivatePolicy(_) => QueryResponse::GetSequencePrivatePolicy(
                Err(error),
            ),
            SequenceRead::GetUserPermissions { .. } => QueryResponse::GetSequenceUserPermissions(
                Err(error),
            ),
        }
    }

    /// The address of the sequence that the query reads.
    pub open spec fn spec_dst_address(&self) -> XorName {
        match self {
            SequenceRead::Get(address) => sequence_address_name(*address),
            SequenceRead::GetRange { address, .. } => sequence_address_name(*address),
            SequenceRead::GetLastEntry(address) => sequence_address_name(*address),
            SequenceRead::GetPublicPolicy(address) => sequence_address_name(*address),
            SequenceRead::GetPrivatePolicy(address) => sequence_address_name(*address),
            SequenceRead::GetUserPermissions { address, .. } => sequence_address_name(*address),
        }
    }

    /// Creates a response containing an error, of the variant that answers
    /// this query.
    pub fn error(&self, error: Error) -> (response: QueryResponse)
        ensures
            response == self.spec_error(error),
    {
        match self {
            SequenceRead::Get(_) => QueryResponse::GetSequence(Err(error)),
            SequenceRead::GetRange { .. } => QueryResponse::GetSequenceRange(Err(error)),
            SequenceRead::GetLastEntry(_) => QueryResponse::GetSequenceLastEntry(Err(error)),
            SequenceRead::GetPublicPolicy(_) => QueryResponse::GetSequencePublicPolicy(Err(error)),
            SequenceRead::GetPrivatePolicy(_) => QueryResponse::GetSequencePrivatePolicy(
                Err(error),
            ),
            SequenceRead::GetUserPermissions { .. } => QueryResponse::GetSequenceUserPermissions(
                Err(error),
            ),
        }
    }

    /// Returns the address of the destination for the query.
    pub fn dst_address(&self) -> (address: XorName)
        ensures
            address == self.spec_dst_address(),
    {
        match self {
            SequenceRead::Get(address) => name_of_sequence_address(address),
            SequenceRead::GetRange { address, .. } => name_of_sequence_address(address),
            SequenceRead::GetLastEntry(address) => name_of_sequence_address(address),
            SequenceRead::GetPublicPolicy(address) => name_of_sequence_address(address),
            SequenceRead::GetPrivatePolicy(address) => name_of_sequence_address(address),
            SequenceRead::GetUserPermissions { address, .. } => name_of_sequence_address(address),
        }
    }
}

/// Writing of a sequence.
#[allow(clippy::large_enum_variant)]
#[derive(Eq, PartialEq, Debug, Clone)]
pub enum SequenceWrite {
    /// Store a new sequence under the name it carries.
    New(Sequence),
    /// Apply a change.
    Edit(SequenceEdit),
    /// Delete the sequence, which must be private.
    Delete(SequenceAddress),
}

impl SequenceWrite {
    /// The error that reports `error` for this command: a data error.
    pub open spec fn spec_error(&self, error: Error) -> CmdError {
        CmdError::Data(error)
    }

    /// The address of the sequence that the command writes.
    pub open spec fn spec_dst_address(&self) -> XorName {
        match self {
            SequenceWrite::New(sequence) => sequence_name(*sequence),
            SequenceWrite::Edit(edit) => sequence_address_name(edit.address),
            SequenceWrite::Delete(address) => sequence_address_name(*address),
        }
    }

    /// Creates the error that reports `error` for this command.
    pub fn error(&self, error: Error) -> (cmd_error: CmdError)
        ensures
            cmd_error == self.spec_error(error),
    {
        CmdError::Data(error)
    }

    /// Returns the address of the destination for the command.
    pub fn dst_address(&self) -> (address: XorName)
        ensures
            address == self.spec_dst_address(),
    {
        match self {
            SequenceWrite::New(sequence) => name_of_sequence(sequence),
            SequenceWrite::Edit(edit) => name_of_sequence_address(&edit.address),
            SequenceWrite::Delete(address) => name_of_sequence_address(address),
        }
    }
}

/// Reading of a register.
#[allow(clippy::large_enum_variant)]
#[derive(Hash, Eq, PartialEq, Debug, Clone)]
pub enum RegisterRead {
    /// Get the register.
    Get(RegisterAddress),
    /// Read the current entries.
    Read(RegisterAddress),
    /// Get the policy.
    GetPolicy(RegisterAddress),
    /// Get the permissions of one user.
    GetUserPermissions {
        /// The address of the register.
        address: RegisterAddress,
        /// The user whose permissions are asked for.
        user: RegisterUser,
    },
    /// Get the owner.
    GetOwner(RegisterAddress),
}

impl RegisterRead {
    /// The response that reports `error` for this query: the variant that
    /// answers it, holding the error.
    pub open spec fn spec_error(&self, error: Error) -> QueryResponse {
        match self {
            RegisterRead::Get(_) => QueryResponse::GetRegister(Err(error)),
            RegisterRead::Read(_) => QueryResponse::ReadRegister(Err(error)),
            RegisterRead::GetPolicy(_) => QueryResponse::GetRegisterPolicy(Err(error)),
            RegisterRead::GetUserPermissions { .. } => QueryResponse::GetRegisterUserPermissions(
                Err(error),
            ),
            RegisterRead::GetOwner(_) => QueryResponse::GetRegisterOwner(Err(error)),
        }
    }

    /// The address of the register that the query reads.
    pub open spec fn spec_dst_address(&self) -> XorName {
        match self {
            RegisterRead::Get(address) => register_address_name(*address),
            RegisterRead::Read(address) => register_address_name(*address),
            RegisterRead::GetPolicy(address) => register_address_name(*address),
            RegisterRead::GetUserPermissions { address, .. } => register_address_name(*address),
            RegisterRead::GetOwner(address) => register_address_name(*address),
        }
    }

    /// Creates a response containing an error, of the variant that answers
    /// this query.
    pub fn error(&self, error: Error) -> (response: QueryResponse)
        ensures
            response == self.spec_error(error),
    {
        match self {
            RegisterRead::Get(_) => QueryResponse::GetRegister(Err(error)),
            RegisterRead::Read(_) => QueryResponse::ReadRegister(Err(error)),
            RegisterRead::GetPolicy(_) => QueryResponse::GetRegisterPolicy(Err(error)),
            RegisterRead::GetUserPermissions { .. } => QueryResponse::GetRegisterUserPermissions(
                Err(error),
            ),
            RegisterRead::GetOwner(_) => QueryResponse::GetRegisterOwner(Err(error)),
        }
    }

    /// Returns the address of the destination for the query.
    pub fn dst_address(&self) -> (address: XorName)
        ensures
            address == self.spec_dst_address(),
    {
        match self {
            RegisterRead::Get(address) => name_of_register_address(address),
            RegisterRead::Read(address) => name_of_register_address(address),
            RegisterRead::GetPolicy(address) => name_of_register_address(address),
            RegisterRead::GetUserPermissions { address, .. } => name_of_register_address(address),
            RegisterRead::GetOwner(address) => name_of_register_address(address),
        }
    }
}

/// Writing of a register.
#[allow(clippy::large_enum_variant)]
#[derive(Eq, PartialEq, Debug, Clone)]
pub enum RegisterWrite {
    /// Store a new register under the name it carries.
    New(Register),
    /// Apply a change.
    Edit(RegisterEdit),
    /// Delete the register, which must be private.
    Delete(RegisterAddress),
}

impl RegisterWrite {
    /// The error that reports `error` for this command: a data error.
    pub open spec fn spec_error(&self, error: Error) -> CmdError {
        CmdError::Data(error)
    }

    /// The address of the register that the command writes.
    pub open spec fn spec_dst_address(&self) -> XorName {
        match self {
            RegisterWrite::New(register) => register_name(*register),
            RegisterWrite::Edit(edit) => register_address_name(edit.address),
            RegisterWrite::Delete(address) => register_address_name(*address),
        }
    }

    /// Creates the error that reports `error` for this command.
    pub fn error(&self, error: Error) -> (cmd_error: CmdError)
        ensures
            cmd_error == self.spec_error(error),
    {
        CmdError::Data(error)
    }

    /// Returns the address of the destination for the command.
    pub fn dst_address(&self) -> (address: XorName)
        ensures
            address == self.spec_dst_address(),
    {
        match self {
            RegisterWrite::New(register) => name_of_register(register),
            RegisterWrite::Edit(edit) => name_of_register_address(&edit.address),
            RegisterWrite::Delete(address) => name_of_register_address(address),
        }
    }
}

/// A command that writes data.
#[allow(clippy::large_enum_variant)]
#[derive(Eq, PartialEq, Debug, Clone)]
pub enum DataCmd {
    /// Write a blob.
    Blob(BlobWrite),
    /// Write a map.
    MapData(MapWrite),
    /// Write a sequence.
    Sequence(SequenceWrite),
    /// Write a register.
    Register(RegisterWrite),
}

impl DataCmd {
    /// The error that reports `error` for this command: that of the operation
    /// inside.
    pub open spec fn spec_error(&self, error: Error) -> CmdError {
        match self {
            DataCmd::Blob(op) => op.spec_error(error),
            DataCmd::MapData(op) => op.spec_error(error),
            DataCmd::Sequence(op) => op.spec_error(error),
            DataCmd::Register(op) => op.spec_error(error),
        }
    }

    /// The address of the data that the command is for.
    pub open spec fn spec_dst_address(&self) -> XorName {
        match self {
            DataCmd::Blob(op) => op.spec_dst_address(),
            DataCmd::MapData(op) => op.spec_dst_address(),
            DataCmd::Sequence(op) => op.spec_dst_address(),
            DataCmd::Register(op) => op.spec_dst_address(),
        }
    }

    /// Creates the error that reports `error` for this command.
    pub fn error(&self, error: Error) -> (cmd_error: CmdError)
        ensures
            cmd_error == self.spec_error(error),
    {
        match self {
            DataCmd::Blob(op) => op.error(error),
            DataCmd::MapData(op) => op.error(error),
            DataCmd::Sequence(op) => op.error(error),
            DataCmd::Register(op) => op.error(error),
        }
    }

    /// Returns the address of the destination for the command.
    pub fn dst_address(&self) -> (address: XorName)
        ensures
            address == self.spec_dst_address(),
    {
        match self {
            DataCmd::Blob(op) => op.dst_address(),
            DataCmd::MapData(op) => op.dst_address(),
            DataCmd::Sequence(op) => op.dst_address(),
            DataCmd::Register(op) => op.dst_address(),
        }
    }
}

/// A query that reads data.
#[allow(clippy::large_enum_variant)]
#[derive(Hash, Eq, PartialEq, Debug, Clone)]
pub enum DataQuery {
    /// Read a blob.
    Blob(BlobRead),
    /// Read a map.
    MapData(MapRead),
    /// Read a sequence.
    Sequence(SequenceRead),
    /// Read a register.
    Register(RegisterRead),
}

impl DataQuery {
    /// The response that reports `error` for this query: that of the operation
    /// inside.
    pub open spec fn spec_error(&self, error: Error) -> QueryResponse {
        match self {
            DataQuery::Blob(op) => op.spec_error(error),
            DataQuery::MapData(op) => op.spec_error(error),
            DataQuery::Sequence(op) => op.spec_error(error),
            DataQuery::Register(op) => op.spec_error(error),
        }
    }

    /// The address of the data that the query is for.
    pub open spec fn spec_dst_address(&self) -> XorName {
        match self {
            DataQuery::Blob(op) => op.spec_dst_address(),
            DataQuery::MapData(op) => op.spec_dst_address(),
            DataQuery::Sequence(op) => op.spec_dst_address(),
            DataQuery::Register(op) => op.spec_dst_address(),
        }
    }

    /// Creates a response containing an error, of the variant that answers
    /// this query.
    pub fn error(&self, error: Error) -> (response: QueryResponse)
        ensures
            response == self.spec_error(error),
    {
        match self {
            DataQuery::Blob(op) => op.error(error),
            DataQuery::MapData(op) => op.error(error),
            DataQuery::Sequence(op) => op.error(error),
            DataQuery::Register(op) => op.error(error),
        }
    }

    /// Returns the address of the destination for the query.
    pub fn dst_address(&self) -> (address: XorName)
        ensures
            address == self.spec_dst_address(),
    {
        match self {
            DataQuery::Blob(op) => op.dst_address(),
            DataQuery::MapData(op) => op.dst_address(),
            DataQuery::Sequence(op) => op.dst_address(),
            DataQuery::Register(op) => op.dst_address(),
        }
    }
}

} // verus!
