//! Commands: requests that change state.

use vstd::prelude::*;
use sn_data_types::TransferAgreementProof;
use xor_name::XorName;
use super::data::DataCmd;
use super::errors::Error;
use super::transfer::TransferCmd;
use super::CmdError;

verus! {

/// A request that changes state. Success is silent; a failure is answered
/// with one `CmdError`.
#[allow(clippy::large_enum_variant)]
#[derive(Eq, PartialEq, Debug, Clone)]
pub enum Cmd {
    /// Write data, and pay for it.
    Data {
        /// The write.
        cmd: DataCmd,
        /// The proof of the payment for the write.
        payment: TransferAgreementProof,
    },
    /// Move tokens.
    Transfer(TransferCmd),
}

impl Cmd {
    /// The error that reports `error` for this command: that of the operation
    /// inside.
    pub open spec fn spec_error(&self, error: Error) -> CmdError {
        match self {
            Cmd::Data { cmd, .. } => cmd.spec_error(error),
            Cmd::Transfer(cmd) => cmd.spec_error(error),
        }
    }

    /// The address that the command is for: of the data it writes, or of the
    /// key it takes tokens from.
    pub open spec fn spec_dst_address(&self) -> XorName {
        match self {
            Cmd::Data { cmd, .. } => cmd.spec_dst_address(),
            Cmd::Transfer(cmd) => cmd.spec_dst_address(),
        }
    }

    /// Creates the error that reports `error` for this command.
    pub fn error(&self, error: Error) -> (cmd_error: CmdError)
        ensures
            cmd_error == self.spec_error(error),
    {
        match self {
            Cmd::Data { cmd, .. } => cmd.error(error),
            Cmd::Transfer(cmd) => cmd.error(error),
        }
    }

    /// Returns the address of the destination for the command.
    pub fn dst_address(&self) -> (address: XorName)
        ensures
            address == self.spec_dst_address(),
    {
        match self {
            Cmd::Data { cmd, .. } => cmd.dst_address(),
            Cmd::Transfer(cmd) => cmd.dst_address(),
        }
    }
}

/// The destination of a command is a function of the command: equal commands
/// have equal destinations.
pub proof fn lemma_cmd_dst_address_is_a_function(first: Cmd, second: Cmd)
    requires
        first == second,
    ensures
        first.spec_dst_address() == second.spec_dst_address(),
{
}

} // verus!
