//! The values that messages carry from the data-type layer.
//!
//! This layer never looks inside a payload. Each type of `sn_data_types` that a
//! message holds is declared here as an indivisible value; the few questions
//! the protocol asks of one (under which address it lives, who sent it) are
//! answered by that crate's own accessors.

use vstd::prelude::*;
use xor_name::XorName;

verus! {

/// `sn_data_types::Blob`: an immutable chunk of data, public or private.
#[verifier::external_type_specification]
#[verifier::external_body]
pub struct ExBlob(sn_data_types::Blob);

/// `sn_data_types::BlobAddress`: the address of a blob.
#[verifier::external_type_specification]
#[verifier::external_body]
pub struct ExBlobAddress(sn_data_types::BlobAddress);

/// `sn_data_types::Map`: a key-value store, sequenced or unsequenced.
#[verifier::external_type_specification]
#[verifier::external_body]
pub struct ExMap(sn_data_types::Map);

/// `sn_data_types::MapAddress`: the address of a map.
#[verifier::external_type_specification]
#[verifier::external_body]
pub struct ExMapAddress(sn_data_types::MapAddress);

/// `sn_data_types::MapEntries`: all entries of a map.
#[verifier::external_type_specification]
#[verifier::external_body]
pub struct ExMapEntries(sn_data_types::MapEntries);

/// `sn_data_types::MapEntryActions`: a batch of changes to the entries of a map.
#[verifier::external_type_specification]
#[verifier::external_body]
pub struct ExMapEntryActions(sn_data_types::MapEntryActions);

/// `sn_data_types::MapPermissionSet`: what one user may do to a map.
#[verifier::external_type_specification]
#[verifier::external_body]
pub struct ExMapPermissionSet(sn_data_types::MapPermissionSet);

/// `sn_data_types::MapValue`: one value of a map.
#[verifier::external_type_specification]
#[verifier::external_body]
pub struct ExMapValue(sn_data_types::MapValue);

/// `sn_data_types::MapValues`: all values of a map.
#[verifier::external_type_specification]
#[verifier::external_body]
pub struct ExMapValues(sn_data_types::MapValues);

/// `sn_data_types::Sequence`: an append-only sequence.
#[verifier::external_type_specification]
#[verifier::external_body]
pub struct ExSequence(sn_data_types::Sequence);

/// `sn_data_types::SequenceAddress`: the address of a sequence.
#[verifier::external_type_specification]
#[verifier::external_body]
pub struct ExSequenceAddress(sn_data_types::SequenceAddress);

/// `sn_data_types::SequenceIndex`: a position in a sequence, counted from its start or its end.
#[verifier::external_type_specification]
#[verifier::external_body]
pub struct ExSequenceIndex(sn_data_types::SequenceIndex);

/// `sn_data_types::SequenceUser`: whom a sequence permission is for.
#[verifier::external_type_specification]
#[verifier::external_body]
pub struct ExSequenceUser(sn_data_types::SequenceUser);

/// `sn_data_types::SequencePermissions`: what one user may do to a sequence.
#[verifier::external_type_specification]
#[verifier::external_body]
pub struct ExSequencePermissions(sn_data_types::SequencePermissions);

/// `sn_data_types::SequencePublicPolicy`: owner and permissions of a public sequence.
#[verifier::external_type_specification]
#[verifier::external_body]
pub struct ExSequencePublicPolicy(sn_data_types::SequencePublicPolicy);

/// `sn_data_types::SequencePrivatePolicy`: owner and permissions of a private sequence.
#[verifier::external_type_specification]
#[verifier::external_body]
pub struct ExSequencePrivatePolicy(sn_data_types::SequencePrivatePolicy);

/// `sn_data_types::register::Register`: a register.
#[verifier::external_type_specification]
#[verifier::external_body]
pub struct ExRegister(sn_data_types::register::Register);

/// `sn_data_types::register::Address`: the address of a register.
#[verifier::external_type_specification]
#[verifier::external_body]
pub struct ExRegisterAddress(sn_data_types::register::Address);

/// `sn_data_types::register::User`: whom a register permission is for.
#[verifier::external_type_specification]
#[verifier::external_body]
pub struct ExRegisterUser(sn_data_types::register::User);

/// `sn_data_types::register::Policy`: owner and permissions of a register.
#[verifier::external_type_specification]
#[verifier::external_body]
pub struct ExRegisterPolicy(sn_data_types::register::Policy);

/// `sn_data_types::register::Permissions`: what one user may do to a register.
#[verifier::external_type_specification]
#[verifier::external_body]
pub struct ExRegisterPermissions(sn_data_types::register::Permissions);

/// `sn_data_types::PublicKey`: a public key of any supported scheme.
#[verifier::external_type_specification]
#[verifier::external_body]
pub struct ExPublicKey(sn_data_types::PublicKey);

/// `sn_data_types::Signature`: a signature of any supported scheme.
#[verifier::external_type_specification]
#[verifier::external_body]
pub struct ExSignature(sn_data_types::Signature);

/// `sn_data_types::Token`: an amount of network tokens.
#[verifier::external_type_specification]
#[verifier::external_body]
pub struct ExToken(sn_data_types::Token);

/// `sn_data_types::ActorHistory`: the credits and debits of one key.
#[verifier::external_type_specification]
#[verifier::external_body]
pub struct ExActorHistory(sn_data_types::ActorHistory);

/// `sn_data_types::TransferValidated`: one replica's validation of a transfer.
#[verifier::external_type_specification]
#[verifier::external_body]
pub struct ExTransferValidated(sn_data_types::TransferValidated);

/// `sn_data_types::TransferAgreementProof`: the replicas' accumulated agreement to a transfer.
#[verifier::external_type_specification]
#[verifier::external_body]
pub struct ExTransferAgreementProof(sn_data_types::TransferAgreementProof);

/// `sn_data_types::CreditAgreementProof`: the replicas' accumulated agreement to a credit.
#[verifier::external_type_specification]
#[verifier::external_body]
pub struct ExCreditAgreementProof(sn_data_types::CreditAgreementProof);

/// `sn_data_types::SignedTransfer`: a transfer signed by its sender.
#[verifier::external_type_specification]
#[verifier::external_body]
pub struct ExSignedTransfer(sn_data_types::SignedTransfer);

/// `sn_data_types::SectionElders`: the elders of a section and their key set.
#[verifier::external_type_specification]
#[verifier::external_body]
pub struct ExSectionElders(sn_data_types::SectionElders);

/// `Blob` derives `Clone`. Messages that hold one derive it in turn;
/// nothing is claimed about the copy.
pub assume_specification[ <sn_data_types::Blob as Clone>::clone ](
    value: &sn_data_types::Blob,
) -> sn_data_types::Blob;

/// `BlobAddress` derives `Clone`. Messages that hold one derive it in turn;
/// nothing is claimed about the copy.
pub assume_specification[ <sn_data_types::BlobAddress as Clone>::clone ](
    value: &sn_data_types::BlobAddress,
) -> sn_data_types::BlobAddress;

/// `Map` derives `Clone`. Messages that hold one derive it in turn;
/// nothing is claimed about the copy.
pub assume_specification[ <sn_data_types::Map as Clone>::clone ](
    value: &sn_data_types::Map,
) -> sn_data_types::Map;

/// `MapAddress` derives `Clone`. Messages that hold one derive it in turn;
/// nothing is claimed about the copy.
pub assume_specification[ <sn_data_types::MapAddress as Clone>::clone ](
    value: &sn_data_types::MapAddress,
) -> sn_data_types::MapAddress;

/// `MapEntries` derives `Clone`. Messages that hold one derive it in turn;
/// nothing is claimed about the copy.
pub assume_specification[ <sn_data_types::MapEntries as Clone>::clone ](
    value: &sn_data_types::MapEntries,
) -> sn_data_types::MapEntries;

/// `MapEntryActions` derives `Clone`. Messages that hold one derive it in turn;
/// nothing is claimed about the copy.
pub assume_specification[ <sn_data_types::MapEntryActions as Clone>::clone ](
    value: &sn_data_types::MapEntryActions,
) -> sn_data_types::MapEntryActions;

/// `MapPermissionSet` derives `Clone`. Messages that hold one derive it in turn;
/// nothing is claimed about the copy.
pub assume_specification[ <sn_data_types::MapPermissionSet as Clone>::clone ](
    value: &sn_data_types::MapPermissionSet,
) -> sn_data_types::MapPermissionSet;

/// `MapValue` derives `Clone`. Messages that hold one derive it in turn;
/// nothing is claimed about the copy.
pub assume_specification[ <sn_data_types::MapValue as Clone>::clone ](
    value: &sn_data_types::MapValue,
) -> sn_data_types::MapValue;

/// `MapValues` derives `Clone`. Messages that hold one derive it in turn;
/// nothing is claimed about the copy.
pub assume_specification[ <sn_data_types::MapValues as Clone>::clone ](
    value: &sn_data_types::MapValues,
) -> sn_data_types::MapValues;

/// `Sequence` derives `Clone`. Messages that hold one derive it in turn;
/// nothing is claimed about the copy.
pub assume_specification[ <sn_data_types::Sequence as Clone>::clone ](
    value: &sn_data_types::Sequence,
) -> sn_data_types::Sequence;

/// `SequenceAddress` derives `Clone`. Messages that hold one derive it in turn;
/// nothing is claimed about the copy.
pub assume_specification[ <sn_data_types::SequenceAddress as Clone>::clone ](
    value: &sn_data_types::SequenceAddress,
) -> sn_data_types::SequenceAddress;

/// `SequenceIndex` derives `Clone`. Messages that hold one derive it in turn;
/// nothing is claimed about the copy.
pub assume_specification[ <sn_data_types::SequenceIndex as Clone>::clone ](
    value: &sn_data_types::SequenceIndex,
) -> sn_data_types::SequenceIndex;

/// `SequenceUser` derives `Clone`. Messages that hold one derive it in turn;
/// nothing is claimed about the copy.
pub assume_specification[ <sn_data_types::SequenceUser as Clone>::clone ](
    value: &sn_data_types::SequenceUser,
) -> sn_data_types::SequenceUser;

/// `SequencePermissions` derives `Clone`. Messages that hold one derive it in turn;
/// nothing is claimed about the copy.
pub assume_specification[ <sn_data_types::SequencePermissions as Clone>::clone ](
    value: &sn_data_types::SequencePermissions,
) -> sn_data_types::SequencePermissions;

/// `SequencePublicPolicy` derives `Clone`. Messages that hold one derive it in turn;
/// nothing is claimed about the copy.
pub assume_specification[ <sn_data_types::SequencePublicPolicy as Clone>::clone ](
    value: &sn_data_types::SequencePublicPolicy,
) -> sn_data_types::SequencePublicPolicy;

/// `SequencePrivatePolicy` derives `Clone`. Messages that hold one derive it in turn;
/// nothing is claimed about the copy.
pub assume_specification[ <sn_data_types::SequencePrivatePolicy as Clone>::clone ](
    value: &sn_data_types::SequencePrivatePolicy,
) -> sn_data_types::SequencePrivatePolicy;

/// `register::Register` derives `Clone`. Messages that hold one derive it in turn;
/// nothing is claimed about the copy.
pub assume_specification[ <sn_data_types::register::Register as Clone>::clone ](
    value: &sn_data_types::register::Register,
) -> sn_data_types::register::Register;

/// `register::Address` derives `Clone`. Messages that hold one derive it in turn;
/// nothing is claimed about the copy.
pub assume_specification[ <sn_data_types::register::Address as Clone>::clone ](
    value: &sn_data_types::register::Address,
) -> sn_data_types::register::Address;

/// `register::User` derives `Clone`. Messages that hold one derive it in turn;
/// nothing is claimed about the copy.
pub assume_specification[ <sn_data_types::register::User as Clone>::clone ](
    value: &sn_data_types::register::User,
) -> sn_data_types::register::User;

/// `register::Policy` derives `Clone`. Messages that hold one derive it in turn;
/// nothing is claimed about the copy.
pub assume_specification[ <sn_data_types::register::Policy as Clone>::clone ](
    value: &sn_data_types::register::Policy,
) -> sn_data_types::register::Policy;

/// `register::Permissions` derives `Clone`. Messages that hold one derive it in turn;
/// nothing is claimed about the copy.
pub assume_specification[ <sn_data_types::register::Permissions as Clone>::clone ](
    value: &sn_data_types::register::Permissions,
) -> sn_data_types::register::Permissions;

/// `PublicKey` derives `Clone`. Messages that hold one derive it in turn;
/// nothing is claimed about the copy.
pub assume_specification[ <sn_data_types::PublicKey as Clone>::clone ](
    value: &sn_data_types::PublicKey,
) -> sn_data_types::PublicKey;

/// `Signature` derives `Clone`. Messages that hold one derive it in turn;
/// nothing is claimed about the copy.
pub assume_specification[ <sn_data_types::Signature as Clone>::clone ](
    value: &sn_data_types::Signature,
) -> sn_data_types::Signature;

/// `Token` derives `Clone`. Messages that hold one derive it in turn;
/// nothing is claimed about the copy.
pub assume_specification[ <sn_data_types::Token as Clone>::clone ](
    value: &sn_data_types::Token,
) -> sn_data_types::Token;

/// `ActorHistory` derives `Clone`. Messages that hold one derive it in turn;
/// nothing is claimed about the copy.
pub assume_specification[ <sn_data_types::ActorHistory as Clone>::clone ](
    value: &sn_data_types::ActorHistory,
) -> sn_data_types::ActorHistory;

/// `TransferValidated` derives `Clone`. Messages that hold one derive it in turn;
/// nothing is claimed about the copy.
pub assume_specification[ <sn_data_types::TransferValidated as Clone>::clone ](
    value: &sn_data_types::TransferValidated,
) -> sn_data_types::TransferValidated;

/// `TransferAgreementProof` derives `Clone`. Messages that hold one derive it in turn;
/// nothing is claimed about the copy.
pub assume_specification[ <sn_data_types::TransferAgreementProof as Clone>::clone ](
    value: &sn_data_types::TransferAgreementProof,
) -> sn_data_types::TransferAgreementProof;

/// `CreditAgreementProof` derives `Clone`. Messages that hold one derive it in turn;
/// nothing is claimed about the copy.
pub assume_specification[ <sn_data_types::CreditAgreementProof as Clone>::clone ](
    value: &sn_data_types::CreditAgreementProof,
) -> sn_data_types::CreditAgreementProof;

/// `SignedTransfer` derives `Clone`. Messages that hold one derive it in turn;
/// nothing is claimed about the copy.
pub assume_specification[ <sn_data_types::SignedTransfer as Clone>::clone ](
    value: &sn_data_types::SignedTransfer,
) -> sn_data_types::SignedTransfer;

/// `SectionElders` derives `Clone`. Messages that hold one derive it in turn;
/// nothing is claimed about the copy.
pub assume_specification[ <sn_data_types::SectionElders as Clone>::clone ](
    value: &sn_data_types::SectionElders,
) -> sn_data_types::SectionElders;

/// `Result` implements `Clone` where both sides do. Messages that hold a
/// result derive `Clone` in turn; nothing is claimed about the copy.
pub assume_specification<T: Clone, E: Clone>[ <std::result::Result<T, E> as Clone>::clone ](
    value: &std::result::Result<T, E>,
) -> std::result::Result<T, E>;

/// What `Blob::name` returns: the name under which a blob is stored, which
/// is the name in its address.
pub uninterp spec fn blob_name(blob: sn_data_types::Blob) -> XorName;

/// What `BlobAddress::name` returns: the name held by a blob address.
pub uninterp spec fn blob_address_name(address: sn_data_types::BlobAddress) -> XorName;

/// What `Map::name` returns: the name under which a map is stored.
pub uninterp spec fn map_name(map: sn_data_types::Map) -> XorName;

/// What `MapAddress::name` returns: the name held by a map address.
pub uninterp spec fn map_address_name(address: sn_data_types::MapAddress) -> XorName;

/// What `Sequence::name` returns: the name under which a sequence is stored.
pub uninterp spec fn sequence_name(sequence: sn_data_types::Sequence) -> XorName;

/// What `SequenceAddress::name` returns: the name held by a sequence address.
pub uninterp spec fn sequence_address_name(address: sn_data_types::SequenceAddress) -> XorName;

/// What `Register::name` returns: the name under which a register is stored.
pub uninterp spec fn register_name(register: sn_data_types::register::Register) -> XorName;

/// What `register::Address::name` returns: the name held by a register address.
pub uninterp spec fn register_address_name(address: sn_data_types::register::Address) -> XorName;

/// What `SignedTransfer::sender` returns: the key that the debit is taken from.
pub uninterp spec fn transfer_sender(
    transfer: sn_data_types::SignedTransfer,
) -> sn_data_types::PublicKey;

/// What `TransferAgreementProof::sender` returns: the key that the debit was taken from.
pub uninterp spec fn proof_sender(
    proof: sn_data_types::TransferAgreementProof,
) -> sn_data_types::PublicKey;

/// What `XorName::from` returns for a public key: the address made of the
/// first 32 bytes of the key.
pub uninterp spec fn key_name(key: sn_data_types::PublicKey) -> XorName;

/// The text that `Debug` prints for a public key.
pub uninterp spec fn key_debug(key: sn_data_types::PublicKey) -> Seq<char>;

/// The text that `Debug` prints for a string: the string in double quotes,
/// with the characters that need it escaped.
pub uninterp spec fn text_debug(text: Seq<char>) -> Seq<char>;

/// Formats a public key with its `Debug` impl, which prints the scheme and
/// the first bytes of the key in hexadecimal.
#[verifier::external_body]
pub(crate) fn debug_of_key(key: &sn_data_types::PublicKey) -> (r: String)
    ensures
        r@ == key_debug(*key),
{
    format!("{:?}", key)
}

/// Formats a value with its `Debug` impl. The text of a value is whatever its
/// type chose to print: nothing is promised about it.
#[verifier::external_body]
pub(crate) fn debug_of<T: std::fmt::Debug>(value: &T) -> String {
    format!("{:?}", value)
}

/// Formats a string with `Debug`, as `<str as Debug>::fmt` does.
#[verifier::external_body]
pub(crate) fn debug_of_text(text: &str) -> (r: String)
    ensures
        r@ == text_debug(text@),
{
    format!("{:?}", text)
}

/// Calls `Blob::name`, a plain accessor.
#[verifier::external_body]
pub(crate) fn name_of_blob(blob: &sn_data_types::Blob) -> (r: XorName)
    ensures
        r == blob_name(*blob),
{
    *blob.name()
}

/// Calls `BlobAddress::name`, a plain accessor.
#[verifier::external_body]
pub(crate) fn name_of_blob_address(address: &sn_data_types::BlobAddress) -> (r: XorName)
    ensures
        r == blob_address_name(*address),
{
    *address.name()
}

/// Calls `Map::name`, a plain accessor.
#[verifier::external_body]
pub(crate) fn name_of_map(map: &sn_data_types::Map) -> (r: XorName)
    ensures
        r == map_name(*map),
{
    *map.name()
}

/// Calls `MapAddress::name`, a plain accessor.
#[verifier::external_body]
pub(crate) fn name_of_map_address(address: &sn_data_types::MapAddress) -> (r: XorName)
    ensures
        r == map_address_name(*address),
{
    *address.name()
}

/// Calls `Sequence::name`, a plain accessor.
#[verifier::external_body]
pub(crate) fn name_of_sequence(sequence: &sn_data_types::Sequence) -> (r: XorName)
    ensures
        r == sequence_name(*sequence),
{
    *sequence.name()
}

/// Calls `SequenceAddress::name`, a plain accessor.
#[verifier::external_body]
pub(crate) fn name_of_sequence_address(address: &sn_data_types::SequenceAddress) -> (r: XorName)
    ensures
        r == sequence_address_name(*address),
{
    *address.name()
}

/// Calls `Register::name`, a plain accessor.
#[verifier::external_body]
pub(crate) fn name_of_register(register: &sn_data_types::register::Register) -> (r: XorName)
    ensures
        r == register_name(*register),
{
    *register.name()
}

/// Calls `register::Address::name`, a plain accessor.
#[verifier::external_body]
pub(crate) fn name_of_register_address(address: &sn_data_types::register::Address) -> (r: XorName)
    ensures
        r == register_address_name(*address),
{
    *address.name()
}

/// Calls `SignedTransfer::sender`, a plain accessor.
#[verifier::external_body]
pub(crate) fn sender_of_transfer(transfer: &sn_data_types::SignedTransfer) -> (r:
    sn_data_types::PublicKey)
    ensures
        r == transfer_sender(*transfer),
{
    transfer.sender()
}

/// Calls `TransferAgreementProof::sender`, a plain accessor.
#[verifier::external_body]
pub(crate) fn sender_of_proof(proof: &sn_data_types::TransferAgreementProof) -> (r:
    sn_data_types::PublicKey)
    ensures
        r == proof_sender(*proof),
{
    proof.sender()
}

/// Calls `XorName::from` on a public key. The address depends on the key
/// alone: every one of its bytes is taken from the key's bytes.
#[verifier::external_body]
pub(crate) fn name_of_key(key: &sn_data_types::PublicKey) -> (r: XorName)
    ensures
        r == key_name(*key),
{
    XorName::from(*key)
}

} // verus!
