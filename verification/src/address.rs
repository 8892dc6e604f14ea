//! The 256-bit address space that names nodes, sections and stored content.
//!
//! Addresses are `xor_name::XorName` values. The verifier treats them as
//! indivisible: two addresses are the same exactly when they are equal, and
//! their 32 bytes are reached through the conversions below.

use vstd::prelude::*;
use xor_name::XorName;

verus! {

/// `xor_name::XorName`, a wrapper around an array of 32 bytes.
#[verifier::external_type_specification]
#[verifier::external_body]
pub struct ExXorName(XorName);

/// The 32 bytes that an address wraps (the array in `XorName`'s public field).
pub uninterp spec fn name_bytes(name: XorName) -> Seq<u8>;

/// What `XorName::from_content` returns for the given parts: the SHA3-256
/// digest of the parts fed to the hasher one after the other.
pub uninterp spec fn content_name(parts: Seq<Seq<u8>>) -> XorName;

/// The text that `Debug` prints for an address: its first three bytes in
/// hexadecimal and its first byte in binary.
pub uninterp spec fn name_debug(name: XorName) -> Seq<char>;

/// `XorName` is `Copy`; its derived `clone` returns the same address.
pub assume_specification[ <XorName as Clone>::clone ](name: &XorName) -> (r: XorName)
    ensures
        r == *name,
;

/// Reads the public array field of a `XorName`: always 32 bytes.
#[verifier::external_body]
pub(crate) fn name_to_bytes(name: &XorName) -> (r: [u8; 32])
    ensures
        r@ == name_bytes(*name),
{
    name.0
}

/// Builds a `XorName` around the given array, as its tuple constructor does.
#[verifier::external_body]
pub(crate) fn name_from_bytes(bytes: [u8; 32]) -> (r: XorName)
    ensures
        name_bytes(r) == bytes@,
{
    XorName(bytes)
}

/// Compares two addresses with `==`, which `XorName` derives: it compares
/// the two arrays.
#[verifier::external_body]
pub(crate) fn names_equal(left: &XorName, right: &XorName) -> (r: bool)
    ensures
        r == (*left == *right),
{
    left == right
}

/// Formats an address with its `Debug` impl.
#[verifier::external_body]
pub(crate) fn debug_of_name(name: &XorName) -> (r: String)
    ensures
        r@ == name_debug(*name),
{
    format!("{:?}", name)
}

/// Calls `XorName::random`, which fills the array from the operating
/// system's random source and gives up only if that source fails. Nothing is
/// promised about the outcome.
#[verifier::external_body]
pub(crate) fn random_name() -> XorName {
    XorName::random()
}

/// Calls `XorName::from_content` on the two parts, in this order.
#[verifier::external_body]
pub(crate) fn name_from_content(first: &[u8], second: &[u8]) -> (r: XorName)
    ensures
        r == content_name(seq![first@, second@]),
{
    XorName::from_content(&[first, second])
}

} // verus!
