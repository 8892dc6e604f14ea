//! The key of a section, as it travels in the envelope.

use vstd::prelude::*;
use threshold_crypto::PublicKey as BlsPublicKey;

verus! {

/// Number of bytes in the representation of a section key.
pub const SECTION_KEY_LEN: usize = 48;

/// `threshold_crypto::PublicKey`, a BLS public key.
#[verifier::external_type_specification]
#[verifier::external_body]
pub struct ExBlsPublicKey(BlsPublicKey);

/// Whether `PublicKey::from_bytes` accepts the 48 bytes as the
/// representation of a key.
pub uninterp spec fn valid_section_key(bytes: Seq<u8>) -> bool;

/// What `PublicKey::to_bytes` returns: the 48 bytes that represent the key.
pub uninterp spec fn public_key_bytes(key: BlsPublicKey) -> Seq<u8>;

/// Calls `PublicKey::from_bytes` and tells whether it returned a key.
#[verifier::external_body]
fn is_valid_section_key(bytes: &[u8; 48]) -> (r: bool)
    ensures
        r == valid_section_key(bytes@),
{
    BlsPublicKey::from_bytes(bytes).is_ok()
}

/// Calls `PublicKey::to_bytes`.
#[verifier::external_body]
fn bytes_of_public_key(key: &BlsPublicKey) -> (r: [u8; 48])
    ensures
        r@ == public_key_bytes(*key),
{
    key.to_bytes()
}

/// The aggregate public key of a section: who the sender believes is in
/// charge of the destination. This layer carries the key and does not
/// interpret it, so it keeps the 48 bytes that represent it, and only ever
/// keeps bytes that do represent a key.
#[derive(Debug, Clone, Copy, PartialEq, Eq, Hash)]
pub struct SectionKey {
    bytes: [u8; 48],
}

impl View for SectionKey {
    type V = Seq<u8>;

    closed spec fn view(&self) -> Seq<u8> {
        self.bytes@
    }
}

impl SectionKey {
    /// What holds of every section key: it is 48 bytes that represent a key.
    #[verifier::type_invariant]
    pub open spec fn represents_a_key(self) -> bool {
        self@.len() == SECTION_KEY_LEN && valid_section_key(self@)
    }

    /// The key that the 48 bytes represent, if they represent one.
    pub fn from_bytes(bytes: [u8; 48]) -> (key: Option<SectionKey>)
        ensures
            key is Some <==> valid_section_key(bytes@),
            key matches Some(k) ==> k@ == bytes@,
    {
        if is_valid_section_key(&bytes) {
            Some(SectionKey { bytes })
        } else {
            None
        }
    }

    /// The section key for a BLS public key: its 48-byte representation,
    /// checked like any other.
    pub fn from_public_key(key: &BlsPublicKey) -> (section_key: Option<SectionKey>)
        ensures
            section_key is Some <==> valid_section_key(public_key_bytes(*key)),
            section_key matches Some(k) ==> k@ == public_key_bytes(*key),
    {
        SectionKey::from_bytes(bytes_of_public_key(key))
    }

    /// The 48 bytes that represent the key.
    pub fn to_bytes(&self) -> (bytes: [u8; 48])
        ensures
            bytes@ == self@,
            bytes@.len() == SECTION_KEY_LEN,
            valid_section_key(bytes@),
    {
        proof {
            use_type_invariant(self);
        }
        self.bytes
    }
}

} // verus!
