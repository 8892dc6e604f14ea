//! The header of the envelope: what the transport needs to deliver a message
//! without reading it.
//!
//! Layout, all integers big-endian:
//!
//! | bytes    | field                                   |
//! |----------|-----------------------------------------|
//! | 0..2     | size of the header, 85 or 133           |
//! | 2..4     | version of the format, 1                |
//! | 4        | kind of message                         |
//! | 5..37    | address of the destination              |
//! | 37..85   | key of the destination section          |
//! | 85..133  | key of the source section, if present   |

use vstd::prelude::*;
use xor_name::XorName;
use super::section_key::{valid_section_key, SectionKey};
use crate::address::{name_bytes, name_from_bytes, name_to_bytes};
use crate::errors::{Error, ErrorView, Result};

verus! {

/// The version of the format that is written and accepted.
pub const WIRE_VERSION: u16 = 1;

/// Size of a header without the key of the source section.
pub const HEADER_SIZE: usize = 85;

/// Size of a header with the key of the source section.
pub const HEADER_SIZE_WITH_SOURCE_KEY: usize = 133;

/// The channels that share the wire. The header names one of them, and the
/// payload of a message is read only as what its channel carries.
#[derive(Debug, Clone, Copy, PartialEq, Eq, Hash, Structural)]
pub enum MessageKind {
    /// A heartbeat, with an empty payload.
    Ping,
    /// A query about the layout of the network.
    InfrastructureQuery,
    /// A message between a client and the network.
    ClientMessage,
    /// A message between nodes.
    NodeMessage,
    /// A message of the routing layer.
    RoutingMessage,
}

impl MessageKind {
    /// The byte that stands for the kind in the header.
    pub open spec fn spec_to_byte(&self) -> u8 {
        match self {
            MessageKind::Ping => 0u8,
            MessageKind::InfrastructureQuery => 1u8,
            MessageKind::ClientMessage => 2u8,
            MessageKind::NodeMessage => 3u8,
            MessageKind::RoutingMessage => 4u8,
        }
    }

    /// The kind that a byte stands for, if it stands for one.
    pub open spec fn spec_from_byte(byte: u8) -> Option<MessageKind> {
        if byte == 0 {
            Some(MessageKind::Ping)
        } else if byte == 1 {
            Some(MessageKind::InfrastructureQuery)
        } else if byte == 2 {
            Some(MessageKind::ClientMessage)
        } else if byte == 3 {
            Some(MessageKind::NodeMessage)
        } else if byte == 4 {
            Some(MessageKind::RoutingMessage)
        } else {
            None
        }
    }

    /// What bytes of this kind are expected to be, for the error that says
    /// they were not.
    pub open spec fn spec_shape(&self) -> Seq<char> {
        match self {
            MessageKind::Ping => "bytes as a ping"@,
            MessageKind::InfrastructureQuery => "bytes as an infrastructure query"@,
            MessageKind::ClientMessage => "bytes as a client message"@,
            MessageKind::NodeMessage => "bytes as a node message"@,
            MessageKind::RoutingMessage => "bytes as a routing message"@,
        }
    }

    /// The byte that stands for the kind in the header.
    pub fn to_byte(&self) -> (byte: u8)
        ensures
            byte == self.spec_to_byte(),
    {
        match self {
            MessageKind::Ping => 0,
            MessageKind::InfrastructureQuery => 1,
            MessageKind::ClientMessage => 2,
            MessageKind::NodeMessage => 3,
            MessageKind::RoutingMessage => 4,
        }
    }

    /// The kind that a byte stands for, if it stands for one.
    pub fn from_byte(byte: u8) -> (kind: Option<MessageKind>)
        ensures
            kind == MessageKind::spec_from_byte(byte),
    {
        if byte == 0 {
            Some(MessageKind::Ping)
        } else if byte == 1 {
            Some(MessageKind::InfrastructureQuery)
        } else if byte == 2 {
            Some(MessageKind::ClientMessage)
        } else if byte == 3 {
            Some(MessageKind::NodeMessage)
        } else if byte == 4 {
            Some(MessageKind::RoutingMessage)
        } else {
            None
        }
    }

    /// What bytes of this kind are expected to be.
    pub fn shape(&self) -> (text: &'static str)
        ensures
            text@ == self.spec_shape(),
    {
        match self {
            MessageKind::Ping => "bytes as a ping",
            MessageKind::InfrastructureQuery => "bytes as an infrastructure query",
            MessageKind::ClientMessage => "bytes as a client message",
            MessageKind::NodeMessage => "bytes as a node message",
            MessageKind::RoutingMessage => "bytes as a routing message",
        }
    }
}

/// The two bytes of a 16-bit number, the high byte first.
pub open spec fn spec_u16_to_bytes(n: u16) -> Seq<u8> {
    seq![(n / 256) as u8, (n % 256) as u8]
}

/// The 16-bit number with the given high and low byte.
pub open spec fn spec_u16_from_bytes(high: u8, low: u8) -> u16 {
    (high * 256 + low) as u16
}

/// A header as plain values: the kind, the 32 bytes of the destination and
/// the 48 bytes of each key.
pub struct HeaderView {
    /// The channel of the message.
    pub kind: MessageKind,
    /// The address of the destination.
    pub dest: Seq<u8>,
    /// The key of the destination section.
    pub dest_section_pk: Seq<u8>,
    /// The key of the source section.
    pub src_section_pk: Option<Seq<u8>>,
}

impl HeaderView {
    /// What holds of the view of every header: the address has 32 bytes, and
    /// the keys have 48 bytes each and represent keys.
    pub open spec fn wf(self) -> bool {
        &&& self.dest.len() == 32
        &&& self.dest_section_pk.len() == 48
        &&& valid_section_key(self.dest_section_pk)
        &&& (self.src_section_pk matches Some(key) ==> key.len() == 48 && valid_section_key(key))
    }

    /// The number of bytes that the header takes on the wire.
    pub open spec fn size(self) -> nat {
        if self.src_section_pk is Some {
            HEADER_SIZE_WITH_SOURCE_KEY as nat
        } else {
            HEADER_SIZE as nat
        }
    }

    /// The bytes of the header on the wire.
    pub open spec fn to_bytes(self) -> Seq<u8> {
        spec_u16_to_bytes(self.size() as u16) + spec_u16_to_bytes(WIRE_VERSION) + seq![
            self.kind.spec_to_byte(),
        ] + self.dest + self.dest_section_pk + match self.src_section_pk {
            Some(key) => key,
            None => Seq::<u8>::empty(),
        }
    }

    /// The header that the bytes start with, or why they start with none.
    ///
    /// The checks are made in this order: two bytes for the size; a size of
    /// 85 or 133; as many bytes as the size says; version 1; a known kind; a
    /// valid key of the destination section; a valid key of the source
    /// section, where the size says there is one.
    pub open spec fn parse(bytes: Seq<u8>) -> std::result::Result<HeaderView, ErrorView> {
        if bytes.len() < 2 {
            Err(ErrorView::FailedToParse("bytes as the size of a header"@))
        } else {
            let size = spec_u16_from_bytes(bytes[0], bytes[1]);
            if size != HEADER_SIZE && size != HEADER_SIZE_WITH_SOURCE_KEY {
                Err(ErrorView::FailedToParse("a header of a known size"@))
            } else if bytes.len() < size {
                Err(ErrorView::FailedToParse("bytes as a header"@))
            } else {
                let version = spec_u16_from_bytes(bytes[2], bytes[3]);
                if version != WIRE_VERSION {
                    Err(ErrorView::UnsupportedVersion(version))
                } else {
                    match MessageKind::spec_from_byte(bytes[4]) {
                        None => Err(ErrorView::FailedToParse("a byte as a kind of message"@)),
                        Some(kind) => {
                            let dest_section_pk = bytes.subrange(37, 85);
                            if !valid_section_key(dest_section_pk) {
                                Err(
                                    ErrorView::FailedToParse(
                                        "bytes as the key of the destination section"@,
                                    ),
                                )
                            } else if size == HEADER_SIZE_WITH_SOURCE_KEY && !valid_section_key(
                                bytes.subrange(85, 133),
                            ) {
                                Err(
                                    ErrorView::FailedToParse(
                                        "bytes as the key of the source section"@,
                                    ),
                                )
                            } else {
                                Ok(
                                    HeaderView {
                                        kind,
                                        dest: bytes.subrange(5, 37),
                                        dest_section_pk,
                                        src_section_pk: if size == HEADER_SIZE_WITH_SOURCE_KEY {
                                            Some(bytes.subrange(85, 133))
                                        } else {
                                            None
                                        },
                                    },
                                )
                            }
                        },
                    }
                }
            }
        }
    }
}

/// The header of the envelope.
#[derive(Debug, Clone, Copy, PartialEq, Eq)]
pub struct WireMsgHeader {
    kind: MessageKind,
    dest: [u8; 32],
    dest_section_pk: SectionKey,
    src_section_pk: Option<SectionKey>,
}

impl View for WireMsgHeader {
    type V = HeaderView;

    closed spec fn view(&self) -> HeaderView {
        HeaderView {
            kind: self.kind,
            dest: self.dest@,
            dest_section_pk: self.dest_section_pk@,
            src_section_pk: match self.src_section_pk {
                Some(key) => Some(key@),
                None => None,
            },
        }
    }
}

/// Copies the 32 bytes from position `start` on.
fn read_32_bytes(bytes: &[u8], start: usize) -> (r: [u8; 32])
    requires
        start + 32 <= bytes@.len(),
    ensures
        r@ == bytes@.subrange(start as int, start + 32),
{
    let len = bytes.len();
    let mut r = [0u8;32];
    let mut i: usize = 0;
    while i < 32
        invariant
            i <= 32,
            start + 32 <= len == bytes@.len(),
            forall|j: int| 0 <= j < i ==> r@[j] == bytes@[start + j],
        decreases 32 - i,
    {
        r[i] = bytes[start + i];
        i += 1;
    }
    assert(r@ =~= bytes@.subrange(start as int, start + 32));
    r
}

/// Copies the 48 bytes from position `start` on.
fn read_48_bytes(bytes: &[u8], start: usize) -> (r: [u8; 48])
    requires
        start + 48 <= bytes@.len(),
    ensures
        r@ == bytes@.subrange(start as int, start + 48),
{
    let len = bytes.len();
    let mut r = [0u8;48];
    let mut i: usize = 0;
    while i < 48
        invariant
            i <= 48,
            start + 48 <= len == bytes@.len(),
            forall|j: int| 0 <= j < i ==> r@[j] == bytes@[start + j],
        decreases 48 - i,
    {
        r[i] = bytes[start + i];
        i += 1;
    }
    assert(r@ =~= bytes@.subrange(start as int, start + 48));
    r
}

/// Appends a copy of `bytes` to `out`.
pub(crate) fn append_bytes(out: &mut Vec<u8>, bytes: &[u8])
    ensures
        final(out)@ == old(out)@ + bytes@,
{
    let mut i: usize = 0;
    while i < bytes.len()
        invariant
            i <= bytes@.len(),
            out@ == old(out)@ + bytes@.subrange(0, i as int),
        decreases bytes@.len() - i,
    {
        out.push(bytes[i]);
        i += 1;
        assert(out@ =~= old(out)@ + bytes@.subrange(0, i as int));
    }
    assert(bytes@.subrange(0, i as int) =~= bytes@);
}

/// Appends the two bytes of `n`, high byte first.
fn append_u16(out: &mut Vec<u8>, n: u16)
    ensures
        final(out)@ == old(out)@ + spec_u16_to_bytes(n),
{
    out.push((n / 256) as u8);
    out.push((n % 256) as u8);
    assert(out@ =~= old(out)@ + spec_u16_to_bytes(n));
}

/// Reads the 16-bit number whose high byte is at position `start`.
fn read_u16(bytes: &[u8], start: usize) -> (n: u16)
    requires
        start + 2 <= bytes@.len(),
    ensures
        n == spec_u16_from_bytes(bytes@[start as int], bytes@[start + 1]),
{
    let high: u16 = bytes[start] as u16;
    let low: u16 = bytes[start + 1] as u16;
    high * 256 + low
}

impl WireMsgHeader {
    /// The header with the given parts.
    pub fn new(
        kind: MessageKind,
        dest: XorName,
        dest_section_pk: SectionKey,
        src_section_pk: Option<SectionKey>,
    ) -> (header: Self)
        ensures
            header@.wf(),
            header@.kind == kind,
            header@.dest == name_bytes(dest),
            header@.dest_section_pk == dest_section_pk@,
            header@.src_section_pk == match src_section_pk {
                Some(key) => Some(key@),
                None => None,
            },
    {
        let header = WireMsgHeader {
            kind,
            dest: name_to_bytes(&dest),
            dest_section_pk,
            src_section_pk,
        };
        header.check_wf();
        header
    }

    /// Establishes that the view of this header is well-formed: its keys are
    /// section keys, which are valid by construction.
    fn check_wf(&self)
        ensures
            self@.wf(),
    {
        proof {
            use_type_invariant(&self.dest_section_pk);
        }
        match &self.src_section_pk {
            Some(key) => {
                proof {
                    use_type_invariant(key);
                }
            },
            None => {},
        }
    }

    /// The channel of the message.
    pub fn kind(&self) -> (kind: MessageKind)
        ensures
            kind == self@.kind,
    {
        self.kind
    }

    /// The address of the destination.
    pub fn dest(&self) -> (dest: XorName)
        ensures
            name_bytes(dest) == self@.dest,
    {
        name_from_bytes(self.dest)
    }

    /// The key of the destination section.
    pub fn dest_section_pk(&self) -> (key: SectionKey)
        ensures
            key@ == self@.dest_section_pk,
    {
        self.dest_section_pk
    }

    /// The key of the source section, if the sender gave it.
    pub fn src_section_pk(&self) -> (key: Option<SectionKey>)
        ensures
            match key {
                Some(key) => self@.src_section_pk == Some(key@),
                None => self@.src_section_pk is None,
            },
    {
        self.src_section_pk
    }

    /// The number of bytes that the header takes on the wire.
    pub fn size(&self) -> (size: usize)
        ensures
            size == self@.size(),
            size == HEADER_SIZE || size == HEADER_SIZE_WITH_SOURCE_KEY,
    {
        if self.src_section_pk.is_some() {
            HEADER_SIZE_WITH_SOURCE_KEY
        } else {
            HEADER_SIZE
        }
    }

    /// Appends the bytes of the header to `out`.
    pub fn write(&self, out: &mut Vec<u8>)
        ensures
            final(out)@ == old(out)@ + self@.to_bytes(),
    {
        let size: u16 = if self.src_section_pk.is_some() {
            133
        } else {
            85
        };
        append_u16(out, size);
        append_u16(out, WIRE_VERSION);
        out.push(self.kind.to_byte());
        append_bytes(out, self.dest.as_slice());
        let dest_key = self.dest_section_pk.to_bytes();
        append_bytes(out, dest_key.as_slice());
        match &self.src_section_pk {
            Some(key) => {
                let source_key = key.to_bytes();
                append_bytes(out, source_key.as_slice());
            },
            None => {},
        }
        assert(out@ =~= old(out)@ + self@.to_bytes());
    }

    /// Reads the header that `bytes` start with.
    ///
    /// Fails with `UnsupportedVersion` for a version other than 1, and with
    /// `FailedToParse` and the name of what was expected where that is missing
    /// or malformed.
    pub fn from(bytes: &[u8]) -> (r: Result<Self>)
        ensures
            match r {
                Ok(header) => HeaderView::parse(bytes@) == Ok::<HeaderView, ErrorView>(header@)
                    && header@.wf(),
                Err(error) => HeaderView::parse(bytes@) == Err::<HeaderView, ErrorView>(error@),
            },
    {
        if bytes.len() < 2 {
            return Err(Error::FailedToParse("bytes as the size of a header".to_owned()));
        }
        let size = read_u16(bytes, 0);
        if size != 85 && size != 133 {
            return Err(Error::FailedToParse("a header of a known size".to_owned()));
        }
        if bytes.len() < size as usize {
            return Err(Error::FailedToParse("bytes as a header".to_owned()));
        }
        let version = read_u16(bytes, 2);
        if version != WIRE_VERSION {
            return Err(Error::UnsupportedVersion(version));
        }
        let kind = match MessageKind::from_byte(bytes[4]) {
            Some(kind) => kind,
            None => {
                return Err(Error::FailedToParse("a byte as a kind of message".to_owned()));
            },
        };
        let dest = read_32_bytes(bytes, 5);
        let dest_section_pk = match SectionKey::from_bytes(read_48_bytes(bytes, 37)) {
            Some(key) => key,
            None => {
                return Err(
                    Error::FailedToParse("bytes as the key of the destination section".to_owned()),
                );
            },
        };
        let src_section_pk = if size == 133 {
            match SectionKey::from_bytes(read_48_bytes(bytes, 85)) {
                Some(key) => Some(key),
                None => {
                    return Err(
                        Error::FailedToParse("bytes as the key of the source section".to_owned()),
                    );
                },
            }
        } else {
            None
        };
        let header = WireMsgHeader { kind, dest, dest_section_pk, src_section_pk };
        header.check_wf();
        Ok(header)
    }
}

/// Writing a header and reading it back gives the same header, whatever
/// follows it on the wire.
pub proof fn lemma_header_round_trip(header: HeaderView, rest: Seq<u8>)
    requires
        header.wf(),
    ensures
        HeaderView::parse(header.to_bytes() + rest) == Ok::<HeaderView, ErrorView>(header),
        header.to_bytes().len() == header.size(),
{
    let bytes = header.to_bytes() + rest;
    let size = header.size();
    assert(header.to_bytes().len() == size);
    assert(bytes[0] == (size as u16 / 256) as u8);
    assert(bytes[1] == (size as u16 % 256) as u8);
    assert(spec_u16_from_bytes(bytes[0], bytes[1]) == size);
    assert(bytes[2] == 0u8 && bytes[3] == 1u8);
    assert(bytes[4] == header.kind.spec_to_byte());
    assert(bytes.subrange(5, 37) =~= header.dest);
    assert(bytes.subrange(37, 85) =~= header.dest_section_pk);
    if header.src_section_pk is Some {
        assert(bytes.subrange(85, 133) =~= header.src_section_pk->Some_0);
    }
}

/// The bytes that a header was read from are the bytes that writing it
/// gives: no two runs of bytes stand for the same header.
pub proof fn lemma_header_bytes_are_canonical(bytes: Seq<u8>)
    requires
        HeaderView::parse(bytes) is Ok,
    ensures
        HeaderView::parse(bytes)->Ok_0.wf(),
        HeaderView::parse(bytes)->Ok_0.size() <= bytes.len(),
        HeaderView::parse(bytes)->Ok_0.to_bytes() == bytes.subrange(
            0,
            HeaderView::parse(bytes)->Ok_0.size() as int,
        ),
{
    let header = HeaderView::parse(bytes)->Ok_0;
    let size = spec_u16_from_bytes(bytes[0], bytes[1]);
    assert(size == header.size());
    assert(bytes[0] == (size / 256) as u8 && bytes[1] == (size % 256) as u8);
    assert(bytes[2] == 0u8 && bytes[3] == 1u8) by {
        assert(spec_u16_from_bytes(bytes[2], bytes[3]) == 1);
    }
    assert(header.to_bytes() =~= bytes.subrange(0, size as int));
}

} // verus!
