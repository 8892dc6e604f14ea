//! The wire envelope: a header for the transport, followed by the payload.
//!
//! The envelope frames a payload without reading it. What the payload means
//! is decided by the kind of message that the header names, and a payload is
//! handed out only as the kind it was sent as.

pub mod buffer;
pub mod section_key;
pub mod wire_msg_header;

pub use self::buffer::buffer_bytes;
pub use self::section_key::{public_key_bytes, valid_section_key, SectionKey, SECTION_KEY_LEN};
pub use self::wire_msg_header::{
    lemma_header_bytes_are_canonical, lemma_header_round_trip, spec_u16_from_bytes,
    spec_u16_to_bytes, HeaderView, MessageKind, WireMsgHeader, HEADER_SIZE,
    HEADER_SIZE_WITH_SOURCE_KEY, WIRE_VERSION,
};

use vstd::prelude::*;
use bytes::Bytes;
use xor_name::XorName;
use self::buffer::{buffer_as_slice, buffer_from_vec, buffer_slice_from, empty_buffer};
use self::wire_msg_header::append_bytes;
use crate::address::name_bytes;
use crate::errors::{Error, ErrorView, Result};

verus! {

/// A message on the wire as plain values: the header and the bytes of the
/// payload.
pub struct WireMsgView {
    /// The header.
    pub header: HeaderView,
    /// The payload.
    pub payload: Seq<u8>,
}

impl WireMsgView {
    /// What holds of the view of every message: its header is well-formed.
    pub open spec fn wf(self) -> bool {
        self.header.wf()
    }

    /// The bytes of the message on the wire: the header, then the payload.
    pub open spec fn to_bytes(self) -> Seq<u8> {
        self.header.to_bytes() + self.payload
    }

    /// The message that the bytes hold, or why they hold none: the header
    /// that they start with, and all bytes after it as the payload.
    pub open spec fn parse(bytes: Seq<u8>) -> std::result::Result<WireMsgView, ErrorView> {
        match HeaderView::parse(bytes) {
            Ok(header) => Ok(
                WireMsgView { header, payload: bytes.skip(header.size() as int) },
            ),
            Err(error) => Err(error),
        }
    }

    /// The payload of the message read as a message of the given kind: the
    /// payload if the message is of that kind, and else the error that says
    /// what was expected.
    pub open spec fn payload_of(self, kind: MessageKind) -> std::result::Result<
        Seq<u8>,
        ErrorView,
    > {
        if self.header.kind == kind {
            Ok(self.payload)
        } else {
            Err(ErrorView::FailedToParse(kind.spec_shape()))
        }
    }
}

/// A message on the wire: the header and the payload.
#[derive(Debug, Clone)]
pub struct WireMsg {
    header: WireMsgHeader,
    payload: Bytes,
}

impl View for WireMsg {
    type V = WireMsgView;

    closed spec fn view(&self) -> WireMsgView {
        WireMsgView { header: self.header@, payload: buffer_bytes(self.payload) }
    }
}

impl WireMsg {
    /// The message of the given kind with the given payload, addressed to
    /// `dest` in the section with the key `dest_section_pk`.
    pub fn new(
        kind: MessageKind,
        payload: Bytes,
        dest: XorName,
        dest_section_pk: SectionKey,
        src_section_pk: Option<SectionKey>,
    ) -> (msg: Self)
        ensures
            msg@.wf(),
            msg@.payload == buffer_bytes(payload),
            msg@.header.kind == kind,
            msg@.header.dest == name_bytes(dest),
            msg@.header.dest_section_pk == dest_section_pk@,
            msg@.header.src_section_pk == match src_section_pk {
                Some(key) => Some(key@),
                None => None,
            },
    {
        WireMsg { header: WireMsgHeader::new(kind, dest, dest_section_pk, src_section_pk), payload }
    }

    /// A heartbeat: a message of kind `Ping` with an empty payload.
    pub fn new_ping_msg(dest: XorName, dest_section_pk: SectionKey) -> (msg: Self)
        ensures
            msg@.wf(),
            msg@.payload == Seq::<u8>::empty(),
            msg@.header.kind == MessageKind::Ping,
            msg@.header.dest == name_bytes(dest),
            msg@.header.dest_section_pk == dest_section_pk@,
            msg@.header.src_section_pk is None,
    {
        WireMsg::new(MessageKind::Ping, empty_buffer(), dest, dest_section_pk, None)
    }

    /// Reads a message from the bytes received over the wire.
    ///
    /// Fails where the header cannot be read: see `WireMsgHeader::from`.
    /// Every byte after the header belongs to the payload.
    pub fn from(bytes: Bytes) -> (r: Result<Self>)
        ensures
            match r {
                Ok(msg) => WireMsgView::parse(buffer_bytes(bytes)) == Ok::<
                    WireMsgView,
                    ErrorView,
                >(msg@) && msg@.wf(),
                Err(error) => WireMsgView::parse(buffer_bytes(bytes)) == Err::<
                    WireMsgView,
                    ErrorView,
                >(error@),
            },
    {
        match WireMsgHeader::from(buffer_as_slice(&bytes)) {
            Ok(header) => {
                proof {
                    lemma_header_bytes_are_canonical(buffer_bytes(bytes));
                }
                let payload = buffer_slice_from(&bytes, header.size());
                Ok(WireMsg { header, payload })
            },
            Err(error) => Err(error),
        }
    }

    /// Writes the message as the bytes to send over the wire.
    pub fn serialize(&self) -> (bytes: Bytes)
        ensures
            buffer_bytes(bytes) == self@.to_bytes(),
    {
        let mut out: Vec<u8> = Vec::new();
        self.header.write(&mut out);
        append_bytes(&mut out, buffer_as_slice(&self.payload));
        assert(out@ =~= self@.to_bytes());
        buffer_from_vec(out)
    }

    /// The header of the message.
    pub fn header(&self) -> (header: &WireMsgHeader)
        ensures
            header@ == self@.header,
    {
        &self.header
    }

    /// The kind of the message.
    pub fn kind(&self) -> (kind: MessageKind)
        ensures
            kind == self@.header.kind,
    {
        self.header.kind()
    }

    /// The payload of the message, whatever its kind.
    pub fn payload(&self) -> (payload: &Bytes)
        ensures
            buffer_bytes(*payload) == self@.payload,
    {
        &self.payload
    }

    /// The payload of the message, read as a message of the given kind.
    ///
    /// Bytes that were written for one channel are never handed out as a
    /// message of another: if the message is of another kind, this fails with
    /// `FailedToParse` and the name of what was expected.
    pub fn payload_of(&self, kind: MessageKind) -> (r: Result<&Bytes>)
        ensures
            match r {
                Ok(payload) => self@.payload_of(kind) == Ok::<Seq<u8>, ErrorView>(
                    buffer_bytes(*payload),
                ),
                Err(error) => self@.payload_of(kind) == Err::<Seq<u8>, ErrorView>(error@),
            },
    {
        if self.header.kind() == kind {
            Ok(&self.payload)
        } else {
            Err(Error::FailedToParse(kind.shape().to_owned()))
        }
    }
}

/// Round trip: the bytes written for a message read back as the same
/// message, with the same header and the same payload.
pub proof fn lemma_wire_round_trip(msg: WireMsgView)
    requires
        msg.wf(),
    ensures
        WireMsgView::parse(msg.to_bytes()) == Ok::<WireMsgView, ErrorView>(msg),
{
    lemma_header_round_trip(msg.header, msg.payload);
    assert(msg.to_bytes().skip(msg.header.size() as int) =~= msg.payload);
}

/// Bytes that read as a message are the bytes that writing the message
/// gives: a message has one encoding.
pub proof fn lemma_wire_bytes_are_canonical(bytes: Seq<u8>)
    requires
        WireMsgView::parse(bytes) is Ok,
    ensures
        WireMsgView::parse(bytes)->Ok_0.wf(),
        WireMsgView::parse(bytes)->Ok_0.to_bytes() == bytes,
{
    lemma_header_bytes_are_canonical(bytes);
    let msg = WireMsgView::parse(bytes)->Ok_0;
    assert(msg.to_bytes() =~= bytes);
}

/// Channels do not mix: the bytes written for a message of one kind are
/// handed out as a message of that kind, and rejected as a message of any
/// other kind with the error that names the kind that was asked for.
pub proof fn lemma_channels_do_not_mix(msg: WireMsgView, asked: MessageKind)
    requires
        msg.wf(),
    ensures
        WireMsgView::parse(msg.to_bytes()) is Ok,
        asked == msg.header.kind ==> WireMsgView::parse(msg.to_bytes())->Ok_0.payload_of(asked)
            == Ok::<Seq<u8>, ErrorView>(msg.payload),
        asked != msg.header.kind ==> WireMsgView::parse(msg.to_bytes())->Ok_0.payload_of(asked)
            == Err::<Seq<u8>, ErrorView>(ErrorView::FailedToParse(asked.spec_shape())),
{
    lemma_wire_round_trip(msg);
}

} // verus!
