use bytes::Bytes;
use sn_data_types::{Keypair, PublicKey};
use sn_messaging::client::{ProcessMsg, Query, TransferQuery};
use sn_messaging::serialisation::{
    MessageKind, SectionKey, WireMsg, WireMsgHeader, HEADER_SIZE, HEADER_SIZE_WITH_SOURCE_KEY,
    SECTION_KEY_LEN, WIRE_VERSION,
};
use sn_messaging::{infrastructure, node, Error, Message, MessageId, MessageType, NodeMessage};
use xor_name::XorName;

fn section_key() -> SectionKey {
    let key = threshold_crypto::SecretKey::random().public_key();
    match SectionKey::from_public_key(&key) {
        Some(key) => key,
        None => panic!("the bytes of a key were not accepted as a key"),
    }
}

fn client_key() -> PublicKey {
    let mut rng = rand::thread_rng();
    Keypair::new_ed25519(&mut rng).public_key()
}

fn parse_failure(bytes: Vec<u8>) -> Error {
    match WireMsg::from(Bytes::from(bytes)) {
        Ok(msg) => panic!("bytes were accepted: {:?}", msg),
        Err(error) => error,
    }
}

fn valid_frame(kind: u8, with_source: bool, payload: &[u8]) -> Vec<u8> {
    let size: u16 = if with_source { 133 } else { 85 };
    let mut bytes = vec![(size / 256) as u8, (size % 256) as u8, 0, 1, kind];
    bytes.extend_from_slice(&[0x5a; 32]);
    bytes.extend_from_slice(&section_key().to_bytes());
    if with_source {
        bytes.extend_from_slice(&section_key().to_bytes());
    }
    bytes.extend_from_slice(payload);
    bytes
}

#[test]
fn wire_round_trip_without_source_key() {
    let dest = XorName::random();
    let dest_section_pk = section_key();
    let payload = Bytes::from(vec![1u8, 2, 3, 4, 5]);
    let msg = WireMsg::new(
        MessageKind::ClientMessage,
        payload.clone(),
        dest,
        dest_section_pk,
        None,
    );
    let bytes = msg.serialize();
    assert_eq!(bytes.len(), HEADER_SIZE + 5);

    let read = match WireMsg::from(bytes) {
        Ok(read) => read,
        Err(error) => panic!("written bytes were rejected: {:?}", error),
    };
    assert_eq!(read.kind(), MessageKind::ClientMessage);
    assert_eq!(read.payload(), &payload);
    assert_eq!(read.header(), msg.header());
    assert_eq!(read.header().dest(), dest);
    assert_eq!(read.header().dest_section_pk(), dest_section_pk);
    assert_eq!(read.header().src_section_pk(), None);
    assert_eq!(read.header().size(), HEADER_SIZE);
}

#[test]
fn wire_round_trip_with_source_key() {
    let dest = XorName::random();
    let dest_section_pk = section_key();
    let src_section_pk = section_key();
    let payload = Bytes::from(vec![0xffu8; 300]);
    let msg = WireMsg::new(
        MessageKind::NodeMessage,
        payload.clone(),
        dest,
        dest_section_pk,
        Some(src_section_pk),
    );
    let bytes = msg.serialize();
    assert_eq!(bytes.len(), HEADER_SIZE_WITH_SOURCE_KEY + 300);

    let read = match WireMsg::from(bytes.clone()) {
        Ok(read) => read,
        Err(error) => panic!("written bytes were rejected: {:?}", error),
    };
    assert_eq!(read.kind(), MessageKind::NodeMessage);
    assert_eq!(read.payload(), &payload);
    assert_eq!(read.header().dest(), dest);
    assert_eq!(read.header().dest_section_pk(), dest_section_pk);
    assert_eq!(read.header().src_section_pk(), Some(src_section_pk));
    assert_eq!(read.header().size(), HEADER_SIZE_WITH_SOURCE_KEY);
    // A message has one encoding: what was read writes the same bytes.
    assert_eq!(read.serialize(), bytes);
}

#[test]
fn wire_bytes_are_laid_out_as_documented() {
    let dest = XorName([0xaa; 32]);
    let dest_section_pk = section_key();
    let msg = WireMsg::new(
        MessageKind::RoutingMessage,
        Bytes::from(vec![9u8, 8, 7]),
        dest,
        dest_section_pk,
        None,
    );
    let mut expected = vec![0u8, 85, 0, 1, 4];
    expected.extend_from_slice(&[0xaa; 32]);
    expected.extend_from_slice(&dest_section_pk.to_bytes());
    expected.extend_from_slice(&[9, 8, 7]);
    assert_eq!(msg.serialize(), Bytes::from(expected));

    let src_section_pk = section_key();
    let msg = WireMsg::new(
        MessageKind::InfrastructureQuery,
        Bytes::new(),
        dest,
        dest_section_pk,
        Some(src_section_pk),
    );
    let mut expected = vec![0u8, 133, 0, 1, 1];
    expected.extend_from_slice(&[0xaa; 32]);
    expected.extend_from_slice(&dest_section_pk.to_bytes());
    expected.extend_from_slice(&src_section_pk.to_bytes());
    assert_eq!(msg.serialize(), Bytes::from(expected));
    assert_eq!(WIRE_VERSION, 1);
    assert_eq!(HEADER_SIZE, 2 + 2 + 1 + 32 + SECTION_KEY_LEN);
    assert_eq!(HEADER_SIZE_WITH_SOURCE_KEY, HEADER_SIZE + SECTION_KEY_LEN);
}

#[test]
fn ping_has_an_empty_payload() {
    let dest = XorName::random();
    let ping = WireMsg::new_ping_msg(dest, section_key());
    assert_eq!(ping.kind(), MessageKind::Ping);
    assert!(ping.payload().is_empty());
    let bytes = ping.serialize();
    assert_eq!(bytes.len(), HEADER_SIZE);
    assert_eq!(bytes[4], 0);
    match WireMsg::from(bytes) {
        Ok(read) => {
            assert_eq!(read.kind(), MessageKind::Ping);
            assert!(read.payload().is_empty());
            assert_eq!(read.header().dest(), dest);
        }
        Err(error) => panic!("a ping was rejected: {:?}", error),
    }
}

#[test]
fn channels_do_not_mix() {
    let payload = Bytes::from(vec![1u8, 2, 3]);
    let msg = WireMsg::new(
        MessageKind::NodeMessage,
        payload.clone(),
        XorName::random(),
        section_key(),
        None,
    );
    let read = match WireMsg::from(msg.serialize()) {
        Ok(read) => read,
        Err(error) => panic!("written bytes were rejected: {:?}", error),
    };
    assert_eq!(read.payload_of(MessageKind::NodeMessage), Ok(&payload));
    assert_eq!(
        read.payload_of(MessageKind::ClientMessage),
        Err(Error::FailedToParse(
            "bytes as a client message".to_string()
        ))
    );
    assert_eq!(
        read.payload_of(MessageKind::Ping),
        Err(Error::FailedToParse("bytes as a ping".to_string()))
    );
    assert_eq!(
        read.payload_of(MessageKind::InfrastructureQuery),
        Err(Error::FailedToParse(
            "bytes as an infrastructure query".to_string()
        ))
    );
    assert_eq!(
        read.payload_of(MessageKind::RoutingMessage),
        Err(Error::FailedToParse(
            "bytes as a routing message".to_string()
        ))
    );

    let client = WireMsg::new(
        MessageKind::ClientMessage,
        payload.clone(),
        XorName::random(),
        section_key(),
        None,
    );
    assert_eq!(client.payload_of(MessageKind::ClientMessage), Ok(&payload));
    assert_eq!(
        client.payload_of(MessageKind::NodeMessage),
        Err(Error::FailedToParse("bytes as a node message".to_string()))
    );
}

#[test]
fn short_bytes_are_rejected() {
    assert_eq!(
        parse_failure(vec![]),
        Error::FailedToParse("bytes as the size of a header".to_string())
    );
    assert_eq!(
        parse_failure(vec![0]),
        Error::FailedToParse("bytes as the size of a header".to_string())
    );
    let frame = valid_frame(2, false, &[]);
    assert_eq!(
        parse_failure(frame[..84].to_vec()),
        Error::FailedToParse("bytes as a header".to_string())
    );
    assert!(WireMsg::from(Bytes::from(frame)).is_ok());
    // A header that announces a source key needs the bytes of one.
    let mut frame = valid_frame(2, false, &[7; 47]);
    frame[1] = 133;
    assert_eq!(
        parse_failure(frame),
        Error::FailedToParse("bytes as a header".to_string())
    );
}

#[test]
fn unknown_header_sizes_are_rejected() {
    for size in [0u16, 2, 84, 86, 132, 134, 0x5500, 0xffff].iter() {
        let mut frame = valid_frame(2, true, &[0; 64]);
        frame[0] = (size / 256) as u8;
        frame[1] = (size % 256) as u8;
        assert_eq!(
            parse_failure(frame),
            Error::FailedToParse("a header of a known size".to_string())
        );
    }
}

#[test]
fn other_versions_are_rejected() {
    let mut frame = valid_frame(2, false, &[1, 2]);
    frame[3] = 2;
    assert_eq!(parse_failure(frame), Error::UnsupportedVersion(2));
    let mut frame = valid_frame(2, false, &[1, 2]);
    frame[2] = 1;
    assert_eq!(parse_failure(frame), Error::UnsupportedVersion(257));
    let mut frame = valid_frame(2, false, &[1, 2]);
    frame[3] = 0;
    assert_eq!(parse_failure(frame), Error::UnsupportedVersion(0));
}

#[test]
fn unknown_kinds_are_rejected() {
    for kind in [5u8, 6, 0x80, 0xff].iter() {
        assert_eq!(
            parse_failure(valid_frame(*kind, false, &[1])),
            Error::FailedToParse("a byte as a kind of message".to_string())
        );
    }
    for kind in 0u8..5 {
        assert!(WireMsg::from(Bytes::from(valid_frame(kind, true, &[1]))).is_ok());
    }
}

#[test]
fn invalid_section_keys_are_rejected() {
    let mut frame = valid_frame(2, true, &[1]);
    for byte in frame[37..85].iter_mut() {
        *byte = 0xff;
    }
    assert_eq!(
        parse_failure(frame),
        Error::FailedToParse("bytes as the key of the destination section".to_string())
    );
    let mut frame = valid_frame(2, true, &[1]);
    for byte in frame[85..133].iter_mut() {
        *byte = 0xff;
    }
    assert_eq!(
        parse_failure(frame),
        Error::FailedToParse("bytes as the key of the source section".to_string())
    );
    // Without a source key, the same bytes are payload and nobody looks at them.
    let mut frame = valid_frame(2, false, &[0xff; 48]);
    assert!(WireMsg::from(Bytes::from(frame.clone())).is_ok());
    frame[4] = 9;
    assert!(WireMsg::from(Bytes::from(frame)).is_err());
}

#[test]
fn section_keys_are_checked() {
    assert_eq!(SectionKey::from_bytes([0xff; 48]), None);
    let key = threshold_crypto::SecretKey::random().public_key();
    let from_bytes = SectionKey::from_bytes(key.to_bytes());
    let from_key = SectionKey::from_public_key(&key);
    assert!(from_bytes.is_some());
    assert_eq!(from_bytes, from_key);
    match from_key {
        Some(section_key) => {
            assert_eq!(section_key.to_bytes(), key.to_bytes());
            assert_eq!(
                threshold_crypto::PublicKey::from_bytes(section_key.to_bytes()).ok(),
                Some(key)
            );
        }
        None => panic!("the bytes of a key were not accepted as a key"),
    }
}

#[test]
fn kinds_have_their_bytes() {
    let kinds = [
        (MessageKind::Ping, 0u8, "bytes as a ping"),
        (
            MessageKind::InfrastructureQuery,
            1,
            "bytes as an infrastructure query",
        ),
        (MessageKind::ClientMessage, 2, "bytes as a client message"),
        (MessageKind::NodeMessage, 3, "bytes as a node message"),
        (MessageKind::RoutingMessage, 4, "bytes as a routing message"),
    ];
    for (kind, byte, shape) in kinds.iter() {
        assert_eq!(kind.to_byte(), *byte);
        assert_eq!(MessageKind::from_byte(*byte), Some(*kind));
        assert_eq!(kind.shape(), *shape);
    }
    assert_eq!(MessageKind::from_byte(5), None);
    assert_eq!(MessageKind::from_byte(255), None);
}

#[test]
fn headers_read_back() {
    let dest = XorName([3; 32]);
    let dest_section_pk = section_key();
    let header = WireMsgHeader::new(MessageKind::ClientMessage, dest, dest_section_pk, None);
    assert_eq!(header.kind(), MessageKind::ClientMessage);
    assert_eq!(header.dest(), dest);
    assert_eq!(header.dest_section_pk(), dest_section_pk);
    let mut out = vec![0xeeu8];
    header.write(&mut out);
    assert_eq!(out.len(), 1 + HEADER_SIZE);
    assert_eq!(out[0], 0xee);
    out.extend_from_slice(&[1, 2, 3]);
    assert_eq!(WireMsgHeader::from(&out[1..]), Ok(header));
}

#[test]
fn typed_messages_know_their_channel() {
    let id = MessageId(XorName([1; 32]));
    let query = ProcessMsg::Query {
        query: Query::Transfer(TransferQuery::GetBalance(client_key())),
        id,
    };
    let client = sn_messaging::client::Message::Process(query);
    assert_eq!(MessageType::Ping.kind(), MessageKind::Ping);
    assert_eq!(
        MessageType::ClientMessage(client.clone()).kind(),
        MessageKind::ClientMessage
    );
    assert_eq!(
        MessageType::InfrastructureQuery(infrastructure::Query::GetSectionRequest(XorName(
            [2; 32]
        )))
        .kind(),
        MessageKind::InfrastructureQuery
    );
    assert_eq!(
        MessageType::RoutingMessage(node::RoutingMessage(vec![1, 2])).kind(),
        MessageKind::RoutingMessage
    );
    let node_msg = NodeMessage::NodeQuery {
        query: node::NodeQuery::System(node::NodeSystemQuery::GetSectionElders),
        id,
        target_section_pk: None,
    };
    assert_eq!(
        MessageType::NodeMessage(node_msg.clone()).kind(),
        MessageKind::NodeMessage
    );
    assert_eq!(node_msg.id(), id);
    assert_eq!(node_msg.correlation_id(), None);
    let wrapped: Message = node_msg.clone().into();
    assert_eq!(wrapped, Message::Node(node_msg));
    assert_eq!(wrapped.id(), id);
    assert_eq!(Message::Client(client).id(), id);
}

#[test]
fn node_messages_name_their_cause() {
    let id = MessageId(XorName([1; 32]));
    let cause = MessageId(XorName([2; 32]));
    let error = node::NodeCmdError::Transfers(node::NodeTransferError::TransferPropagation(
        sn_messaging::client::Error::NoSuchData,
    ));
    let msg = NodeMessage::NodeCmdError {
        error: error.clone(),
        id,
        correlation_id: cause,
        cmd_origin: sn_messaging::SrcLocation::Node(XorName([3; 32])),
        target_section_pk: None,
    };
    assert_eq!(msg.id(), id);
    assert_eq!(msg.correlation_id(), Some(cause));

    let plain = node::NodeMsg::NodeCmdError {
        error,
        id,
        correlation_id: cause,
    };
    assert_eq!(plain.id(), id);
    assert_eq!(plain.correlation_id(), Some(cause));
    let failed = node::NodeMsg::NodeMsgError {
        error: sn_messaging::client::Error::InvalidOperation,
        id: cause,
        correlation_id: id,
    };
    assert_eq!(failed.id(), cause);
    assert_eq!(failed.correlation_id(), Some(id));
    let query = node::NodeMsg::NodeQuery {
        query: node::NodeQuery::System(node::NodeSystemQuery::GetNodeWalletKey(XorName(
            [4; 32],
        ))),
        id,
    };
    assert_eq!(query.id(), id);
    assert_eq!(query.correlation_id(), None);
}
