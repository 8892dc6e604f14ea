use sn_data_types::{Blob, Keypair, PublicBlob, PublicKey, Sequence, Token, UnseqMap};
use sn_messaging::client::{
    BlobRead, BlobWrite, Cmd, CmdError, DataCmd, DataQuery, Error, Message, ProcessMsg,
    ProcessingError, Query, QueryResponse, TransferError, TransferQuery, TryFromError,
};
use sn_messaging::{EndUser, MessageId, SrcLocation};
use std::collections::BTreeMap;
use std::convert::{TryFrom, TryInto};
use xor_name::XorName;

fn gen_keypairs() -> Vec<Keypair> {
    let mut rng = rand::thread_rng();
    let bls_secret_key = threshold_crypto::SecretKeySet::random(1, &mut rng);
    vec![
        Keypair::new_ed25519(&mut rng),
        Keypair::new_bls_share(
            0,
            bls_secret_key.secret_key_share(0),
            bls_secret_key.public_keys(),
        ),
    ]
}

fn gen_keys() -> Vec<PublicKey> {
    gen_keypairs().iter().map(PublicKey::from).collect()
}

fn first_key() -> PublicKey {
    match gen_keys().first() {
        Some(key) => *key,
        None => panic!("Could not generate public key"),
    }
}

fn balance_query(key: PublicKey, id: MessageId) -> ProcessMsg {
    ProcessMsg::Query {
        query: Query::Transfer(TransferQuery::GetBalance(key)),
        id,
    }
}

fn payment() -> sn_data_types::TransferAgreementProof {
    // A proof is needed only to build a data command; the tests that build
    // one never look inside it.
    let mut rng = rand::thread_rng();
    let keys = threshold_crypto::SecretKeySet::random(0, &mut rng);
    let sender = Keypair::new_ed25519(&mut rng);
    let recipient = Keypair::new_ed25519(&mut rng);
    let debit = sn_data_types::Debit {
        id: sn_data_types::DebitId {
            actor: sender.public_key(),
            counter: 0,
        },
        amount: Token::from_nano(1),
    };
    let credit = sn_data_types::Credit {
        id: [7u8; 32],
        recipient: recipient.public_key(),
        amount: Token::from_nano(1),
        msg: "payment".to_string(),
    };
    let signature =
        sn_data_types::Signature::Bls(threshold_crypto::SecretKey::random().sign(b"agreed"));
    sn_data_types::TransferAgreementProof {
        signed_debit: sn_data_types::SignedDebit {
            debit,
            actor_signature: sender.sign(b"debit"),
        },
        signed_credit: sn_data_types::SignedCredit {
            credit,
            actor_signature: sender.sign(b"credit"),
        },
        debit_sig: signature.clone(),
        credit_sig: signature,
        debiting_replicas_keys: keys.public_keys(),
    }
}

#[test]
fn debug_format_functional() {
    let key = first_key();
    let errored_response = QueryResponse::GetSequence(Err(Error::AccessDenied(key)));
    assert!(errored_response
        .debug_string()
        .contains("QueryResponse::GetSequence(AccessDenied(PublicKey::"));
}

#[test]
fn generate_processing_error() {
    let key = first_key();
    let msg = ProcessMsg::Query {
        query: Query::Transfer(TransferQuery::GetBalance(key)),
        id: MessageId::new(),
    };
    let lazy_error = msg.create_processing_error(Some(Error::NoSuchData));

    assert!(lazy_error.debug_string().contains("TransferQuery::GetBalance"));
    assert!(lazy_error.debug_string().contains("ProcessingError"));
    assert!(lazy_error.debug_string().contains("NoSuchData"));
}

#[test]
fn debug_format_processing_error() {
    let key = first_key();
    let errored_response = ProcessingError {
        reason: Some(Error::NoSuchData),
        source_message: Some(ProcessMsg::Query {
            id: MessageId::new(),
            query: Query::Transfer(TransferQuery::GetBalance(key)),
        }),
        id: MessageId::new(),
    };

    assert!(errored_response
        .debug_string()
        .contains("TransferQuery::GetBalance"));
    assert!(errored_response.debug_string().contains("ProcessingError"));
    assert!(errored_response.debug_string().contains("NoSuchData"));
}

#[test]
fn try_from() {
    let key = first_key();

    let i_data = Blob::Public(PublicBlob::new(vec![1, 3, 1, 4]));
    let e = Error::AccessDenied(key);
    let extracted: Blob = match QueryResponse::GetBlob(Ok(i_data.clone())).try_into() {
        Ok(blob) => blob,
        Err(_) => panic!("Mismatched types"),
    };
    assert_eq!(i_data, extracted);
    assert_eq!(
        Err(TryFromError::Response(e.clone())),
        Blob::try_from(QueryResponse::GetBlob(Err(e.clone())))
    );

    let mut data = BTreeMap::new();
    let _ = data.insert(vec![1], vec![10]);
    let owners = PublicKey::Bls(threshold_crypto::SecretKey::random().public_key());
    let m_data = sn_data_types::Map::Unseq(UnseqMap::new_with_data(
        *i_data.name(),
        1,
        data,
        BTreeMap::new(),
        owners,
    ));
    let extracted: sn_data_types::Map = match QueryResponse::GetMap(Ok(m_data.clone())).try_into() {
        Ok(map) => map,
        Err(_) => panic!("Mismatched types"),
    };
    assert_eq!(m_data, extracted);
    assert_eq!(
        Err(TryFromError::Response(e.clone())),
        sn_data_types::Map::try_from(QueryResponse::GetMap(Err(e)))
    );
}

#[test]
fn extraction_of_a_balance() {
    let key = first_key();
    let balance = Token::from_nano(1_000);
    let e = Error::AccessDenied(key);
    assert_eq!(
        Token::try_from(QueryResponse::GetBalance(Ok(balance))),
        Ok(balance)
    );
    assert_eq!(
        Token::try_from(QueryResponse::GetBalance(Err(e.clone()))),
        Err(TryFromError::Response(e.clone()))
    );
    let sequence = Sequence::new_public(key, "actor".to_string(), XorName([3; 32]), 9, None);
    assert_eq!(
        Token::try_from(QueryResponse::GetSequence(Ok(sequence))),
        Err(TryFromError::WrongType)
    );
    assert_eq!(
        Token::try_from(QueryResponse::GetSequence(Err(e))),
        Err(TryFromError::WrongType)
    );
    // The cost of storing is a token too, but it is not what a balance is read from.
    assert_eq!(
        Token::try_from(QueryResponse::GetStoreCost(Ok(balance))),
        Err(TryFromError::WrongType)
    );
}

#[test]
fn extraction_of_other_payloads() {
    assert_eq!(u64::try_from(QueryResponse::GetMapVersion(Ok(7))), Ok(7));
    assert_eq!(
        u64::try_from(QueryResponse::GetMapVersion(Err(Error::NoSuchData))),
        Err(TryFromError::Response(Error::NoSuchData))
    );
    assert_eq!(
        u64::try_from(QueryResponse::GetBalance(Ok(Token::from_nano(7)))),
        Err(TryFromError::WrongType)
    );
    let entry: (u64, Vec<u8>) = (4, vec![1, 2]);
    assert_eq!(
        <(u64, Vec<u8>)>::try_from(QueryResponse::GetSequenceLastEntry(Ok(entry.clone()))),
        Ok(entry)
    );
    let key = first_key();
    assert_eq!(
        PublicKey::try_from(QueryResponse::GetRegisterOwner(Ok(key))),
        Ok(key)
    );
    // A map can be read from either of two responses.
    let map = sn_data_types::Map::Unseq(UnseqMap::new(XorName([1; 32]), 5, key));
    assert_eq!(
        sn_data_types::Map::try_from(QueryResponse::GetMapShell(Ok(map.clone()))),
        Ok(map)
    );
}

#[test]
fn response_reports_success_and_error() {
    let ok = QueryResponse::GetMapVersion(Ok(3));
    assert!(ok.is_success());
    assert_eq!(ok.error(), None);
    assert_eq!(ok.variant_name(), "GetMapVersion");
    assert_eq!(ok.debug_string(), "QueryResponse::GetMapVersion(Success)");

    let failed = QueryResponse::GetHistory(Err(Error::NoSuchData));
    assert!(!failed.is_success());
    assert_eq!(failed.error(), Some(&Error::NoSuchData));
    assert_eq!(failed.debug_string(), "QueryResponse::GetHistory(NoSuchData)");
}

#[test]
fn error_debug_text_is_what_debug_prints() {
    let key = first_key();
    let errors = vec![
        Error::AccessDenied(key),
        Error::NoSuchData,
        Error::DataExists,
        Error::NoSuchEntry,
        Error::InvalidOperation,
        Error::InvalidSignature,
        Error::InsufficientBalance,
        Error::NoSuchSender,
        Error::NoSuchRecipient,
        Error::FailedToParse("a \"quoted\" text".to_string()),
        Error::NetworkData("disk full".to_string()),
    ];
    for error in errors {
        assert_eq!(error.debug_string(), format!("{:?}", error));
    }
    assert_eq!(
        Error::FailedToParse("x".to_string()).debug_string(),
        "FailedToParse(\"x\")"
    );
    assert_eq!(Error::NoSuchData.variant_name(), "NoSuchData");
}

#[test]
fn message_id_debug_text_is_what_debug_prints() {
    let id = MessageId(XorName([0xab; 32]));
    assert_eq!(id.debug_string(), format!("{:?}", id));
    assert!(id.debug_string().starts_with("MessageId(ababab"));
}

#[test]
fn processing_error_debug_text_is_exact_for_a_query() {
    let key = first_key();
    let id = MessageId(XorName([1; 32]));
    let report = ProcessingError {
        reason: Some(Error::NoSuchData),
        source_message: Some(balance_query(key, id)),
        id: MessageId(XorName([2; 32])),
    };
    let expected = format!(
        "ProcessingError {{ reason: Some(NoSuchData), source_message: Some(Query {{ query: Transfer(TransferQuery::GetBalance), id: {:?} }}), id: {:?} }}",
        id,
        MessageId(XorName([2; 32]))
    );
    assert_eq!(report.debug_string(), expected);

    let empty = ProcessingError {
        reason: None,
        source_message: None,
        id,
    };
    assert_eq!(
        empty.debug_string(),
        format!(
            "ProcessingError {{ reason: None, source_message: None, id: {:?} }}",
            id
        )
    );
    assert_eq!(
        empty.debug_string_with("Some(anything)"),
        format!(
            "ProcessingError {{ reason: None, source_message: Some(anything), id: {:?} }}",
            id
        )
    );
}

#[test]
fn transfer_query_debug_text_leaves_the_key_out() {
    let key = first_key();
    assert_eq!(
        TransferQuery::GetBalance(key).debug_string(),
        "TransferQuery::GetBalance"
    );
    assert_eq!(
        TransferQuery::GetHistory {
            at: key,
            since_version: 3
        }
        .debug_string(),
        "TransferQuery::GetHistory"
    );
    assert_eq!(
        Query::Transfer(TransferQuery::GetBalance(key)).debug_string(),
        "Transfer(TransferQuery::GetBalance)"
    );
}

#[test]
fn response_message_debug_text_is_exact() {
    let id = MessageId(XorName([5; 32]));
    let cause = MessageId(XorName([6; 32]));
    let msg = ProcessMsg::QueryResponse {
        response: QueryResponse::GetBalance(Err(Error::NoSuchData)),
        id,
        correlation_id: cause,
    };
    assert_eq!(
        msg.debug_string(),
        format!(
            "QueryResponse {{ response: QueryResponse::GetBalance(NoSuchData), id: {:?}, correlation_id: {:?} }}",
            id, cause
        )
    );
}

#[test]
fn processing_error_carries_the_whole_message() {
    let key = first_key();
    let id = MessageId::new();
    let msg = balance_query(key, id);
    let report = msg.clone().create_processing_error(Some(Error::InvalidOperation));
    assert_eq!(report.source_message, Some(msg.clone()));
    assert_eq!(report.reason, Some(Error::InvalidOperation));
    // The report is a new message: it does not share the identifier of its cause.
    assert_ne!(report.id(), id);

    let fixed = ProcessingError::new(msg.clone(), None, MessageId(XorName([9; 32])));
    assert_eq!(
        fixed,
        ProcessingError {
            reason: None,
            source_message: Some(msg),
            id: MessageId(XorName([9; 32])),
        }
    );
    assert_eq!(fixed.id(), MessageId(XorName([9; 32])));
}

#[test]
fn failing_cmd_yields_correlated_error() {
    let blob = Blob::Public(PublicBlob::new(vec![1, 2, 3]));
    let x = MessageId(XorName([0x11; 32]));
    let cmd = ProcessMsg::Cmd {
        cmd: Cmd::Data {
            cmd: DataCmd::Blob(BlobWrite::New(blob)),
            payment: payment(),
        },
        id: x,
    };

    let fresh = MessageId(XorName([0x22; 32]));
    assert_eq!(
        cmd.cmd_error_with_id(Error::DataExists, fresh),
        Some(ProcessMsg::CmdError {
            error: CmdError::Data(Error::DataExists),
            id: fresh,
            correlation_id: x,
        })
    );
    // An error never shares the identifier of the command.
    assert_eq!(cmd.cmd_error_with_id(Error::DataExists, x), None);

    match cmd.create_cmd_error(Error::DataExists) {
        Some(ProcessMsg::CmdError {
            error,
            id,
            correlation_id,
        }) => {
            assert_eq!(error, CmdError::Data(Error::DataExists));
            assert_eq!(correlation_id, x);
            assert_ne!(id, x);
        }
        other => panic!("expected a CmdError, got {:?}", other),
    }

    // Only a command is answered with a CmdError.
    let query = balance_query(first_key(), x);
    assert_eq!(query.cmd_error_with_id(Error::DataExists, fresh), None);
    assert_eq!(query.create_cmd_error(Error::DataExists), None);
}

#[test]
fn failing_query_yields_correlated_response() {
    let x = MessageId(XorName([0x33; 32]));
    let query = balance_query(first_key(), x);
    let fresh = MessageId(XorName([0x44; 32]));
    assert_eq!(
        query.query_error_with_id(Error::NoSuchData, fresh),
        Some(ProcessMsg::QueryResponse {
            response: QueryResponse::GetBalance(Err(Error::NoSuchData)),
            id: fresh,
            correlation_id: x,
        })
    );
    assert_eq!(query.query_error_with_id(Error::NoSuchData, x), None);
    match query.create_query_error(Error::NoSuchData) {
        Some(msg) => {
            assert_eq!(msg.correlation_id(), Some(x));
            assert_ne!(msg.id(), x);
        }
        None => panic!("expected a response"),
    }
    let response = ProcessMsg::QueryResponse {
        response: QueryResponse::GetBalance(Err(Error::NoSuchData)),
        id: fresh,
        correlation_id: x,
    };
    assert_eq!(response.create_query_error(Error::NoSuchData), None);
}

#[test]
fn transfer_cmd_errors_name_their_stage() {
    let proof = payment();
    let register = sn_messaging::client::TransferCmd::RegisterTransfer(proof.clone());
    assert_eq!(
        register.error(Error::InsufficientBalance),
        CmdError::Transfer(TransferError::TransferRegistration(
            Error::InsufficientBalance
        ))
    );
    let validate = sn_messaging::client::TransferCmd::ValidateTransfer(
        sn_data_types::SignedTransfer {
            debit: proof.signed_debit.clone(),
            credit: proof.signed_credit.clone(),
        },
    );
    assert_eq!(
        validate.error(Error::NoSuchSender),
        CmdError::Transfer(TransferError::TransferValidation(Error::NoSuchSender))
    );
    assert_eq!(
        Cmd::Transfer(validate).error(Error::NoSuchSender),
        CmdError::Transfer(TransferError::TransferValidation(Error::NoSuchSender))
    );
}

#[test]
fn ids_are_read_from_every_message() {
    let id = MessageId(XorName([0x55; 32]));
    let cause = MessageId(XorName([0x66; 32]));
    let key = first_key();

    let query = balance_query(key, id);
    assert_eq!(query.id(), id);
    assert_eq!(query.correlation_id(), None);
    assert_eq!(Message::Process(query.clone()).id(), id);

    let response = ProcessMsg::QueryResponse {
        response: QueryResponse::GetBalance(Ok(Token::from_nano(1))),
        id,
        correlation_id: cause,
    };
    assert_eq!(response.id(), id);
    assert_eq!(response.correlation_id(), Some(cause));

    let error = ProcessMsg::CmdError {
        error: CmdError::Data(Error::NoSuchData),
        id,
        correlation_id: cause,
    };
    assert_eq!(error.id(), id);
    assert_eq!(error.correlation_id(), Some(cause));

    let report = ProcessingError {
        reason: None,
        source_message: Some(query.clone()),
        id: cause,
    };
    // The identifier of a report is its own, not that of the message inside.
    assert_eq!(Message::ProcessingError(report.clone()).id(), cause);
    assert_eq!(
        sn_messaging::Message::Client(Message::ProcessingError(report)).id(),
        cause
    );
}

#[test]
fn a_message_is_a_process_or_an_error() {
    let id = MessageId(XorName([0x77; 32]));
    let query = balance_query(first_key(), id);
    let process = Message::Process(query.clone());
    assert_eq!(process.get_process(), Some(&query));
    assert_eq!(process.get_processing_error(), None);

    let report = ProcessingError {
        reason: Some(Error::NoSuchData),
        source_message: None,
        id,
    };
    let failed = Message::ProcessingError(report.clone());
    assert_eq!(failed.get_process(), None);
    assert_eq!(failed.get_processing_error(), Some(&report));
}

#[test]
fn message_ids_are_fresh_and_comparable() {
    let first = MessageId::new();
    let second = MessageId::new();
    assert_ne!(first, second);
    assert!(first.equals(&first));
    assert!(!first.equals(&second));
    assert!(MessageId(XorName([1; 32])).equals(&MessageId(XorName([1; 32]))));
}

#[test]
fn senders_have_the_address_of_their_key() {
    let key = first_key();
    let user = EndUser::AllClients(key);
    assert_eq!(user.id(), &key);
    assert_eq!(user.name(), XorName::from(key));
    let client = EndUser::Client {
        public_key: key,
        socket_id: XorName([8; 32]),
    };
    assert_eq!(client.id(), &key);
    assert_eq!(client.name(), XorName::from(key));
    assert_eq!(SrcLocation::EndUser(client).name(), XorName::from(key));
    assert_eq!(SrcLocation::Node(XorName([4; 32])).name(), XorName([4; 32]));
    assert_eq!(
        SrcLocation::Section(XorName([5; 32])).name(),
        XorName([5; 32])
    );
}

#[test]
fn blob_queries_are_answered_with_blob_responses() {
    let address = sn_data_types::BlobAddress::Public(XorName([2; 32]));
    let query = Query::Data(DataQuery::Blob(BlobRead::Get(address)));
    assert_eq!(
        query.error(Error::NoSuchData),
        QueryResponse::GetBlob(Err(Error::NoSuchData))
    );
}

#[test]
fn transfers_go_to_the_sender() {
    let proof = payment();
    let sender = proof.sender();
    let register = sn_messaging::client::TransferCmd::RegisterTransfer(proof.clone());
    assert_eq!(register.dst_address(), XorName::from(sender));
    let transfer = sn_data_types::SignedTransfer {
        debit: proof.signed_debit.clone(),
        credit: proof.signed_credit.clone(),
    };
    assert_eq!(transfer.sender(), sender);
    let validate = sn_messaging::client::TransferCmd::ValidateTransfer(transfer);
    assert_eq!(validate.dst_address(), XorName::from(sender));
    assert_eq!(Cmd::Transfer(validate).dst_address(), XorName::from(sender));
    // The recipient is someone else, at another address.
    assert_ne!(
        Cmd::Transfer(register).dst_address(),
        XorName::from(proof.recipient())
    );
}

#[test]
fn paid_writes_go_to_the_data() {
    let blob = Blob::Public(PublicBlob::new(vec![4, 5, 6]));
    let name = *blob.name();
    let proof = payment();
    let cmd = Cmd::Data {
        cmd: DataCmd::Blob(BlobWrite::New(blob)),
        payment: proof.clone(),
    };
    assert_eq!(cmd.dst_address(), name);
    assert_ne!(cmd.dst_address(), XorName::from(proof.sender()));
    assert_eq!(
        cmd.error(Error::InvalidSignature),
        CmdError::Data(Error::InvalidSignature)
    );
}

#[test]
fn other_messages_print_as_their_parts_do() {
    let address = sn_data_types::BlobAddress::Public(XorName([2; 32]));
    let query = Query::Data(DataQuery::Blob(BlobRead::Get(address)));
    assert_eq!(query.debug_string(), format!("{:?}", query));
    let cost = Query::GetStoreCost {
        bytes: 10,
        data_name: XorName([3; 32]),
    };
    assert_eq!(cost.debug_string(), format!("{:?}", cost));
    let error = ProcessMsg::CmdError {
        error: CmdError::Data(Error::NoSuchData),
        id: MessageId(XorName([1; 32])),
        correlation_id: MessageId(XorName([2; 32])),
    };
    assert_eq!(error.debug_string(), format!("{:?}", error));
}
