use sn_data_types::register::{Address as RegisterAddress, Register, User as RegisterUser};
use sn_data_types::{
    Blob, BlobAddress, Keypair, MapAddress, PrivateBlob, PublicBlob, PublicKey, Sequence,
    SequenceAddress, SequenceIndex, SequenceUser, UnseqMap,
};
use sn_messaging::client::{
    BlobRead, BlobWrite, CmdError, DataCmd, DataQuery, Error, MapRead, MapWrite, Query,
    QueryResponse, RegisterEdit, RegisterRead, RegisterWrite, SequenceEdit, SequenceRead,
    SequenceWrite, TransferQuery,
};
use xor_name::XorName;

fn key() -> PublicKey {
    let mut rng = rand::thread_rng();
    Keypair::new_ed25519(&mut rng).public_key()
}

fn bls_key() -> PublicKey {
    PublicKey::Bls(threshold_crypto::SecretKey::random().public_key())
}

fn name(byte: u8) -> XorName {
    XorName([byte; 32])
}

fn shape(query: Query) -> String {
    let response = query.error(Error::NoSuchData);
    assert_eq!(response.error(), Some(&Error::NoSuchData));
    assert!(!response.is_success());
    response.variant_name().to_string()
}

#[test]
fn every_data_query_has_its_response() {
    let blob = BlobAddress::Private(name(1));
    assert_eq!(shape(Query::Data(DataQuery::Blob(BlobRead::Get(blob)))), "GetBlob");

    let map = MapAddress::Seq {
        name: name(2),
        tag: 10,
    };
    let user = key();
    let map_queries = vec![
        (MapRead::Get(map), "GetMap"),
        (
            MapRead::GetValue {
                address: map,
                key: vec![1],
            },
            "GetMapValue",
        ),
        (MapRead::GetShell(map), "GetMapShell"),
        (MapRead::GetVersion(map), "GetMapVersion"),
        (MapRead::ListEntries(map), "ListMapEntries"),
        (MapRead::ListKeys(map), "ListMapKeys"),
        (MapRead::ListValues(map), "ListMapValues"),
        (MapRead::ListPermissions(map), "ListMapPermissions"),
        (
            MapRead::ListUserPermissions { address: map, user },
            "ListMapUserPermissions",
        ),
    ];
    for (query, expected) in map_queries {
        assert_eq!(shape(Query::Data(DataQuery::MapData(query))), expected);
    }

    let sequence = SequenceAddress::Public {
        name: name(3),
        tag: 11,
    };
    let sequence_queries = vec![
        (SequenceRead::Get(sequence), "GetSequence"),
        (
            SequenceRead::GetRange {
                address: sequence,
                start: SequenceIndex::FromStart(0),
                end: SequenceIndex::FromEnd(0),
            },
            "GetSequenceRange",
        ),
        (SequenceRead::GetLastEntry(sequence), "GetSequenceLastEntry"),
        (
            SequenceRead::GetPublicPolicy(sequence),
            "GetSequencePublicPolicy",
        ),
        (
            SequenceRead::GetPrivatePolicy(sequence),
            "GetSequencePrivatePolicy",
        ),
        (
            SequenceRead::GetUserPermissions {
                address: sequence,
                user: SequenceUser::Anyone,
            },
            "GetSequenceUserPermissions",
        ),
    ];
    for (query, expected) in sequence_queries {
        assert_eq!(shape(Query::Data(DataQuery::Sequence(query))), expected);
    }

    let register = RegisterAddress::Private {
        name: name(4),
        tag: 12,
    };
    let register_queries = vec![
        (RegisterRead::Get(register), "GetRegister"),
        (RegisterRead::Read(register), "ReadRegister"),
        (RegisterRead::GetPolicy(register), "GetRegisterPolicy"),
        (
            RegisterRead::GetUserPermissions {
                address: register,
                user: RegisterUser::Anyone,
            },
            "GetRegisterUserPermissions",
        ),
        (RegisterRead::GetOwner(register), "GetRegisterOwner"),
    ];
    for (query, expected) in register_queries {
        assert_eq!(shape(Query::Data(DataQuery::Register(query))), expected);
    }
}

#[test]
fn every_other_query_has_its_response() {
    let at = key();
    assert_eq!(
        shape(Query::Transfer(TransferQuery::GetBalance(at))),
        "GetBalance"
    );
    assert_eq!(
        shape(Query::Transfer(TransferQuery::GetHistory {
            at,
            since_version: 0
        })),
        "GetHistory"
    );
    assert_eq!(
        shape(Query::GetStoreCost {
            bytes: 100,
            data_name: name(5)
        }),
        "GetStoreCost"
    );
}

#[test]
fn the_shape_of_an_error_response_does_not_depend_on_the_error() {
    let query = Query::Transfer(TransferQuery::GetBalance(key()));
    let first = query.error(Error::NoSuchData);
    let second = query.error(Error::AccessDenied(key()));
    assert_eq!(first.variant_name(), second.variant_name());
    assert_eq!(first, QueryResponse::GetBalance(Err(Error::NoSuchData)));
}

#[test]
fn queries_go_to_the_data_they_read() {
    assert_eq!(
        Query::Data(DataQuery::Blob(BlobRead::Get(BlobAddress::Public(name(1))))).dst_address(),
        name(1)
    );
    assert_eq!(
        Query::Data(DataQuery::MapData(MapRead::GetVersion(MapAddress::Unseq {
            name: name(2),
            tag: 1
        })))
        .dst_address(),
        name(2)
    );
    assert_eq!(
        Query::Data(DataQuery::Sequence(SequenceRead::GetLastEntry(
            SequenceAddress::Private {
                name: name(3),
                tag: 1
            }
        )))
        .dst_address(),
        name(3)
    );
    assert_eq!(
        Query::Data(DataQuery::Register(RegisterRead::GetOwner(
            RegisterAddress::Public {
                name: name(4),
                tag: 1
            }
        )))
        .dst_address(),
        name(4)
    );
    assert_eq!(
        Query::GetStoreCost {
            bytes: 1,
            data_name: name(5)
        }
        .dst_address(),
        name(5)
    );
}

#[test]
fn token_queries_go_to_the_key() {
    let ed = key();
    assert_eq!(
        Query::Transfer(TransferQuery::GetBalance(ed)).dst_address(),
        XorName::from(ed)
    );
    let bls = bls_key();
    let expected = XorName::from(bls);
    assert_eq!(
        Query::Transfer(TransferQuery::GetHistory {
            at: bls,
            since_version: 2
        })
        .dst_address(),
        expected
    );
    // The address of a key is made of the first 32 bytes of the key.
    assert_eq!(expected.0[..], bls.to_bytes()[..32]);
}

#[test]
fn destinations_are_the_same_for_equal_requests() {
    let at = key();
    let first = Query::Transfer(TransferQuery::GetBalance(at));
    let second = first.clone();
    assert_eq!(first, second);
    assert_eq!(first.dst_address(), second.dst_address());
    assert_eq!(first.dst_address(), first.dst_address());

    let blob = Blob::Public(PublicBlob::new(vec![9, 9, 9]));
    let write = DataCmd::Blob(BlobWrite::New(blob.clone()));
    assert_eq!(write.dst_address(), write.clone().dst_address());
}

#[test]
fn writes_go_to_the_data_they_write() {
    let owner = key();
    let public = Blob::Public(PublicBlob::new(vec![1, 2, 3]));
    // The address of a blob is the hash of its content.
    assert_eq!(
        DataCmd::Blob(BlobWrite::New(public.clone())).dst_address(),
        *public.name()
    );
    assert_eq!(
        DataCmd::Blob(BlobWrite::New(public.clone())).dst_address(),
        *Blob::Public(PublicBlob::new(vec![1, 2, 3])).name()
    );
    let private = Blob::Private(PrivateBlob::new(vec![1, 2, 3], owner));
    assert_eq!(
        BlobWrite::New(private.clone()).dst_address(),
        *private.name()
    );
    assert_ne!(private.name(), public.name());
    assert_eq!(
        BlobWrite::DeletePrivate(BlobAddress::Private(name(6))).dst_address(),
        name(6)
    );

    let map = sn_data_types::Map::Unseq(UnseqMap::new(name(7), 3, owner));
    assert_eq!(
        DataCmd::MapData(MapWrite::New(map)).dst_address(),
        name(7)
    );
    assert_eq!(
        MapWrite::DelUserPermissions {
            address: MapAddress::Seq {
                name: name(8),
                tag: 3
            },
            user: owner,
            version: 1
        }
        .dst_address(),
        name(8)
    );

    let sequence = Sequence::new_public(owner, "actor".to_string(), name(9), 3, None);
    assert_eq!(
        DataCmd::Sequence(SequenceWrite::New(sequence)).dst_address(),
        name(9)
    );
    assert_eq!(
        SequenceWrite::Edit(SequenceEdit {
            address: SequenceAddress::Public {
                name: name(10),
                tag: 3
            },
            crdt_op: vec![1],
            source: owner,
            signature: None,
        })
        .dst_address(),
        name(10)
    );
    assert_eq!(
        SequenceWrite::Delete(SequenceAddress::Private {
            name: name(11),
            tag: 3
        })
        .dst_address(),
        name(11)
    );

    let register = Register::new_public(owner, name(12), 3, None);
    assert_eq!(
        DataCmd::Register(RegisterWrite::New(register)).dst_address(),
        name(12)
    );
    assert_eq!(
        RegisterWrite::Edit(RegisterEdit {
            address: RegisterAddress::Private {
                name: name(13),
                tag: 3
            },
            crdt_op: vec![],
            source: owner,
            signature: None,
        })
        .dst_address(),
        name(13)
    );
}

#[test]
fn data_writes_fail_with_data_errors() {
    let blob = Blob::Public(PublicBlob::new(vec![1]));
    assert_eq!(
        DataCmd::Blob(BlobWrite::New(blob)).error(Error::DataExists),
        CmdError::Data(Error::DataExists)
    );
    assert_eq!(
        MapWrite::Delete(MapAddress::Seq {
            name: name(1),
            tag: 1
        })
        .error(Error::NoSuchData),
        CmdError::Data(Error::NoSuchData)
    );
    assert_eq!(
        SequenceWrite::Delete(SequenceAddress::Private {
            name: name(1),
            tag: 1
        })
        .error(Error::InvalidOperation),
        CmdError::Data(Error::InvalidOperation)
    );
    assert_eq!(
        RegisterWrite::Delete(RegisterAddress::Private {
            name: name(1),
            tag: 1
        })
        .error(Error::NoSuchEntry),
        CmdError::Data(Error::NoSuchEntry)
    );
}
