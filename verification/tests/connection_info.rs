use crust::P2pConnectionInfo;
use crust::PaAddr;
use crust::PaStream;
use crust::PrivConnectionInfo;
use crust::PublicEncryptKey;
use crust::RendezvousConnectError;
use crust::SecretEncryptKey;

fn gen_keypair() -> (PublicEncryptKey, SecretEncryptKey) {
    (
        PublicEncryptKey { bytes: [7u8; 32] },
        SecretEncryptKey { bytes: [9u8; 32] },
    )
}

fn rendezvous_parts() -> (
    future_utils::bi_channel::UnboundedBiChannel<bytes::Bytes>,
    futures::sync::oneshot::Receiver<Result<PaStream, RendezvousConnectError>>,
) {
    let (rendezvous_channel, _other_side) = future_utils::bi_channel::unbounded();
    let (_tx, connection_rx) = futures::sync::oneshot::channel();
    (rendezvous_channel, connection_rx)
}

#[test]
fn when_p2p_conn_info_is_none_it_sets_none_in_public_conn_info_too() {
    let (our_pk, our_sk) = gen_keypair();
    let our_uid = our_pk;
    let priv_conn_info = PrivConnectionInfo {
        connection_id: 123,
        our_uid,
        for_direct: vec![],
        p2p_conn_info: None,
        our_pk,
        our_sk,
    };

    let pub_conn_info = priv_conn_info.to_pub_connection_info();

    assert!(pub_conn_info.p2p_conn_info.is_none());
}

#[test]
fn when_p2p_conn_info_is_not_none_it_is_stored_as_vector_in_public_conn_info() {
    let (rendezvous_channel, connection_rx) = rendezvous_parts();
    let p2p_conn_info = Some(P2pConnectionInfo {
        our_info: bytes::Bytes::from(vec![1, 2, 3]),
        rendezvous_channel,
        connection_rx,
    });
    let (our_pk, our_sk) = gen_keypair();
    let our_uid = our_pk;
    let priv_conn_info = PrivConnectionInfo {
        connection_id: 123,
        our_uid,
        for_direct: vec![],
        p2p_conn_info,
        our_pk,
        our_sk,
    };

    let pub_conn_info = priv_conn_info.to_pub_connection_info();

    assert_eq!(pub_conn_info.p2p_conn_info, Some(vec![1, 2, 3]));
}

#[test]
fn to_pub_connection_info_twice_yields_structurally_equal_descriptors() {
    let (rendezvous_channel, connection_rx) = rendezvous_parts();
    let p2p_conn_info = Some(P2pConnectionInfo {
        our_info: bytes::Bytes::from(vec![4, 5]),
        rendezvous_channel,
        connection_rx,
    });
    let (our_pk, our_sk) = gen_keypair();
    let priv_conn_info = PrivConnectionInfo {
        connection_id: 77,
        our_uid: our_pk,
        for_direct: vec![PaAddr { ip: [10, 0, 0, 1], port: 1234 }],
        p2p_conn_info,
        our_pk,
        our_sk,
    };

    let first = priv_conn_info.to_pub_connection_info();
    let second = priv_conn_info.to_pub_connection_info();

    assert_eq!(first, second);
}

#[test]
fn conversion_preserves_id_addresses_and_keys_verbatim() {
    let (our_pk, our_sk) = gen_keypair();
    let for_direct = vec![
        PaAddr { ip: [192, 168, 1, 2], port: 5000 },
        PaAddr { ip: [10, 0, 0, 7], port: 6000 },
    ];
    let priv_conn_info = PrivConnectionInfo {
        connection_id: 4242,
        our_uid: our_pk,
        for_direct: for_direct.clone(),
        p2p_conn_info: None,
        our_pk,
        our_sk,
    };

    let pub_conn_info = priv_conn_info.to_pub_connection_info();

    assert_eq!(pub_conn_info.connection_id, 4242);
    assert_eq!(pub_conn_info.for_direct, for_direct);
    assert_eq!(pub_conn_info.uid, our_pk);
    assert_eq!(pub_conn_info.pub_key, our_pk);
}

#[test]
fn id_returns_the_creators_public_key() {
    let (our_pk, our_sk) = gen_keypair();
    let priv_conn_info = PrivConnectionInfo {
        connection_id: 1,
        our_uid: our_pk,
        for_direct: vec![],
        p2p_conn_info: None,
        our_pk,
        our_sk,
    };

    let pub_conn_info = priv_conn_info.to_pub_connection_info();

    assert_eq!(pub_conn_info.id(), our_pk);
}
