use ibc_host::client::{Height, MockClientState, MockConsensusState};
use ibc_host::conn_handshake::{
    conn_open_ack, conn_open_init, conn_open_try, MsgConnectionOpenInit, MsgConnectionOpenTry,
};
use ibc_host::conn_open_confirm::{conn_open_confirm, MsgConnectionOpenConfirm};
use ibc_host::connection::{Counterparty, State, Version};
use ibc_host::context::{IbcEvent, MockContext};
use ibc_host::error::{ConnectionError, ContextError};
use ibc_host::identifiers::{ClientId, ConnectionId};
use ibc_host::msgs::MsgConnectionOpenAck;

fn h(rev: u64, height: u64) -> Height {
    Height::new(rev, height).unwrap()
}

fn client() -> ClientId {
    ClientId::new("07-tendermint", 0).unwrap()
}

fn chain_with_client(heights: &[u64]) -> MockContext {
    let mut ctx = MockContext::new(h(0, 20), 0);
    ctx.store_client_state(&client(), MockClientState::new(h(0, 12)));
    for &height in heights {
        ctx.store_consensus_state(
            &client(),
            &h(0, height),
            MockConsensusState { height: h(0, height), timestamp: height },
        );
    }
    ctx
}

fn init_msg(version: Option<Version>) -> MsgConnectionOpenInit {
    MsgConnectionOpenInit {
        client_id_on_a: client(),
        counterparty: Counterparty::new(client(), None, b"ibc".to_vec()),
        version,
        delay_period: 0,
        signer: "s".to_string(),
    }
}

fn try_msg() -> MsgConnectionOpenTry {
    MsgConnectionOpenTry {
        client_id_on_b: client(),
        client_state_of_b_on_a: MockClientState::new(h(0, 10)),
        counterparty: Counterparty::new(client(), Some(ConnectionId::new(0)), b"ibc".to_vec()),
        versions_on_a: vec![Version::default_version()],
        proof_conn_end_on_a: vec![1],
        proof_client_state_of_b_on_a: vec![1],
        proof_consensus_state_of_b_on_a: vec![1],
        proofs_height_on_a: h(0, 10),
        consensus_height_of_b_on_a: h(0, 10),
        delay_period: 0,
        signer: "s".to_string(),
    }
}

fn ack_msg() -> MsgConnectionOpenAck {
    MsgConnectionOpenAck {
        conn_id_on_a: ConnectionId::new(0),
        conn_id_on_b: ConnectionId::new(0),
        client_state_of_a_on_b: MockClientState::new(h(0, 11)),
        proof_conn_end_on_b: vec![1],
        proof_client_state_of_a_on_b: vec![1],
        proof_consensus_state_of_a_on_b: vec![1],
        proofs_height_on_b: h(0, 11),
        consensus_height_of_a_on_b: h(0, 11),
        version: Version::default_version(),
        signer: "s".to_string(),
    }
}

#[test]
fn full_connection_handshake() {
    let mut a = chain_with_client(&[11]);
    let mut b = chain_with_client(&[10, 12]);

    let id_a = conn_open_init(&mut a, &init_msg(Some(Version::default_version()))).unwrap();
    assert_eq!(id_a.as_str(), "connection-0");
    assert_eq!(a.connection_end(&id_a).unwrap().state, State::Init);
    assert_eq!(a.connection_counter(), 1);

    let id_b = conn_open_try(&mut b, &try_msg()).unwrap();
    assert_eq!(id_b.as_str(), "connection-0");
    assert_eq!(b.connection_end(&id_b).unwrap().state, State::TryOpen);

    conn_open_ack(&mut a, &ack_msg()).unwrap();
    let end_a = a.connection_end(&id_a).unwrap();
    assert_eq!(end_a.state, State::Open);
    assert_eq!(end_a.counterparty.connection_id, Some(ConnectionId::new(0)));
    assert_eq!(end_a.versions, vec![Version::default_version()]);

    let confirm = MsgConnectionOpenConfirm {
        conn_id_on_b: id_b.clone(),
        proof_conn_end_on_a: vec![1],
        proof_height_on_a: h(0, 12),
        signer: "s".to_string(),
    };
    conn_open_confirm(&mut b, &confirm).unwrap();
    assert_eq!(b.connection_end(&id_b).unwrap().state, State::Open);

    assert_eq!(
        a.events(),
        &vec![
            IbcEvent::OpenInitConnection { connection_id: id_a.clone() },
            IbcEvent::OpenAckConnection { connection_id: id_a.clone() },
        ]
    );
    assert_eq!(
        b.events(),
        &vec![
            IbcEvent::OpenTryConnection { connection_id: id_b.clone() },
            IbcEvent::OpenConfirmConnection { connection_id: id_b },
        ]
    );
}

#[test]
fn connection_init_records_client_connection_and_counts() {
    let mut a = chain_with_client(&[]);
    let first = conn_open_init(&mut a, &init_msg(None)).unwrap();
    let second = conn_open_init(&mut a, &init_msg(None)).unwrap();
    assert_eq!(first.as_str(), "connection-0");
    assert_eq!(second.as_str(), "connection-1");
    assert_eq!(a.connection_counter(), 2);
}

#[test]
fn connection_init_rejects_unsupported_version() {
    let mut a = chain_with_client(&[]);
    let v = Version { identifier: "2".to_string(), features: vec![] };
    assert_eq!(
        conn_open_init(&mut a, &init_msg(Some(v))),
        Err(ContextError::Connection(ConnectionError::VersionNegotiationFailed))
    );
    assert_eq!(a.connection_counter(), 0);
}

#[test]
fn connection_try_without_common_version_fails() {
    let mut b = chain_with_client(&[10]);
    let mut msg = try_msg();
    msg.versions_on_a = vec![Version { identifier: "2".to_string(), features: vec![] }];
    assert_eq!(
        conn_open_try(&mut b, &msg),
        Err(ContextError::Connection(ConnectionError::VersionNegotiationFailed))
    );
    let mut msg = try_msg();
    msg.consensus_height_of_b_on_a = h(0, 21);
    assert_eq!(
        conn_open_try(&mut b, &msg),
        Err(ContextError::Connection(ConnectionError::InvalidConsensusHeight))
    );
    assert!(b.events().is_empty());
}

#[test]
fn connection_ack_only_from_init() {
    let mut a = chain_with_client(&[11]);
    conn_open_init(&mut a, &init_msg(None)).unwrap();
    conn_open_ack(&mut a, &ack_msg()).unwrap();
    assert!(matches!(
        conn_open_ack(&mut a, &ack_msg()),
        Err(ContextError::Connection(ConnectionError::ConnectionMismatch { .. }))
    ));
    let confirm = MsgConnectionOpenConfirm {
        conn_id_on_b: ConnectionId::new(0),
        proof_conn_end_on_a: vec![1],
        proof_height_on_a: h(0, 11),
        signer: "s".to_string(),
    };
    assert!(matches!(
        conn_open_confirm(&mut a, &confirm),
        Err(ContextError::Connection(ConnectionError::ConnectionMismatch { .. }))
    ));
}
