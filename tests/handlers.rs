use ibc_host::chan_close_init::chan_close_init;
use ibc_host::channel::{ChannelCounterparty, ChannelEnd, ChannelState, Order, Packet};
use ibc_host::client::{ClientError, Height, MockClientState, MockConsensusState};
use ibc_host::conn_open_confirm::{
    conn_open_confirm, expected_counterparty_end, process, MsgConnectionOpenConfirm,
};
use ibc_host::connection::{ConnectionEnd, Counterparty, State, Version};
use ibc_host::context::{IbcEvent, MockContext};
use ibc_host::error::{ChannelError, ConnectionError, ContextError, PacketError};
use ibc_host::identifiers::{ChannelId, ClientId, ConnectionId, PortId};
use ibc_host::msgs::MsgChannelCloseInit;
use ibc_host::packet::{
    acknowledge_packet, recv_packet, send_packet, timeout_on_close, timeout_packet,
    MsgAcknowledgement, MsgRecvPacket, MsgTimeout,
};
use ibc_host::update_client::{update_client, MockHeader, MsgUpdateClient};

fn h(rev: u64, height: u64) -> Height {
    Height::new(rev, height).unwrap()
}

fn client() -> ClientId {
    ClientId::parse("07-tendermint-0").unwrap()
}

fn port() -> PortId {
    PortId::new("transfer").unwrap()
}

fn chan() -> ChannelId {
    ChannelId::new(0)
}

fn connection(state: State) -> ConnectionEnd {
    ConnectionEnd::new(
        state,
        client(),
        Counterparty::new(client(), Some(ConnectionId::new(0)), b"ibc".to_vec()),
        vec![Version::default_version()],
        0,
    )
}

/// A host at (0, 5) with client `07-tendermint-0` at (0, 10), an open
/// `connection-0` and the channel `transfer/channel-0` looping back to itself.
fn host(ordering: Order) -> MockContext {
    let mut ctx = MockContext::new(h(0, 5), 1000);
    ctx.store_client_state(&client(), MockClientState::new(h(0, 10)));
    ctx.store_consensus_state(&client(), &h(0, 10), MockConsensusState { height: h(0, 10), timestamp: 500 });
    ctx.store_connection(&ConnectionId::new(0), connection(State::Open));
    ctx.store_channel(
        &port(),
        &chan(),
        ChannelEnd {
            state: ChannelState::Open,
            ordering,
            remote: ChannelCounterparty { port_id: port(), channel_id: Some(chan()) },
            connection_hops: vec![ConnectionId::new(0)],
            version: "ics20-1".to_string(),
        },
    );
    ctx.store_next_sequence_send(&port(), &chan(), 1);
    ctx.store_next_sequence_recv(&port(), &chan(), 1);
    ctx.store_next_sequence_ack(&port(), &chan(), 1);
    ctx
}

fn packet(seq: u64, timeout: Option<Height>, timestamp: u64) -> Packet {
    Packet {
        seq_on_a: seq,
        port_id_on_a: port(),
        chan_id_on_a: chan(),
        port_id_on_b: port(),
        chan_id_on_b: chan(),
        data: b"hello".to_vec(),
        timeout_height_on_b: timeout,
        timeout_timestamp_on_b: timestamp,
    }
}

fn recv_msg(p: Packet) -> MsgRecvPacket {
    MsgRecvPacket { packet: p, proof_commitment_on_a: vec![1], proof_height_on_a: h(0, 10), signer: "s".to_string() }
}

fn snapshot(ctx: &MockContext, seqs: &Vec<u64>) -> (Vec<u64>, Vec<u64>, usize, Result<u64, PacketError>, Result<u64, PacketError>) {
    (
        ctx.unreceived_packets(&port(), &chan(), seqs),
        ctx.unreceived_acks(&port(), &chan(), seqs),
        ctx.events().len(),
        ctx.get_next_sequence_send(&port(), &chan()),
        ctx.get_next_sequence_recv(&port(), &chan()),
    )
}

#[test]
fn conn_open_confirm_msg_processing() {
    let client_id = ClientId::parse("mock_clientid").unwrap();
    let conn_id = ConnectionId::new(0);
    let msg = MsgConnectionOpenConfirm {
        conn_id_on_b: conn_id.clone(),
        proof_conn_end_on_a: vec![1, 2, 3],
        proof_height_on_a: h(0, 10),
        signer: "signer".to_string(),
    };
    let counterparty = Counterparty::new(client_id.clone(), Some(conn_id.clone()), b"ibc".to_vec());
    let incorrect = ConnectionEnd::new(
        State::Init,
        client_id.clone(),
        counterparty,
        vec![Version::default_version()],
        0,
    );
    let mut correct = incorrect.clone();
    correct.state = State::TryOpen;

    // Processing fails due to missing connection in context
    let ctx = MockContext::new(h(0, 20), 0);
    assert!(matches!(
        process(&ctx, &msg, true),
        Err(ContextError::Connection(ConnectionError::ConnectionNotFound { .. }))
    ));

    // Processing fails due to connections mismatch (incorrect state)
    let mut ctx = MockContext::new(h(0, 20), 0);
    ctx.store_client_state(&client_id, MockClientState::new(h(0, 10)));
    ctx.store_consensus_state(&client_id, &h(0, 10), MockConsensusState { height: h(0, 10), timestamp: 1 });
    ctx.store_connection(&conn_id, incorrect);
    assert!(matches!(
        process(&ctx, &msg, true),
        Err(ContextError::Connection(ConnectionError::ConnectionMismatch { .. }))
    ));

    // Processing successful
    let mut ctx = MockContext::new(h(0, 20), 0);
    ctx.store_client_state(&client_id, MockClientState::new(h(0, 10)));
    ctx.store_consensus_state(&client_id, &h(0, 10), MockConsensusState { height: h(0, 10), timestamp: 1 });
    ctx.store_connection(&conn_id, correct);
    let out = process(&ctx, &msg, true).unwrap();
    assert!(!out.events.is_empty());
    assert_eq!(out.result.connection_end.state, State::Open);
    for e in out.events.iter() {
        assert!(matches!(e, &IbcEvent::OpenConfirmConnection { .. }));
    }
}

#[test]
fn conn_open_confirm_stores_open_end() {
    let mut ctx = host(Order::Unordered);
    ctx.store_connection(&ConnectionId::new(0), connection(State::TryOpen));
    let msg = MsgConnectionOpenConfirm {
        conn_id_on_b: ConnectionId::new(0),
        proof_conn_end_on_a: vec![1],
        proof_height_on_a: h(0, 10),
        signer: "s".to_string(),
    };
    conn_open_confirm(&mut ctx, &msg).unwrap();
    assert_eq!(ctx.connection_end(&ConnectionId::new(0)).unwrap().state, State::Open);
    assert_eq!(
        ctx.events().last(),
        Some(&IbcEvent::OpenConfirmConnection { connection_id: ConnectionId::new(0) })
    );
    // A second confirm finds the end already open.
    assert!(matches!(
        conn_open_confirm(&mut ctx, &msg),
        Err(ContextError::Connection(ConnectionError::ConnectionMismatch { .. }))
    ));
}

#[test]
fn conn_open_confirm_on_init_fails_and_leaves_store() {
    let mut ctx = host(Order::Unordered);
    ctx.store_connection(&ConnectionId::new(0), connection(State::Init));
    let before_events = ctx.events().len();
    let msg = MsgConnectionOpenConfirm {
        conn_id_on_b: ConnectionId::new(0),
        proof_conn_end_on_a: vec![1],
        proof_height_on_a: h(0, 10),
        signer: "s".to_string(),
    };
    assert!(matches!(
        conn_open_confirm(&mut ctx, &msg),
        Err(ContextError::Connection(ConnectionError::ConnectionMismatch { .. }))
    ));
    assert_eq!(ctx.connection_end(&ConnectionId::new(0)).unwrap(), &connection(State::Init));
    assert_eq!(ctx.events().len(), before_events);
}

#[test]
fn conn_open_confirm_missing_consensus_state_and_frozen_client() {
    let mut ctx = host(Order::Unordered);
    ctx.store_connection(&ConnectionId::new(0), connection(State::TryOpen));
    let msg = MsgConnectionOpenConfirm {
        conn_id_on_b: ConnectionId::new(0),
        proof_conn_end_on_a: vec![1],
        proof_height_on_a: h(0, 12),
        signer: "s".to_string(),
    };
    assert!(matches!(
        process(&ctx, &msg, true),
        Err(ContextError::Client(ClientError::ConsensusStateNotFound { .. }))
    ));
    ctx.store_client_state(&client(), MockClientState { latest_height: h(0, 10), frozen: true });
    assert!(matches!(
        process(&ctx, &msg, true),
        Err(ContextError::Client(ClientError::FrozenClient { .. }))
    ));
}

#[test]
fn unordered_packet_replay() {
    let mut ctx = host(Order::Unordered);
    let p = packet(1, Some(h(0, 20)), 0);
    send_packet(&mut ctx, &p).unwrap();
    assert_eq!(ctx.get_next_sequence_send(&port(), &chan()), Ok(2));
    assert_eq!(ctx.get_packet_commitment(&port(), &chan(), 1).unwrap().len(), 32);
    assert!(ctx.get_packet_receipt(&port(), &chan(), 1).is_err());
    recv_packet(&mut ctx, &recv_msg(p.clone()), &vec![1]).unwrap();
    assert!(ctx.get_packet_receipt(&port(), &chan(), 1).is_ok());
    assert_eq!(ctx.get_packet_acknowledgement(&port(), &chan(), 1).unwrap().len(), 32);
    let seqs = vec![1, 2];
    let before = snapshot(&ctx, &seqs);
    assert_eq!(
        recv_packet(&mut ctx, &recv_msg(p), &vec![1]),
        Err(ContextError::Packet(PacketError::PacketReceiptAlreadyExists { sequence: 1 }))
    );
    assert_eq!(snapshot(&ctx, &seqs), before);
    assert_eq!(before.0, vec![2]);
}

#[test]
fn ordered_packet_out_of_order() {
    let mut ctx = host(Order::Ordered);
    let p1 = packet(1, Some(h(0, 20)), 0);
    let p2 = packet(2, Some(h(0, 20)), 0);
    send_packet(&mut ctx, &p1).unwrap();
    send_packet(&mut ctx, &p2).unwrap();
    assert_eq!(
        recv_packet(&mut ctx, &recv_msg(p2.clone()), &vec![]),
        Err(ContextError::Packet(PacketError::InvalidPacketSequence { given: 2, next: 1 }))
    );
    recv_packet(&mut ctx, &recv_msg(p1.clone()), &vec![]).unwrap();
    assert_eq!(ctx.get_next_sequence_recv(&port(), &chan()), Ok(2));
    assert_eq!(
        recv_packet(&mut ctx, &recv_msg(p1), &vec![]),
        Err(ContextError::Packet(PacketError::InvalidPacketSequence { given: 1, next: 2 }))
    );
    recv_packet(&mut ctx, &recv_msg(p2), &vec![]).unwrap();
    assert_eq!(ctx.get_next_sequence_recv(&port(), &chan()), Ok(3));
    // An empty acknowledgement writes no acknowledgement commitment.
    assert!(ctx.get_packet_acknowledgement(&port(), &chan(), 2).is_err());
}

#[test]
fn timeout_happy_path() {
    let mut ctx = host(Order::Unordered);
    ctx.store_consensus_state(&client(), &h(0, 25), MockConsensusState { height: h(0, 25), timestamp: 900 });
    let p = packet(1, Some(h(0, 20)), 0);
    send_packet(&mut ctx, &p).unwrap();
    let msg = MsgTimeout {
        packet: p.clone(),
        next_seq_recv_on_b: 1,
        proof_unreceived_on_b: vec![1],
        proof_height_on_b: h(0, 25),
        signer: "s".to_string(),
    };
    timeout_packet(&mut ctx, &msg).unwrap();
    assert!(ctx.get_packet_commitment(&port(), &chan(), 1).is_err());
    assert_eq!(ctx.events().last(), Some(&IbcEvent::TimeoutPacket { sequence: 1 }));
    // Neither a second timeout nor an acknowledgement of it can follow.
    assert_eq!(
        timeout_packet(&mut ctx, &msg),
        Err(ContextError::Packet(PacketError::PacketCommitmentNotFound { sequence: 1 }))
    );
    let ack = MsgAcknowledgement {
        packet: p,
        acknowledgement: vec![1],
        proof_acked_on_b: vec![1],
        proof_height_on_b: h(0, 25),
        signer: "s".to_string(),
    };
    assert!(acknowledge_packet(&mut ctx, &ack).is_err());
}

#[test]
fn timeout_before_it_is_reached_fails() {
    let mut ctx = host(Order::Unordered);
    ctx.store_consensus_state(&client(), &h(0, 15), MockConsensusState { height: h(0, 15), timestamp: 900 });
    let p = packet(1, Some(h(0, 20)), 0);
    send_packet(&mut ctx, &p).unwrap();
    let msg = MsgTimeout {
        packet: p,
        next_seq_recv_on_b: 1,
        proof_unreceived_on_b: vec![1],
        proof_height_on_b: h(0, 15),
        signer: "s".to_string(),
    };
    assert!(matches!(
        timeout_packet(&mut ctx, &msg),
        Err(ContextError::Packet(PacketError::PacketTimeoutNotReached { .. }))
    ));
    assert_eq!(ctx.get_packet_commitment(&port(), &chan(), 1).unwrap().len(), 32);
}

#[test]
fn ordered_timeout_closes_channel() {
    let mut ctx = host(Order::Ordered);
    ctx.store_consensus_state(&client(), &h(0, 25), MockConsensusState { height: h(0, 25), timestamp: 900 });
    let p = packet(1, None, 800);
    send_packet(&mut ctx, &p).unwrap();
    let msg = MsgTimeout {
        packet: p,
        next_seq_recv_on_b: 1,
        proof_unreceived_on_b: vec![1],
        proof_height_on_b: h(0, 25),
        signer: "s".to_string(),
    };
    timeout_packet(&mut ctx, &msg).unwrap();
    assert_eq!(ctx.channel_end(&port(), &chan()).unwrap().state, ChannelState::Closed);
    assert_eq!(
        ctx.events().last(),
        Some(&IbcEvent::ChannelClosed { port_id: port(), channel_id: chan() })
    );
}

#[test]
fn acknowledgement_deletes_commitment_once() {
    let mut ctx = host(Order::Ordered);
    let p = packet(1, Some(h(0, 20)), 0);
    send_packet(&mut ctx, &p).unwrap();
    let ack = MsgAcknowledgement {
        packet: p.clone(),
        acknowledgement: vec![1],
        proof_acked_on_b: vec![1],
        proof_height_on_b: h(0, 10),
        signer: "s".to_string(),
    };
    acknowledge_packet(&mut ctx, &ack).unwrap();
    assert!(ctx.get_packet_commitment(&port(), &chan(), 1).is_err());
    assert_eq!(ctx.get_next_sequence_ack(&port(), &chan()), Ok(2));
    assert_eq!(
        acknowledge_packet(&mut ctx, &ack),
        Err(ContextError::Packet(PacketError::PacketCommitmentNotFound { sequence: 1 }))
    );
    let msg = MsgTimeout {
        packet: p,
        next_seq_recv_on_b: 1,
        proof_unreceived_on_b: vec![1],
        proof_height_on_b: h(0, 10),
        signer: "s".to_string(),
    };
    assert!(timeout_on_close(&mut ctx, &msg).is_err());
}

#[test]
fn acknowledgement_of_altered_packet_fails() {
    let mut ctx = host(Order::Unordered);
    let p = packet(1, Some(h(0, 20)), 0);
    send_packet(&mut ctx, &p).unwrap();
    let mut altered = p;
    altered.data = b"other".to_vec();
    let ack = MsgAcknowledgement {
        packet: altered,
        acknowledgement: vec![1],
        proof_acked_on_b: vec![1],
        proof_height_on_b: h(0, 10),
        signer: "s".to_string(),
    };
    assert_eq!(
        acknowledge_packet(&mut ctx, &ack),
        Err(ContextError::Packet(PacketError::IncorrectPacketCommitment { sequence: 1 }))
    );
}

#[test]
fn timeout_on_close_without_timeout_reached() {
    let mut ctx = host(Order::Unordered);
    let p = packet(1, Some(h(0, 20)), 0);
    send_packet(&mut ctx, &p).unwrap();
    let msg = MsgTimeout {
        packet: p,
        next_seq_recv_on_b: 1,
        proof_unreceived_on_b: vec![1],
        proof_height_on_b: h(0, 10),
        signer: "s".to_string(),
    };
    assert!(timeout_packet(&mut ctx, &msg).is_err());
    timeout_on_close(&mut ctx, &msg).unwrap();
    assert!(ctx.get_packet_commitment(&port(), &chan(), 1).is_err());
}

#[test]
fn send_packet_checks() {
    let mut ctx = host(Order::Unordered);
    assert_eq!(
        send_packet(&mut ctx, &packet(1, None, 0)),
        Err(ContextError::Packet(PacketError::MissingTimeout))
    );
    assert_eq!(
        send_packet(&mut ctx, &packet(1, Some(h(0, 10)), 0)),
        Err(ContextError::Packet(PacketError::LowPacketHeight))
    );
    assert_eq!(
        send_packet(&mut ctx, &packet(2, Some(h(0, 20)), 0)),
        Err(ContextError::Packet(PacketError::InvalidPacketSequence { given: 2, next: 1 }))
    );
    assert!(send_packet(&mut ctx, &packet(1, None, 7)).is_ok());
    assert_eq!(ctx.events().len(), 1);
}

#[test]
fn recv_after_timeout_fails() {
    let mut ctx = host(Order::Unordered);
    let p = packet(1, Some(h(0, 20)), 0);
    send_packet(&mut ctx, &p).unwrap();
    let mut late = MockContext::new(h(0, 20), 0);
    late.store_client_state(&client(), MockClientState::new(h(0, 10)));
    late.store_consensus_state(&client(), &h(0, 10), MockConsensusState { height: h(0, 10), timestamp: 500 });
    late.store_connection(&ConnectionId::new(0), connection(State::Open));
    late.store_channel(
        &port(),
        &chan(),
        ctx.channel_end(&port(), &chan()).unwrap().clone(),
    );
    assert_eq!(
        recv_packet(&mut late, &recv_msg(p), &vec![]),
        Err(ContextError::Packet(PacketError::PacketTimedOut))
    );
}

#[test]
fn chan_close_init_closes_once() {
    let mut ctx = host(Order::Unordered);
    let msg = MsgChannelCloseInit { port_id_on_a: port(), chan_id_on_a: chan(), signer: "s".to_string() };
    chan_close_init(&mut ctx, &msg).unwrap();
    assert_eq!(ctx.channel_end(&port(), &chan()).unwrap().state, ChannelState::Closed);
    assert_eq!(
        chan_close_init(&mut ctx, &msg),
        Err(ContextError::Channel(ChannelError::InvalidChannelState))
    );
}

#[test]
fn update_client_replay_is_idempotent() {
    let mut ctx = host(Order::Unordered);
    let msg = MsgUpdateClient {
        client_id: client(),
        header: MockHeader { height: h(0, 12), timestamp: 600 },
        signer: "s".to_string(),
    };
    update_client(&mut ctx, &msg).unwrap();
    let cs = ctx.client_state(&client()).unwrap();
    assert_eq!(cs.latest_height, h(0, 12));
    let cons = ctx.consensus_state(&client(), &h(0, 12)).unwrap();
    assert_eq!(cons, MockConsensusState { height: h(0, 12), timestamp: 600 });
    let events = ctx.events().len();
    update_client(&mut ctx, &msg).unwrap();
    assert_eq!(ctx.client_state(&client()).unwrap(), cs);
    assert_eq!(ctx.consensus_state(&client(), &h(0, 12)).unwrap(), cons);
    assert_eq!(ctx.events().len(), events);
}

#[test]
fn update_client_conflicting_header_freezes() {
    let mut ctx = host(Order::Unordered);
    let msg = MsgUpdateClient {
        client_id: client(),
        header: MockHeader { height: h(0, 10), timestamp: 501 },
        signer: "s".to_string(),
    };
    update_client(&mut ctx, &msg).unwrap();
    assert!(ctx.client_state(&client()).unwrap().frozen);
    assert!(matches!(
        update_client(&mut ctx, &msg),
        Err(ContextError::Client(ClientError::FrozenClient { .. }))
    ));
}

#[test]
fn update_client_older_header_keeps_latest() {
    let mut ctx = host(Order::Unordered);
    let msg = MsgUpdateClient {
        client_id: client(),
        header: MockHeader { height: h(0, 3), timestamp: 100 },
        signer: "s".to_string(),
    };
    update_client(&mut ctx, &msg).unwrap();
    assert_eq!(ctx.client_state(&client()).unwrap().latest_height, h(0, 10));
    assert!(ctx.consensus_state(&client(), &h(0, 3)).is_ok());
}

#[test]
fn counters_and_client_connections() {
    let mut ctx = MockContext::new(h(0, 1), 0);
    assert_eq!(ctx.client_counter(), 0);
    ctx.increase_client_counter().unwrap();
    ctx.increase_connection_counter().unwrap();
    ctx.increase_connection_counter().unwrap();
    ctx.increase_channel_counter().unwrap();
    assert_eq!(ctx.client_counter(), 1);
    assert_eq!(ctx.connection_counter(), 2);
    assert_eq!(ctx.channel_counter(), 1);
    ctx.store_connection_to_client(&client(), ConnectionId::new(0));
    ctx.store_connection_to_client(&client(), ConnectionId::new(1));
    ctx.log_message("done".to_string());
    assert_eq!(ctx.logs(), &vec!["done".to_string()]);
    ctx.store_packet_acknowledgement(&port(), &chan(), 4, vec![9]);
    assert_eq!(ctx.get_packet_acknowledgement(&port(), &chan(), 4), Ok(&vec![9]));
    ctx.delete_packet_acknowledgement(&port(), &chan(), 4);
    assert_eq!(
        ctx.get_packet_acknowledgement(&port(), &chan(), 4),
        Err(PacketError::PacketAcknowledgementNotFound { sequence: 4 })
    );
}

#[test]
fn packet_proofs_wait_for_the_connection_delay() {
    let mut ctx = host(Order::Unordered);
    let mut delayed = connection(State::Open);
    delayed.delay_period = 100;
    ctx.store_connection(&ConnectionId::new(0), delayed);
    let p = packet(1, Some(h(0, 20)), 0);
    send_packet(&mut ctx, &p).unwrap();
    // The consensus state at (0, 10) was stored at host time 1000.
    assert_eq!(ctx.consensus_processed_time(&client(), &h(0, 10)), Some(1000));
    assert_eq!(
        recv_packet(&mut ctx, &recv_msg(p.clone()), &vec![]),
        Err(ContextError::Packet(PacketError::DelayPeriodNotPassed))
    );
    ctx.advance_host(h(0, 6), 1099);
    assert!(recv_packet(&mut ctx, &recv_msg(p.clone()), &vec![]).is_err());
    ctx.advance_host(h(0, 7), 1100);
    recv_packet(&mut ctx, &recv_msg(p), &vec![]).unwrap();
}

#[test]
fn conn_open_confirm_needs_a_verified_proof_of_the_expected_end() {
    let mut ctx = host(Order::Unordered);
    ctx.store_connection(&ConnectionId::new(0), connection(State::TryOpen));
    let msg = MsgConnectionOpenConfirm {
        conn_id_on_b: ConnectionId::new(0),
        proof_conn_end_on_a: vec![1],
        proof_height_on_a: h(0, 10),
        signer: "s".to_string(),
    };
    assert_eq!(
        process(&ctx, &msg, false),
        Err(ContextError::Connection(ConnectionError::VerifyConnectionState))
    );
    let local = ctx.connection_end(&ConnectionId::new(0)).unwrap().clone();
    let expected = expected_counterparty_end(&ctx, &local, &ConnectionId::new(0));
    assert_eq!(expected.state, State::Open);
    assert_eq!(expected.client_id, local.counterparty.client_id);
    assert_eq!(expected.counterparty.client_id, local.client_id);
    assert_eq!(expected.counterparty.connection_id, Some(ConnectionId::new(0)));
    assert_eq!(expected.counterparty.prefix, b"ibc".to_vec());
    assert_eq!(expected.versions, local.versions);
    assert_eq!(expected.delay_period, local.delay_period);
    assert!(process(&ctx, &msg, true).is_ok());
}
