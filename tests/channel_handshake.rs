use ibc_host::chan_handshake::{
    chan_open_ack, chan_open_confirm, chan_open_init, chan_open_try, MsgChannelOpenConfirm,
    MsgChannelOpenInit, MsgChannelOpenTry,
};
use ibc_host::channel::{ChannelState, Order, Packet};
use ibc_host::client::{ClientError, Height, MockClientState, MockConsensusState};
use ibc_host::connection::{ConnectionEnd, Counterparty, State, Version};
use ibc_host::context::{IbcEvent, MockContext};
use ibc_host::create_client::{create_client, MsgCreateClient};
use ibc_host::error::{ChannelError, ContextError, PacketError};
use ibc_host::identifiers::{ChannelId, ConnectionId, PortId};
use ibc_host::msgs::MsgChannelOpenAck;
use ibc_host::packet::{recv_packet, send_packet, MsgRecvPacket};

fn h(rev: u64, height: u64) -> Height {
    Height::new(rev, height).unwrap()
}

/// A chain with a mock client (created through `CreateClient`) holding
/// consensus states at heights 10 to 12, and an open `connection-0` on it.
fn chain() -> MockContext {
    let mut ctx = MockContext::new(h(0, 20), 100);
    let client = create_client(
        &mut ctx,
        &MsgCreateClient {
            client_state: MockClientState::new(h(0, 10)),
            consensus_state: MockConsensusState { height: h(0, 10), timestamp: 1 },
            signer: "s".to_string(),
        },
    )
    .unwrap();
    assert_eq!(client.as_str(), "9999-mock-0");
    for height in [11, 12] {
        ctx.store_consensus_state(&client, &h(0, height), MockConsensusState { height: h(0, height), timestamp: height });
    }
    ctx.store_connection(
        &ConnectionId::new(0),
        ConnectionEnd::new(
            State::Open,
            client.clone(),
            Counterparty::new(client, Some(ConnectionId::new(0)), b"ibc".to_vec()),
            vec![Version::default_version()],
            0,
        ),
    );
    ctx
}

fn port() -> PortId {
    PortId::new("transfer").unwrap()
}

#[test]
fn create_client_assigns_identifiers_in_order() {
    let mut ctx = MockContext::new(h(0, 1), 0);
    let msg = MsgCreateClient {
        client_state: MockClientState::new(h(0, 4)),
        consensus_state: MockConsensusState { height: h(0, 4), timestamp: 9 },
        signer: "s".to_string(),
    };
    let a = create_client(&mut ctx, &msg).unwrap();
    let b = create_client(&mut ctx, &msg).unwrap();
    assert_eq!(a.as_str(), "9999-mock-0");
    assert_eq!(b.as_str(), "9999-mock-1");
    assert_eq!(ctx.client_counter(), 2);
    assert_eq!(ctx.consensus_state(&b, &h(0, 4)).unwrap().timestamp, 9);
    assert_eq!(ctx.events()[0], IbcEvent::CreateClient { client_id: a });
    let bad = MsgCreateClient {
        client_state: MockClientState::new(h(0, 4)),
        consensus_state: MockConsensusState { height: h(0, 5), timestamp: 9 },
        signer: "s".to_string(),
    };
    assert_eq!(
        create_client(&mut ctx, &bad),
        Err(ContextError::Client(ClientError::InvalidClientState))
    );
    assert_eq!(ctx.client_counter(), 2);
}

#[test]
fn full_channel_handshake_then_ordered_packets_from_one() {
    let mut a = chain();
    let mut b = chain();
    let init = MsgChannelOpenInit {
        port_id_on_a: port(),
        connection_hops_on_a: vec![ConnectionId::new(0)],
        port_id_on_b: port(),
        ordering: Order::Ordered,
        version_proposal: "ics20-1".to_string(),
        signer: "s".to_string(),
    };
    let chan_a = chan_open_init(&mut a, &init).unwrap();
    assert_eq!(chan_a.as_str(), "channel-0");
    assert_eq!(a.channel_end(&port(), &chan_a).unwrap().state, ChannelState::Init);
    assert_eq!(a.get_next_sequence_send(&port(), &chan_a), Ok(1));

    let try_msg = MsgChannelOpenTry {
        port_id_on_b: port(),
        connection_hops_on_b: vec![ConnectionId::new(0)],
        port_id_on_a: port(),
        chan_id_on_a: chan_a.clone(),
        version_supported_on_a: "ics20-1".to_string(),
        proof_chan_end_on_a: vec![1],
        proof_height_on_a: h(0, 10),
        ordering: Order::Ordered,
        signer: "s".to_string(),
    };
    let chan_b = chan_open_try(&mut b, &try_msg).unwrap();
    assert_eq!(b.channel_end(&port(), &chan_b).unwrap().state, ChannelState::TryOpen);

    // Neither side can carry packets before it is open.
    let early = Packet {
        seq_on_a: 1,
        port_id_on_a: port(),
        chan_id_on_a: chan_a.clone(),
        port_id_on_b: port(),
        chan_id_on_b: chan_b.clone(),
        data: vec![1],
        timeout_height_on_b: Some(h(0, 30)),
        timeout_timestamp_on_b: 0,
    };
    assert_eq!(
        send_packet(&mut a, &early),
        Err(ContextError::Channel(ChannelError::InvalidChannelState))
    );
    let ack = MsgChannelOpenAck::new(
        port(),
        chan_a.clone(),
        chan_b.clone(),
        "ics20-1".to_string(),
        vec![1],
        h(0, 11),
        "s".to_string(),
    );
    chan_open_ack(&mut a, &ack).unwrap();
    let end_a = a.channel_end(&port(), &chan_a).unwrap();
    assert_eq!(end_a.state, ChannelState::Open);
    assert_eq!(end_a.remote.channel_id, Some(chan_b.clone()));
    assert_eq!(
        chan_open_ack(&mut a, &ack),
        Err(ContextError::Channel(ChannelError::InvalidChannelState))
    );

    let confirm = MsgChannelOpenConfirm {
        port_id_on_b: port(),
        chan_id_on_b: chan_b.clone(),
        proof_chan_end_on_a: vec![1],
        proof_height_on_a: h(0, 12),
        signer: "s".to_string(),
    };
    chan_open_confirm(&mut b, &confirm).unwrap();
    assert_eq!(b.channel_end(&port(), &chan_b).unwrap().state, ChannelState::Open);
    assert_eq!(
        b.events().last(),
        Some(&IbcEvent::OpenConfirmChannel { port_id: port(), channel_id: chan_b.clone() })
    );

    let packet = |seq: u64| Packet {
        seq_on_a: seq,
        port_id_on_a: port(),
        chan_id_on_a: chan_a.clone(),
        port_id_on_b: port(),
        chan_id_on_b: chan_b.clone(),
        data: vec![seq as u8],
        timeout_height_on_b: Some(h(0, 30)),
        timeout_timestamp_on_b: 0,
    };
    send_packet(&mut a, &packet(1)).unwrap();
    send_packet(&mut a, &packet(2)).unwrap();
    let recv = |seq: u64| MsgRecvPacket {
        packet: packet(seq),
        proof_commitment_on_a: vec![1],
        proof_height_on_a: h(0, 12),
        signer: "s".to_string(),
    };
    assert_eq!(
        recv_packet(&mut b, &recv(2), &vec![]),
        Err(ContextError::Packet(PacketError::InvalidPacketSequence { given: 2, next: 1 }))
    );
    recv_packet(&mut b, &recv(1), &vec![7]).unwrap();
    recv_packet(&mut b, &recv(2), &vec![7]).unwrap();
    assert_eq!(b.get_next_sequence_recv(&port(), &chan_b), Ok(3));
}

#[test]
fn channel_open_try_needs_open_connection_and_one_hop() {
    let mut b = chain();
    let mut msg = MsgChannelOpenTry {
        port_id_on_b: port(),
        connection_hops_on_b: vec![],
        port_id_on_a: port(),
        chan_id_on_a: ChannelId::new(0),
        version_supported_on_a: "v".to_string(),
        proof_chan_end_on_a: vec![1],
        proof_height_on_a: h(0, 10),
        ordering: Order::Unordered,
        signer: "s".to_string(),
    };
    assert!(chan_open_try(&mut b, &msg).is_err());
    msg.connection_hops_on_b = vec![ConnectionId::new(5)];
    assert!(chan_open_try(&mut b, &msg).is_err());
    msg.connection_hops_on_b = vec![ConnectionId::new(0)];
    msg.proof_height_on_a = h(0, 13);
    assert!(chan_open_try(&mut b, &msg).is_err());
    assert_eq!(b.channel_counter(), 0);
    msg.proof_height_on_a = h(0, 10);
    assert!(chan_open_try(&mut b, &msg).is_ok());
    assert_eq!(b.channel_counter(), 1);
}
