use ibc_host::chan_close_confirm::MsgChannelCloseConfirm;
use ibc_host::chan_handshake::{MsgChannelOpenConfirm, MsgChannelOpenInit, MsgChannelOpenTry};
use ibc_host::error::{ChannelError, ContextError};
use ibc_host::msgs::{MsgChannelCloseInit, MsgChannelOpenAck};
use ibc_host::channel::{ChannelCounterparty, ChannelEnd, ChannelState, Order, Packet};
use ibc_host::client::{Height, MockClientState, MockConsensusState};
use ibc_host::connection::{ConnectionEnd, Counterparty, State, Version};
use ibc_host::context::{IbcEvent, MockContext};
use ibc_host::identifiers::{ChannelId, ClientId, ConnectionId, PortId};
use ibc_host::packet::{send_packet, MsgAcknowledgement, MsgRecvPacket, MsgTimeout};
use ibc_host::router::{dispatch, Module, MsgEnvelope};
use ibc_host::update_client::{MockHeader, MsgUpdateClient};

#[derive(Default)]
struct Recorder {
    received: Vec<u64>,
    acknowledged: Vec<u64>,
    timed_out: Vec<u64>,
    close_vetoed: u32,
}

impl Module for Recorder {
    fn on_chan_open_init(&mut self, msg: &MsgChannelOpenInit) -> Result<String, ContextError> {
        if msg.version_proposal == "refused" {
            return Err(ContextError::Channel(ChannelError::InvalidChannelState));
        }
        Ok(format!("{}-chosen", msg.version_proposal))
    }

    fn on_chan_open_try(&mut self, msg: &MsgChannelOpenTry) -> Result<String, ContextError> {
        Ok(msg.version_supported_on_a.clone())
    }

    fn on_chan_open_ack(&mut self, _msg: &MsgChannelOpenAck) -> Result<(), ContextError> {
        Ok(())
    }

    fn on_chan_open_confirm(&mut self, _msg: &MsgChannelOpenConfirm) -> Result<(), ContextError> {
        Ok(())
    }

    fn on_chan_close_init(&mut self, _msg: &MsgChannelCloseInit) -> Result<(), ContextError> {
        self.close_vetoed += 1;
        Err(ContextError::Channel(ChannelError::InvalidChannelState))
    }

    fn on_chan_close_confirm(&mut self, _msg: &MsgChannelCloseConfirm) -> Result<(), ContextError> {
        Ok(())
    }

    fn on_recv_packet(&mut self, packet: &Packet) -> Vec<u8> {
        self.received.push(packet.seq_on_a);
        vec![1]
    }

    fn on_acknowledgement_packet(&mut self, packet: &Packet, _ack: &Vec<u8>) {
        self.acknowledged.push(packet.seq_on_a);
    }

    fn on_timeout_packet(&mut self, packet: &Packet) {
        self.timed_out.push(packet.seq_on_a);
    }
}

fn h(rev: u64, height: u64) -> Height {
    Height::new(rev, height).unwrap()
}

fn host() -> MockContext {
    let client = ClientId::new("07-tendermint", 0).unwrap();
    let port = PortId::new("transfer").unwrap();
    let mut ctx = MockContext::new(h(0, 5), 1000);
    ctx.store_client_state(&client, MockClientState::new(h(0, 10)));
    ctx.store_consensus_state(&client, &h(0, 10), MockConsensusState { height: h(0, 10), timestamp: 500 });
    ctx.store_connection(
        &ConnectionId::new(0),
        ConnectionEnd::new(
            State::Open,
            client.clone(),
            Counterparty::new(client, Some(ConnectionId::new(0)), b"ibc".to_vec()),
            vec![Version::default_version()],
            0,
        ),
    );
    ctx.store_channel(
        &port,
        &ChannelId::new(0),
        ChannelEnd {
            state: ChannelState::Open,
            ordering: Order::Unordered,
            remote: ChannelCounterparty { port_id: port.clone(), channel_id: Some(ChannelId::new(0)) },
            connection_hops: vec![ConnectionId::new(0)],
            version: "ics20-1".to_string(),
        },
    );
    ctx.store_next_sequence_send(&port, &ChannelId::new(0), 1);
    ctx
}

fn packet() -> Packet {
    Packet {
        seq_on_a: 1,
        port_id_on_a: PortId::new("transfer").unwrap(),
        chan_id_on_a: ChannelId::new(0),
        port_id_on_b: PortId::new("transfer").unwrap(),
        chan_id_on_b: ChannelId::new(0),
        data: b"x".to_vec(),
        timeout_height_on_b: Some(h(0, 20)),
        timeout_timestamp_on_b: 0,
    }
}

#[test]
fn dispatch_routes_packets_to_the_module() {
    let mut ctx = host();
    let mut module = Recorder::default();
    send_packet(&mut ctx, &packet()).unwrap();
    let recv = MsgEnvelope::RecvPacket(MsgRecvPacket {
        packet: packet(),
        proof_commitment_on_a: vec![1],
        proof_height_on_a: h(0, 10),
        signer: "s".to_string(),
    });
    dispatch(&mut ctx, &mut module, &recv).unwrap();
    assert_eq!(module.received, vec![1]);
    assert!(ctx.get_packet_acknowledgement(&packet().port_id_on_b, &packet().chan_id_on_b, 1).is_ok());
    assert_eq!(ctx.events().last(), Some(&IbcEvent::WriteAcknowledgement { sequence: 1 }));
    // A replay fails before the module is called.
    assert!(dispatch(&mut ctx, &mut module, &recv).is_err());
    assert_eq!(module.received, vec![1]);
    let ack = MsgEnvelope::Acknowledgement(MsgAcknowledgement {
        packet: packet(),
        acknowledgement: vec![1],
        proof_acked_on_b: vec![1],
        proof_height_on_b: h(0, 10),
        signer: "s".to_string(),
    });
    dispatch(&mut ctx, &mut module, &ack).unwrap();
    assert_eq!(module.acknowledged, vec![1]);
    assert!(dispatch(&mut ctx, &mut module, &ack).is_err());
    assert_eq!(module.acknowledged, vec![1]);
    assert!(module.timed_out.is_empty());
}

#[test]
fn dispatch_routes_client_updates() {
    let mut ctx = host();
    let mut module = Recorder::default();
    let msg = MsgEnvelope::UpdateClient(MsgUpdateClient {
        client_id: ClientId::new("07-tendermint", 0).unwrap(),
        header: MockHeader { height: h(0, 11), timestamp: 600 },
        signer: "s".to_string(),
    });
    dispatch(&mut ctx, &mut module, &msg).unwrap();
    let client = ClientId::new("07-tendermint", 0).unwrap();
    assert_eq!(ctx.client_state(&client).unwrap().latest_height, h(0, 11));
    let unknown = MsgEnvelope::UpdateClient(MsgUpdateClient {
        client_id: ClientId::new("07-tendermint", 9).unwrap(),
        header: MockHeader { height: h(0, 11), timestamp: 600 },
        signer: "s".to_string(),
    });
    let events = ctx.events().len();
    assert!(dispatch(&mut ctx, &mut module, &unknown).is_err());
    assert_eq!(ctx.events().len(), events);
}

#[test]
fn dispatch_timeout_calls_on_timeout() {
    let mut ctx = host();
    let client = ClientId::new("07-tendermint", 0).unwrap();
    ctx.store_consensus_state(&client, &h(0, 25), MockConsensusState { height: h(0, 25), timestamp: 900 });
    let mut module = Recorder::default();
    send_packet(&mut ctx, &packet()).unwrap();
    let timeout = MsgEnvelope::Timeout(MsgTimeout {
        packet: packet(),
        next_seq_recv_on_b: 1,
        proof_unreceived_on_b: vec![1],
        proof_height_on_b: h(0, 25),
        signer: "s".to_string(),
    });
    dispatch(&mut ctx, &mut module, &timeout).unwrap();
    assert_eq!(module.timed_out, vec![1]);
    assert!(ctx.get_packet_commitment(&packet().port_id_on_a, &packet().chan_id_on_a, 1).is_err());
    assert_eq!(ctx.events().last(), Some(&IbcEvent::TimeoutPacket { sequence: 1 }));
}

#[test]
fn dispatch_lets_the_module_choose_the_version_and_veto() {
    let mut ctx = host();
    let mut module = Recorder::default();
    let init = |version: &str| MsgEnvelope::ChannelOpenInit(MsgChannelOpenInit {
        port_id_on_a: PortId::new("oracle").unwrap(),
        connection_hops_on_a: vec![ConnectionId::new(0)],
        port_id_on_b: PortId::new("transfer").unwrap(),
        ordering: Order::Unordered,
        version_proposal: version.to_string(),
        signer: "s".to_string(),
    });
    let before = ctx.channel_counter();
    assert!(dispatch(&mut ctx, &mut module, &init("refused")).is_err());
    assert_eq!(ctx.channel_counter(), before);
    dispatch(&mut ctx, &mut module, &init("v1")).unwrap();
    let id = ChannelId::new(before);
    let end = ctx.channel_end(&PortId::new("oracle").unwrap(), &id).unwrap();
    assert_eq!(end.version, "v1-chosen");
    assert_eq!(end.state, ChannelState::Init);
    let close = MsgEnvelope::ChannelCloseInit(MsgChannelCloseInit {
        port_id_on_a: PortId::new("transfer").unwrap(),
        chan_id_on_a: ChannelId::new(0),
        signer: "s".to_string(),
    });
    let events = ctx.events().len();
    assert!(dispatch(&mut ctx, &mut module, &close).is_err());
    assert_eq!(module.close_vetoed, 1);
    assert_eq!(ctx.events().len(), events);
    assert_eq!(
        ctx.channel_end(&PortId::new("transfer").unwrap(), &ChannelId::new(0)).unwrap().state,
        ChannelState::Open
    );
}
