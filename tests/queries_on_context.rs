use ibc_host::channel::{ChannelCounterparty, ChannelEnd, ChannelState, Order};
use ibc_host::client::{Height, MockClientState, MockConsensusState};
use ibc_host::connection::{ConnectionEnd, Counterparty, State, Version};
use ibc_host::context::MockContext;
use ibc_host::identifiers::{ChannelId, ClientId, ConnectionId, PortId};

fn h(rev: u64, height: u64) -> Height {
    Height::new(rev, height).unwrap()
}

fn ctx() -> MockContext {
    let mut ctx = MockContext::new(h(0, 5), 0);
    let a = ClientId::new("07-tendermint", 0).unwrap();
    let b = ClientId::new("07-tendermint", 1).unwrap();
    ctx.store_client_state(&a, MockClientState::new(h(0, 3)));
    ctx.store_client_state(&b, MockClientState::new(h(1, 4)));
    ctx.store_consensus_state(&a, &h(0, 3), MockConsensusState { height: h(0, 3), timestamp: 30 });
    ctx.store_consensus_state(&a, &h(2, 17), MockConsensusState { height: h(2, 17), timestamp: 40 });
    ctx.store_consensus_state(&b, &h(0, 9), MockConsensusState { height: h(0, 9), timestamp: 50 });
    ctx.store_connection(
        &ConnectionId::new(4),
        ConnectionEnd::new(
            State::Init,
            a.clone(),
            Counterparty::new(b.clone(), None, b"ibc".to_vec()),
            vec![Version::default_version()],
            0,
        ),
    );
    ctx
}

#[test]
fn lists_client_states() {
    let ctx = ctx();
    let mut states = ctx.client_states();
    states.sort_by(|x, y| x.0.cmp(&y.0));
    assert_eq!(states.len(), 2);
    assert_eq!(states[0].0.as_str(), "07-tendermint-0");
    assert_eq!(states[0].1.latest_height, h(0, 3));
    assert_eq!(states[1].0.as_str(), "07-tendermint-1");
}

#[test]
fn lists_consensus_states_of_one_client() {
    let ctx = ctx();
    let a = ClientId::new("07-tendermint", 0).unwrap();
    let mut states = ctx.consensus_states(&a);
    states.sort_by(|x, y| x.0.cmp(&y.0));
    assert_eq!(
        states,
        vec![
            (h(0, 3), MockConsensusState { height: h(0, 3), timestamp: 30 }),
            (h(2, 17), MockConsensusState { height: h(2, 17), timestamp: 40 }),
        ]
    );
    let mut heights = ctx.consensus_state_heights(&a);
    heights.sort();
    assert_eq!(heights, vec![h(0, 3), h(2, 17)]);
    let b = ClientId::new("07-tendermint", 1).unwrap();
    assert_eq!(ctx.consensus_state_heights(&b), vec![h(0, 9)]);
}

#[test]
fn lists_connections_and_channels() {
    let mut ctx = ctx();
    let ends = ctx.connection_ends();
    assert_eq!(ends.len(), 1);
    assert_eq!(ends[0].connection_id.as_str(), "connection-4");
    assert_eq!(ends[0].connection_end.state, State::Init);
    let port = PortId::new("transfer").unwrap();
    let end = ChannelEnd {
        state: ChannelState::Init,
        ordering: Order::Ordered,
        remote: ChannelCounterparty { port_id: port.clone(), channel_id: None },
        connection_hops: vec![ConnectionId::new(4)],
        version: "v".to_string(),
    };
    ctx.store_channel(&port, &ChannelId::new(2), end.clone());
    let chans = ctx.channel_ends();
    assert_eq!(chans.len(), 1);
    assert_eq!(chans[0].port_id.as_str(), "transfer");
    assert_eq!(chans[0].channel_id.as_str(), "channel-2");
    assert_eq!(chans[0].channel_end, end);
    let a = ClientId::new("07-tendermint", 0).unwrap();
    assert!(ctx.client_connection_ends(&a).is_empty());
    ctx.store_connection_to_client(&a, ConnectionId::new(4));
    assert_eq!(ctx.client_connection_ends(&a), vec![ConnectionId::new(4)]);
}

#[test]
fn lists_packet_commitments_and_acknowledgements() {
    let mut ctx = ctx();
    let port = PortId::new("transfer").unwrap();
    let chan = ChannelId::new(0);
    let other = ChannelId::new(1);
    ctx.store_packet_commitment(&port, &chan, 1, vec![1]);
    ctx.store_packet_commitment(&port, &chan, 12, vec![12]);
    ctx.store_packet_commitment(&port, &other, 3, vec![3]);
    let mut seqs: Vec<u64> = ctx.packet_commitments(&port, &chan).iter().map(|p| p.seq).collect();
    seqs.sort();
    assert_eq!(seqs, vec![1, 12]);
    let mut all = ctx.unreceived_acks(&port, &chan, &vec![]);
    all.sort();
    assert_eq!(all, vec![1, 12]);
    assert_eq!(ctx.unreceived_acks(&port, &chan, &vec![12, 2, 1]), vec![12, 1]);
    ctx.store_packet_acknowledgement(&port, &chan, 5, vec![5]);
    ctx.store_packet_acknowledgement(&port, &chan, 6, vec![6]);
    let acks = ctx.packet_acknowledgements(&port, &chan, &vec![6, 7]);
    assert_eq!(acks.len(), 1);
    assert_eq!(acks[0].seq, 6);
    assert_eq!(acks[0].data, vec![6]);
    let mut all: Vec<u64> = ctx.packet_acknowledgements(&port, &chan, &vec![]).iter().map(|p| p.seq).collect();
    all.sort();
    assert_eq!(all, vec![5, 6]);
    assert_eq!(ctx.unreceived_packets(&port, &chan, &vec![5, 6]), vec![5, 6]);
    assert_eq!(ctx.get_compatible_versions(), vec![Version::default_version()]);
}
