use ibc_host::chan_close_confirm::{
    chan_close_confirm_execute, chan_close_confirm_validate, MsgChannelCloseConfirm,
};
use ibc_host::channel::{ChannelCounterparty, ChannelEnd, ChannelState, Order};
use ibc_host::client::{Height, MockClientState, MockConsensusState};
use ibc_host::connection::{ConnectionEnd, Counterparty, State, Version};
use ibc_host::context::{IbcEvent, MockContext};
use ibc_host::dummies::dummy_raw_msg_chan_close_confirm;
use ibc_host::identifiers::{ClientId, ConnectionId};

/// A host whose mock client `9999-mock-24` sits at the host's own height,
/// with the open `connection-2` and an open channel whose counterparty is
/// the message's own port and channel.
fn setup() -> (MockContext, MsgChannelCloseConfirm) {
    let host_height = Height::new(0, 5).unwrap();
    let mut context = MockContext::new(host_height, 0);
    let client_id = ClientId::new("9999-mock", 24).unwrap();
    let conn_id = ConnectionId::new(2);

    let conn_end = ConnectionEnd::new(
        State::Open,
        client_id.clone(),
        Counterparty::new(
            ClientId::new("07-tendermint", 0).unwrap(),
            Some(ConnectionId::new(0)),
            b"ibc".to_vec(),
        ),
        vec![Version::default_version()],
        0,
    );

    let msg_chan_close_confirm = MsgChannelCloseConfirm::try_from(dummy_raw_msg_chan_close_confirm(
        host_height.revision_height(),
    ))
    .unwrap();

    let chan_end = ChannelEnd {
        state: ChannelState::Open,
        ordering: Order::Unordered,
        remote: ChannelCounterparty {
            port_id: msg_chan_close_confirm.port_id_on_b.clone(),
            channel_id: Some(msg_chan_close_confirm.chan_id_on_b.clone()),
        },
        connection_hops: vec![conn_id.clone()],
        version: String::new(),
    };

    context.store_client_state(&client_id, MockClientState::new(host_height));
    context.store_consensus_state(
        &client_id,
        &host_height,
        MockConsensusState { height: host_height, timestamp: 0 },
    );
    context.store_connection(&conn_id, conn_end);
    context.store_channel(
        &msg_chan_close_confirm.port_id_on_b,
        &msg_chan_close_confirm.chan_id_on_b,
        chan_end,
    );
    (context, msg_chan_close_confirm)
}

#[test]
fn test_chan_close_confirm_validate() {
    let (context, msg) = setup();

    let res = chan_close_confirm_validate(&context, &msg);

    assert!(
        res.is_ok(),
        "Validation expected to succeed (happy path). Error: {res:?}"
    );
}

#[test]
fn test_chan_close_confirm_execute() {
    let (mut context, msg) = setup();

    let res = chan_close_confirm_execute(&mut context, &msg);

    assert!(res.is_ok(), "Execution success: happy path");

    let ibc_events = context.events();

    assert_eq!(ibc_events.len(), 2);

    assert!(matches!(ibc_events[0], IbcEvent::ChannelMessage));

    assert!(matches!(ibc_events[1], IbcEvent::CloseConfirmChannel { .. }));

    assert_eq!(
        context
            .channel_end(&msg.port_id_on_b, &msg.chan_id_on_b)
            .unwrap()
            .state,
        ChannelState::Closed
    );
}

#[test]
fn chan_close_confirm_on_closed_channel_fails() {
    let (mut context, msg) = setup();
    chan_close_confirm_execute(&mut context, &msg).unwrap();
    let events = context.events().len();
    assert!(chan_close_confirm_execute(&mut context, &msg).is_err());
    assert_eq!(context.events().len(), events);
}

#[test]
fn chan_close_confirm_without_consensus_state_fails() {
    let (context, mut msg) = setup();
    msg.proof_height_on_a = Height::new(0, 6).unwrap();
    assert!(chan_close_confirm_validate(&context, &msg).is_err());
}
