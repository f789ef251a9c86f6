use ibc_host::client::Height;
use ibc_host::commitment::{compute_ack_commitment, compute_packet_commitment};
use ibc_host::channel::Packet;
use ibc_host::dummies::{dummy_msg_conn_open_ack, dummy_raw_msg_conn_open_ack};
use ibc_host::identifiers::{
    parse_u64, validate_identifier_chars, validate_identifier_length, validate_prefix_length,
    ChannelId, ClientId, ConnectionId, IdentifierError, PortId,
};
use ibc_host::msgs::{MsgConnectionOpenAck, RawHeight, RawMsgConnectionOpenAck};
use ibc_host::path::{
    ack_path, channel_end_path, client_connections_path, client_state_path, commitment_path,
    connection_path, consensus_state_path, receipt_path, seq_ack_path, seq_recv_path,
    seq_send_path,
};

#[test]
fn identifier_validation() {
    assert_eq!(validate_identifier_chars(""), Err(IdentifierError::Empty));
    assert!(validate_identifier_chars("a.b_c+d-e#f[g]h<i>j09").is_ok());
    assert!(validate_identifier_chars("a/b").is_err());
    assert!(validate_identifier_chars("é").is_err());
    assert!(validate_identifier_length("ab", 0, 2).is_ok());
    assert_eq!(
        validate_identifier_length("", 0, 2),
        Err(IdentifierError::InvalidLength { id: String::new(), min: 1, max: 2 })
    );
    assert!(validate_identifier_length("abc", 1, 2).is_err());
    assert!(validate_prefix_length("abc", 1, 24).is_ok());
    assert!(validate_prefix_length("abc", 1, 23).is_err());
}

#[test]
fn numerals() {
    assert_eq!(parse_u64("0"), Some(0));
    assert_eq!(parse_u64("42"), Some(42));
    assert_eq!(parse_u64("18446744073709551615"), Some(u64::MAX));
    assert_eq!(parse_u64("18446744073709551616"), None);
    assert_eq!(parse_u64("01"), None);
    assert_eq!(parse_u64(""), None);
    assert_eq!(parse_u64("+1"), None);
    assert_eq!(parse_u64("1a"), None);
}

#[test]
fn typed_identifiers() {
    assert_eq!(ChannelId::new(34).as_str(), "channel-34");
    assert_eq!(ConnectionId::new(0).as_str(), "connection-0");
    assert_eq!(ClientId::new("07-tendermint", 0).unwrap().as_str(), "07-tendermint-0");
    assert!(ClientId::new("", 0).is_err());
    assert!(ClientId::parse("mock_clientid").is_ok());
    assert!(ClientId::parse("short").is_err());
    assert!(ChannelId::parse("channel-34").is_ok());
    assert!(ChannelId::parse("channel-").is_err());
    assert!(ChannelId::parse("chshort").is_err());
    assert!(ConnectionId::parse("connection-7").is_ok());
    assert!(ConnectionId::parse("channel-7").is_err());
    assert!(PortId::new("p").is_err());
    assert!(PortId::new(&"p".repeat(128)).is_ok());
    assert!(PortId::new(&"p".repeat(129)).is_err());
    assert_eq!(PortId::default_port().as_str(), "defaultPort");
    let c: ChannelId = "channel-5".parse().unwrap();
    assert_eq!(c, ChannelId::new(5));
}

#[test]
fn heights() {
    assert!(Height::new(0, 0).is_err());
    let a = Height::new(0, 20).unwrap();
    let b = Height::new(1, 1).unwrap();
    assert!(a.lt(&b));
    assert!(!b.lt(&a));
    assert!(!a.lt(&a));
    assert!(Height::new(0, 19).unwrap().lt(&a));
}

#[test]
fn store_paths() {
    let client = ClientId::new("07-tendermint", 0).unwrap();
    let port = PortId::new("transfer").unwrap();
    let chan = ChannelId::new(1);
    assert_eq!(client_state_path(&client), "clients/07-tendermint-0/clientState");
    assert_eq!(
        consensus_state_path(&client, 1, 20),
        "clients/07-tendermint-0/consensusStates/1-20"
    );
    assert_eq!(client_connections_path(&client), "clients/07-tendermint-0/connections");
    assert_eq!(connection_path(&ConnectionId::new(3)), "connections/connection-3");
    assert_eq!(channel_end_path(&port, &chan), "channelEnds/ports/transfer/channels/channel-1");
    assert_eq!(seq_send_path(&port, &chan), "nextSequenceSend/ports/transfer/channels/channel-1");
    assert_eq!(seq_recv_path(&port, &chan), "nextSequenceRecv/ports/transfer/channels/channel-1");
    assert_eq!(seq_ack_path(&port, &chan), "nextSequenceAck/ports/transfer/channels/channel-1");
    assert_eq!(
        commitment_path(&port, &chan, 7),
        "commitments/ports/transfer/channels/channel-1/sequences/7"
    );
    assert_eq!(
        receipt_path(&port, &chan, 7),
        "receipts/ports/transfer/channels/channel-1/sequences/7"
    );
    assert_eq!(ack_path(&port, &chan, 7), "acks/ports/transfer/channels/channel-1/sequences/7");
}

#[test]
fn commitments_are_sha256() {
    let digest = compute_ack_commitment(&b"abc".to_vec());
    let expected: Vec<u8> = vec![
        0xba, 0x78, 0x16, 0xbf, 0x8f, 0x01, 0xcf, 0xea, 0x41, 0x41, 0x40, 0xde, 0x5d, 0xae, 0x22,
        0x23, 0xb0, 0x03, 0x61, 0xa3, 0x96, 0x17, 0x7a, 0x9c, 0xb4, 0x10, 0xff, 0x61, 0xf2, 0x00,
        0x15, 0xad,
    ];
    assert_eq!(digest, expected);
    let p = Packet {
        seq_on_a: 1,
        port_id_on_a: PortId::new("transfer").unwrap(),
        chan_id_on_a: ChannelId::new(0),
        port_id_on_b: PortId::new("transfer").unwrap(),
        chan_id_on_b: ChannelId::new(0),
        data: b"abc".to_vec(),
        timeout_height_on_b: Some(Height::new(0, 20).unwrap()),
        timeout_timestamp_on_b: 0,
    };
    let c1 = compute_packet_commitment(&p);
    assert_eq!(c1.len(), 32);
    assert_ne!(c1, expected);
    let mut q = p.clone();
    q.timeout_timestamp_on_b = 1;
    assert_ne!(compute_packet_commitment(&q), c1);
}

#[test]
fn connection_open_ack_dummies() {
    let raw = dummy_raw_msg_conn_open_ack(10, 5);
    assert_eq!(raw.connection_id, "connection-0");
    assert_eq!(raw.counterparty_connection_id, "connection-1");
    let msg = dummy_msg_conn_open_ack(10, 5);
    assert_eq!(msg.proofs_height_on_b, Height::new(0, 10).unwrap());
    assert_eq!(msg.consensus_height_of_a_on_b, Height::new(0, 5).unwrap());
    assert_eq!(msg.client_state_of_a_on_b.latest_height, Height::new(0, 5).unwrap());
    assert!(MsgConnectionOpenAck::try_from(dummy_raw_msg_conn_open_ack(0, 5)).is_err());
    let no_client = RawMsgConnectionOpenAck { client_state: None, ..raw.clone() };
    assert!(MsgConnectionOpenAck::try_from(no_client).is_err());
    let zero = RawMsgConnectionOpenAck {
        consensus_height: Some(RawHeight { revision_number: 0, revision_height: 0 }),
        ..raw
    };
    assert!(MsgConnectionOpenAck::try_from(zero).is_err());
}
