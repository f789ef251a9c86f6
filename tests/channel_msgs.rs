use ibc_host::dummies::{dummy_raw_msg_chan_close_init, dummy_raw_msg_chan_open_ack};
use ibc_host::msgs::{
    MsgChannelCloseInit, MsgChannelOpenAck, RawHeight, RawMsgChannelCloseInit,
    RawMsgChannelOpenAck,
};
use ibc_host::client::Height;
use ibc_host::error::ChannelError;
use ibc_host::identifiers::{ChannelId, PortId};

#[test]
fn parse_channel_open_ack_msg() {
    struct Test {
        name: String,
        raw: RawMsgChannelOpenAck,
        want_pass: bool,
    }

    let proof_height = 20;
    let default_raw_msg = dummy_raw_msg_chan_open_ack(proof_height);

    let tests: Vec<Test> = vec![
        Test {
            name: "Good parameters".to_string(),
            raw: default_raw_msg.clone(),
            want_pass: true,
        },
        Test {
            name: "Correct port identifier".to_string(),
            raw: RawMsgChannelOpenAck {
                port_id: "p34".to_string(),
                ..default_raw_msg.clone()
            },
            want_pass: true,
        },
        Test {
            name: "Bad port, name too short".to_string(),
            raw: RawMsgChannelOpenAck {
                port_id: "p".to_string(),
                ..default_raw_msg.clone()
            },
            want_pass: false,
        },
        Test {
            name: "Bad port, name too long".to_string(),
            raw: RawMsgChannelOpenAck {
                port_id: "abcdezdfDfsdfgfddsfsfdsdfdfvxcvzxcvsgdfsdfwefwvsdfdsfdasgagadgsadgsdffghijklmnopqrstuabcdezdfDfsdfgfddsfsfdsdfdfvxcvzxcvsgdfsdfwefwvsdfdsfdasgagadgsadgsdffghijklmnopqrstu".to_string(),
                ..default_raw_msg.clone()
            },
            want_pass: false,
        },
        Test {
            name: "Correct channel identifier".to_string(),
            raw: RawMsgChannelOpenAck {
                channel_id: "channel-34".to_string(),
                ..default_raw_msg.clone()
            },
            want_pass: true,
        },
        Test {
            name: "Bad channel, name too short".to_string(),
            raw: RawMsgChannelOpenAck {
                channel_id: "chshort".to_string(),
                ..default_raw_msg.clone()
            },
            want_pass: false,
        },
        Test {
            name: "Bad channel, name too long".to_string(),
            raw: RawMsgChannelOpenAck {
                channel_id: "channel-128391283791827398127398791283912837918273981273987912839".to_string(),
                ..default_raw_msg.clone()
            },
            want_pass: false,
        },
        Test {
            name: "[Counterparty] Correct channel identifier".to_string(),
            raw: RawMsgChannelOpenAck {
                counterparty_channel_id: "channel-34".to_string(),
                ..default_raw_msg.clone()
            },
            want_pass: true,
        },
        Test {
            name: "[Counterparty] Bad channel, name too short".to_string(),
            raw: RawMsgChannelOpenAck {
                counterparty_channel_id: "chshort".to_string(),
                ..default_raw_msg.clone()
            },
            want_pass: false,
        },
        Test {
            name: "[Counterparty] Bad channel, name too long".to_string(),
            raw: RawMsgChannelOpenAck {
                counterparty_channel_id: "channel-128391283791827398127398791283912837918273981273987912839".to_string(),
                ..default_raw_msg.clone()
            },
            want_pass: false,
        },
        Test {
            name: "Empty counterparty version (allowed)".to_string(),
            raw: RawMsgChannelOpenAck {
                counterparty_version: " ".to_string(),
                ..default_raw_msg.clone()
            },
            want_pass: true,
        },
        Test {
            name: "Arbitrary counterparty version (allowed)".to_string(),
            raw: RawMsgChannelOpenAck {
                counterparty_version: "v1.1.23-alpha".to_string(),
                ..default_raw_msg.clone()
            },
            want_pass: true,
        },
        Test {
            name: "Bad proof height, height = 0".to_string(),
            raw: RawMsgChannelOpenAck {
                proof_height: Some(RawHeight {
                    revision_number: 0,
                    revision_height: 0,
                }),
                ..default_raw_msg.clone()
            },
            want_pass: false,
        },
        Test {
            name: "Missing proof height".to_string(),
            raw: RawMsgChannelOpenAck {
                proof_height: None,
                ..default_raw_msg.clone()
            },
            want_pass: false,
        },
        Test {
            name: "Missing proof try (object proof)".to_string(),
            raw: RawMsgChannelOpenAck {
                proof_try: Vec::new(),
                ..default_raw_msg
            },
            want_pass: false,
        },
    ];

    for test in tests {
        let res_msg = MsgChannelOpenAck::try_from(test.raw.clone());

        assert_eq!(
            test.want_pass,
            res_msg.is_ok(),
            "MsgChanOpenAck::try_from raw failed for test {}, \nraw msg {:?} with error {:?}",
            test.name,
            test.raw,
            res_msg.err(),
        );
    }
}

#[test]
fn chan_open_ack_to_and_from() {
    let raw = dummy_raw_msg_chan_open_ack(100);
    let msg = MsgChannelOpenAck::try_from(raw.clone()).unwrap();
    let raw_back = RawMsgChannelOpenAck::from(msg.clone());
    let msg_back = MsgChannelOpenAck::try_from(raw_back.clone()).unwrap();
    assert_eq!(raw, raw_back);
    assert_eq!(msg, msg_back);
}

#[test]
fn chan_open_ack_new_keeps_fields() {
    let msg = MsgChannelOpenAck::new(
        PortId::new("transfer").unwrap(),
        ChannelId::new(3),
        ChannelId::new(9),
        "ics20-1".to_string(),
        vec![1, 2, 3],
        Height::new(1, 7).unwrap(),
        "signer".to_string(),
    );
    assert_eq!(msg.port_id_on_a.as_str(), "transfer");
    assert_eq!(msg.chan_id_on_a.as_str(), "channel-3");
    assert_eq!(msg.chan_id_on_b.as_str(), "channel-9");
    assert_eq!(msg.proof_height_on_b.revision_number(), 1);
    assert_eq!(msg.proof_height_on_b.revision_height(), 7);
    let raw = RawMsgChannelOpenAck::from(msg);
    assert_eq!(raw.proof_height, Some(RawHeight { revision_number: 1, revision_height: 7 }));
    assert_eq!(raw.counterparty_version, "ics20-1");
}

#[test]
fn chan_open_ack_error_kinds() {
    let raw = dummy_raw_msg_chan_open_ack(5);
    let r = MsgChannelOpenAck::try_from(RawMsgChannelOpenAck { proof_height: None, ..raw.clone() });
    assert_eq!(r, Err(ChannelError::MissingHeight));
    let r = MsgChannelOpenAck::try_from(RawMsgChannelOpenAck { proof_try: vec![], ..raw.clone() });
    assert_eq!(r, Err(ChannelError::InvalidProof));
    let r = MsgChannelOpenAck::try_from(RawMsgChannelOpenAck { signer: String::new(), ..raw.clone() });
    assert_eq!(r, Err(ChannelError::EmptySigner));
    let r = MsgChannelOpenAck::try_from(RawMsgChannelOpenAck { channel_id: "channel-01".to_string(), ..raw });
    assert!(matches!(r, Err(ChannelError::Identifier(_))));
}

#[test]
fn parse_channel_close_init_msg() {
    struct Test {
        name: String,
        raw: RawMsgChannelCloseInit,
        want_pass: bool,
    }

    let default_raw_msg = dummy_raw_msg_chan_close_init();

    let tests: Vec<Test> = vec![
        Test {
            name: "Good parameters".to_string(),
            raw: default_raw_msg.clone(),
            want_pass: true,
        },
        Test {
            name: "Correct port".to_string(),
            raw: RawMsgChannelCloseInit {
                port_id: "p34".to_string(),
                ..default_raw_msg.clone()
            },
            want_pass: true,
        },
        Test {
            name: "Bad port, name too short".to_string(),
            raw: RawMsgChannelCloseInit {
                port_id: "p".to_string(),
                ..default_raw_msg.clone()
            },
            want_pass: false,
        },
        Test {
            name: "Bad port, name too long".to_string(),
            raw: RawMsgChannelCloseInit {
                port_id: "abcdefsdfasdfasdfasdfasdfasdfadsfasdgafsgadfasdfasdfasdfsdfasdfaghijklmnopqrstuabcdefsdfasdfasdfasdfasdfasdfadsfasdgafsgadfasdfasdfasdfsdfasdfaghijklmnopqrstu".to_string(),
                ..default_raw_msg.clone()
            },
            want_pass: false,
        },
        Test {
            name: "Correct channel identifier".to_string(),
            raw: RawMsgChannelCloseInit {
                channel_id: "channel-34".to_string(),
                ..default_raw_msg.clone()
            },
            want_pass: true,
        },
        Test {
            name: "Bad channel, name too short".to_string(),
            raw: RawMsgChannelCloseInit {
                channel_id: "chshort".to_string(),
                ..default_raw_msg.clone()
            },
            want_pass: false,
        },
        Test {
            name: "Bad channel, name too long".to_string(),
            raw: RawMsgChannelCloseInit {
                channel_id: "channel-128391283791827398127398791283912837918273981273987912839".to_string(),
                ..default_raw_msg
            },
            want_pass: false,
        },
    ];

    for test in tests {
        let msg = MsgChannelCloseInit::try_from(test.raw.clone());

        assert_eq!(
            test.want_pass,
            msg.is_ok(),
            "MsgChanCloseInit::try_from failed for test {}, \nmsg {:?} with error {:?}",
            test.name,
            test.raw,
            msg.err(),
        );
    }
}

#[test]
fn chan_close_init_to_and_from() {
    let raw = dummy_raw_msg_chan_close_init();
    let msg = MsgChannelCloseInit::try_from(raw.clone()).unwrap();
    let raw_back = RawMsgChannelCloseInit::from(msg.clone());
    let msg_back = MsgChannelCloseInit::try_from(raw_back.clone()).unwrap();
    assert_eq!(raw, raw_back);
    assert_eq!(msg, msg_back);
}
