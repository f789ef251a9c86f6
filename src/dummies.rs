//! Ready-made messages with fixed, well-formed values, for exercising handlers.
use vstd::prelude::*;

use crate::client::{Height, MockClientState};
use crate::connection::Version;
use crate::identifiers::{ChannelId, ConnectionId, PortId};
use crate::chan_close_confirm::RawMsgChannelCloseConfirm;
use crate::msgs::{
    conn_open_ack_raw_ok, MsgConnectionOpenAck, RawHeight, RawMsgChannelCloseInit,
    RawMsgChannelOpenAck, RawMsgConnectionOpenAck,
};

verus! {

/// A fixed, non-empty proof.
pub fn dummy_proof() -> (r: Vec<u8>)
    ensures
        r@.len() == 40,
{
    vec![
        89, 50, 57, 117, 99, 50, 86, 117, 99, 51, 86, 122, 85, 51, 82, 104, 100, 71, 85, 118, 97,
        87, 74, 106, 98, 50, 53, 108, 89, 50, 120, 112, 90, 87, 53, 48, 76, 122, 73, 121,
    ]
}

/// A fixed bech32 account, used as signer.
pub fn dummy_bech32_account() -> (r: String)
    ensures
        r@ == "cosmos1wxeyh7zgn4tctjzs0vtqpc6p5cxq5t2muzl7ng"@,
        r@.len() > 0,
{
    proof {
        reveal_strlit("cosmos1wxeyh7zgn4tctjzs0vtqpc6p5cxq5t2muzl7ng");
    }
    String::from_str("cosmos1wxeyh7zgn4tctjzs0vtqpc6p5cxq5t2muzl7ng")
}

/// A raw `MsgConnectionOpenAck` from `connection-0` to `connection-1`,
/// proved at `(0, proof_height)`, for a client of A at `(0, consensus_height)`.
pub fn dummy_raw_msg_conn_open_ack(proof_height: u64, consensus_height: u64) -> (r:
    RawMsgConnectionOpenAck)
    requires
        consensus_height > 0,
    ensures
        r.connection_id@ == ConnectionId::spec_named(0),
        r.counterparty_connection_id@ == ConnectionId::spec_named(1),
        r.proof_height == Some(RawHeight { revision_number: 0, revision_height: proof_height }),
        r.consensus_height == Some(RawHeight { revision_number: 0, revision_height: consensus_height }),
        r.client_state matches Some(cs) && cs.latest_height@ == (0u64, consensus_height) && !cs.frozen,
        r.host_consensus_state_proof@.len() == 0,
        conn_open_ack_raw_ok(r) <==> proof_height > 0,
{
    let client_state_height = match Height::new(0, consensus_height) {
        Ok(h) => h,
        Err(_) => Height::new(0, 1).unwrap(),
    };
    let connection_id = ConnectionId::new(0);
    let counterparty_connection_id = ConnectionId::new(1);
    RawMsgConnectionOpenAck {
        connection_id: String::from_str(connection_id.as_str()),
        counterparty_connection_id: String::from_str(counterparty_connection_id.as_str()),
        proof_try: dummy_proof(),
        proof_height: Some(RawHeight { revision_number: 0, revision_height: proof_height }),
        proof_consensus: dummy_proof(),
        consensus_height: Some(RawHeight { revision_number: 0, revision_height: consensus_height }),
        client_state: Some(MockClientState::new(client_state_height)),
        proof_client: dummy_proof(),
        version: Some(Version::default_version()),
        signer: dummy_bech32_account(),
        host_consensus_state_proof: Vec::new(),
    }
}

/// The domain form of `dummy_raw_msg_conn_open_ack`.
pub fn dummy_msg_conn_open_ack(proof_height: u64, consensus_height: u64) -> (r: MsgConnectionOpenAck)
    requires
        proof_height > 0,
        consensus_height > 0,
    ensures
        r.conn_id_on_a@ == ConnectionId::spec_named(0),
        r.conn_id_on_b@ == ConnectionId::spec_named(1),
        r.proofs_height_on_b@ == (0u64, proof_height),
        r.consensus_height_of_a_on_b@ == (0u64, consensus_height),
        r.client_state_of_a_on_b.latest_height@ == (0u64, consensus_height),
{
    let raw = dummy_raw_msg_conn_open_ack(proof_height, consensus_height);
    MsgConnectionOpenAck::try_from(raw).unwrap()
}

/// A raw `MsgChannelOpenAck` on `defaultPort`/`channel-0`, with an empty
/// counterparty version, proved at `(0, proof_height)`.
pub fn dummy_raw_msg_chan_open_ack(proof_height: u64) -> (r: RawMsgChannelOpenAck)
    ensures
        r.port_id@ == "defaultPort"@,
        r.channel_id@ == ChannelId::spec_named(0),
        r.counterparty_channel_id@ == ChannelId::spec_named(0),
        r.counterparty_version@ == Seq::<char>::empty(),
        r.proof_try@.len() > 0,
        r.proof_height == Some(RawHeight { revision_number: 0, revision_height: proof_height }),
        r.signer@.len() > 0,
{
    RawMsgChannelOpenAck {
        port_id: String::from_str(PortId::default_port().as_str()),
        channel_id: String::from_str(ChannelId::new(0).as_str()),
        counterparty_channel_id: String::from_str(ChannelId::new(0).as_str()),
        counterparty_version: String::new(),
        proof_try: dummy_proof(),
        proof_height: Some(RawHeight { revision_number: 0, revision_height: proof_height }),
        signer: dummy_bech32_account(),
    }
}

/// A raw `MsgChannelCloseInit` on `defaultPort`/`channel-0`.
pub fn dummy_raw_msg_chan_close_init() -> (r: RawMsgChannelCloseInit)
    ensures
        r.port_id@ == "defaultPort"@,
        r.channel_id@ == ChannelId::spec_named(0),
        r.signer@.len() > 0,
{
    RawMsgChannelCloseInit {
        port_id: String::from_str(PortId::default_port().as_str()),
        channel_id: String::from_str(ChannelId::new(0).as_str()),
        signer: dummy_bech32_account(),
    }
}

/// A raw `MsgChannelCloseConfirm` on `defaultPort`/`channel-0`, proved at `(0, proof_height)`.
pub fn dummy_raw_msg_chan_close_confirm(proof_height: u64) -> (r: RawMsgChannelCloseConfirm)
    ensures
        r.port_id@ == "defaultPort"@,
        r.channel_id@ == ChannelId::spec_named(0),
        r.proof_init@.len() > 0,
        r.proof_height == Some(RawHeight { revision_number: 0, revision_height: proof_height }),
        r.signer@.len() > 0,
{
    RawMsgChannelCloseConfirm {
        port_id: String::from_str(PortId::default_port().as_str()),
        channel_id: String::from_str(ChannelId::new(0).as_str()),
        proof_init: dummy_proof(),
        proof_height: Some(RawHeight { revision_number: 0, revision_height: proof_height }),
        signer: dummy_bech32_account(),
    }
}

} // verus!
