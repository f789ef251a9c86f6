//! Handshake messages in their raw (wire) form and in their checked domain
//! form, with the conversions between the two.
use vstd::prelude::*;

use crate::client::{Height, MockClientState};
use crate::connection::Version;
use crate::error::ChannelError;
use crate::identifiers::{is_named_index, valid_port_id, ChannelId, ConnectionId, PortId};

verus! {

/// A height as the wire carries it; a zero revision height is not a height.
#[derive(Clone, Copy, Debug, PartialEq, Eq, Structural)]
pub struct RawHeight {
    pub revision_number: u64,
    pub revision_height: u64,
}

impl RawHeight {
    pub fn from_height(h: Height) -> (r: RawHeight)
        ensures
            (r.revision_number, r.revision_height) == h@,
    {
        RawHeight { revision_number: h.revision_number(), revision_height: h.revision_height() }
    }
}

/// The height a raw optional height denotes, if it is one.
pub open spec fn raw_height_ok(h: Option<RawHeight>) -> bool {
    h matches Some(rh) && rh.revision_height > 0
}

fn height_from_raw(h: Option<RawHeight>) -> (r: Result<Height, ChannelError>)
    ensures
        r is Ok <==> raw_height_ok(h),
        r matches Ok(x) ==> h matches Some(rh) && x@ == (rh.revision_number, rh.revision_height),
        r is Err ==> r == Err::<Height, ChannelError>(ChannelError::MissingHeight),
{
    match h {
        Some(rh) => match Height::new(rh.revision_number, rh.revision_height) {
            Ok(x) => Ok(x),
            Err(_) => Err(ChannelError::MissingHeight),
        },
        None => Err(ChannelError::MissingHeight),
    }
}

/// `MsgChannelOpenAck` as the wire carries it.
#[derive(Clone, Debug, PartialEq, Eq)]
pub struct RawMsgChannelOpenAck {
    pub port_id: String,
    pub channel_id: String,
    pub counterparty_channel_id: String,
    pub counterparty_version: String,
    pub proof_try: Vec<u8>,
    pub proof_height: Option<RawHeight>,
    pub signer: String,
}

/// The third step of the channel open handshake, sent to chain A: chain B
/// proves its end in `TryOpen`.
#[derive(Clone, Debug, PartialEq, Eq)]
pub struct MsgChannelOpenAck {
    pub port_id_on_a: PortId,
    pub chan_id_on_a: ChannelId,
    pub chan_id_on_b: ChannelId,
    pub version_on_b: String,
    pub proof_chan_end_on_b: Vec<u8>,
    pub proof_height_on_b: Height,
    pub signer: String,
}

/// Every field of a raw `MsgChannelOpenAck` is well formed: valid
/// identifiers, a non-empty proof, a non-zero proof height and a signer.
pub open spec fn chan_open_ack_raw_ok(raw: RawMsgChannelOpenAck) -> bool {
    &&& valid_port_id(raw.port_id@)
    &&& is_named_index(raw.channel_id@, "channel-"@)
    &&& is_named_index(raw.counterparty_channel_id@, "channel-"@)
    &&& raw.proof_try@.len() > 0
    &&& raw_height_ok(raw.proof_height)
    &&& raw.signer@.len() > 0
}

impl MsgChannelOpenAck {
    pub fn new(
        port_id_on_a: PortId,
        chan_id_on_a: ChannelId,
        chan_id_on_b: ChannelId,
        version_on_b: String,
        proof_chan_end_on_b: Vec<u8>,
        proof_height_on_b: Height,
        signer: String,
    ) -> (r: MsgChannelOpenAck)
        ensures
            r == (MsgChannelOpenAck {
                port_id_on_a,
                chan_id_on_a,
                chan_id_on_b,
                version_on_b,
                proof_chan_end_on_b,
                proof_height_on_b,
                signer,
            }),
    {
        MsgChannelOpenAck {
            port_id_on_a,
            chan_id_on_a,
            chan_id_on_b,
            version_on_b,
            proof_chan_end_on_b,
            proof_height_on_b,
            signer,
        }
    }

    /// Checks a raw message and builds the domain message from it.
    pub fn try_from(raw: RawMsgChannelOpenAck) -> (r: Result<MsgChannelOpenAck, ChannelError>)
        ensures
            r is Ok <==> chan_open_ack_raw_ok(raw),
            !valid_port_id(raw.port_id@) ==> (r matches Err(ChannelError::Identifier(_))),
            valid_port_id(raw.port_id@) && !is_named_index(raw.channel_id@, "channel-"@) ==> (r matches Err(
                ChannelError::Identifier(_),
            )),
            valid_port_id(raw.port_id@) && is_named_index(raw.channel_id@, "channel-"@)
                && !is_named_index(raw.counterparty_channel_id@, "channel-"@) ==> (r matches Err(
                ChannelError::Identifier(_),
            )),
            valid_port_id(raw.port_id@) && is_named_index(raw.channel_id@, "channel-"@)
                && is_named_index(raw.counterparty_channel_id@, "channel-"@) ==> {
                &&& raw.proof_try@.len() == 0 ==> r == Err::<MsgChannelOpenAck, ChannelError>(
                    ChannelError::InvalidProof,
                )
                &&& raw.proof_try@.len() > 0 && !raw_height_ok(raw.proof_height) ==> r == Err::<
                    MsgChannelOpenAck,
                    ChannelError,
                >(ChannelError::MissingHeight)
                &&& raw.proof_try@.len() > 0 && raw_height_ok(raw.proof_height) && raw.signer@.len()
                    == 0 ==> r == Err::<MsgChannelOpenAck, ChannelError>(ChannelError::EmptySigner)
            },
            r matches Ok(m) ==> {
                &&& m.port_id_on_a@ == raw.port_id@
                &&& m.chan_id_on_a@ == raw.channel_id@
                &&& m.chan_id_on_b@ == raw.counterparty_channel_id@
                &&& m.version_on_b == raw.counterparty_version
                &&& m.proof_chan_end_on_b == raw.proof_try
                &&& raw.proof_height matches Some(rh) && m.proof_height_on_b@ == (
                    rh.revision_number,
                    rh.revision_height,
                )
                &&& m.signer == raw.signer
            },
    {
        let port_id_on_a = match PortId::new(raw.port_id.as_str()) {
            Ok(p) => p,
            Err(e) => return Err(ChannelError::Identifier(e)),
        };
        let chan_id_on_a = match ChannelId::parse(raw.channel_id.as_str()) {
            Ok(c) => c,
            Err(e) => return Err(ChannelError::Identifier(e)),
        };
        let chan_id_on_b = match ChannelId::parse(raw.counterparty_channel_id.as_str()) {
            Ok(c) => c,
            Err(e) => return Err(ChannelError::Identifier(e)),
        };
        if raw.proof_try.len() == 0 {
            return Err(ChannelError::InvalidProof);
        }
        let proof_height_on_b = height_from_raw(raw.proof_height)?;
        if raw.signer.as_str().unicode_len() == 0 {
            return Err(ChannelError::EmptySigner);
        }
        Ok(MsgChannelOpenAck {
            port_id_on_a,
            chan_id_on_a,
            chan_id_on_b,
            version_on_b: raw.counterparty_version,
            proof_chan_end_on_b: raw.proof_try,
            proof_height_on_b,
            signer: raw.signer,
        })
    }
}

impl RawMsgChannelOpenAck {
    /// The raw form of a domain message.
    pub fn from(m: MsgChannelOpenAck) -> (r: RawMsgChannelOpenAck)
        ensures
            r.port_id@ == m.port_id_on_a@,
            r.channel_id@ == m.chan_id_on_a@,
            r.counterparty_channel_id@ == m.chan_id_on_b@,
            r.counterparty_version == m.version_on_b,
            r.proof_try == m.proof_chan_end_on_b,
            r.proof_height == Some(
                RawHeight {
                    revision_number: m.proof_height_on_b@.0,
                    revision_height: m.proof_height_on_b@.1,
                },
            ),
            r.signer == m.signer,
    {
        RawMsgChannelOpenAck {
            port_id: String::from_str(m.port_id_on_a.as_str()),
            channel_id: String::from_str(m.chan_id_on_a.as_str()),
            counterparty_channel_id: String::from_str(m.chan_id_on_b.as_str()),
            counterparty_version: m.version_on_b,
            proof_try: m.proof_chan_end_on_b,
            proof_height: Some(RawHeight::from_height(m.proof_height_on_b)),
            signer: m.signer,
        }
    }
}

/// `MsgChannelCloseInit` as the wire carries it.
#[derive(Clone, Debug, PartialEq, Eq)]
pub struct RawMsgChannelCloseInit {
    pub port_id: String,
    pub channel_id: String,
    pub signer: String,
}

/// The first step of the channel close handshake, sent to chain A.
#[derive(Clone, Debug, PartialEq, Eq)]
pub struct MsgChannelCloseInit {
    pub port_id_on_a: PortId,
    pub chan_id_on_a: ChannelId,
    pub signer: String,
}

impl MsgChannelCloseInit {
    /// Checks a raw message and builds the domain message from it.
    pub fn try_from(raw: RawMsgChannelCloseInit) -> (r: Result<MsgChannelCloseInit, ChannelError>)
        ensures
            r is Ok <==> valid_port_id(raw.port_id@) && is_named_index(raw.channel_id@, "channel-"@),
            r matches Ok(m) ==> m.port_id_on_a@ == raw.port_id@ && m.chan_id_on_a@ == raw.channel_id@
                && m.signer == raw.signer,
    {
        let port_id_on_a = match PortId::new(raw.port_id.as_str()) {
            Ok(p) => p,
            Err(e) => return Err(ChannelError::Identifier(e)),
        };
        let chan_id_on_a = match ChannelId::parse(raw.channel_id.as_str()) {
            Ok(c) => c,
            Err(e) => return Err(ChannelError::Identifier(e)),
        };
        Ok(MsgChannelCloseInit { port_id_on_a, chan_id_on_a, signer: raw.signer })
    }
}

impl RawMsgChannelCloseInit {
    /// The raw form of a domain message.
    pub fn from(m: MsgChannelCloseInit) -> (r: RawMsgChannelCloseInit)
        ensures
            r.port_id@ == m.port_id_on_a@,
            r.channel_id@ == m.chan_id_on_a@,
            r.signer == m.signer,
    {
        RawMsgChannelCloseInit {
            port_id: String::from_str(m.port_id_on_a.as_str()),
            channel_id: String::from_str(m.chan_id_on_a.as_str()),
            signer: m.signer,
        }
    }
}

/// `MsgConnectionOpenAck` as the wire carries it.
#[derive(Clone, Debug, PartialEq, Eq)]
pub struct RawMsgConnectionOpenAck {
    pub connection_id: String,
    pub counterparty_connection_id: String,
    pub proof_try: Vec<u8>,
    pub proof_height: Option<RawHeight>,
    pub proof_consensus: Vec<u8>,
    pub consensus_height: Option<RawHeight>,
    pub client_state: Option<MockClientState>,
    pub proof_client: Vec<u8>,
    pub version: Option<Version>,
    pub signer: String,
    pub host_consensus_state_proof: Vec<u8>,
}

/// The third step of the connection handshake, sent to chain A: chain B
/// proves its end in `TryOpen`, its client of A, and that client's
/// consensus state.
#[derive(Clone, Debug, PartialEq, Eq)]
pub struct MsgConnectionOpenAck {
    pub conn_id_on_a: ConnectionId,
    pub conn_id_on_b: ConnectionId,
    pub client_state_of_a_on_b: MockClientState,
    pub proof_conn_end_on_b: Vec<u8>,
    pub proof_client_state_of_a_on_b: Vec<u8>,
    pub proof_consensus_state_of_a_on_b: Vec<u8>,
    pub proofs_height_on_b: Height,
    pub consensus_height_of_a_on_b: Height,
    pub version: Version,
    pub signer: String,
}

/// Every field of a raw `MsgConnectionOpenAck` is well formed.
pub open spec fn conn_open_ack_raw_ok(raw: RawMsgConnectionOpenAck) -> bool {
    &&& is_named_index(raw.connection_id@, "connection-"@)
    &&& is_named_index(raw.counterparty_connection_id@, "connection-"@)
    &&& raw.client_state is Some
    &&& raw.version is Some
    &&& raw.proof_try@.len() > 0
    &&& raw.proof_client@.len() > 0
    &&& raw.proof_consensus@.len() > 0
    &&& raw_height_ok(raw.proof_height)
    &&& raw_height_ok(raw.consensus_height)
    &&& raw.signer@.len() > 0
}

impl MsgConnectionOpenAck {
    /// Checks a raw message and builds the domain message from it.
    pub fn try_from(raw: RawMsgConnectionOpenAck) -> (r: Result<MsgConnectionOpenAck, ChannelError>)
        ensures
            r is Ok <==> conn_open_ack_raw_ok(raw),
            r matches Ok(m) ==> {
                &&& m.conn_id_on_a@ == raw.connection_id@
                &&& m.conn_id_on_b@ == raw.counterparty_connection_id@
                &&& raw.client_state == Some(m.client_state_of_a_on_b)
                &&& m.proof_conn_end_on_b == raw.proof_try
                &&& m.proof_client_state_of_a_on_b == raw.proof_client
                &&& m.proof_consensus_state_of_a_on_b == raw.proof_consensus
                &&& raw.proof_height matches Some(rh) && m.proofs_height_on_b@ == (
                    rh.revision_number,
                    rh.revision_height,
                )
                &&& raw.consensus_height matches Some(rh) && m.consensus_height_of_a_on_b@ == (
                    rh.revision_number,
                    rh.revision_height,
                )
                &&& raw.version == Some(m.version)
                &&& m.signer == raw.signer
            },
    {
        let conn_id_on_a = match ConnectionId::parse(raw.connection_id.as_str()) {
            Ok(c) => c,
            Err(e) => return Err(ChannelError::Identifier(e)),
        };
        let conn_id_on_b = match ConnectionId::parse(raw.counterparty_connection_id.as_str()) {
            Ok(c) => c,
            Err(e) => return Err(ChannelError::Identifier(e)),
        };
        let client_state_of_a_on_b = match raw.client_state {
            Some(cs) => cs,
            None => return Err(ChannelError::InvalidProof),
        };
        let version = match raw.version {
            Some(v) => v,
            None => return Err(ChannelError::InvalidProof),
        };
        if raw.proof_try.len() == 0 || raw.proof_client.len() == 0 || raw.proof_consensus.len() == 0 {
            return Err(ChannelError::InvalidProof);
        }
        let proofs_height_on_b = height_from_raw(raw.proof_height)?;
        let consensus_height_of_a_on_b = height_from_raw(raw.consensus_height)?;
        if raw.signer.as_str().unicode_len() == 0 {
            return Err(ChannelError::EmptySigner);
        }
        Ok(MsgConnectionOpenAck {
            conn_id_on_a,
            conn_id_on_b,
            client_state_of_a_on_b,
            proof_conn_end_on_b: raw.proof_try,
            proof_client_state_of_a_on_b: raw.proof_client,
            proof_consensus_state_of_a_on_b: raw.proof_consensus,
            proofs_height_on_b,
            consensus_height_of_a_on_b,
            version,
            signer: raw.signer,
        })
    }
}

} // verus!
