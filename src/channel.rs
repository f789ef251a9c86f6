//! Channel ends and packets.
use vstd::prelude::*;

use crate::client::Height;
use crate::identifiers::{ChannelId, ConnectionId, PortId};

verus! {

/// The handshake state of a channel end.
#[derive(Clone, Copy, Debug, PartialEq, Eq, Structural)]
pub enum ChannelState {
    Uninitialized,
    Init,
    TryOpen,
    Open,
    Closed,
}

/// Whether packets must be received in the order they were sent.
#[derive(Clone, Copy, Debug, PartialEq, Eq, Structural)]
pub enum Order {
    Unordered,
    Ordered,
}

/// The other chain's side of a channel.
#[derive(Clone, Debug, PartialEq, Eq)]
pub struct ChannelCounterparty {
    pub port_id: PortId,
    pub channel_id: Option<ChannelId>,
}

/// One end of a channel, as its chain stores it.
#[derive(Clone, Debug, PartialEq, Eq)]
pub struct ChannelEnd {
    pub state: ChannelState,
    pub ordering: Order,
    pub remote: ChannelCounterparty,
    pub connection_hops: Vec<ConnectionId>,
    pub version: String,
}

/// A packet sent from `(port_id_on_a, chan_id_on_a)` to
/// `(port_id_on_b, chan_id_on_b)`. A timeout of `None` height or 0
/// timestamp is not set; at least one of the two must be.
#[derive(Clone, Debug, PartialEq, Eq)]
pub struct Packet {
    pub seq_on_a: u64,
    pub port_id_on_a: PortId,
    pub chan_id_on_a: ChannelId,
    pub port_id_on_b: PortId,
    pub chan_id_on_b: ChannelId,
    pub data: Vec<u8>,
    pub timeout_height_on_b: Option<Height>,
    pub timeout_timestamp_on_b: u64,
}

} // verus!
