//! The ICS-24 store paths. Counterparties verify proofs against these exact
//! strings, so each builder states the text it produces.
use vstd::prelude::*;

use crate::identifiers::{decimal_digits, push_decimal, ChannelId, ClientId, ConnectionId, PortId};

verus! {

pub open spec fn client_state_path_spec(client: Seq<char>) -> Seq<char> {
    "clients/"@ + client + "/clientState"@
}

pub open spec fn consensus_state_path_spec(client: Seq<char>, rev: u64, height: u64) -> Seq<char> {
    "clients/"@ + client + "/consensusStates/"@ + decimal_digits(rev as nat) + "-"@
        + decimal_digits(height as nat)
}

pub open spec fn client_connections_path_spec(client: Seq<char>) -> Seq<char> {
    "clients/"@ + client + "/connections"@
}

pub open spec fn connection_path_spec(conn: Seq<char>) -> Seq<char> {
    "connections/"@ + conn
}

/// `{root}/ports/{port}/channels/{channel}`, the shape shared by the channel-end
/// and sequence-counter paths.
pub open spec fn port_channel_path_spec(root: Seq<char>, port: Seq<char>, chan: Seq<char>) -> Seq<
    char,
> {
    root + "/ports/"@ + port + "/channels/"@ + chan
}

/// `{root}/ports/{port}/channels/{channel}/sequences/{seq}`, the shape shared
/// by the commitment, receipt and acknowledgement paths.
pub open spec fn packet_path_spec(root: Seq<char>, port: Seq<char>, chan: Seq<char>, seq: u64) -> Seq<
    char,
> {
    port_channel_path_spec(root, port, chan) + "/sequences/"@ + decimal_digits(seq as nat)
}

pub open spec fn channel_end_path_spec(port: Seq<char>, chan: Seq<char>) -> Seq<char> {
    port_channel_path_spec("channelEnds"@, port, chan)
}

pub open spec fn seq_send_path_spec(port: Seq<char>, chan: Seq<char>) -> Seq<char> {
    port_channel_path_spec("nextSequenceSend"@, port, chan)
}

pub open spec fn seq_recv_path_spec(port: Seq<char>, chan: Seq<char>) -> Seq<char> {
    port_channel_path_spec("nextSequenceRecv"@, port, chan)
}

pub open spec fn seq_ack_path_spec(port: Seq<char>, chan: Seq<char>) -> Seq<char> {
    port_channel_path_spec("nextSequenceAck"@, port, chan)
}

pub open spec fn commitment_path_spec(port: Seq<char>, chan: Seq<char>, seq: u64) -> Seq<char> {
    packet_path_spec("commitments"@, port, chan, seq)
}

pub open spec fn receipt_path_spec(port: Seq<char>, chan: Seq<char>, seq: u64) -> Seq<char> {
    packet_path_spec("receipts"@, port, chan, seq)
}

pub open spec fn ack_path_spec(port: Seq<char>, chan: Seq<char>, seq: u64) -> Seq<char> {
    packet_path_spec("acks"@, port, chan, seq)
}

/// `clients/{client_id}/clientState`
pub fn client_state_path(client: &ClientId) -> (r: String)
    ensures
        r@ == client_state_path_spec(client@),
{
    let mut s = String::from_str("clients/");
    s.append(client.as_str());
    s.append("/clientState");
    s
}

/// `clients/{client_id}/consensusStates/{revision}-{height}`
pub fn consensus_state_path(client: &ClientId, rev: u64, height: u64) -> (r: String)
    ensures
        r@ == consensus_state_path_spec(client@, rev, height),
{
    let mut s = String::from_str("clients/");
    s.append(client.as_str());
    s.append("/consensusStates/");
    push_decimal(&mut s, rev);
    s.append("-");
    push_decimal(&mut s, height);
    s
}

/// `clients/{client_id}/connections`
pub fn client_connections_path(client: &ClientId) -> (r: String)
    ensures
        r@ == client_connections_path_spec(client@),
{
    let mut s = String::from_str("clients/");
    s.append(client.as_str());
    s.append("/connections");
    s
}

/// `connections/{connection_id}`
pub fn connection_path(conn: &ConnectionId) -> (r: String)
    ensures
        r@ == connection_path_spec(conn@),
{
    let mut s = String::from_str("connections/");
    s.append(conn.as_str());
    s
}

fn port_channel_path(root: &str, port: &PortId, chan: &ChannelId) -> (r: String)
    ensures
        r@ == port_channel_path_spec(root@, port@, chan@),
{
    let mut s = String::from_str(root);
    s.append("/ports/");
    s.append(port.as_str());
    s.append("/channels/");
    s.append(chan.as_str());
    s
}

fn packet_path(root: &str, port: &PortId, chan: &ChannelId, seq: u64) -> (r: String)
    ensures
        r@ == packet_path_spec(root@, port@, chan@, seq),
{
    let mut s = port_channel_path(root, port, chan);
    s.append("/sequences/");
    push_decimal(&mut s, seq);
    s
}

/// `{root}/ports/{port}/channels/{channel}/sequences/`, the part of a packet
/// path before the sequence.
pub open spec fn packet_prefix_spec(root: Seq<char>, port: Seq<char>, chan: Seq<char>) -> Seq<char> {
    port_channel_path_spec(root, port, chan) + "/sequences/"@
}

/// `{root}/ports/{port}/channels/{channel}/sequences/`
pub fn packet_prefix(root: &str, port: &PortId, chan: &ChannelId) -> (r: String)
    ensures
        r@ == packet_prefix_spec(root@, port@, chan@),
{
    let mut s = port_channel_path(root, port, chan);
    s.append("/sequences/");
    s
}

/// `channelEnds/ports/{port_id}/channels/{channel_id}`
pub fn channel_end_path(port: &PortId, chan: &ChannelId) -> (r: String)
    ensures
        r@ == channel_end_path_spec(port@, chan@),
{
    port_channel_path("channelEnds", port, chan)
}

/// `nextSequenceSend/ports/{port_id}/channels/{channel_id}`
pub fn seq_send_path(port: &PortId, chan: &ChannelId) -> (r: String)
    ensures
        r@ == seq_send_path_spec(port@, chan@),
{
    port_channel_path("nextSequenceSend", port, chan)
}

/// `nextSequenceRecv/ports/{port_id}/channels/{channel_id}`
pub fn seq_recv_path(port: &PortId, chan: &ChannelId) -> (r: String)
    ensures
        r@ == seq_recv_path_spec(port@, chan@),
{
    port_channel_path("nextSequenceRecv", port, chan)
}

/// `nextSequenceAck/ports/{port_id}/channels/{channel_id}`
pub fn seq_ack_path(port: &PortId, chan: &ChannelId) -> (r: String)
    ensures
        r@ == seq_ack_path_spec(port@, chan@),
{
    port_channel_path("nextSequenceAck", port, chan)
}

/// `commitments/ports/{p}/channels/{c}/sequences/{seq}`
pub fn commitment_path(port: &PortId, chan: &ChannelId, seq: u64) -> (r: String)
    ensures
        r@ == commitment_path_spec(port@, chan@, seq),
{
    packet_path("commitments", port, chan, seq)
}

/// `receipts/ports/{p}/channels/{c}/sequences/{seq}`
pub fn receipt_path(port: &PortId, chan: &ChannelId, seq: u64) -> (r: String)
    ensures
        r@ == receipt_path_spec(port@, chan@, seq),
{
    packet_path("receipts", port, chan, seq)
}

/// `acks/ports/{p}/channels/{c}/sequences/{seq}`
pub fn ack_path(port: &PortId, chan: &ChannelId, seq: u64) -> (r: String)
    ensures
        r@ == ack_path_spec(port@, chan@, seq),
{
    packet_path("acks", port, chan, seq)
}

} // verus!
