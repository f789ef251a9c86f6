//! The packet lifecycle: send, receive, acknowledge, timeout and timeout on
//! close, with the commitment, receipt and acknowledgement bookkeeping that
//! makes delivery exactly-once. The mock light client accepts every proof
//! at a height where it holds a consensus state.
use vstd::prelude::*;

use crate::channel::{ChannelEnd, ChannelState, Order, Packet};
use crate::client::{height_lt, ClientError, Height, MockClientState};
use crate::commitment::{
    bytes_eq, compute_ack_commitment, compute_packet_commitment, packet_commitment_spec, sha256_of,
};
use crate::connection::State;
use crate::context::{ContextView, IbcEvent, MockContext};
use crate::error::{ChannelError, ContextError, PacketError};
use crate::identifiers::{ChannelId, PortId};
use crate::path::{
    ack_path_spec, channel_end_path_spec, client_state_path_spec, commitment_path_spec,
    connection_path_spec, consensus_state_path_spec, receipt_path_spec, seq_ack_path_spec,
    seq_recv_path_spec, seq_send_path_spec,
};

verus! {

/// `RecvPacket`: `packet` was committed on its source chain, as proved at `proof_height_on_a`.
#[derive(Clone, Debug, PartialEq, Eq)]
pub struct MsgRecvPacket {
    pub packet: Packet,
    pub proof_commitment_on_a: Vec<u8>,
    pub proof_height_on_a: Height,
    pub signer: String,
}

/// `Acknowledgement`: the destination wrote `acknowledgement` for `packet`.
#[derive(Clone, Debug, PartialEq, Eq)]
pub struct MsgAcknowledgement {
    pub packet: Packet,
    pub acknowledgement: Vec<u8>,
    pub proof_acked_on_b: Vec<u8>,
    pub proof_height_on_b: Height,
    pub signer: String,
}

/// `Timeout` and `TimeoutOnClose`: the destination has not received
/// `packet`; on an ordered channel its next receive sequence is `next_seq_recv_on_b`.
#[derive(Clone, Debug, PartialEq, Eq)]
pub struct MsgTimeout {
    pub packet: Packet,
    pub next_seq_recv_on_b: u64,
    pub proof_unreceived_on_b: Vec<u8>,
    pub proof_height_on_b: Height,
    pub signer: String,
}

/// The channel end stored under `(port, chan)`.
pub open spec fn chan_of(v: ContextView, port: Seq<char>, chan: Seq<char>) -> ChannelEnd {
    v.channels[channel_end_path_spec(port, chan)]
}

/// The path of the connection under the channel's first hop.
pub open spec fn conn_path_of(v: ContextView, port: Seq<char>, chan: Seq<char>) -> Seq<char> {
    connection_path_spec(chan_of(v, port, chan).connection_hops@[0]@)
}

/// The client path of the channel's connection.
pub open spec fn client_path_of(v: ContextView, port: Seq<char>, chan: Seq<char>) -> Seq<char> {
    client_state_path_spec(v.connections[conn_path_of(v, port, chan)].client_id@)
}

/// The channel is open, and can reach its counterparty: see `channel_reachable`.
pub open spec fn channel_usable(v: ContextView, port: Seq<char>, chan: Seq<char>) -> bool {
    &&& channel_reachable(v, port, chan)
    &&& chan_of(v, port, chan).state == ChannelState::Open
}

/// The channel exists, its connection exists and is open, and the
/// connection's client exists and is not frozen.
pub open spec fn channel_reachable(v: ContextView, port: Seq<char>, chan: Seq<char>) -> bool {
    &&& v.channels.contains_key(channel_end_path_spec(port, chan))
    &&& chan_of(v, port, chan).connection_hops@.len() > 0
    &&& v.connections.contains_key(conn_path_of(v, port, chan))
    &&& v.connections[conn_path_of(v, port, chan)].state == State::Open
    &&& v.client_states.contains_key(client_path_of(v, port, chan))
    &&& !v.client_states[client_path_of(v, port, chan)].frozen
}

/// The channel's counterparty is `(port, chan)`.
pub open spec fn remote_is(c: ChannelEnd, port: Seq<char>, chan: Seq<char>) -> bool {
    &&& c.remote.port_id@ == port
    &&& c.remote.channel_id matches Some(id) && id@ == chan
}

/// The client of the channel's connection holds a consensus state at `h`.
pub open spec fn proof_height_known(v: ContextView, port: Seq<char>, chan: Seq<char>, h: (u64, u64)) -> bool {
    v.consensus_states.contains_key(
        consensus_state_path_spec(v.connections[conn_path_of(v, port, chan)].client_id@, h.0, h.1),
    )
}

/// Checks that the channel of `(port, chan)` can carry packets, and returns
/// it with the state of its client.
pub(crate) fn usable_channel<'a>(ctx: &'a MockContext, port: &PortId, chan: &ChannelId, require_open: bool) -> (r: Result<
    (&'a ChannelEnd, MockClientState),
    ContextError,
>)
    requires
        ctx.wf(),
    ensures
        r is Ok <==> channel_reachable(ctx@, port@, chan@) && (require_open ==> chan_of(
            ctx@,
            port@,
            chan@,
        ).state == ChannelState::Open),
        r matches Ok((c, cs)) ==> *c == chan_of(ctx@, port@, chan@) && cs
            == ctx@.client_states[client_path_of(ctx@, port@, chan@)],
{
    let c = match ctx.channel_end(port, chan) {
        Ok(c) => c,
        Err(e) => return Err(ContextError::Channel(e)),
    };
    if require_open && c.state != ChannelState::Open {
        return Err(ContextError::Channel(ChannelError::InvalidChannelState));
    }
    if c.connection_hops.len() == 0 {
        return Err(ContextError::Channel(ChannelError::MissingConnectionHop));
    }
    let conn = match ctx.connection_end(&c.connection_hops[0]) {
        Ok(conn) => conn,
        Err(e) => return Err(ContextError::Connection(e)),
    };
    if conn.state != State::Open {
        return Err(ContextError::Channel(ChannelError::ConnectionNotOpen));
    }
    let cs = match ctx.client_state(&conn.client_id) {
        Ok(cs) => cs,
        Err(e) => return Err(ContextError::Client(e)),
    };
    if cs.frozen {
        return Err(ContextError::Client(ClientError::FrozenClient { client_id: conn.client_id.duplicate_exact() }));
    }
    Ok((c, cs))
}

/// Checks that the channel's counterparty is `(port, chan)`.
fn check_remote(c: &ChannelEnd, port: &PortId, chan: &ChannelId) -> (r: bool)
    ensures
        r == remote_is(*c, port@, chan@),
{
    if !c.remote.port_id.same(port) {
        return false;
    }
    match &c.remote.channel_id {
        Some(id) => id.same(chan),
        None => false,
    }
}

/// Checks that the channel's client holds a consensus state at `h`.
pub(crate) fn check_proof_height(ctx: &MockContext, port: &PortId, chan: &ChannelId, h: &Height) -> (r: bool)
    requires
        ctx.wf(),
        channel_reachable(ctx@, port@, chan@),
    ensures
        r == proof_height_known(ctx@, port@, chan@, h@),
{
    let c = ctx.channel_end(port, chan);
    match c {
        Ok(c) => {
            let conn = ctx.connection_end(&c.connection_hops[0]);
            match conn {
                Ok(conn) => ctx.consensus_state(&conn.client_id, h).is_ok(),
                Err(_) => false,
            }
        },
        Err(_) => false,
    }
}

/// The delay period of the channel's connection has passed since the
/// consensus state at `h` was stored: proofs against younger consensus
/// states are refused.
pub open spec fn delay_passed(v: ContextView, port: Seq<char>, chan: Seq<char>, h: (u64, u64)) -> bool {
    let conn = v.connections[conn_path_of(v, port, chan)];
    let csp = consensus_state_path_spec(conn.client_id@, h.0, h.1);
    conn.delay_period == 0 || (v.processed_times.contains_key(csp) && v.host_timestamp
        >= v.processed_times[csp] + conn.delay_period)
}

/// Checks that the delay period of the channel's connection has passed for `h`.
pub(crate) fn check_delay(ctx: &MockContext, port: &PortId, chan: &ChannelId, h: &Height) -> (r: bool)
    requires
        ctx.wf(),
        channel_reachable(ctx@, port@, chan@),
    ensures
        r == delay_passed(ctx@, port@, chan@, h@),
{
    let c = match ctx.channel_end(port, chan) {
        Ok(c) => c,
        Err(_) => return false,
    };
    let conn = match ctx.connection_end(&c.connection_hops[0]) {
        Ok(conn) => conn,
        Err(_) => return false,
    };
    if conn.delay_period == 0 {
        return true;
    }
    match ctx.consensus_processed_time(&conn.client_id, h) {
        Some(t) => {
            let now = ctx.host_timestamp();
            now >= t && now - t >= conn.delay_period
        },
        None => false,
    }
}

/// The packet's timeout height, if set, lies beyond `h`.
pub open spec fn before_timeout_height(p: Packet, h: (u64, u64)) -> bool {
    p.timeout_height_on_b matches Some(t) ==> height_lt(h, t@)
}

/// The packet's timeout timestamp, if set, lies beyond `ts`.
pub open spec fn before_timeout_timestamp(p: Packet, ts: u64) -> bool {
    p.timeout_timestamp_on_b != 0 ==> ts < p.timeout_timestamp_on_b
}

// ---------------------------------------------------------------- send

/// Every check of sending `p` passes on `v`.
pub open spec fn send_ok(v: ContextView, p: Packet) -> bool {
    let (port, chan) = (p.port_id_on_a@, p.chan_id_on_a@);
    let sp = seq_send_path_spec(port, chan);
    &&& (p.timeout_height_on_b is Some || p.timeout_timestamp_on_b != 0)
    &&& channel_usable(v, port, chan)
    &&& remote_is(chan_of(v, port, chan), p.port_id_on_b@, p.chan_id_on_b@)
    &&& before_timeout_height(p, v.client_states[client_path_of(v, port, chan)].latest_height@)
    &&& v.send_seqs.contains_key(sp)
    &&& v.send_seqs[sp] == p.seq_on_a
    &&& p.seq_on_a < u64::MAX
}

/// What sending `p` does to `v`: the next send sequence moves on, the
/// packet's commitment is stored and `SendPacket` is emitted.
pub open spec fn send_post(v: ContextView, p: Packet, w: ContextView) -> bool {
    let (port, chan) = (p.port_id_on_a@, p.chan_id_on_a@);
    let cp = commitment_path_spec(port, chan, p.seq_on_a);
    &&& w.commitments.contains_key(cp)
    &&& w.commitments[cp]@ == packet_commitment_spec(p.data@, p.timeout_height_on_b, p.timeout_timestamp_on_b)
    &&& w == ContextView {
        send_seqs: v.send_seqs.insert(seq_send_path_spec(port, chan), (p.seq_on_a + 1) as u64),
        commitments: v.commitments.insert(cp, w.commitments[cp]),
        events: v.events.push(IbcEvent::SendPacket { sequence: p.seq_on_a }),
        ..v
    }
}

/// Sends `packet` from its source channel: checks the channel, the timeout
/// and the sequence, then stores the packet commitment. On failure `ctx` is
/// left exactly as it was.
pub fn send_packet(ctx: &mut MockContext, packet: &Packet) -> (r: Result<(), ContextError>)
    requires
        old(ctx).wf(),
    ensures
        final(ctx).wf(),
        r is Ok <==> send_ok(old(ctx)@, *packet),
        r is Ok ==> send_post(old(ctx)@, *packet, final(ctx)@),
        r is Err ==> final(ctx)@ == old(ctx)@,
        packet.timeout_height_on_b is None && packet.timeout_timestamp_on_b == 0 ==> r
            == Err::<(), ContextError>(ContextError::Packet(PacketError::MissingTimeout)),
{
    if packet.timeout_height_on_b.is_none() && packet.timeout_timestamp_on_b == 0 {
        return Err(ContextError::Packet(PacketError::MissingTimeout));
    }
    let port = &packet.port_id_on_a;
    let chan = &packet.chan_id_on_a;
    let (c, cs) = usable_channel(ctx, port, chan, true)?;
    if !check_remote(c, &packet.port_id_on_b, &packet.chan_id_on_b) {
        return Err(ContextError::Packet(PacketError::InvalidPacketCounterparty));
    }
    match &packet.timeout_height_on_b {
        Some(t) => {
            if !cs.latest_height.lt(t) {
                return Err(ContextError::Packet(PacketError::LowPacketHeight));
            }
        },
        None => {},
    }
    let next = match ctx.get_next_sequence_send(port, chan) {
        Ok(n) => n,
        Err(e) => return Err(ContextError::Packet(e)),
    };
    if packet.seq_on_a != next {
        return Err(ContextError::Packet(PacketError::InvalidPacketSequence { given: packet.seq_on_a, next }));
    }
    if next == u64::MAX {
        return Err(ContextError::Packet(PacketError::SequenceOverflow));
    }
    let commitment = compute_packet_commitment(packet);
    ctx.store_next_sequence_send(port, chan, next + 1);
    ctx.store_packet_commitment(port, chan, packet.seq_on_a, commitment);
    ctx.emit_ibc_event(IbcEvent::SendPacket { sequence: packet.seq_on_a });
    Ok(())
}

// ---------------------------------------------------------------- receive

/// Every check of receiving `m` passes on `v`.
pub open spec fn recv_ok(v: ContextView, m: MsgRecvPacket) -> bool {
    let p = m.packet;
    let (port, chan) = (p.port_id_on_b@, p.chan_id_on_b@);
    let rp = seq_recv_path_spec(port, chan);
    &&& channel_usable(v, port, chan)
    &&& remote_is(chan_of(v, port, chan), p.port_id_on_a@, p.chan_id_on_a@)
    &&& proof_height_known(v, port, chan, m.proof_height_on_a@)
    &&& delay_passed(v, port, chan, m.proof_height_on_a@)
    &&& before_timeout_height(p, v.host_height@)
    &&& before_timeout_timestamp(p, v.host_timestamp)
    &&& if chan_of(v, port, chan).ordering == Order::Ordered {
        &&& v.recv_seqs.contains_key(rp)
        &&& v.recv_seqs[rp] == p.seq_on_a
        &&& p.seq_on_a < u64::MAX
    } else {
        !v.receipts.contains_key(receipt_path_spec(port, chan, p.seq_on_a))
    }
}

/// What receiving `m` with acknowledgement `ack` does to `v`: on an ordered
/// channel the next receive sequence moves on, on an unordered one the
/// receipt is written; `ReceivePacket` is emitted; a non-empty `ack` has its
/// commitment stored and `WriteAcknowledgement` emitted.
pub open spec fn recv_post(v: ContextView, m: MsgRecvPacket, ack: Seq<u8>, w: ContextView) -> bool {
    let p = m.packet;
    let (port, chan) = (p.port_id_on_b@, p.chan_id_on_b@);
    let seq = p.seq_on_a;
    let v1 = if chan_of(v, port, chan).ordering == Order::Ordered {
        ContextView { recv_seqs: v.recv_seqs.insert(seq_recv_path_spec(port, chan), (seq + 1) as u64), ..v }
    } else {
        ContextView { receipts: v.receipts.insert(receipt_path_spec(port, chan, seq), ()), ..v }
    };
    let v2 = ContextView { events: v1.events.push(IbcEvent::ReceivePacket { sequence: seq }), ..v1 };
    let ap = ack_path_spec(port, chan, seq);
    if ack.len() > 0 {
        &&& w.acks.contains_key(ap)
        &&& w.acks[ap]@ == sha256_of(ack)
        &&& w == ContextView {
            acks: v2.acks.insert(ap, w.acks[ap]),
            events: v2.events.push(IbcEvent::WriteAcknowledgement { sequence: seq }),
            ..v2
        }
    } else {
        w == v2
    }
}

/// Checks `RecvPacket` against `ctx` without changing it: the checks of
/// `recv_ok`, with the sequence errors the two kinds of channel report.
pub fn recv_packet_validate(ctx: &MockContext, msg: &MsgRecvPacket) -> (r: Result<(), ContextError>)
    requires
        ctx.wf(),
    ensures
        r is Ok <==> recv_ok(ctx@, *msg),
        ({
            let v = ctx@;
            let p = msg.packet;
            let (port, chan) = (p.port_id_on_b@, p.chan_id_on_b@);
            let rp = seq_recv_path_spec(port, chan);
            let pre = channel_usable(v, port, chan) && remote_is(
                chan_of(v, port, chan),
                p.port_id_on_a@,
                p.chan_id_on_a@,
            ) && proof_height_known(v, port, chan, msg.proof_height_on_a@) && delay_passed(
                v,
                port,
                chan,
                msg.proof_height_on_a@,
            ) && before_timeout_height(
                p,
                v.host_height@,
            ) && before_timeout_timestamp(p, v.host_timestamp);
            &&& pre && chan_of(v, port, chan).ordering == Order::Ordered && v.recv_seqs.contains_key(rp)
                && v.recv_seqs[rp] != p.seq_on_a ==> r == Err::<(), ContextError>(
                ContextError::Packet(
                    PacketError::InvalidPacketSequence { given: p.seq_on_a, next: v.recv_seqs[rp] },
                ),
            )
            &&& pre && chan_of(v, port, chan).ordering == Order::Unordered && v.receipts.contains_key(
                receipt_path_spec(port, chan, p.seq_on_a),
            ) ==> r == Err::<(), ContextError>(
                ContextError::Packet(PacketError::PacketReceiptAlreadyExists { sequence: p.seq_on_a }),
            )
        }),
{
    let packet = &msg.packet;
    let port = &packet.port_id_on_b;
    let chan = &packet.chan_id_on_b;
    let seq = packet.seq_on_a;
    let (c, _cs) = usable_channel(ctx, port, chan, true)?;
    if !check_remote(c, &packet.port_id_on_a, &packet.chan_id_on_a) {
        return Err(ContextError::Packet(PacketError::InvalidPacketCounterparty));
    }
    if !check_proof_height(ctx, port, chan, &msg.proof_height_on_a) {
        return Err(
            ContextError::Client(
                ClientError::MissingLocalConsensusState { height: msg.proof_height_on_a },
            ),
        );
    }
    if !check_delay(ctx, port, chan, &msg.proof_height_on_a) {
        return Err(ContextError::Packet(PacketError::DelayPeriodNotPassed));
    }
    match &packet.timeout_height_on_b {
        Some(t) => {
            if !ctx.host_height().lt(t) {
                return Err(ContextError::Packet(PacketError::PacketTimedOut));
            }
        },
        None => {},
    }
    if packet.timeout_timestamp_on_b != 0 && ctx.host_timestamp() >= packet.timeout_timestamp_on_b {
        return Err(ContextError::Packet(PacketError::PacketTimedOut));
    }
    if c.ordering == Order::Ordered {
        let next = match ctx.get_next_sequence_recv(port, chan) {
            Ok(n) => n,
            Err(e) => return Err(ContextError::Packet(e)),
        };
        if seq != next {
            return Err(ContextError::Packet(PacketError::InvalidPacketSequence { given: seq, next }));
        }
        if next == u64::MAX {
            return Err(ContextError::Packet(PacketError::SequenceOverflow));
        }
    } else {
        if ctx.get_packet_receipt(port, chan, seq).is_ok() {
            return Err(ContextError::Packet(PacketError::PacketReceiptAlreadyExists { sequence: seq }));
        }
    }
    Ok(())
}

/// Receives `msg.packet` on its destination channel, with the
/// acknowledgement `ack` that the application produced (empty when it
/// acknowledges later). On failure `ctx` is left exactly as it was, and the
/// error is the one `recv_packet_validate` reports.
pub fn recv_packet(ctx: &mut MockContext, msg: &MsgRecvPacket, ack: &Vec<u8>) -> (r: Result<
    (),
    ContextError,
>)
    requires
        old(ctx).wf(),
    ensures
        final(ctx).wf(),
        r is Ok <==> recv_ok(old(ctx)@, *msg),
        r is Ok ==> recv_post(old(ctx)@, *msg, ack@, final(ctx)@),
        r is Err ==> final(ctx)@ == old(ctx)@,
        ({
            let v = old(ctx)@;
            let p = msg.packet;
            let (port, chan) = (p.port_id_on_b@, p.chan_id_on_b@);
            let rp = seq_recv_path_spec(port, chan);
            let pre = channel_usable(v, port, chan) && remote_is(
                chan_of(v, port, chan),
                p.port_id_on_a@,
                p.chan_id_on_a@,
            ) && proof_height_known(v, port, chan, msg.proof_height_on_a@) && delay_passed(
                v,
                port,
                chan,
                msg.proof_height_on_a@,
            ) && before_timeout_height(
                p,
                v.host_height@,
            ) && before_timeout_timestamp(p, v.host_timestamp);
            &&& pre && chan_of(v, port, chan).ordering == Order::Ordered && v.recv_seqs.contains_key(rp)
                && v.recv_seqs[rp] != p.seq_on_a ==> r == Err::<(), ContextError>(
                ContextError::Packet(
                    PacketError::InvalidPacketSequence { given: p.seq_on_a, next: v.recv_seqs[rp] },
                ),
            )
            &&& pre && chan_of(v, port, chan).ordering == Order::Unordered && v.receipts.contains_key(
                receipt_path_spec(port, chan, p.seq_on_a),
            ) ==> r == Err::<(), ContextError>(
                ContextError::Packet(PacketError::PacketReceiptAlreadyExists { sequence: p.seq_on_a }),
            )
        }),
{
    let checked = recv_packet_validate(ctx, msg);
    if checked.is_err() {
        return checked;
    }
    let packet = &msg.packet;
    let port = &packet.port_id_on_b;
    let chan = &packet.chan_id_on_b;
    let seq = packet.seq_on_a;
    let ordering = match ctx.channel_end(port, chan) {
        Ok(c) => c.ordering,
        Err(e) => return Err(ContextError::Channel(e)),
    };
    if ordering == Order::Ordered {
        let next = match ctx.get_next_sequence_recv(port, chan) {
            Ok(n) => n,
            Err(e) => return Err(ContextError::Packet(e)),
        };
        ctx.store_next_sequence_recv(port, chan, next + 1);
    } else {
        ctx.store_packet_receipt(port, chan, seq);
    }
    ctx.emit_ibc_event(IbcEvent::ReceivePacket { sequence: seq });
    if ack.len() > 0 {
        let ack_commitment = compute_ack_commitment(ack);
        ctx.store_packet_acknowledgement(port, chan, seq, ack_commitment);
        ctx.emit_ibc_event(IbcEvent::WriteAcknowledgement { sequence: seq });
    }
    Ok(())
}

/// Checks that the commitment stored for `packet` on its source channel is the packet's own.
fn check_commitment(ctx: &MockContext, packet: &Packet) -> (r: Result<(), ContextError>)
    requires
        ctx.wf(),
    ensures
        ({
            let cp = commitment_path_spec(packet.port_id_on_a@, packet.chan_id_on_a@, packet.seq_on_a);
            &&& r is Ok <==> commitment_matches(ctx@, *packet)
            &&& !ctx@.commitments.contains_key(cp) ==> r == Err::<(), ContextError>(
                ContextError::Packet(PacketError::PacketCommitmentNotFound { sequence: packet.seq_on_a }),
            )
        }),
{
    let stored = match ctx.get_packet_commitment(&packet.port_id_on_a, &packet.chan_id_on_a, packet.seq_on_a) {
        Ok(c) => c,
        Err(e) => return Err(ContextError::Packet(e)),
    };
    let expected = compute_packet_commitment(packet);
    if !bytes_eq(stored, &expected) {
        return Err(ContextError::Packet(PacketError::IncorrectPacketCommitment { sequence: packet.seq_on_a }));
    }
    Ok(())
}

/// The source chain still holds the commitment of `p`, and it is `p`'s.
pub open spec fn commitment_matches(v: ContextView, p: Packet) -> bool {
    let cp = commitment_path_spec(p.port_id_on_a@, p.chan_id_on_a@, p.seq_on_a);
    &&& v.commitments.contains_key(cp)
    &&& v.commitments[cp]@ == packet_commitment_spec(p.data@, p.timeout_height_on_b, p.timeout_timestamp_on_b)
}

// ---------------------------------------------------------------- acknowledge

/// Every check of acknowledging `m` passes on `v`.
pub open spec fn ack_ok(v: ContextView, m: MsgAcknowledgement) -> bool {
    let p = m.packet;
    let (port, chan) = (p.port_id_on_a@, p.chan_id_on_a@);
    let ap = seq_ack_path_spec(port, chan);
    &&& channel_usable(v, port, chan)
    &&& remote_is(chan_of(v, port, chan), p.port_id_on_b@, p.chan_id_on_b@)
    &&& commitment_matches(v, p)
    &&& proof_height_known(v, port, chan, m.proof_height_on_b@)
    &&& delay_passed(v, port, chan, m.proof_height_on_b@)
    &&& chan_of(v, port, chan).ordering == Order::Ordered ==> {
        &&& v.ack_seqs.contains_key(ap)
        &&& v.ack_seqs[ap] == p.seq_on_a
        &&& p.seq_on_a < u64::MAX
    }
}

/// What acknowledging `m` does to `v`: on an ordered channel the next
/// acknowledgement sequence moves on; the packet commitment is deleted and
/// `AcknowledgePacket` is emitted.
pub open spec fn ack_post(v: ContextView, m: MsgAcknowledgement, w: ContextView) -> bool {
    let p = m.packet;
    let (port, chan) = (p.port_id_on_a@, p.chan_id_on_a@);
    let seq = p.seq_on_a;
    let v1 = if chan_of(v, port, chan).ordering == Order::Ordered {
        ContextView { ack_seqs: v.ack_seqs.insert(seq_ack_path_spec(port, chan), (seq + 1) as u64), ..v }
    } else {
        v
    };
    w == ContextView {
        commitments: v1.commitments.remove(commitment_path_spec(port, chan, seq)),
        events: v1.events.push(IbcEvent::AcknowledgePacket { sequence: seq }),
        ..v1
    }
}

/// Processes the acknowledgement of `msg.packet` on its source channel and
/// deletes the packet's commitment. On failure `ctx` is left exactly as it was.
pub fn acknowledge_packet(ctx: &mut MockContext, msg: &MsgAcknowledgement) -> (r: Result<
    (),
    ContextError,
>)
    requires
        old(ctx).wf(),
    ensures
        final(ctx).wf(),
        r is Ok <==> ack_ok(old(ctx)@, *msg),
        r is Ok ==> ack_post(old(ctx)@, *msg, final(ctx)@),
        r is Err ==> final(ctx)@ == old(ctx)@,
{
    let packet = &msg.packet;
    let port = &packet.port_id_on_a;
    let chan = &packet.chan_id_on_a;
    let seq = packet.seq_on_a;
    let (c, _cs) = usable_channel(ctx, port, chan, true)?;
    if !check_remote(c, &packet.port_id_on_b, &packet.chan_id_on_b) {
        return Err(ContextError::Packet(PacketError::InvalidPacketCounterparty));
    }
    let ordering = c.ordering;
    check_commitment(ctx, packet)?;
    if !check_proof_height(ctx, port, chan, &msg.proof_height_on_b) {
        return Err(
            ContextError::Client(
                ClientError::MissingLocalConsensusState { height: msg.proof_height_on_b },
            ),
        );
    }
    if !check_delay(ctx, port, chan, &msg.proof_height_on_b) {
        return Err(ContextError::Packet(PacketError::DelayPeriodNotPassed));
    }
    if ordering == Order::Ordered {
        let next = match ctx.get_next_sequence_ack(port, chan) {
            Ok(n) => n,
            Err(e) => return Err(ContextError::Packet(e)),
        };
        if seq != next {
            return Err(ContextError::Packet(PacketError::InvalidPacketSequence { given: seq, next }));
        }
        if next == u64::MAX {
            return Err(ContextError::Packet(PacketError::SequenceOverflow));
        }
        ctx.store_next_sequence_ack(port, chan, next + 1);
    }
    ctx.delete_packet_commitment(port, chan, seq);
    ctx.emit_ibc_event(IbcEvent::AcknowledgePacket { sequence: seq });
    Ok(())
}

// ---------------------------------------------------------------- timeout

/// The packet has timed out on the counterparty as of the proof: its proof
/// height reached the timeout height, or the counterparty's timestamp at the
/// proof height reached the timeout timestamp.
pub open spec fn timed_out(v: ContextView, m: MsgTimeout) -> bool {
    let p = m.packet;
    let (port, chan) = (p.port_id_on_a@, p.chan_id_on_a@);
    let h = m.proof_height_on_b@;
    let csp = consensus_state_path_spec(v.connections[conn_path_of(v, port, chan)].client_id@, h.0, h.1);
    ||| (p.timeout_height_on_b matches Some(t) && !height_lt(h, t@))
    ||| (p.timeout_timestamp_on_b != 0 && v.consensus_states[csp].timestamp >= p.timeout_timestamp_on_b)
}

/// Every check of a timeout of `m` passes on `v`; `on_close` for
/// `TimeoutOnClose`, where the counterparty's channel is proved closed
/// instead of the timeout being reached.
pub open spec fn timeout_ok(v: ContextView, m: MsgTimeout, on_close: bool) -> bool {
    let p = m.packet;
    let (port, chan) = (p.port_id_on_a@, p.chan_id_on_a@);
    &&& channel_reachable(v, port, chan)
    &&& (!on_close ==> chan_of(v, port, chan).state == ChannelState::Open)
    &&& remote_is(chan_of(v, port, chan), p.port_id_on_b@, p.chan_id_on_b@)
    &&& commitment_matches(v, p)
    &&& proof_height_known(v, port, chan, m.proof_height_on_b@)
    &&& delay_passed(v, port, chan, m.proof_height_on_b@)
    &&& (!on_close ==> timed_out(v, m))
    &&& (chan_of(v, port, chan).ordering == Order::Ordered ==> m.next_seq_recv_on_b <= p.seq_on_a)
}

/// `new` is `old` with its state set to `Closed`.
pub open spec fn closed_end(old: ChannelEnd, new: ChannelEnd) -> bool {
    &&& new.state == ChannelState::Closed
    &&& new.ordering == old.ordering
    &&& new.remote == old.remote
    &&& new.connection_hops@ == old.connection_hops@
    &&& new.version == old.version
}

/// What a timeout of `m` does to `v`: the packet commitment is deleted and
/// `TimeoutPacket` is emitted; an ordered channel is closed as well.
pub open spec fn timeout_post(v: ContextView, m: MsgTimeout, w: ContextView) -> bool {
    let p = m.packet;
    let (port, chan) = (p.port_id_on_a@, p.chan_id_on_a@);
    let seq = p.seq_on_a;
    let cp = commitment_path_spec(port, chan, seq);
    let chp = channel_end_path_spec(port, chan);
    let v1 = ContextView {
        commitments: v.commitments.remove(cp),
        events: v.events.push(IbcEvent::TimeoutPacket { sequence: seq }),
        ..v
    };
    if chan_of(v, port, chan).ordering == Order::Ordered {
        &&& w.channels.contains_key(chp)
        &&& closed_end(chan_of(v, port, chan), w.channels[chp])
        &&& w == ContextView {
            channels: v1.channels.insert(chp, w.channels[chp]),
            events: v1.events.push(IbcEvent::ChannelClosed { port_id: p.port_id_on_a, channel_id: p.chan_id_on_a }),
            ..v1
        }
    } else {
        w == v1
    }
}

pub(crate) fn duplicate_hops(v: &Vec<crate::identifiers::ConnectionId>) -> (r: Vec<crate::identifiers::ConnectionId>)
    ensures
        r@ == v@,
{
    let mut r: Vec<crate::identifiers::ConnectionId> = Vec::new();
    let mut i: usize = 0;
    while i < v.len()
        invariant
            i <= v@.len(),
            r@ == v@.subrange(0, i as int),
        decreases v@.len() - i,
    {
        r.push(v[i].duplicate_exact());
        i = i + 1;
        assert(r@ =~= v@.subrange(0, i as int));
    }
    assert(v@.subrange(0, v@.len() as int) =~= v@);
    r
}

pub(crate) fn close_channel(c: &ChannelEnd) -> (r: ChannelEnd)
    ensures
        closed_end(*c, r),
{
    ChannelEnd {
        state: ChannelState::Closed,
        ordering: c.ordering,
        remote: crate::channel::ChannelCounterparty {
            port_id: c.remote.port_id.duplicate_exact(),
            channel_id: match &c.remote.channel_id {
                Some(id) => Some(id.duplicate_exact()),
                None => None,
            },
        },
        connection_hops: duplicate_hops(&c.connection_hops),
        version: c.version.clone(),
    }
}

fn timeout_common(ctx: &mut MockContext, msg: &MsgTimeout, on_close: bool) -> (r: Result<
    (),
    ContextError,
>)
    requires
        old(ctx).wf(),
    ensures
        final(ctx).wf(),
        r is Ok <==> timeout_ok(old(ctx)@, *msg, on_close),
        r is Ok ==> timeout_post(old(ctx)@, *msg, final(ctx)@),
        r is Err ==> final(ctx)@ == old(ctx)@,
{
    let packet = &msg.packet;
    let port = &packet.port_id_on_a;
    let chan = &packet.chan_id_on_a;
    let seq = packet.seq_on_a;
    let (c, _cs) = usable_channel(ctx, port, chan, !on_close)?;
    if !check_remote(c, &packet.port_id_on_b, &packet.chan_id_on_b) {
        return Err(ContextError::Packet(PacketError::InvalidPacketCounterparty));
    }
    let ordering = c.ordering;
    let closed = close_channel(c);
    check_commitment(ctx, packet)?;
    let h = &msg.proof_height_on_b;
    let ghost v = ctx@;
    let conn = match ctx.connection_end(&c.connection_hops[0]) {
        Ok(conn) => conn,
        Err(e) => return Err(ContextError::Connection(e)),
    };
    let cons = match ctx.consensus_state(&conn.client_id, h) {
        Ok(cons) => cons,
        Err(_) => return Err(ContextError::Client(ClientError::MissingLocalConsensusState { height: *h })),
    };
    if !check_delay(ctx, port, chan, h) {
        return Err(ContextError::Packet(PacketError::DelayPeriodNotPassed));
    }
    if !on_close {
        let height_reached = match &packet.timeout_height_on_b {
            Some(t) => !h.lt(t),
            None => false,
        };
        let time_reached = packet.timeout_timestamp_on_b != 0 && cons.timestamp >= packet.timeout_timestamp_on_b;
        if !height_reached && !time_reached {
            return Err(
                ContextError::Packet(
                    PacketError::PacketTimeoutNotReached {
                        timeout_height: packet.timeout_height_on_b,
                        proof_height: *h,
                    },
                ),
            );
        }
    }
    if ordering == Order::Ordered && msg.next_seq_recv_on_b > seq {
        return Err(
            ContextError::Packet(
                PacketError::InvalidPacketSequence { given: seq, next: msg.next_seq_recv_on_b },
            ),
        );
    }
    ctx.delete_packet_commitment(port, chan, seq);
    ctx.emit_ibc_event(IbcEvent::TimeoutPacket { sequence: seq });
    if ordering == Order::Ordered {
        ctx.store_channel(port, chan, closed);
        ctx.emit_ibc_event(
            IbcEvent::ChannelClosed { port_id: port.duplicate_exact(), channel_id: chan.duplicate_exact() },
        );
    }
    Ok(())
}

/// Processes a timeout of `msg.packet`: the counterparty did not receive it
/// before its timeout. Deletes the commitment; an ordered channel is closed.
/// On failure `ctx` is left exactly as it was.
pub fn timeout_packet(ctx: &mut MockContext, msg: &MsgTimeout) -> (r: Result<(), ContextError>)
    requires
        old(ctx).wf(),
    ensures
        final(ctx).wf(),
        r is Ok <==> timeout_ok(old(ctx)@, *msg, false),
        r is Ok ==> timeout_post(old(ctx)@, *msg, final(ctx)@),
        r is Err ==> final(ctx)@ == old(ctx)@,
{
    timeout_common(ctx, msg, false)
}

/// Processes a timeout of `msg.packet` after the counterparty closed its
/// channel end. On failure `ctx` is left exactly as it was.
pub fn timeout_on_close(ctx: &mut MockContext, msg: &MsgTimeout) -> (r: Result<(), ContextError>)
    requires
        old(ctx).wf(),
    ensures
        final(ctx).wf(),
        r is Ok <==> timeout_ok(old(ctx)@, *msg, true),
        r is Ok ==> timeout_post(old(ctx)@, *msg, final(ctx)@),
        r is Err ==> final(ctx)@ == old(ctx)@,
{
    timeout_common(ctx, msg, true)
}

// ---------------------------------------------------------------- properties

/// On an ordered channel receives are consecutive: the next receive
/// sequence names the one packet that can be received, and once it is
/// received the only packet that can follow is the next sequence.
pub proof fn lemma_ordered_recv_consecutive(
    v: ContextView,
    m1: MsgRecvPacket,
    ack: Seq<u8>,
    w: ContextView,
    m2: MsgRecvPacket,
)
    requires
        recv_ok(v, m1),
        recv_post(v, m1, ack, w),
        recv_ok(w, m2),
        m2.packet.port_id_on_b@ == m1.packet.port_id_on_b@,
        m2.packet.chan_id_on_b@ == m1.packet.chan_id_on_b@,
        chan_of(v, m1.packet.port_id_on_b@, m1.packet.chan_id_on_b@).ordering == Order::Ordered,
    ensures
        m1.packet.seq_on_a == v.recv_seqs[seq_recv_path_spec(m1.packet.port_id_on_b@, m1.packet.chan_id_on_b@)],
        m2.packet.seq_on_a == m1.packet.seq_on_a + 1,
{
}

/// On an unordered channel a sequence is received at most once: a receive
/// writes the receipt, which did not exist before, and once it exists no
/// receive of that sequence succeeds.
pub proof fn lemma_unordered_recv_once(
    v: ContextView,
    m1: MsgRecvPacket,
    ack: Seq<u8>,
    w: ContextView,
    m2: MsgRecvPacket,
)
    requires
        recv_ok(v, m1),
        recv_post(v, m1, ack, w),
        m2.packet.port_id_on_b@ == m1.packet.port_id_on_b@,
        m2.packet.chan_id_on_b@ == m1.packet.chan_id_on_b@,
        m2.packet.seq_on_a == m1.packet.seq_on_a,
        chan_of(v, m1.packet.port_id_on_b@, m1.packet.chan_id_on_b@).ordering == Order::Unordered,
    ensures
        !v.receipts.contains_key(receipt_path_spec(m1.packet.port_id_on_b@, m1.packet.chan_id_on_b@, m1.packet.seq_on_a)),
        w.receipts.contains_key(receipt_path_spec(m1.packet.port_id_on_b@, m1.packet.chan_id_on_b@, m1.packet.seq_on_a)),
        !recv_ok(w, m2),
{
}

/// Sending a packet leaves its commitment on the source chain, so that an
/// acknowledgement or a timeout of it can follow.
pub proof fn lemma_send_commits(v: ContextView, p: Packet, w: ContextView)
    requires
        send_ok(v, p),
        send_post(v, p, w),
    ensures
        commitment_matches(w, p),
{
}

/// The same packet, as the source chain identifies it.
pub open spec fn same_packet(a: Packet, b: Packet) -> bool {
    &&& a.port_id_on_a@ == b.port_id_on_a@
    &&& a.chan_id_on_a@ == b.chan_id_on_a@
    &&& a.seq_on_a == b.seq_on_a
}

/// Once a packet is acknowledged its commitment is gone, and neither a
/// second acknowledgement nor a timeout of it can succeed.
pub proof fn lemma_ack_settles(
    v: ContextView,
    m: MsgAcknowledgement,
    w: ContextView,
    m_ack: MsgAcknowledgement,
    m_timeout: MsgTimeout,
    on_close: bool,
)
    requires
        ack_ok(v, m),
        ack_post(v, m, w),
        same_packet(m.packet, m_ack.packet),
        same_packet(m.packet, m_timeout.packet),
    ensures
        !w.commitments.contains_key(commitment_path_spec(m.packet.port_id_on_a@, m.packet.chan_id_on_a@, m.packet.seq_on_a)),
        !ack_ok(w, m_ack),
        !timeout_ok(w, m_timeout, on_close),
{
}

/// Once a packet has timed out (or timed out on close) its commitment is
/// gone, and neither an acknowledgement nor another timeout of it can succeed.
pub proof fn lemma_timeout_settles(
    v: ContextView,
    m: MsgTimeout,
    closing: bool,
    w: ContextView,
    m_ack: MsgAcknowledgement,
    m_timeout: MsgTimeout,
    on_close: bool,
)
    requires
        timeout_ok(v, m, closing),
        timeout_post(v, m, w),
        same_packet(m.packet, m_ack.packet),
        same_packet(m.packet, m_timeout.packet),
    ensures
        !w.commitments.contains_key(commitment_path_spec(m.packet.port_id_on_a@, m.packet.chan_id_on_a@, m.packet.seq_on_a)),
        !ack_ok(w, m_ack),
        !timeout_ok(w, m_timeout, on_close),
{
}

/// `vs[0]`, ..., `vs[k]` are the states of a run of `k` successful receives
/// on the ordered channel `(port, chan)`: `vs[i + 1]` is what receiving
/// `ms[i]` with acknowledgement `acks[i]` makes of `vs[i]`.
pub open spec fn ordered_recv_run(
    vs: Seq<ContextView>,
    ms: Seq<MsgRecvPacket>,
    acks: Seq<Seq<u8>>,
    port: Seq<char>,
    chan: Seq<char>,
) -> bool {
    &&& vs.len() == ms.len() + 1
    &&& acks.len() == ms.len()
    &&& chan_of(vs[0], port, chan).ordering == Order::Ordered
    &&& forall|i: int|
        0 <= i < ms.len() ==> {
            &&& recv_ok(vs[i], #[trigger] ms[i])
            &&& recv_post(vs[i], ms[i], acks[i], vs[i + 1])
            &&& ms[i].packet.port_id_on_b@ == port
            &&& ms[i].packet.chan_id_on_b@ == chan
        }
}

proof fn lemma_ordered_recv_run_prefix(
    vs: Seq<ContextView>,
    ms: Seq<MsgRecvPacket>,
    acks: Seq<Seq<u8>>,
    port: Seq<char>,
    chan: Seq<char>,
    n: int,
)
    requires
        ordered_recv_run(vs, ms, acks, port, chan),
        vs[0].recv_seqs.contains_key(seq_recv_path_spec(port, chan)),
        vs[0].recv_seqs[seq_recv_path_spec(port, chan)] == 1,
        0 <= n <= ms.len(),
    ensures
        vs[n].recv_seqs.contains_key(seq_recv_path_spec(port, chan)),
        vs[n].recv_seqs[seq_recv_path_spec(port, chan)] == n + 1,
        vs[n].channels == vs[0].channels,
    decreases n,
{
    if n > 0 {
        lemma_ordered_recv_run_prefix(vs, ms, acks, port, chan, n - 1);
        let m = ms[n - 1];
        assert(recv_ok(vs[n - 1], m));
        assert(recv_post(vs[n - 1], m, acks[n - 1], vs[n]));
    }
}

/// On an ordered channel whose next receive sequence starts at 1, as a new
/// channel's does, a run of `k` successful receives receives exactly the
/// packets 1, 2, ..., `k`, in that order, and leaves the next receive
/// sequence at `k + 1`.
pub proof fn lemma_ordered_recv_run_from_one(
    vs: Seq<ContextView>,
    ms: Seq<MsgRecvPacket>,
    acks: Seq<Seq<u8>>,
    port: Seq<char>,
    chan: Seq<char>,
)
    requires
        ordered_recv_run(vs, ms, acks, port, chan),
        vs[0].recv_seqs.contains_key(seq_recv_path_spec(port, chan)),
        vs[0].recv_seqs[seq_recv_path_spec(port, chan)] == 1,
    ensures
        forall|i: int| 0 <= i < ms.len() ==> (#[trigger] ms[i]).packet.seq_on_a == i + 1,
        vs[ms.len() as int].recv_seqs[seq_recv_path_spec(port, chan)] == ms.len() + 1,
{
    assert forall|i: int| 0 <= i < ms.len() implies (#[trigger] ms[i]).packet.seq_on_a == i + 1 by {
        lemma_ordered_recv_run_prefix(vs, ms, acks, port, chan, i);
        assert(recv_ok(vs[i], ms[i]));
    }
    lemma_ordered_recv_run_prefix(vs, ms, acks, port, chan, ms.len() as int);
}

/// Once the source chain's next send sequence has moved past a packet and it
/// holds no commitment for it, the packet is settled for good: it cannot be
/// sent again, acknowledged, or timed out.
pub proof fn lemma_settled_packet_stays_settled(
    w: ContextView,
    p: Packet,
    p_send: Packet,
    m_ack: MsgAcknowledgement,
    m_timeout: MsgTimeout,
    on_close: bool,
)
    requires
        !w.commitments.contains_key(commitment_path_spec(p.port_id_on_a@, p.chan_id_on_a@, p.seq_on_a)),
        w.send_seqs.contains_key(seq_send_path_spec(p.port_id_on_a@, p.chan_id_on_a@)),
        w.send_seqs[seq_send_path_spec(p.port_id_on_a@, p.chan_id_on_a@)] > p.seq_on_a,
        same_packet(p, p_send),
        same_packet(p, m_ack.packet),
        same_packet(p, m_timeout.packet),
    ensures
        !send_ok(w, p_send),
        !ack_ok(w, m_ack),
        !timeout_ok(w, m_timeout, on_close),
{
}

/// Sending a packet moves the next send sequence past it, and acknowledging
/// or timing it out afterwards leaves the send sequence alone while deleting
/// the commitment: from then on the packet stays settled.
pub proof fn lemma_send_then_settle(
    v0: ContextView,
    p: Packet,
    v1: ContextView,
    m_ack: MsgAcknowledgement,
    m_timeout: MsgTimeout,
    on_close: bool,
    w: ContextView,
    acknowledged: bool,
)
    requires
        send_ok(v0, p),
        send_post(v0, p, v1),
        same_packet(p, m_ack.packet),
        same_packet(p, m_timeout.packet),
        acknowledged ==> ack_ok(v1, m_ack) && ack_post(v1, m_ack, w),
        !acknowledged ==> timeout_ok(v1, m_timeout, on_close) && timeout_post(v1, m_timeout, w),
    ensures
        !w.commitments.contains_key(commitment_path_spec(p.port_id_on_a@, p.chan_id_on_a@, p.seq_on_a)),
        w.send_seqs.contains_key(seq_send_path_spec(p.port_id_on_a@, p.chan_id_on_a@)),
        w.send_seqs[seq_send_path_spec(p.port_id_on_a@, p.chan_id_on_a@)] > p.seq_on_a,
{
}

} // verus!
