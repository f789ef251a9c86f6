//! The channel open handshake: `OpenInit` and `OpenAck` on chain A,
//! `OpenTry` and `OpenConfirm` on chain B. The mock light client accepts
//! every proof at a height where it holds a consensus state.
use vstd::prelude::*;

use crate::channel::{ChannelCounterparty, ChannelEnd, ChannelState, Order};
use crate::client::{ClientError, Height};
use crate::connection::State;
use crate::context::{ContextView, IbcEvent, MockContext};
use crate::error::{ChannelError, ContextError};
use crate::identifiers::{ChannelId, ConnectionId, PortId};
use crate::msgs::MsgChannelOpenAck;
use crate::packet::{
    chan_of, channel_reachable, check_proof_height, duplicate_hops, proof_height_known,
    usable_channel,
};
use crate::path::{
    channel_end_path_spec, client_state_path_spec, connection_path_spec, consensus_state_path_spec,
    seq_ack_path_spec, seq_recv_path_spec, seq_send_path_spec,
};

verus! {

/// `ChanOpenInit`, sent to chain A.
#[derive(Clone, Debug, PartialEq, Eq)]
pub struct MsgChannelOpenInit {
    pub port_id_on_a: PortId,
    pub connection_hops_on_a: Vec<ConnectionId>,
    pub port_id_on_b: PortId,
    pub ordering: Order,
    pub version_proposal: String,
    pub signer: String,
}

/// `ChanOpenTry`, sent to chain B: chain A proves its end in `Init`.
#[derive(Clone, Debug, PartialEq, Eq)]
pub struct MsgChannelOpenTry {
    pub port_id_on_b: PortId,
    pub connection_hops_on_b: Vec<ConnectionId>,
    pub port_id_on_a: PortId,
    pub chan_id_on_a: ChannelId,
    pub version_supported_on_a: String,
    pub proof_chan_end_on_a: Vec<u8>,
    pub proof_height_on_a: Height,
    pub ordering: Order,
    pub signer: String,
}

/// `ChanOpenConfirm`, sent to chain B: chain A proves its end `Open`.
#[derive(Clone, Debug, PartialEq, Eq)]
pub struct MsgChannelOpenConfirm {
    pub port_id_on_b: PortId,
    pub chan_id_on_b: ChannelId,
    pub proof_chan_end_on_a: Vec<u8>,
    pub proof_height_on_a: Height,
    pub signer: String,
}

/// A new channel can run over `hops`: exactly one hop, whose connection
/// exists (and is open when `require_open`) and whose client is active;
/// `at`, when given, is a height where that client holds a consensus state.
pub open spec fn hops_ok(v: ContextView, hops: Seq<ConnectionId>, require_open: bool, at: Option<(u64, u64)>) -> bool {
    let cp = connection_path_spec(hops[0]@);
    let client = v.connections[cp].client_id@;
    &&& hops.len() == 1
    &&& v.connections.contains_key(cp)
    &&& (require_open ==> v.connections[cp].state == State::Open)
    &&& v.client_states.contains_key(client_state_path_spec(client))
    &&& !v.client_states[client_state_path_spec(client)].frozen
    &&& (at matches Some(h) ==> v.consensus_states.contains_key(consensus_state_path_spec(client, h.0, h.1)))
}

fn check_hops(ctx: &MockContext, hops: &Vec<ConnectionId>, require_open: bool, at: Option<Height>) -> (r: Result<(), ContextError>)
    requires
        ctx.wf(),
    ensures
        r is Ok <==> hops_ok(ctx@, hops@, require_open, match at { Some(h) => Some(h@), None => None }),
{
    if hops.len() != 1 {
        return Err(ContextError::Channel(ChannelError::MissingConnectionHop));
    }
    let conn = match ctx.connection_end(&hops[0]) {
        Ok(c) => c,
        Err(e) => return Err(ContextError::Connection(e)),
    };
    if require_open && conn.state != State::Open {
        return Err(ContextError::Channel(ChannelError::ConnectionNotOpen));
    }
    let cs = match ctx.client_state(&conn.client_id) {
        Ok(cs) => cs,
        Err(e) => return Err(ContextError::Client(e)),
    };
    if cs.frozen {
        return Err(ContextError::Client(ClientError::FrozenClient { client_id: conn.client_id.duplicate_exact() }));
    }
    match at {
        Some(h) => {
            if ctx.consensus_state(&conn.client_id, &h).is_err() {
                return Err(ContextError::Client(ClientError::MissingLocalConsensusState { height: h }));
            }
        },
        None => {},
    }
    Ok(())
}

/// What opening a new channel end `end` on `port` does to `v`: the end is
/// stored under the next channel identifier, its three sequence counters
/// start at 1, the counter moves on and `event` is emitted.
pub open spec fn new_channel_post(v: ContextView, port: PortId, end: ChannelEnd, event: IbcEvent, w: ContextView) -> bool {
    let id = ChannelId::spec_named(v.channel_counter);
    let chp = channel_end_path_spec(port@, id);
    &&& w.channels.contains_key(chp)
    &&& same_end(w.channels[chp], end)
    &&& w == ContextView {
        channels: v.channels.insert(chp, w.channels[chp]),
        send_seqs: v.send_seqs.insert(seq_send_path_spec(port@, id), 1),
        recv_seqs: v.recv_seqs.insert(seq_recv_path_spec(port@, id), 1),
        ack_seqs: v.ack_seqs.insert(seq_ack_path_spec(port@, id), 1),
        channel_counter: (v.channel_counter + 1) as u64,
        events: v.events.push(event),
        ..v
    }
}

/// Two channel ends hold the same fields.
pub open spec fn same_end(a: ChannelEnd, b: ChannelEnd) -> bool {
    &&& a.state == b.state
    &&& a.ordering == b.ordering
    &&& a.remote == b.remote
    &&& a.connection_hops@ == b.connection_hops@
    &&& a.version == b.version
}

fn store_new_channel(ctx: &mut MockContext, port: &PortId, end: ChannelEnd) -> (r: ChannelId)
    requires
        old(ctx).wf(),
        old(ctx)@.channel_counter < u64::MAX,
    ensures
        final(ctx).wf(),
        r@ == ChannelId::spec_named(old(ctx)@.channel_counter),
        ({
            let v = old(ctx)@;
            let chp = channel_end_path_spec(port@, r@);
            final(ctx)@ == ContextView {
                channels: v.channels.insert(chp, end),
                send_seqs: v.send_seqs.insert(seq_send_path_spec(port@, r@), 1),
                recv_seqs: v.recv_seqs.insert(seq_recv_path_spec(port@, r@), 1),
                ack_seqs: v.ack_seqs.insert(seq_ack_path_spec(port@, r@), 1),
                channel_counter: (v.channel_counter + 1) as u64,
                ..v
            }
        }),
{
    let id = ChannelId::new(ctx.channel_counter());
    ctx.store_channel(port, &id, end);
    ctx.store_next_sequence_send(port, &id, 1);
    ctx.store_next_sequence_recv(port, &id, 1);
    ctx.store_next_sequence_ack(port, &id, 1);
    let _ = ctx.increase_channel_counter();
    id
}

/// A channel end opened by `OpenInit` or `OpenTry` starts its send,
/// receive and acknowledgement sequences at 1, so that on an ordered
/// channel the first packet received is packet 1.
pub proof fn lemma_new_channel_sequences_start_at_one(
    v: ContextView,
    port: PortId,
    end: ChannelEnd,
    event: IbcEvent,
    w: ContextView,
)
    requires
        new_channel_post(v, port, end, event, w),
    ensures
        ({
            let id = ChannelId::spec_named(v.channel_counter);
            &&& w.send_seqs[seq_send_path_spec(port@, id)] == 1
            &&& w.recv_seqs[seq_recv_path_spec(port@, id)] == 1
            &&& w.ack_seqs[seq_ack_path_spec(port@, id)] == 1
        }),
{
}

// ---------------------------------------------------------------- OpenInit

pub open spec fn chan_init_ok(v: ContextView, m: MsgChannelOpenInit) -> bool {
    &&& hops_ok(v, m.connection_hops_on_a@, false, None)
    &&& v.channel_counter < u64::MAX
}

/// The end `OpenInit` stores.
pub open spec fn chan_init_end(m: MsgChannelOpenInit, version: String) -> ChannelEnd {
    ChannelEnd {
        state: ChannelState::Init,
        ordering: m.ordering,
        remote: ChannelCounterparty { port_id: m.port_id_on_b, channel_id: None },
        connection_hops: m.connection_hops_on_a,
        version: version,
    }
}

/// Runs `ChanOpenInit` on `ctx` with the channel version `version` (the
/// proposal, or what the application module chose instead): a new end in
/// `Init` under the next channel identifier, which is returned. On failure
/// `ctx` is left exactly as it was.
pub fn chan_open_init_with_version(ctx: &mut MockContext, msg: &MsgChannelOpenInit, version: String) -> (r: Result<ChannelId, ContextError>)
    requires
        old(ctx).wf(),
    ensures
        final(ctx).wf(),
        r is Ok <==> chan_init_ok(old(ctx)@, *msg),
        r is Err ==> final(ctx)@ == old(ctx)@,
        r matches Ok(id) ==> id@ == ChannelId::spec_named(old(ctx)@.channel_counter) && new_channel_post(
            old(ctx)@,
            msg.port_id_on_a,
            chan_init_end(*msg, version),
            IbcEvent::OpenInitChannel { port_id: msg.port_id_on_a, channel_id: id },
            final(ctx)@,
        ),
{
    check_hops(ctx, &msg.connection_hops_on_a, false, None)?;
    if ctx.channel_counter() == u64::MAX {
        return Err(ContextError::Channel(ChannelError::CounterOverflow));
    }
    let end = ChannelEnd {
        state: ChannelState::Init,
        ordering: msg.ordering,
        remote: ChannelCounterparty { port_id: msg.port_id_on_b.duplicate_exact(), channel_id: None },
        connection_hops: duplicate_hops(&msg.connection_hops_on_a),
        version,
    };
    let id = store_new_channel(ctx, &msg.port_id_on_a, end);
    ctx.emit_ibc_event(
        IbcEvent::OpenInitChannel { port_id: msg.port_id_on_a.duplicate_exact(), channel_id: id.duplicate_exact() },
    );
    Ok(id)
}

// ---------------------------------------------------------------- OpenTry

pub open spec fn chan_try_ok(v: ContextView, m: MsgChannelOpenTry) -> bool {
    &&& hops_ok(v, m.connection_hops_on_b@, true, Some(m.proof_height_on_a@))
    &&& v.channel_counter < u64::MAX
}

/// The end `OpenTry` stores.
pub open spec fn chan_try_end(m: MsgChannelOpenTry, version: String) -> ChannelEnd {
    ChannelEnd {
        state: ChannelState::TryOpen,
        ordering: m.ordering,
        remote: ChannelCounterparty { port_id: m.port_id_on_a, channel_id: Some(m.chan_id_on_a) },
        connection_hops: m.connection_hops_on_b,
        version: version,
    }
}

/// Runs `ChanOpenTry` on `ctx` with the channel version `version` (the one
/// chain A supports, or what the application module chose instead): a new
/// end in `TryOpen` under the next channel identifier, which is returned.
/// On failure `ctx` is left exactly as it was.
pub fn chan_open_try_with_version(ctx: &mut MockContext, msg: &MsgChannelOpenTry, version: String) -> (r: Result<ChannelId, ContextError>)
    requires
        old(ctx).wf(),
    ensures
        final(ctx).wf(),
        r is Ok <==> chan_try_ok(old(ctx)@, *msg),
        r is Err ==> final(ctx)@ == old(ctx)@,
        r matches Ok(id) ==> id@ == ChannelId::spec_named(old(ctx)@.channel_counter) && new_channel_post(
            old(ctx)@,
            msg.port_id_on_b,
            chan_try_end(*msg, version),
            IbcEvent::OpenTryChannel { port_id: msg.port_id_on_b, channel_id: id },
            final(ctx)@,
        ),
{
    check_hops(ctx, &msg.connection_hops_on_b, true, Some(msg.proof_height_on_a))?;
    if ctx.channel_counter() == u64::MAX {
        return Err(ContextError::Channel(ChannelError::CounterOverflow));
    }
    let end = ChannelEnd {
        state: ChannelState::TryOpen,
        ordering: msg.ordering,
        remote: ChannelCounterparty {
            port_id: msg.port_id_on_a.duplicate_exact(),
            channel_id: Some(msg.chan_id_on_a.duplicate_exact()),
        },
        connection_hops: duplicate_hops(&msg.connection_hops_on_b),
        version,
    };
    let id = store_new_channel(ctx, &msg.port_id_on_b, end);
    ctx.emit_ibc_event(
        IbcEvent::OpenTryChannel { port_id: msg.port_id_on_b.duplicate_exact(), channel_id: id.duplicate_exact() },
    );
    Ok(id)
}

// ---------------------------------------------------------------- OpenAck / OpenConfirm

/// The channel can reach its counterparty, is in `from`, and its client
/// holds a consensus state at the proof height.
pub open spec fn chan_step_ok(v: ContextView, port: Seq<char>, chan: Seq<char>, from: ChannelState, h: (u64, u64)) -> bool {
    &&& channel_reachable(v, port, chan)
    &&& chan_of(v, port, chan).state == from
    &&& proof_height_known(v, port, chan, h)
}

/// `b` is `a` opened, with `remote_chan` and `version` when given.
pub open spec fn opened_end(a: ChannelEnd, b: ChannelEnd, remote_chan: Option<ChannelId>, version: Option<String>) -> bool {
    &&& b.state == ChannelState::Open
    &&& b.ordering == a.ordering
    &&& b.remote.port_id == a.remote.port_id
    &&& b.remote.channel_id == match remote_chan {
        Some(c) => Some(c),
        None => a.remote.channel_id,
    }
    &&& b.connection_hops@ == a.connection_hops@
    &&& b.version == match version {
        Some(v) => v,
        None => a.version,
    }
}

fn open_end(c: &ChannelEnd, remote_chan: Option<ChannelId>, version: Option<String>) -> (r: ChannelEnd)
    ensures
        opened_end(*c, r, remote_chan, version),
{
    ChannelEnd {
        state: ChannelState::Open,
        ordering: c.ordering,
        remote: ChannelCounterparty {
            port_id: c.remote.port_id.duplicate_exact(),
            channel_id: match remote_chan {
                Some(id) => Some(id),
                None => match &c.remote.channel_id {
                    Some(id) => Some(id.duplicate_exact()),
                    None => None,
                },
            },
        },
        connection_hops: duplicate_hops(&c.connection_hops),
        version: match version {
            Some(v) => v,
            None => c.version.clone(),
        },
    }
}

/// What moving the end of `(port, chan)` to `Open` does to `v`.
pub open spec fn open_post(v: ContextView, port: PortId, chan: ChannelId, remote_chan: Option<ChannelId>, version: Option<String>, event: IbcEvent, w: ContextView) -> bool {
    let chp = channel_end_path_spec(port@, chan@);
    &&& w.channels.contains_key(chp)
    &&& opened_end(chan_of(v, port@, chan@), w.channels[chp], remote_chan, version)
    &&& w == ContextView { channels: v.channels.insert(chp, w.channels[chp]), events: v.events.push(event), ..v }
}

/// Runs `ChanOpenAck` on `ctx`: the end moves from `Init` to `Open`, with
/// chain B's channel identifier and version. On failure `ctx` is left
/// exactly as it was.
pub fn chan_open_ack(ctx: &mut MockContext, msg: &MsgChannelOpenAck) -> (r: Result<(), ContextError>)
    requires
        old(ctx).wf(),
    ensures
        final(ctx).wf(),
        r is Ok <==> chan_step_ok(old(ctx)@, msg.port_id_on_a@, msg.chan_id_on_a@, ChannelState::Init, msg.proof_height_on_b@),
        r is Err ==> final(ctx)@ == old(ctx)@,
        r is Ok ==> open_post(
            old(ctx)@,
            msg.port_id_on_a,
            msg.chan_id_on_a,
            Some(msg.chan_id_on_b),
            Some(msg.version_on_b),
            IbcEvent::OpenAckChannel { port_id: msg.port_id_on_a, channel_id: msg.chan_id_on_a },
            final(ctx)@,
        ),
{
    let port = &msg.port_id_on_a;
    let chan = &msg.chan_id_on_a;
    let (c, _cs) = usable_channel(ctx, port, chan, false)?;
    if c.state != ChannelState::Init {
        return Err(ContextError::Channel(ChannelError::InvalidChannelState));
    }
    if !check_proof_height(ctx, port, chan, &msg.proof_height_on_b) {
        return Err(ContextError::Channel(ChannelError::MissingHeight));
    }
    let opened = open_end(c, Some(msg.chan_id_on_b.duplicate_exact()), Some(msg.version_on_b.clone()));
    ctx.store_channel(port, chan, opened);
    ctx.emit_ibc_event(IbcEvent::OpenAckChannel { port_id: port.duplicate_exact(), channel_id: chan.duplicate_exact() });
    Ok(())
}

/// Runs `ChanOpenConfirm` on `ctx`: the end moves from `TryOpen` to `Open`.
/// On failure `ctx` is left exactly as it was.
pub fn chan_open_confirm(ctx: &mut MockContext, msg: &MsgChannelOpenConfirm) -> (r: Result<(), ContextError>)
    requires
        old(ctx).wf(),
    ensures
        final(ctx).wf(),
        r is Ok <==> chan_step_ok(old(ctx)@, msg.port_id_on_b@, msg.chan_id_on_b@, ChannelState::TryOpen, msg.proof_height_on_a@),
        r is Err ==> final(ctx)@ == old(ctx)@,
        r is Ok ==> open_post(
            old(ctx)@,
            msg.port_id_on_b,
            msg.chan_id_on_b,
            None,
            None,
            IbcEvent::OpenConfirmChannel { port_id: msg.port_id_on_b, channel_id: msg.chan_id_on_b },
            final(ctx)@,
        ),
{
    let port = &msg.port_id_on_b;
    let chan = &msg.chan_id_on_b;
    let (c, _cs) = usable_channel(ctx, port, chan, false)?;
    if c.state != ChannelState::TryOpen {
        return Err(ContextError::Channel(ChannelError::InvalidChannelState));
    }
    if !check_proof_height(ctx, port, chan, &msg.proof_height_on_a) {
        return Err(ContextError::Channel(ChannelError::MissingHeight));
    }
    let opened = open_end(c, None, None);
    ctx.store_channel(port, chan, opened);
    ctx.emit_ibc_event(IbcEvent::OpenConfirmChannel { port_id: port.duplicate_exact(), channel_id: chan.duplicate_exact() });
    Ok(())
}

/// Runs `ChanOpenInit` on `ctx` with the proposed version.
pub fn chan_open_init(ctx: &mut MockContext, msg: &MsgChannelOpenInit) -> (r: Result<ChannelId, ContextError>)
    requires
        old(ctx).wf(),
    ensures
        final(ctx).wf(),
        r is Ok <==> chan_init_ok(old(ctx)@, *msg),
        r is Err ==> final(ctx)@ == old(ctx)@,
        r matches Ok(id) ==> id@ == ChannelId::spec_named(old(ctx)@.channel_counter) && new_channel_post(
            old(ctx)@,
            msg.port_id_on_a,
            chan_init_end(*msg, msg.version_proposal),
            IbcEvent::OpenInitChannel { port_id: msg.port_id_on_a, channel_id: id },
            final(ctx)@,
        ),
{
    chan_open_init_with_version(ctx, msg, msg.version_proposal.clone())
}

/// Checks `ChanOpenInit` against `ctx` without changing it.
pub fn chan_open_init_validate(ctx: &MockContext, msg: &MsgChannelOpenInit) -> (r: Result<(), ContextError>)
    requires
        ctx.wf(),
    ensures
        r is Ok <==> chan_init_ok(ctx@, *msg),
{
    check_hops(ctx, &msg.connection_hops_on_a, false, None)?;
    if ctx.channel_counter() == u64::MAX {
        return Err(ContextError::Channel(ChannelError::CounterOverflow));
    }
    Ok(())
}

/// Runs `ChanOpenTry` on `ctx` with the version chain A supports.
pub fn chan_open_try(ctx: &mut MockContext, msg: &MsgChannelOpenTry) -> (r: Result<ChannelId, ContextError>)
    requires
        old(ctx).wf(),
    ensures
        final(ctx).wf(),
        r is Ok <==> chan_try_ok(old(ctx)@, *msg),
        r is Err ==> final(ctx)@ == old(ctx)@,
        r matches Ok(id) ==> id@ == ChannelId::spec_named(old(ctx)@.channel_counter) && new_channel_post(
            old(ctx)@,
            msg.port_id_on_b,
            chan_try_end(*msg, msg.version_supported_on_a),
            IbcEvent::OpenTryChannel { port_id: msg.port_id_on_b, channel_id: id },
            final(ctx)@,
        ),
{
    chan_open_try_with_version(ctx, msg, msg.version_supported_on_a.clone())
}

/// Checks `ChanOpenTry` against `ctx` without changing it.
pub fn chan_open_try_validate(ctx: &MockContext, msg: &MsgChannelOpenTry) -> (r: Result<(), ContextError>)
    requires
        ctx.wf(),
    ensures
        r is Ok <==> chan_try_ok(ctx@, *msg),
{
    check_hops(ctx, &msg.connection_hops_on_b, true, Some(msg.proof_height_on_a))?;
    if ctx.channel_counter() == u64::MAX {
        return Err(ContextError::Channel(ChannelError::CounterOverflow));
    }
    Ok(())
}

/// Checks a step from `from` to `Open` on `(port, chan)` without changing `ctx`.
pub fn chan_step_validate(ctx: &MockContext, port: &PortId, chan: &ChannelId, from: ChannelState, h: &Height) -> (r: Result<(), ContextError>)
    requires
        ctx.wf(),
    ensures
        r is Ok <==> chan_step_ok(ctx@, port@, chan@, from, h@),
{
    let (c, _cs) = usable_channel(ctx, port, chan, false)?;
    if c.state != from {
        return Err(ContextError::Channel(ChannelError::InvalidChannelState));
    }
    if !check_proof_height(ctx, port, chan, h) {
        return Err(ContextError::Channel(ChannelError::MissingHeight));
    }
    Ok(())
}

} // verus!
