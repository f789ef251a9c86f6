//! The first step of the channel close handshake: the local end moves to `Closed`.
use vstd::prelude::*;

use crate::channel::ChannelState;
use crate::connection::State;
use crate::context::{ContextView, IbcEvent, MockContext};
use crate::error::{ChannelError, ContextError};
use crate::msgs::MsgChannelCloseInit;
use crate::packet::{chan_of, close_channel, closed_end, conn_path_of};
use crate::path::channel_end_path_spec;

verus! {

/// Every check of `CloseInit` passes on `v`: the channel exists and is not
/// closed yet, and its connection exists and is open.
pub open spec fn chan_close_init_ok(v: ContextView, port: Seq<char>, chan: Seq<char>) -> bool {
    &&& v.channels.contains_key(channel_end_path_spec(port, chan))
    &&& chan_of(v, port, chan).state != ChannelState::Closed
    &&& chan_of(v, port, chan).connection_hops@.len() > 0
    &&& v.connections.contains_key(conn_path_of(v, port, chan))
    &&& v.connections[conn_path_of(v, port, chan)].state == State::Open
}

/// What `CloseInit` does to `v`: the end is stored closed and
/// `CloseInitChannel` is emitted.
pub open spec fn chan_close_init_post(v: ContextView, m: MsgChannelCloseInit, w: ContextView) -> bool {
    let (port, chan) = (m.port_id_on_a@, m.chan_id_on_a@);
    let chp = channel_end_path_spec(port, chan);
    &&& w.channels.contains_key(chp)
    &&& closed_end(chan_of(v, port, chan), w.channels[chp])
    &&& w == ContextView {
        channels: v.channels.insert(chp, w.channels[chp]),
        events: v.events.push(
            IbcEvent::CloseInitChannel { port_id: m.port_id_on_a, channel_id: m.chan_id_on_a },
        ),
        ..v
    }
}

/// Checks `CloseInit` against `ctx` without changing it.
pub fn chan_close_init_validate(ctx: &MockContext, msg: &MsgChannelCloseInit) -> (r: Result<(), ContextError>)
    requires
        ctx.wf(),
    ensures
        r is Ok <==> chan_close_init_ok(ctx@, msg.port_id_on_a@, msg.chan_id_on_a@),
{
    let c = match ctx.channel_end(&msg.port_id_on_a, &msg.chan_id_on_a) {
        Ok(c) => c,
        Err(e) => return Err(ContextError::Channel(e)),
    };
    if c.state == ChannelState::Closed {
        return Err(ContextError::Channel(ChannelError::InvalidChannelState));
    }
    if c.connection_hops.len() == 0 {
        return Err(ContextError::Channel(ChannelError::MissingConnectionHop));
    }
    let conn = match ctx.connection_end(&c.connection_hops[0]) {
        Ok(conn) => conn,
        Err(e) => return Err(ContextError::Connection(e)),
    };
    if conn.state != State::Open {
        return Err(ContextError::Channel(ChannelError::ConnectionNotOpen));
    }
    Ok(())
}

/// Runs `CloseInit` on `ctx`: the channel end is stored `Closed` and
/// `CloseInitChannel` is emitted. On failure `ctx` is left exactly as it was.
pub fn chan_close_init(ctx: &mut MockContext, msg: &MsgChannelCloseInit) -> (r: Result<
    (),
    ContextError,
>)
    requires
        old(ctx).wf(),
    ensures
        final(ctx).wf(),
        ({
            let v = old(ctx)@;
            let (port, chan) = (msg.port_id_on_a@, msg.chan_id_on_a@);
            let chp = channel_end_path_spec(port, chan);
            &&& r is Ok <==> chan_close_init_ok(v, port, chan)
            &&& r is Err ==> final(ctx)@ == v
            &&& v.channels.contains_key(chp) && chan_of(v, port, chan).state == ChannelState::Closed
                ==> r == Err::<(), ContextError>(ContextError::Channel(ChannelError::InvalidChannelState))
            &&& r is Ok ==> chan_close_init_post(v, *msg, final(ctx)@)
        }),
{
    let port = &msg.port_id_on_a;
    let chan = &msg.chan_id_on_a;
    let c = match ctx.channel_end(port, chan) {
        Ok(c) => c,
        Err(e) => return Err(ContextError::Channel(e)),
    };
    if c.state == ChannelState::Closed {
        return Err(ContextError::Channel(ChannelError::InvalidChannelState));
    }
    if c.connection_hops.len() == 0 {
        return Err(ContextError::Channel(ChannelError::MissingConnectionHop));
    }
    let conn = match ctx.connection_end(&c.connection_hops[0]) {
        Ok(conn) => conn,
        Err(e) => return Err(ContextError::Connection(e)),
    };
    if conn.state != State::Open {
        return Err(ContextError::Channel(ChannelError::ConnectionNotOpen));
    }
    let closed = close_channel(c);
    ctx.store_channel(port, chan, closed);
    ctx.emit_ibc_event(
        IbcEvent::CloseInitChannel { port_id: port.duplicate_exact(), channel_id: chan.duplicate_exact() },
    );
    Ok(())
}

} // verus!
