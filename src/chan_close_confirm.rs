//! The second step of the channel close handshake, on chain B: chain A
//! proves its end `Closed`, and the local end follows.
use vstd::prelude::*;

use crate::channel::ChannelState;
use crate::client::Height;
use crate::context::{ContextView, IbcEvent, MockContext};
use crate::error::{ChannelError, ContextError};
use crate::identifiers::{is_named_index, valid_port_id, ChannelId, PortId};
use crate::msgs::{raw_height_ok, RawHeight};
use crate::packet::{
    chan_of, channel_reachable, check_proof_height, close_channel, closed_end, proof_height_known,
    usable_channel,
};
use crate::path::channel_end_path_spec;

verus! {

/// `MsgChannelCloseConfirm` as the wire carries it.
#[derive(Clone, Debug, PartialEq, Eq)]
pub struct RawMsgChannelCloseConfirm {
    pub port_id: String,
    pub channel_id: String,
    pub proof_init: Vec<u8>,
    pub proof_height: Option<RawHeight>,
    pub signer: String,
}

/// `ChanCloseConfirm`, sent to chain B: chain A's end of the channel is closed.
#[derive(Clone, Debug, PartialEq, Eq)]
pub struct MsgChannelCloseConfirm {
    pub port_id_on_b: PortId,
    pub chan_id_on_b: ChannelId,
    pub proof_chan_end_on_a: Vec<u8>,
    pub proof_height_on_a: Height,
    pub signer: String,
}

impl MsgChannelCloseConfirm {
    /// Checks a raw message and builds the domain message from it.
    pub fn try_from(raw: RawMsgChannelCloseConfirm) -> (r: Result<MsgChannelCloseConfirm, ChannelError>)
        ensures
            r is Ok <==> valid_port_id(raw.port_id@) && is_named_index(raw.channel_id@, "channel-"@)
                && raw.proof_init@.len() > 0 && raw_height_ok(raw.proof_height),
            r matches Ok(m) ==> {
                &&& m.port_id_on_b@ == raw.port_id@
                &&& m.chan_id_on_b@ == raw.channel_id@
                &&& m.proof_chan_end_on_a == raw.proof_init
                &&& m.signer == raw.signer
                &&& raw.proof_height matches Some(rh) && m.proof_height_on_a@ == (
                    rh.revision_number,
                    rh.revision_height,
                )
            },
    {
        let port_id_on_b = match PortId::new(raw.port_id.as_str()) {
            Ok(p) => p,
            Err(e) => return Err(ChannelError::Identifier(e)),
        };
        let chan_id_on_b = match ChannelId::parse(raw.channel_id.as_str()) {
            Ok(c) => c,
            Err(e) => return Err(ChannelError::Identifier(e)),
        };
        if raw.proof_init.len() == 0 {
            return Err(ChannelError::InvalidProof);
        }
        let proof_height_on_a = match raw.proof_height {
            Some(rh) => match Height::new(rh.revision_number, rh.revision_height) {
                Ok(h) => h,
                Err(_) => return Err(ChannelError::MissingHeight),
            },
            None => return Err(ChannelError::MissingHeight),
        };
        Ok(MsgChannelCloseConfirm {
            port_id_on_b,
            chan_id_on_b,
            proof_chan_end_on_a: raw.proof_init,
            proof_height_on_a,
            signer: raw.signer,
        })
    }
}

/// Every check of `CloseConfirm` passes on `v`: the channel exists, is not
/// closed yet and can reach its counterparty, and its client holds a
/// consensus state at the proof height.
pub open spec fn chan_close_confirm_ok(v: ContextView, m: MsgChannelCloseConfirm) -> bool {
    let (port, chan) = (m.port_id_on_b@, m.chan_id_on_b@);
    &&& channel_reachable(v, port, chan)
    &&& chan_of(v, port, chan).state != ChannelState::Closed
    &&& proof_height_known(v, port, chan, m.proof_height_on_a@)
}

/// Validates `CloseConfirm` against `ctx`; reads only.
pub fn chan_close_confirm_validate(ctx: &MockContext, msg: &MsgChannelCloseConfirm) -> (r: Result<
    (),
    ContextError,
>)
    requires
        ctx.wf(),
    ensures
        r is Ok <==> chan_close_confirm_ok(ctx@, *msg),
{
    let port = &msg.port_id_on_b;
    let chan = &msg.chan_id_on_b;
    let (c, _cs) = usable_channel(ctx, port, chan, false)?;
    if c.state == ChannelState::Closed {
        return Err(ContextError::Channel(ChannelError::InvalidChannelState));
    }
    if !check_proof_height(ctx, port, chan, &msg.proof_height_on_a) {
        return Err(ContextError::Channel(ChannelError::MissingHeight));
    }
    Ok(())
}

/// What `CloseConfirm` does to `v`: the end is stored closed, and
/// `ChannelMessage` then `CloseConfirmChannel` are emitted.
pub open spec fn chan_close_confirm_post(v: ContextView, m: MsgChannelCloseConfirm, w: ContextView) -> bool {
    let (port, chan) = (m.port_id_on_b@, m.chan_id_on_b@);
    let chp = channel_end_path_spec(port, chan);
    &&& w.channels.contains_key(chp)
    &&& closed_end(chan_of(v, port, chan), w.channels[chp])
    &&& w == ContextView {
        channels: v.channels.insert(chp, w.channels[chp]),
        events: v.events.push(IbcEvent::ChannelMessage).push(
            IbcEvent::CloseConfirmChannel { port_id: m.port_id_on_b, channel_id: m.chan_id_on_b },
        ),
        ..v
    }
}

/// Runs `CloseConfirm` on `ctx`: validates it, stores the end `Closed`, and
/// emits `ChannelMessage` then `CloseConfirmChannel`. On failure `ctx` is
/// left exactly as it was.
pub fn chan_close_confirm_execute(ctx: &mut MockContext, msg: &MsgChannelCloseConfirm) -> (r: Result<
    (),
    ContextError,
>)
    requires
        old(ctx).wf(),
    ensures
        final(ctx).wf(),
        ({
            let v = old(ctx)@;
            let (port, chan) = (msg.port_id_on_b@, msg.chan_id_on_b@);
            let chp = channel_end_path_spec(port, chan);
            &&& r is Ok <==> chan_close_confirm_ok(v, *msg)
            &&& r is Err ==> final(ctx)@ == v
            &&& r is Ok ==> chan_close_confirm_post(v, *msg, final(ctx)@)
        }),
{
    chan_close_confirm_validate(ctx, msg)?;
    let port = &msg.port_id_on_b;
    let chan = &msg.chan_id_on_b;
    let closed = match ctx.channel_end(port, chan) {
        Ok(c) => close_channel(c),
        Err(e) => return Err(ContextError::Channel(e)),
    };
    ctx.store_channel(port, chan, closed);
    ctx.emit_ibc_event(IbcEvent::ChannelMessage);
    ctx.emit_ibc_event(
        IbcEvent::CloseConfirmChannel { port_id: port.duplicate_exact(), channel_id: chan.duplicate_exact() },
    );
    Ok(())
}

} // verus!
