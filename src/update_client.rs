//! `UpdateClient` for the mock light client: a header adds the consensus
//! state at its height; a header that contradicts a stored one is
//! misbehaviour and freezes the client.
use vstd::prelude::*;

use crate::client::{height_lt, ClientError, Height, MockClientState, MockConsensusState};
use crate::context::{ContextView, IbcEvent, MockContext};
use crate::error::ContextError;
use crate::identifiers::ClientId;
use crate::path::{client_state_path_spec, consensus_state_path_spec};

verus! {

/// A header of the mock chain: a height and a timestamp.
#[derive(Clone, Copy, Debug, PartialEq, Eq, Structural)]
pub struct MockHeader {
    pub height: Height,
    pub timestamp: u64,
}

/// `UpdateClient`: `header` is a new header for `client_id`.
#[derive(Clone, Debug, PartialEq, Eq)]
pub struct MsgUpdateClient {
    pub client_id: ClientId,
    pub header: MockHeader,
    pub signer: String,
}

/// The consensus state a header yields.
pub open spec fn consensus_of(h: MockHeader) -> MockConsensusState {
    MockConsensusState { height: h.height, timestamp: h.timestamp }
}

/// Every check of the update passes on `v`: the client exists and is not frozen.
pub open spec fn update_ok(v: ContextView, m: MsgUpdateClient) -> bool {
    let cp = client_state_path_spec(m.client_id@);
    v.client_states.contains_key(cp) && !v.client_states[cp].frozen
}

/// What the update does to `v`: nothing if the same consensus state is
/// already stored at the header's height; the client frozen if a different
/// one is; otherwise the consensus state stored (with the host time it was
/// processed at), the latest height raised
/// if the header is newer, and `UpdateClient` emitted.
pub open spec fn update_post(v: ContextView, m: MsgUpdateClient, w: ContextView) -> bool {
    let cp = client_state_path_spec(m.client_id@);
    let h = m.header.height@;
    let csp = consensus_state_path_spec(m.client_id@, h.0, h.1);
    let cs = v.client_states[cp];
    if v.consensus_states.contains_key(csp) {
        if v.consensus_states[csp] == consensus_of(m.header) {
            w == v
        } else {
            w == ContextView {
                client_states: v.client_states.insert(cp, MockClientState { frozen: true, ..cs }),
                events: v.events.push(IbcEvent::ClientMisbehaviour { client_id: m.client_id }),
                ..v
            }
        }
    } else {
        let latest = if height_lt(cs.latest_height@, h) { m.header.height } else { cs.latest_height };
        w == ContextView {
            consensus_states: v.consensus_states.insert(csp, consensus_of(m.header)),
            processed_times: v.processed_times.insert(csp, v.host_timestamp),
            client_states: v.client_states.insert(cp, MockClientState { latest_height: latest, ..cs }),
            events: v.events.push(
                IbcEvent::UpdateClient { client_id: m.client_id, height: m.header.height },
            ),
            ..v
        }
    }
}

/// Runs `UpdateClient` on `ctx`. On failure `ctx` is left exactly as it was.
pub fn update_client(ctx: &mut MockContext, msg: &MsgUpdateClient) -> (r: Result<(), ContextError>)
    requires
        old(ctx).wf(),
    ensures
        final(ctx).wf(),
        r is Ok <==> update_ok(old(ctx)@, *msg),
        r is Ok ==> update_post(old(ctx)@, *msg, final(ctx)@),
        r is Err ==> final(ctx)@ == old(ctx)@,
{
    let cs = match ctx.client_state(&msg.client_id) {
        Ok(cs) => cs,
        Err(e) => return Err(ContextError::Client(e)),
    };
    if cs.frozen {
        return Err(ContextError::Client(ClientError::FrozenClient { client_id: msg.client_id.duplicate_exact() }));
    }
    let h = msg.header.height;
    let new_cons = MockConsensusState { height: h, timestamp: msg.header.timestamp };
    match ctx.consensus_state(&msg.client_id, &h) {
        Ok(stored) => {
            if stored == new_cons {
                return Ok(());
            }
            ctx.store_client_state(&msg.client_id, MockClientState { frozen: true, ..cs });
            ctx.emit_ibc_event(IbcEvent::ClientMisbehaviour { client_id: msg.client_id.duplicate_exact() });
            Ok(())
        },
        Err(_) => {
            let latest = if cs.latest_height.lt(&h) { h } else { cs.latest_height };
            ctx.store_consensus_state(&msg.client_id, &h, new_cons);
            ctx.store_client_state(&msg.client_id, MockClientState { latest_height: latest, ..cs });
            ctx.emit_ibc_event(IbcEvent::UpdateClient { client_id: msg.client_id.duplicate_exact(), height: h });
            Ok(())
        },
    }
}

/// Submitting the same header twice changes nothing the second time: the
/// replay either finds the consensus state it would store already there
/// and leaves the context as it is, or finds the client frozen by the first
/// submission and fails, again leaving the context as it is.
pub proof fn lemma_update_replay_idempotent(v: ContextView, m: MsgUpdateClient, w: ContextView)
    requires
        update_ok(v, m),
        update_post(v, m, w),
    ensures
        update_ok(w, m) ==> update_post(w, m, w),
        w.consensus_states.contains_key(
            consensus_state_path_spec(m.client_id@, m.header.height@.0, m.header.height@.1),
        ),
        v.consensus_states.contains_key(
            consensus_state_path_spec(m.client_id@, m.header.height@.0, m.header.height@.1),
        ) ==> w.consensus_states == v.consensus_states,
{
}

} // verus!
