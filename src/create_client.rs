//! `CreateClient` for the mock light client: the client gets the identifier
//! `9999-mock-{n}` and its first client and consensus states.
use vstd::prelude::*;

use crate::client::{ClientError, MockClientState, MockConsensusState};
use crate::context::{ContextView, IbcEvent, MockContext};
use crate::error::ContextError;
use crate::identifiers::{decimal_digits, ClientId};
use crate::path::{client_state_path_spec, consensus_state_path_spec};

verus! {

/// `CreateClient`: a new client starting from `client_state`, trusting `consensus_state`.
#[derive(Clone, Debug, PartialEq, Eq)]
pub struct MsgCreateClient {
    pub client_state: MockClientState,
    pub consensus_state: MockConsensusState,
    pub signer: String,
}

/// The identifier `9999-mock-{counter}` of the mock client created `counter`-th.
pub open spec fn mock_client_id(counter: u64) -> Seq<char> {
    "9999-mock"@ + seq!['-'] + decimal_digits(counter as nat)
}

/// The states can start a client: the client is not frozen and the
/// consensus state is the one at its latest height; and an identifier is left.
pub open spec fn create_ok(v: ContextView, m: MsgCreateClient) -> bool {
    &&& !m.client_state.frozen
    &&& m.consensus_state.height@ == m.client_state.latest_height@
    &&& v.client_counter < u64::MAX
}

/// What creating the client does to `v`.
pub open spec fn create_post(v: ContextView, m: MsgCreateClient, id: ClientId, w: ContextView) -> bool {
    let h = m.client_state.latest_height@;
    w == ContextView {
        client_states: v.client_states.insert(client_state_path_spec(id@), m.client_state),
        consensus_states: v.consensus_states.insert(
            consensus_state_path_spec(id@, h.0, h.1),
            m.consensus_state,
        ),
        processed_times: v.processed_times.insert(consensus_state_path_spec(id@, h.0, h.1), v.host_timestamp),
        client_counter: (v.client_counter + 1) as u64,
        events: v.events.push(IbcEvent::CreateClient { client_id: id }),
        ..v
    }
}

/// Runs `CreateClient` on `ctx` and returns the new client's identifier.
/// On failure `ctx` is left exactly as it was.
pub fn create_client(ctx: &mut MockContext, msg: &MsgCreateClient) -> (r: Result<ClientId, ContextError>)
    requires
        old(ctx).wf(),
    ensures
        final(ctx).wf(),
        r is Ok <==> create_ok(old(ctx)@, *msg),
        r is Err ==> final(ctx)@ == old(ctx)@,
        r matches Ok(id) ==> id@ == mock_client_id(old(ctx)@.client_counter) && create_post(
            old(ctx)@,
            *msg,
            id,
            final(ctx)@,
        ),
{
    if msg.client_state.frozen || !msg.consensus_state.height.same(&msg.client_state.latest_height) {
        return Err(ContextError::Client(ClientError::InvalidClientState));
    }
    let counter = ctx.client_counter();
    if counter == u64::MAX {
        return Err(ContextError::Client(ClientError::CounterOverflow));
    }
    proof {
        reveal_strlit("9999-mock");
    }
    let id = match ClientId::new("9999-mock", counter) {
        Ok(id) => id,
        Err(_) => return Err(ContextError::Client(ClientError::InvalidClientState)),
    };
    let h = msg.client_state.latest_height;
    ctx.store_client_state(&id, msg.client_state);
    ctx.store_consensus_state(&id, &h, msg.consensus_state);
    let _ = ctx.increase_client_counter();
    ctx.emit_ibc_event(IbcEvent::CreateClient { client_id: id.duplicate_exact() });
    Ok(id)
}

} // verus!
