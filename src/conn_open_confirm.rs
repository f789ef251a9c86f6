//! The last step of the connection handshake, on the chain that answered
//! `OpenTry`: its end moves from `TryOpen` to `Open` once the counterparty
//! proves its own end `Open`.
use vstd::prelude::*;

use crate::client::{Height, MockClientState};
use crate::connection::{ConnectionEnd, ConnectionEndView, State};
use crate::connection::Counterparty;
use crate::context::{host_prefix, ContextView, IbcEvent, MockContext};
use crate::error::{ConnectionError, ContextError};
use crate::identifiers::ConnectionId;
use crate::path::{client_state_path_spec, connection_path_spec, consensus_state_path_spec};

verus! {

/// `ConnOpenConfirm`: the counterparty's end of `conn_id_on_b` is open,
/// as proved at `proof_height_on_a`.
#[derive(Clone, Debug, PartialEq, Eq)]
pub struct MsgConnectionOpenConfirm {
    pub conn_id_on_b: ConnectionId,
    pub proof_conn_end_on_a: Vec<u8>,
    pub proof_height_on_a: Height,
    pub signer: String,
}

/// Whether a handler allocated a new connection identifier or reused one.
#[derive(Clone, Copy, Debug, PartialEq, Eq, Structural)]
pub enum ConnectionIdState {
    Generated,
    Reused,
}

/// What a connection handler decided: the end to store, under which identifier.
#[derive(Clone, Debug, PartialEq, Eq)]
pub struct ConnectionResult {
    pub connection_id: ConnectionId,
    pub connection_id_state: ConnectionIdState,
    pub connection_end: ConnectionEnd,
}

/// What a handler hands back: its result and the events it emits.
#[derive(Clone, Debug, PartialEq, Eq)]
pub struct HandlerOutput {
    pub result: ConnectionResult,
    pub events: Vec<IbcEvent>,
}

/// Every check of `OpenConfirm` passes on `v`: the end exists and is in
/// `TryOpen`, its client exists, is not frozen and has a consensus state at
/// the proof height, and the counterparty's connection identifier is known.
/// The mock light client accepts every proof of an active client.
pub open spec fn conn_open_confirm_ok(v: ContextView, conn: Seq<char>, h: (u64, u64)) -> bool {
    let p = connection_path_spec(conn);
    &&& v.connections.contains_key(p)
    &&& v.connections[p].state == State::TryOpen
    &&& v.client_states.contains_key(client_state_path_spec(v.connections[p].client_id@))
    &&& !v.client_states[client_state_path_spec(v.connections[p].client_id@)].frozen
    &&& v.consensus_states.contains_key(
        consensus_state_path_spec(v.connections[p].client_id@, h.0, h.1),
    )
    &&& v.connections[p].counterparty.connection_id is Some
}

/// The end stored under `conn`, moved to `Open`.
pub open spec fn opened(v: ContextView, conn: Seq<char>) -> ConnectionEndView {
    ConnectionEndView { state: State::Open, ..v.connections[connection_path_spec(conn)]@ }
}

/// The end that the counterparty must have stored, as the proof in
/// `OpenConfirm` has to show: open, with the two client identifiers
/// swapped, this host's connection identifier `conn` and commitment prefix,
/// and the versions and delay period of the local end `end`.
pub open spec fn expected_counterparty_end_spec(end: ConnectionEnd, conn: ConnectionId) -> ConnectionEndView {
    ConnectionEndView {
        state: State::Open,
        client_id: end.counterparty.client_id,
        counterparty: (end.client_id, Some(conn), host_prefix()),
        versions: end@.versions,
        delay_period: end.delay_period,
    }
}

/// Builds the counterparty end that the proof of `OpenConfirm` must show,
/// from the local end `end` of connection `conn`.
pub fn expected_counterparty_end(ctx: &MockContext, end: &ConnectionEnd, conn: &ConnectionId) -> (r: ConnectionEnd)
    ensures
        r@ == expected_counterparty_end_spec(*end, *conn),
{
    ConnectionEnd::new(
        State::Open,
        end.counterparty.client_id.duplicate_exact(),
        Counterparty::new(end.client_id.duplicate_exact(), Some(conn.duplicate_exact()), ctx.commitment_prefix()),
        crate::connection::duplicate_versions(&end.versions),
        end.delay_period,
    )
}

/// The mock light client's check of a connection-end proof: it accepts
/// every proof.
pub fn mock_verify_connection_state(_client_state: &MockClientState, _proof: &Vec<u8>, _expected: &ConnectionEnd) -> (r: bool)
    ensures
        r,
{
    true
}

/// Validates `OpenConfirm` against `ctx` and computes the end to store;
/// reads only. `proof_verified` is whether the client verified the proof
/// that the counterparty stored the end `expected_counterparty_end` builds.
pub fn process(ctx: &MockContext, msg: &MsgConnectionOpenConfirm, proof_verified: bool) -> (r: Result<
    HandlerOutput,
    ContextError,
>)
    requires
        ctx.wf(),
    ensures
        ({
            let v = ctx@;
            let conn = msg.conn_id_on_b@;
            let p = connection_path_spec(conn);
            let h = msg.proof_height_on_a@;
            &&& r is Ok <==> conn_open_confirm_ok(v, conn, h) && proof_verified
            &&& conn_open_confirm_ok(v, conn, h) && !proof_verified ==> r == Err::<
                HandlerOutput,
                ContextError,
            >(ContextError::Connection(ConnectionError::VerifyConnectionState))
            &&& !v.connections.contains_key(p) ==> (r matches Err(
                ContextError::Connection(ConnectionError::ConnectionNotFound { .. }),
            ))
            &&& v.connections.contains_key(p) && v.connections[p].state != State::TryOpen
                ==> r == Err::<HandlerOutput, ContextError>(
                ContextError::Connection(
                    ConnectionError::ConnectionMismatch { connection_id: msg.conn_id_on_b },
                ),
            )
            &&& (r matches Ok(out) ==> {
                &&& out.result.connection_id@ == conn
                &&& out.result.connection_id_state == ConnectionIdState::Reused
                &&& out.result.connection_end@ == opened(v, conn)
                &&& out.events@ == seq![
                    IbcEvent::OpenConfirmConnection { connection_id: msg.conn_id_on_b },
                ]
            })
        }),
{
    let end = match ctx.connection_end(&msg.conn_id_on_b) {
        Ok(e) => e,
        Err(e) => return Err(ContextError::Connection(e)),
    };
    if !end.state_matches(State::TryOpen) {
        return Err(
            ContextError::Connection(
                ConnectionError::ConnectionMismatch { connection_id: msg.conn_id_on_b.duplicate_exact() },
            ),
        );
    }
    let client_state: MockClientState = match ctx.client_state(&end.client_id) {
        Ok(cs) => cs,
        Err(e) => return Err(ContextError::Client(e)),
    };
    if client_state.frozen {
        return Err(
            ContextError::Client(
                crate::client::ClientError::FrozenClient { client_id: end.client_id.duplicate_exact() },
            ),
        );
    }
    match ctx.consensus_state(&end.client_id, &msg.proof_height_on_a) {
        Ok(_) => {},
        Err(e) => return Err(ContextError::Client(e)),
    }
    if end.counterparty.connection_id.is_none() {
        return Err(ContextError::Connection(ConnectionError::InvalidCounterparty));
    }
    if !proof_verified {
        return Err(ContextError::Connection(ConnectionError::VerifyConnectionState));
    }
    let mut connection_end = end.duplicate();
    connection_end.state = State::Open;
    let result = ConnectionResult {
        connection_id: msg.conn_id_on_b.duplicate_exact(),
        connection_id_state: ConnectionIdState::Reused,
        connection_end,
    };
    let mut events: Vec<IbcEvent> = Vec::new();
    events.push(IbcEvent::OpenConfirmConnection { connection_id: msg.conn_id_on_b.duplicate_exact() });
    Ok(HandlerOutput { result, events })
}

/// What `OpenConfirm` does to `v`: the end is stored opened and
/// `OpenConfirmConnection` is emitted.
pub open spec fn conn_confirm_post(v: ContextView, m: MsgConnectionOpenConfirm, w: ContextView) -> bool {
    let p = connection_path_spec(m.conn_id_on_b@);
    &&& w.connections.contains_key(p)
    &&& w.connections[p]@ == opened(v, m.conn_id_on_b@)
    &&& w == ContextView {
        connections: v.connections.insert(p, w.connections[p]),
        events: v.events.push(IbcEvent::OpenConfirmConnection { connection_id: m.conn_id_on_b }),
        ..v
    }
}

/// Runs `OpenConfirm` on `ctx`: has the mock light client check the proof
/// of the expected counterparty end, validates the message, then stores the
/// opened end and emits its event. On failure `ctx` is left exactly as it was.
pub fn conn_open_confirm(ctx: &mut MockContext, msg: &MsgConnectionOpenConfirm) -> (r: Result<
    (),
    ContextError,
>)
    requires
        old(ctx).wf(),
    ensures
        final(ctx).wf(),
        ({
            let v = old(ctx)@;
            let conn = msg.conn_id_on_b@;
            let p = connection_path_spec(conn);
            &&& r is Ok <==> conn_open_confirm_ok(v, conn, msg.proof_height_on_a@)
            &&& r is Err ==> final(ctx)@ == v
            &&& r is Ok ==> conn_confirm_post(v, *msg, final(ctx)@)
        }),
{
    let proof_verified = match ctx.connection_end(&msg.conn_id_on_b) {
        Ok(end) => {
            let expected = expected_counterparty_end(ctx, end, &msg.conn_id_on_b);
            match ctx.client_state(&end.client_id) {
                Ok(cs) => mock_verify_connection_state(&cs, &msg.proof_conn_end_on_a, &expected),
                Err(_) => true,
            }
        },
        Err(_) => true,
    };
    let out = process(ctx, msg, proof_verified)?;
    let HandlerOutput { result, events: _ } = out;
    ctx.store_connection(&msg.conn_id_on_b, result.connection_end);
    ctx.emit_ibc_event(IbcEvent::OpenConfirmConnection { connection_id: msg.conn_id_on_b.duplicate_exact() });
    Ok(())
}

} // verus!
