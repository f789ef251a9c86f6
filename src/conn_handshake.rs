//! The first three steps of the connection handshake: `OpenInit` and
//! `OpenAck` on chain A, `OpenTry` on chain B. The mock light client
//! accepts every proof at a height where it holds a consensus state.
use vstd::prelude::*;

use crate::client::{height_lt, ClientError, Height, MockClientState};
use crate::connection::{
    ConnectionEnd, ConnectionEndView, Counterparty, State, Version,
};
use crate::context::{ContextView, IbcEvent, MockContext};
use crate::error::{ConnectionError, ContextError};
use crate::identifiers::{ClientId, ConnectionId};
use crate::msgs::MsgConnectionOpenAck;
use crate::path::{
    client_connections_path_spec, client_state_path_spec, connection_path_spec,
    consensus_state_path_spec,
};

verus! {

/// `ConnOpenInit`, sent to chain A.
#[derive(Clone, Debug, PartialEq, Eq)]
pub struct MsgConnectionOpenInit {
    pub client_id_on_a: ClientId,
    pub counterparty: Counterparty,
    pub version: Option<Version>,
    pub delay_period: u64,
    pub signer: String,
}

/// `ConnOpenTry`, sent to chain B: chain A proves its end in `Init`.
#[derive(Clone, Debug, PartialEq, Eq)]
pub struct MsgConnectionOpenTry {
    pub client_id_on_b: ClientId,
    pub client_state_of_b_on_a: MockClientState,
    pub counterparty: Counterparty,
    pub versions_on_a: Vec<Version>,
    pub proof_conn_end_on_a: Vec<u8>,
    pub proof_client_state_of_b_on_a: Vec<u8>,
    pub proof_consensus_state_of_b_on_a: Vec<u8>,
    pub proofs_height_on_a: Height,
    pub consensus_height_of_b_on_a: Height,
    pub delay_period: u64,
    pub signer: String,
}

/// The client exists and is not frozen.
pub open spec fn client_active(v: ContextView, client: Seq<char>) -> bool {
    &&& v.client_states.contains_key(client_state_path_spec(client))
    &&& !v.client_states[client_state_path_spec(client)].frozen
}

/// The client holds a consensus state at `h`, so proofs at `h` can be checked.
pub open spec fn proof_at(v: ContextView, client: Seq<char>, h: (u64, u64)) -> bool {
    v.consensus_states.contains_key(consensus_state_path_spec(client, h.0, h.1))
}

/// What storing a new end `end` under the next connection identifier does
/// to `v`: the end is stored, recorded for its client, the counter moves
/// on, and `event` (naming the new identifier) is emitted.
pub open spec fn new_connection_post(v: ContextView, client: Seq<char>, end: ConnectionEndView, w: ContextView) -> bool {
    let id = ConnectionId::spec_named(v.connection_counter);
    let p = connection_path_spec(id);
    let clp = client_connections_path_spec(client);
    &&& w.connections.contains_key(p)
    &&& w.connections[p]@ == end
    &&& w.connections == v.connections.insert(p, w.connections[p])
    &&& w.connection_counter == v.connection_counter + 1
    &&& w.client_connections.contains_key(clp)
    &&& w.client_connections[clp]@.len() > 0
    &&& w.client_connections[clp]@.last()@ == id
    &&& w.client_connections.remove(clp) == v.client_connections.remove(clp)
    &&& w.events.len() == v.events.len() + 1
    &&& w.events.drop_last() == v.events
    &&& w == ContextView {
        connections: w.connections,
        connection_counter: w.connection_counter,
        client_connections: w.client_connections,
        events: w.events,
        ..v
    }
}

/// Stores `end` under the next connection identifier, records it for its
/// client, moves the counter on and returns the identifier.
fn store_new_connection(ctx: &mut MockContext, end: ConnectionEnd) -> (r: ConnectionId)
    requires
        old(ctx).wf(),
        old(ctx)@.connection_counter < u64::MAX,
    ensures
        final(ctx).wf(),
        r@ == ConnectionId::spec_named(old(ctx)@.connection_counter),
        ({
            let v = old(ctx)@;
            let w = final(ctx)@;
            let p = connection_path_spec(r@);
            let clp = client_connections_path_spec(end.client_id@);
            &&& w.connections == v.connections.insert(p, end)
            &&& w.connection_counter == v.connection_counter + 1
            &&& w.client_connections.contains_key(clp)
            &&& w.client_connections[clp]@.len() > 0
            &&& w.client_connections[clp]@.last()@ == r@
            &&& w.client_connections.remove(clp) == v.client_connections.remove(clp)
            &&& w == ContextView {
                connections: w.connections,
                connection_counter: w.connection_counter,
                client_connections: w.client_connections,
                ..v
            }
        }),
{
    let id = ConnectionId::new(ctx.connection_counter());
    let client_id = end.client_id.duplicate_exact();
    ctx.store_connection(&id, end);
    ctx.store_connection_to_client(&client_id, id.duplicate_exact());
    let _ = ctx.increase_connection_counter();
    id
}

/// Checks that the client exists and is not frozen.
fn check_client(ctx: &MockContext, client_id: &ClientId) -> (r: Result<(), ContextError>)
    requires
        ctx.wf(),
    ensures
        r is Ok <==> client_active(ctx@, client_id@),
{
    let cs = match ctx.client_state(client_id) {
        Ok(cs) => cs,
        Err(e) => return Err(ContextError::Client(e)),
    };
    if cs.frozen {
        return Err(ContextError::Client(ClientError::FrozenClient { client_id: client_id.duplicate_exact() }));
    }
    Ok(())
}

// ---------------------------------------------------------------- OpenInit

/// Every check of `OpenInit` passes on `v`.
pub open spec fn init_ok(v: ContextView, m: MsgConnectionOpenInit) -> bool {
    &&& client_active(v, m.client_id_on_a@)
    &&& (m.version matches Some(ver) ==> ver@ == Version::default_version_spec())
    &&& v.connection_counter < u64::MAX
}

/// The end that `OpenInit` stores.
pub open spec fn init_end(m: MsgConnectionOpenInit) -> ConnectionEndView {
    ConnectionEndView {
        state: State::Init,
        client_id: m.client_id_on_a,
        counterparty: m.counterparty@,
        versions: seq![Version::default_version_spec()],
        delay_period: m.delay_period,
    }
}

/// Runs `OpenInit` on `ctx`: a new end in `Init` under the next connection
/// identifier, which is returned. On failure `ctx` is left exactly as it was.
pub fn conn_open_init(ctx: &mut MockContext, msg: &MsgConnectionOpenInit) -> (r: Result<
    ConnectionId,
    ContextError,
>)
    requires
        old(ctx).wf(),
    ensures
        final(ctx).wf(),
        r is Ok <==> init_ok(old(ctx)@, *msg),
        r is Err ==> final(ctx)@ == old(ctx)@,
        r matches Ok(id) ==> {
            &&& id@ == ConnectionId::spec_named(old(ctx)@.connection_counter)
            &&& new_connection_post(old(ctx)@, msg.client_id_on_a@, init_end(*msg), final(ctx)@)
            &&& final(ctx)@.events.last() == IbcEvent::OpenInitConnection { connection_id: id }
        },
{
    check_client(ctx, &msg.client_id_on_a)?;
    let version = Version::default_version();
    proof {
        reveal_strlit("1");
        reveal_strlit("ORDER_ORDERED");
        reveal_strlit("ORDER_UNORDERED");
        assert(version@ =~= Version::default_version_spec());
    }
    match &msg.version {
        Some(v) => {
            if !v.same(&version) {
                return Err(ContextError::Connection(ConnectionError::VersionNegotiationFailed));
            }
        },
        None => {},
    }
    if ctx.connection_counter() == u64::MAX {
        return Err(ContextError::Connection(ConnectionError::CounterOverflow));
    }
    let end = ConnectionEnd::new(
        State::Init,
        msg.client_id_on_a.duplicate_exact(),
        msg.counterparty.duplicate(),
        vec![version],
        msg.delay_period,
    );
    assert(end@.versions =~= seq![Version::default_version_spec()]);
    let ghost before = ctx@;
    let id = store_new_connection(ctx, end);
    let ghost mid = ctx@;
    ctx.emit_ibc_event(IbcEvent::OpenInitConnection { connection_id: id.duplicate_exact() });
    assert(ctx@.events.drop_last() =~= mid.events);
    assert(mid.events == before.events);
    Ok(id)
}

// ---------------------------------------------------------------- OpenTry

/// The versions offered include the supported one.
pub open spec fn offers_supported(vs: Seq<Version>) -> bool {
    exists|i: int| 0 <= i < vs.len() && #[trigger] vs[i]@ == Version::default_version_spec()
}

/// Every check of `OpenTry` passes on `v`.
pub open spec fn try_ok(v: ContextView, m: MsgConnectionOpenTry) -> bool {
    &&& client_active(v, m.client_id_on_b@)
    &&& !height_lt(v.host_height@, m.consensus_height_of_b_on_a@)
    &&& proof_at(v, m.client_id_on_b@, m.proofs_height_on_a@)
    &&& m.counterparty.connection_id is Some
    &&& offers_supported(m.versions_on_a@)
    &&& v.connection_counter < u64::MAX
}

/// The end that `OpenTry` stores.
pub open spec fn try_end(m: MsgConnectionOpenTry) -> ConnectionEndView {
    ConnectionEndView {
        state: State::TryOpen,
        client_id: m.client_id_on_b,
        counterparty: m.counterparty@,
        versions: seq![Version::default_version_spec()],
        delay_period: m.delay_period,
    }
}

/// Runs `OpenTry` on `ctx`: a new end in `TryOpen` under the next connection
/// identifier, which is returned, with the version both ends support. On
/// failure `ctx` is left exactly as it was.
pub fn conn_open_try(ctx: &mut MockContext, msg: &MsgConnectionOpenTry) -> (r: Result<
    ConnectionId,
    ContextError,
>)
    requires
        old(ctx).wf(),
    ensures
        final(ctx).wf(),
        r is Ok <==> try_ok(old(ctx)@, *msg),
        r is Err ==> final(ctx)@ == old(ctx)@,
        r matches Ok(id) ==> {
            &&& id@ == ConnectionId::spec_named(old(ctx)@.connection_counter)
            &&& new_connection_post(old(ctx)@, msg.client_id_on_b@, try_end(*msg), final(ctx)@)
            &&& final(ctx)@.events.last() == IbcEvent::OpenTryConnection { connection_id: id }
        },
{
    check_client(ctx, &msg.client_id_on_b)?;
    if ctx.host_height().lt(&msg.consensus_height_of_b_on_a) {
        return Err(ContextError::Connection(ConnectionError::InvalidConsensusHeight));
    }
    if ctx.consensus_state(&msg.client_id_on_b, &msg.proofs_height_on_a).is_err() {
        return Err(
            ContextError::Client(
                ClientError::MissingLocalConsensusState { height: msg.proofs_height_on_a },
            ),
        );
    }
    if msg.counterparty.connection_id.is_none() {
        return Err(ContextError::Connection(ConnectionError::InvalidCounterparty));
    }
    let version = Version::default_version();
    proof {
        reveal_strlit("1");
        reveal_strlit("ORDER_ORDERED");
        reveal_strlit("ORDER_UNORDERED");
        assert(version@ =~= Version::default_version_spec());
    }
    let mut found = false;
    let mut i: usize = 0;
    while i < msg.versions_on_a.len()
        invariant
            i <= msg.versions_on_a@.len(),
            version@ == Version::default_version_spec(),
            found <==> exists|j: int| 0 <= j < i && #[trigger] msg.versions_on_a@[j]@ == Version::default_version_spec(),
        decreases msg.versions_on_a@.len() - i,
    {
        if msg.versions_on_a[i].same(&version) {
            found = true;
        }
        i = i + 1;
    }
    if !found {
        return Err(ContextError::Connection(ConnectionError::VersionNegotiationFailed));
    }
    if ctx.connection_counter() == u64::MAX {
        return Err(ContextError::Connection(ConnectionError::CounterOverflow));
    }
    let end = ConnectionEnd::new(
        State::TryOpen,
        msg.client_id_on_b.duplicate_exact(),
        msg.counterparty.duplicate(),
        vec![version],
        msg.delay_period,
    );
    assert(end@.versions =~= seq![Version::default_version_spec()]);
    let ghost before = ctx@;
    let id = store_new_connection(ctx, end);
    let ghost mid = ctx@;
    ctx.emit_ibc_event(IbcEvent::OpenTryConnection { connection_id: id.duplicate_exact() });
    assert(ctx@.events.drop_last() =~= mid.events);
    assert(mid.events == before.events);
    Ok(id)
}

// ---------------------------------------------------------------- OpenAck

/// The end stored under `conn`.
pub open spec fn end_of(v: ContextView, conn: Seq<char>) -> ConnectionEnd {
    v.connections[connection_path_spec(conn)]
}

/// Every check of `OpenAck` passes on `v`: the end exists and is in
/// `Init`, it proposed the version chain B picked, its client is active and
/// holds a consensus state at the proof height, and the consensus height
/// claimed for chain A is not beyond the host's height.
pub open spec fn ack_ok(v: ContextView, m: MsgConnectionOpenAck) -> bool {
    let conn = m.conn_id_on_a@;
    &&& v.connections.contains_key(connection_path_spec(conn))
    &&& end_of(v, conn).state == State::Init
    &&& (exists|i: int|
        0 <= i < end_of(v, conn).versions@.len() && #[trigger] end_of(v, conn).versions@[i]@
            == m.version@)
    &&& client_active(v, end_of(v, conn).client_id@)
    &&& proof_at(v, end_of(v, conn).client_id@, m.proofs_height_on_b@)
    &&& !height_lt(v.host_height@, m.consensus_height_of_a_on_b@)
}

/// The end `OpenAck` stores: open, with chain B's connection identifier and
/// the one version chain B picked.
pub open spec fn acked_end(v: ContextView, m: MsgConnectionOpenAck) -> ConnectionEndView {
    let end = end_of(v, m.conn_id_on_a@)@;
    ConnectionEndView {
        state: State::Open,
        counterparty: (end.counterparty.0, Some(m.conn_id_on_b), end.counterparty.2),
        versions: seq![m.version@],
        ..end
    }
}

/// What `OpenAck` does to `v`: the end is stored opened and
/// `OpenAckConnection` is emitted.
pub open spec fn conn_ack_post(v: ContextView, m: MsgConnectionOpenAck, w: ContextView) -> bool {
    let p = connection_path_spec(m.conn_id_on_a@);
    &&& w.connections.contains_key(p)
    &&& w.connections[p]@ == acked_end(v, m)
    &&& w == ContextView {
        connections: v.connections.insert(p, w.connections[p]),
        events: v.events.push(IbcEvent::OpenAckConnection { connection_id: m.conn_id_on_a }),
        ..v
    }
}

/// Runs `OpenAck` on `ctx`: the end moves from `Init` to `Open`. On failure
/// `ctx` is left exactly as it was.
pub fn conn_open_ack(ctx: &mut MockContext, msg: &MsgConnectionOpenAck) -> (r: Result<
    (),
    ContextError,
>)
    requires
        old(ctx).wf(),
    ensures
        final(ctx).wf(),
        r is Ok <==> ack_ok(old(ctx)@, *msg),
        r is Err ==> final(ctx)@ == old(ctx)@,
        ({
            let v = old(ctx)@;
            let p = connection_path_spec(msg.conn_id_on_a@);
            &&& v.connections.contains_key(p) && end_of(v, msg.conn_id_on_a@).state != State::Init
                ==> (r matches Err(
                ContextError::Connection(ConnectionError::ConnectionMismatch { .. }),
            ))
            &&& r is Ok ==> conn_ack_post(v, *msg, final(ctx)@)
        }),
{
    let end = match ctx.connection_end(&msg.conn_id_on_a) {
        Ok(e) => e,
        Err(e) => return Err(ContextError::Connection(e)),
    };
    if !end.state_matches(State::Init) {
        return Err(
            ContextError::Connection(
                ConnectionError::ConnectionMismatch { connection_id: msg.conn_id_on_a.duplicate_exact() },
            ),
        );
    }
    let mut found = false;
    let mut i: usize = 0;
    while i < end.versions.len()
        invariant
            i <= end.versions@.len(),
            found <==> exists|j: int| 0 <= j < i && #[trigger] end.versions@[j]@ == msg.version@,
        decreases end.versions@.len() - i,
    {
        if end.versions[i].same(&msg.version) {
            found = true;
        }
        i = i + 1;
    }
    if !found {
        return Err(ContextError::Connection(ConnectionError::VersionNegotiationFailed));
    }
    check_client(ctx, &end.client_id)?;
    if ctx.consensus_state(&end.client_id, &msg.proofs_height_on_b).is_err() {
        return Err(
            ContextError::Client(
                ClientError::MissingLocalConsensusState { height: msg.proofs_height_on_b },
            ),
        );
    }
    if ctx.host_height().lt(&msg.consensus_height_of_a_on_b) {
        return Err(ContextError::Connection(ConnectionError::InvalidConsensusHeight));
    }
    let mut opened = end.duplicate();
    opened.state = State::Open;
    opened.counterparty.connection_id = Some(msg.conn_id_on_b.duplicate_exact());
    opened.versions = vec![msg.version.duplicate()];
    assert(opened@.versions =~= seq![msg.version@]);
    ctx.store_connection(&msg.conn_id_on_a, opened);
    ctx.emit_ibc_event(IbcEvent::OpenAckConnection { connection_id: msg.conn_id_on_a.duplicate_exact() });
    Ok(())
}

} // verus!
