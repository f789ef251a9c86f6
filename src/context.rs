//! The in-memory host context: every IBC entity kept in a path-addressed
//! store, the identifier counters, and the events and log lines that the
//! handlers emit.
use vstd::prelude::*;

use crate::channel::ChannelEnd;
use crate::client::{
    ClientError, ClientExecutionContext, ClientTypes, ClientValidationContext, Height,
    MockClientState, MockConsensusState,
};
use crate::connection::ConnectionEnd;
use crate::error::{ChannelError, ConnectionError, PacketError};
use crate::connection::Version;
use crate::identifiers::{
    has_affixes, is_named_index, middle, parse_u64, parse_u64_spec, strip_affixes,
    valid_client_id, ChannelId, ClientId, ConnectionId, PortId,
};
use crate::path::{
    ack_path, ack_path_spec, channel_end_path, channel_end_path_spec, client_connections_path,
    client_connections_path_spec, client_state_path, client_state_path_spec, commitment_path,
    commitment_path_spec, connection_path, connection_path_spec, consensus_state_path,
    consensus_state_path_spec, receipt_path, receipt_path_spec, seq_ack_path, seq_ack_path_spec,
    seq_recv_path, seq_recv_path_spec, seq_send_path, seq_send_path_spec,
};
use crate::store::PathMap;

verus! {

/// An event emitted by a handler.
#[derive(Clone, Debug, PartialEq, Eq)]
pub enum IbcEvent {
    CreateClient { client_id: ClientId },
    UpdateClient { client_id: ClientId, height: Height },
    ClientMisbehaviour { client_id: ClientId },
    OpenInitConnection { connection_id: ConnectionId },
    OpenTryConnection { connection_id: ConnectionId },
    OpenAckConnection { connection_id: ConnectionId },
    OpenConfirmConnection { connection_id: ConnectionId },
    OpenInitChannel { port_id: PortId, channel_id: ChannelId },
    OpenTryChannel { port_id: PortId, channel_id: ChannelId },
    OpenAckChannel { port_id: PortId, channel_id: ChannelId },
    OpenConfirmChannel { port_id: PortId, channel_id: ChannelId },
    CloseInitChannel { port_id: PortId, channel_id: ChannelId },
    CloseConfirmChannel { port_id: PortId, channel_id: ChannelId },
    /// Marks that the channel module handled a message.
    ChannelMessage,
    SendPacket { sequence: u64 },
    ReceivePacket { sequence: u64 },
    WriteAcknowledgement { sequence: u64 },
    AcknowledgePacket { sequence: u64 },
    TimeoutPacket { sequence: u64 },
    ChannelClosed { port_id: PortId, channel_id: ChannelId },
}

/// A packet commitment or acknowledgement found on a channel.
#[derive(Clone, Debug, PartialEq, Eq)]
pub struct PacketState {
    pub port_id: PortId,
    pub chan_id: ChannelId,
    pub seq: u64,
    pub data: Vec<u8>,
}

/// A connection end with its identifier.
#[derive(Clone, Debug, PartialEq, Eq)]
pub struct IdentifiedConnectionEnd {
    pub connection_id: ConnectionId,
    pub connection_end: ConnectionEnd,
}

/// `e` is the entry that `store` keeps for its sequence on `(port, chan)`
/// under the paths rooted at `root`.
pub open spec fn stored_entry(
    store: Map<Seq<char>, Vec<u8>>,
    port: Seq<char>,
    chan: Seq<char>,
    e: PacketState,
    root: Seq<char>,
) -> bool {
    let p = crate::path::packet_path_spec(root, port, chan, e.seq);
    &&& e.port_id@ == port
    &&& e.chan_id@ == chan
    &&& store.contains_key(p)
    &&& e.data@ == store[p]@
}

/// The height that the last segment `{rev}-{height}` of a consensus state
/// path names: both canonical numerals, the height not 0.
pub open spec fn parse_height_spec(mid: Seq<char>) -> Option<(u64, u64)> {
    match crate::chain_id::split_chain_id_spec(mid) {
        Some((a, h)) => match parse_u64_spec(a) {
            Some(rev) => if h > 0 {
                Some((rev, h))
            } else {
                None
            },
            None => None,
        },
        None => None,
    }
}

/// `k` is the position of the first `/` in `s`.
pub open spec fn is_first_slash(s: Seq<char>, k: int) -> bool {
    &&& 0 <= k < s.len()
    &&& s[k] == '/'
    &&& forall|j: int| 0 <= j < k ==> s[j] != '/'
}

/// The port and channel that `{port}/channels/{channel}` names, split at
/// the first `/` (a port identifier holds none).
pub open spec fn split_port_channel_spec(mid: Seq<char>) -> Option<(Seq<char>, Seq<char>)> {
    if exists|k: int| is_first_slash(mid, k) {
        let k = choose|k: int| is_first_slash(mid, k);
        let rest = mid.subrange(k, mid.len() as int);
        if has_affixes(rest, "/channels/"@, ""@) {
            Some((mid.subrange(0, k), middle(rest, "/channels/"@, ""@)))
        } else {
            None
        }
    } else {
        None
    }
}

/// A stored channel path names a valid port and channel.
pub open spec fn names_channel(k: Seq<char>) -> bool {
    &&& has_affixes(k, "channelEnds/ports/"@, ""@)
    &&& split_port_channel_spec(middle(k, "channelEnds/ports/"@, ""@)) matches Some((p, c))
    &&& crate::identifiers::valid_port_id(p)
    &&& is_named_index(c, "channel-"@)
}

/// `b` is a copy of `a`.
pub open spec fn same_channel_end(a: ChannelEnd, b: ChannelEnd) -> bool {
    &&& a.state == b.state
    &&& a.ordering == b.ordering
    &&& a.remote == b.remote
    &&& a.connection_hops@ == b.connection_hops@
    &&& a.version == b.version
}

/// A channel end with its port and channel.
#[derive(Clone, Debug, PartialEq, Eq)]
pub struct IdentifiedChannelEnd {
    pub port_id: PortId,
    pub channel_id: ChannelId,
    pub channel_end: ChannelEnd,
}

fn find_first_slash(s: &str) -> (r: Option<usize>)
    ensures
        match r {
            Some(k) => is_first_slash(s@, k as int),
            None => !exists|k: int| is_first_slash(s@, k),
        },
{
    let n = s.unicode_len();
    let mut i: usize = 0;
    while i < n
        invariant
            n == s@.len(),
            i <= n,
            forall|j: int| 0 <= j < i ==> s@[j] != '/',
        decreases n - i,
    {
        if s.get_char(i) == '/' {
            return Some(i);
        }
        i = i + 1;
    }
    None
}

proof fn lemma_first_slash_unique(s: Seq<char>, k: int)
    requires
        is_first_slash(s, k),
    ensures
        (choose|j: int| is_first_slash(s, j)) == k,
{
    let c = choose|j: int| is_first_slash(s, j);
    assert(is_first_slash(s, c));
    if c < k {
        assert(s[c] != '/');
    } else if c > k {
        assert(s[k] != '/');
    }
}

fn copy_channel_end(c: &ChannelEnd) -> (r: ChannelEnd)
    ensures
        same_channel_end(*c, r),
{
    ChannelEnd {
        state: c.state,
        ordering: c.ordering,
        remote: crate::channel::ChannelCounterparty {
            port_id: c.remote.port_id.duplicate_exact(),
            channel_id: match &c.remote.channel_id {
                Some(id) => Some(id.duplicate_exact()),
                None => None,
            },
        },
        connection_hops: crate::packet::duplicate_hops(&c.connection_hops),
        version: c.version.clone(),
    }
}

/// `clients/{client}/consensusStates/`
pub open spec fn consensus_prefix_spec(client: Seq<char>) -> Seq<char> {
    "clients/"@ + client + "/consensusStates/"@
}

/// The prefix under which this host keeps its IBC state: the bytes of `ibc`.
pub open spec fn host_prefix() -> Seq<u8> {
    seq![105u8, 98u8, 99u8]
}

/// The whole state of a host context, as values.
pub ghost struct ContextView {
    pub client_states: Map<Seq<char>, MockClientState>,
    pub consensus_states: Map<Seq<char>, MockConsensusState>,
    /// The host timestamp at which each consensus state was stored.
    pub processed_times: Map<Seq<char>, u64>,
    pub connections: Map<Seq<char>, ConnectionEnd>,
    pub client_connections: Map<Seq<char>, Vec<ConnectionId>>,
    pub channels: Map<Seq<char>, ChannelEnd>,
    pub send_seqs: Map<Seq<char>, u64>,
    pub recv_seqs: Map<Seq<char>, u64>,
    pub ack_seqs: Map<Seq<char>, u64>,
    pub commitments: Map<Seq<char>, Vec<u8>>,
    pub receipts: Map<Seq<char>, ()>,
    pub acks: Map<Seq<char>, Vec<u8>>,
    pub client_counter: u64,
    pub connection_counter: u64,
    pub channel_counter: u64,
    pub events: Seq<IbcEvent>,
    pub logs: Seq<String>,
    pub host_height: Height,
    pub host_timestamp: u64,
}

/// A host chain's IBC state, held in memory.
pub struct MockContext {
    client_states: PathMap<MockClientState>,
    consensus_states: PathMap<MockConsensusState>,
    processed_times: PathMap<u64>,
    connections: PathMap<ConnectionEnd>,
    client_connections: PathMap<Vec<ConnectionId>>,
    channels: PathMap<ChannelEnd>,
    send_seqs: PathMap<u64>,
    recv_seqs: PathMap<u64>,
    ack_seqs: PathMap<u64>,
    commitments: PathMap<Vec<u8>>,
    receipts: PathMap<()>,
    acks: PathMap<Vec<u8>>,
    client_counter: u64,
    connection_counter: u64,
    channel_counter: u64,
    events: Vec<IbcEvent>,
    logs: Vec<String>,
    host_height: Height,
    host_timestamp: u64,
}

impl View for MockContext {
    type V = ContextView;

    closed spec fn view(&self) -> ContextView {
        ContextView {
            client_states: self.client_states@,
            consensus_states: self.consensus_states@,
            processed_times: self.processed_times@,
            connections: self.connections@,
            client_connections: self.client_connections@,
            channels: self.channels@,
            send_seqs: self.send_seqs@,
            recv_seqs: self.recv_seqs@,
            ack_seqs: self.ack_seqs@,
            commitments: self.commitments@,
            receipts: self.receipts@,
            acks: self.acks@,
            client_counter: self.client_counter,
            connection_counter: self.connection_counter,
            channel_counter: self.channel_counter,
            events: self.events@,
            logs: self.logs@,
            host_height: self.host_height,
            host_timestamp: self.host_timestamp,
        }
    }
}

impl MockContext {
    /// Every store of the context is well formed.
    pub closed spec fn wf(&self) -> bool {
        &&& self.client_states.wf()
        &&& self.consensus_states.wf()
        &&& self.processed_times.wf()
        &&& self.connections.wf()
        &&& self.client_connections.wf()
        &&& self.channels.wf()
        &&& self.send_seqs.wf()
        &&& self.recv_seqs.wf()
        &&& self.ack_seqs.wf()
        &&& self.commitments.wf()
        &&& self.receipts.wf()
        &&& self.acks.wf()
    }

    /// An empty host at `host_height` and `host_timestamp`.
    pub fn new(host_height: Height, host_timestamp: u64) -> (r: MockContext)
        ensures
            r.wf(),
            r@.client_states.is_empty(),
            r@.consensus_states.is_empty(),
            r@.processed_times.is_empty(),
            r@.connections.is_empty(),
            r@.client_connections.is_empty(),
            r@.channels.is_empty(),
            r@.send_seqs.is_empty(),
            r@.recv_seqs.is_empty(),
            r@.ack_seqs.is_empty(),
            r@.commitments.is_empty(),
            r@.receipts.is_empty(),
            r@.acks.is_empty(),
            r@.client_counter == 0,
            r@.connection_counter == 0,
            r@.channel_counter == 0,
            r@.events.len() == 0,
            r@.logs.len() == 0,
            r@.host_height == host_height,
            r@.host_timestamp == host_timestamp,
    {
        MockContext {
            client_states: PathMap::new(),
            consensus_states: PathMap::new(),
            processed_times: PathMap::new(),
            connections: PathMap::new(),
            client_connections: PathMap::new(),
            channels: PathMap::new(),
            send_seqs: PathMap::new(),
            recv_seqs: PathMap::new(),
            ack_seqs: PathMap::new(),
            commitments: PathMap::new(),
            receipts: PathMap::new(),
            acks: PathMap::new(),
            client_counter: 0,
            connection_counter: 0,
            channel_counter: 0,
            events: Vec::new(),
            logs: Vec::new(),
            host_height,
            host_timestamp,
        }
    }

    /// The client state of `client_id`.
    pub fn client_state(&self, client_id: &ClientId) -> (r: Result<MockClientState, ClientError>)
        requires
            self.wf(),
        ensures
            match r {
                Ok(cs) => self@.client_states.contains_key(client_state_path_spec(client_id@))
                    && cs == self@.client_states[client_state_path_spec(client_id@)],
                Err(e) => !self@.client_states.contains_key(client_state_path_spec(client_id@))
                    && e is ClientStateNotFound,
            },
    {
        match self.client_states.get(client_state_path(client_id).as_str()) {
            Some(cs) => Ok(*cs),
            None => Err(ClientError::ClientStateNotFound { client_id: client_id.duplicate_exact() }),
        }
    }

    /// The consensus state of `client_id` at `height`.
    pub fn consensus_state(&self, client_id: &ClientId, height: &Height) -> (r: Result<
        MockConsensusState,
        ClientError,
    >)
        requires
            self.wf(),
        ensures
            ({
                let p = consensus_state_path_spec(client_id@, height@.0, height@.1);
                match r {
                    Ok(cs) => self@.consensus_states.contains_key(p) && cs
                        == self@.consensus_states[p],
                    Err(e) => !self@.consensus_states.contains_key(p)
                        && e is ConsensusStateNotFound,
                }
            }),
    {
        let p = consensus_state_path(client_id, height.revision_number(), height.revision_height());
        match self.consensus_states.get(p.as_str()) {
            Some(cs) => Ok(*cs),
            None => Err(
                ClientError::ConsensusStateNotFound {
                    client_id: client_id.duplicate_exact(),
                    height: *height,
                },
            ),
        }
    }

    /// The prefix under which this host keeps its IBC state: `ibc`.
    pub fn commitment_prefix(&self) -> (r: Vec<u8>)
        ensures
            r@ == host_prefix(),
    {
        vec![105u8, 98u8, 99u8]
    }

    /// The host's own height.
    pub fn host_height(&self) -> (r: Height)
        ensures
            r == self@.host_height,
    {
        self.host_height
    }

    /// The host's own consensus state at `height`. The host keeps only the
    /// block it is at, so only the current height has one.
    pub fn host_consensus_state(&self, height: &Height) -> (r: Result<MockConsensusState, ClientError>)
        ensures
            height@ == self@.host_height@ ==> r == Ok::<MockConsensusState, ClientError>(
                MockConsensusState { height: self@.host_height, timestamp: self@.host_timestamp },
            ),
            height@ != self@.host_height@ ==> r == Err::<MockConsensusState, ClientError>(
                ClientError::MissingLocalConsensusState { height: *height },
            ),
    {
        if height.same(&self.host_height) {
            Ok(MockConsensusState { height: self.host_height, timestamp: self.host_timestamp })
        } else {
            Err(ClientError::MissingLocalConsensusState { height: *height })
        }
    }

    /// The host's own timestamp.
    pub fn host_timestamp(&self) -> (r: u64)
        ensures
            r == self@.host_timestamp,
    {
        self.host_timestamp
    }

    /// The connection end of `conn_id`.
    pub fn connection_end(&self, conn_id: &ConnectionId) -> (r: Result<&ConnectionEnd, ConnectionError>)
        requires
            self.wf(),
        ensures
            match r {
                Ok(c) => self@.connections.contains_key(connection_path_spec(conn_id@)) && *c
                    == self@.connections[connection_path_spec(conn_id@)],
                Err(e) => !self@.connections.contains_key(connection_path_spec(conn_id@))
                    && e is ConnectionNotFound,
            },
    {
        match self.connections.get(connection_path(conn_id).as_str()) {
            Some(c) => Ok(c),
            None => Err(ConnectionError::ConnectionNotFound { connection_id: conn_id.duplicate_exact() }),
        }
    }

    /// The channel end of `(port_id, channel_id)`.
    pub fn channel_end(&self, port_id: &PortId, channel_id: &ChannelId) -> (r: Result<
        &ChannelEnd,
        ChannelError,
    >)
        requires
            self.wf(),
        ensures
            ({
                let p = channel_end_path_spec(port_id@, channel_id@);
                match r {
                    Ok(c) => self@.channels.contains_key(p) && *c == self@.channels[p],
                    Err(e) => !self@.channels.contains_key(p) && e is ChannelNotFound,
                }
            }),
    {
        match self.channels.get(channel_end_path(port_id, channel_id).as_str()) {
            Some(c) => Ok(c),
            None => Err(
                ChannelError::ChannelNotFound {
                    port_id: port_id.duplicate_exact(),
                    channel_id: channel_id.duplicate_exact(),
                },
            ),
        }
    }

    /// The next sequence to send on `(port_id, channel_id)`.
    pub fn get_next_sequence_send(&self, port_id: &PortId, channel_id: &ChannelId) -> (r: Result<
        u64,
        PacketError,
    >)
        requires
            self.wf(),
        ensures
            ({
                let p = seq_send_path_spec(port_id@, channel_id@);
                match r {
                    Ok(s) => self@.send_seqs.contains_key(p) && s == self@.send_seqs[p],
                    Err(e) => !self@.send_seqs.contains_key(p) && e is MissingSequence,
                }
            }),
    {
        match self.send_seqs.get(seq_send_path(port_id, channel_id).as_str()) {
            Some(s) => Ok(*s),
            None => Err(PacketError::MissingSequence),
        }
    }

    /// The next sequence to receive on `(port_id, channel_id)`.
    pub fn get_next_sequence_recv(&self, port_id: &PortId, channel_id: &ChannelId) -> (r: Result<
        u64,
        PacketError,
    >)
        requires
            self.wf(),
        ensures
            ({
                let p = seq_recv_path_spec(port_id@, channel_id@);
                match r {
                    Ok(s) => self@.recv_seqs.contains_key(p) && s == self@.recv_seqs[p],
                    Err(e) => !self@.recv_seqs.contains_key(p) && e is MissingSequence,
                }
            }),
    {
        match self.recv_seqs.get(seq_recv_path(port_id, channel_id).as_str()) {
            Some(s) => Ok(*s),
            None => Err(PacketError::MissingSequence),
        }
    }

    /// The next sequence to acknowledge on `(port_id, channel_id)`.
    pub fn get_next_sequence_ack(&self, port_id: &PortId, channel_id: &ChannelId) -> (r: Result<
        u64,
        PacketError,
    >)
        requires
            self.wf(),
        ensures
            ({
                let p = seq_ack_path_spec(port_id@, channel_id@);
                match r {
                    Ok(s) => self@.ack_seqs.contains_key(p) && s == self@.ack_seqs[p],
                    Err(e) => !self@.ack_seqs.contains_key(p) && e is MissingSequence,
                }
            }),
    {
        match self.ack_seqs.get(seq_ack_path(port_id, channel_id).as_str()) {
            Some(s) => Ok(*s),
            None => Err(PacketError::MissingSequence),
        }
    }

    /// The commitment of the packet `seq` sent on `(port_id, channel_id)`.
    pub fn get_packet_commitment(&self, port_id: &PortId, channel_id: &ChannelId, seq: u64) -> (r:
        Result<&Vec<u8>, PacketError>)
        requires
            self.wf(),
        ensures
            ({
                let p = commitment_path_spec(port_id@, channel_id@, seq);
                match r {
                    Ok(c) => self@.commitments.contains_key(p) && *c == self@.commitments[p],
                    Err(e) => !self@.commitments.contains_key(p) && e
                        == PacketError::PacketCommitmentNotFound { sequence: seq },
                }
            }),
    {
        match self.commitments.get(commitment_path(port_id, channel_id, seq).as_str()) {
            Some(c) => Ok(c),
            None => Err(PacketError::PacketCommitmentNotFound { sequence: seq }),
        }
    }

    /// Whether the packet `seq` was received on `(port_id, channel_id)`.
    pub fn get_packet_receipt(&self, port_id: &PortId, channel_id: &ChannelId, seq: u64) -> (r:
        Result<(), PacketError>)
        requires
            self.wf(),
        ensures
            ({
                let p = receipt_path_spec(port_id@, channel_id@, seq);
                match r {
                    Ok(_) => self@.receipts.contains_key(p),
                    Err(e) => !self@.receipts.contains_key(p) && e
                        == PacketError::PacketReceiptNotFound { sequence: seq },
                }
            }),
    {
        if self.receipts.contains(receipt_path(port_id, channel_id, seq).as_str()) {
            Ok(())
        } else {
            Err(PacketError::PacketReceiptNotFound { sequence: seq })
        }
    }

    /// The acknowledgement commitment of the packet `seq` received on `(port_id, channel_id)`.
    pub fn get_packet_acknowledgement(&self, port_id: &PortId, channel_id: &ChannelId, seq: u64) -> (r:
        Result<&Vec<u8>, PacketError>)
        requires
            self.wf(),
        ensures
            ({
                let p = ack_path_spec(port_id@, channel_id@, seq);
                match r {
                    Ok(c) => self@.acks.contains_key(p) && *c == self@.acks[p],
                    Err(e) => !self@.acks.contains_key(p) && e
                        == PacketError::PacketAcknowledgementNotFound { sequence: seq },
                }
            }),
    {
        match self.acks.get(ack_path(port_id, channel_id, seq).as_str()) {
            Some(c) => Ok(c),
            None => Err(PacketError::PacketAcknowledgementNotFound { sequence: seq }),
        }
    }

    /// How many clients were created.
    pub fn client_counter(&self) -> (r: u64)
        ensures
            r == self@.client_counter,
    {
        self.client_counter
    }

    /// How many connections were created.
    pub fn connection_counter(&self) -> (r: u64)
        ensures
            r == self@.connection_counter,
    {
        self.connection_counter
    }

    /// How many channels were created.
    pub fn channel_counter(&self) -> (r: u64)
        ensures
            r == self@.channel_counter,
    {
        self.channel_counter
    }

    /// The events emitted so far.
    pub fn events(&self) -> (r: &Vec<IbcEvent>)
        ensures
            r@ == self@.events,
    {
        &self.events
    }

    /// The log lines written so far.
    pub fn logs(&self) -> (r: &Vec<String>)
        ensures
            r@ == self@.logs,
    {
        &self.logs
    }

    /// The sequences of `seqs` whose packets have no receipt on
    /// `(port_id, channel_id)`, in the order given.
    pub fn unreceived_packets(&self, port_id: &PortId, channel_id: &ChannelId, seqs: &Vec<u64>) -> (r:
        Vec<u64>)
        requires
            self.wf(),
        ensures
            r@ == seqs@.filter(
                |s: u64| !self@.receipts.contains_key(receipt_path_spec(port_id@, channel_id@, s)),
            ),
    {
        let mut r: Vec<u64> = Vec::new();
        let mut i: usize = 0;
        while i < seqs.len()
            invariant
                self.wf(),
                i <= seqs@.len(),
                r@ == seqs@.subrange(0, i as int).filter(
                    |s: u64|
                        !self@.receipts.contains_key(receipt_path_spec(port_id@, channel_id@, s)),
                ),
            decreases seqs@.len() - i,
        {
            let s = seqs[i];
            proof {
                reveal(Seq::filter);
                assert(seqs@.subrange(0, i + 1).drop_last() =~= seqs@.subrange(0, i as int));
            }
            if self.get_packet_receipt(port_id, channel_id, s).is_err() {
                r.push(s);
            }
            i = i + 1;
        }
        assert(seqs@.subrange(0, seqs@.len() as int) =~= seqs@);
        r
    }

    /// The sequences of `seqs` whose packets still have a commitment on
    /// `(port_id, channel_id)`: sent and neither acknowledged nor timed out.
    /// When `seqs` is empty, the sequences of all commitments on the channel,
    /// as `packet_commitments` finds them. A commitment stands for an
    /// acknowledgement not received yet; that it may also stand for a packet
    /// the counterparty has not received is left to the caller.
    pub fn unreceived_acks(&self, port_id: &PortId, channel_id: &ChannelId, seqs: &Vec<u64>) -> (r:
        Vec<u64>)
        requires
            self.wf(),
        ensures
            seqs@.len() > 0 ==> r@ == seqs@.filter(
                |s: u64| self@.commitments.contains_key(commitment_path_spec(port_id@, channel_id@, s)),
            ),
            seqs@.len() == 0 ==> forall|i: int|
                0 <= i < r@.len() ==> self@.commitments.contains_key(
                    commitment_path_spec(port_id@, channel_id@, #[trigger] r@[i]),
                ),
            seqs@.len() == 0 ==> forall|k: Seq<char>|
                #[trigger] self@.commitments.contains_key(k) && has_affixes(
                    k,
                    crate::path::packet_prefix_spec("commitments"@, port_id@, channel_id@),
                    ""@,
                ) && parse_u64_spec(middle(k, crate::path::packet_prefix_spec("commitments"@, port_id@, channel_id@), ""@)) is Some
                    ==> exists|i: int|
                    0 <= i < r@.len() && commitment_path_spec(port_id@, channel_id@, #[trigger] r@[i]) == k,
            seqs@.len() == 0 ==> forall|a: int, b: int| 0 <= a < b < r@.len() ==> r@[a] != r@[b],
    {
        if seqs.len() == 0 {
            let all = self.packet_commitments(port_id, channel_id);
            let mut r: Vec<u64> = Vec::new();
            let mut i: usize = 0;
            while i < all.len()
                invariant
                    i <= all@.len(),
                    r@.len() == i,
                    forall|m: int| 0 <= m < i ==> #[trigger] r@[m] == all@[m].seq,
                decreases all@.len() - i,
            {
                r.push(all[i].seq);
                i = i + 1;
            }
            assert forall|k: Seq<char>|
                #[trigger] self@.commitments.contains_key(k) && has_affixes(
                    k,
                    crate::path::packet_prefix_spec("commitments"@, port_id@, channel_id@),
                    ""@,
                ) && parse_u64_spec(middle(k, crate::path::packet_prefix_spec("commitments"@, port_id@, channel_id@), ""@)) is Some
                    implies exists|i: int|
                    0 <= i < r@.len() && commitment_path_spec(port_id@, channel_id@, #[trigger] r@[i]) == k by {
                let j = choose|j: int| 0 <= j < all@.len() && commitment_path_spec(port_id@, channel_id@, #[trigger] all@[j].seq) == k;
                assert(r@[j] == all@[j].seq);
            }
            assert forall|m: int| 0 <= m < r@.len() implies self@.commitments.contains_key(
                    commitment_path_spec(port_id@, channel_id@, #[trigger] r@[m]),
                ) by {
                assert(stored_entry(self@.commitments, port_id@, channel_id@, all@[m], "commitments"@));
            }
            assert forall|a: int, b: int| 0 <= a < b < r@.len() implies r@[a] != r@[b] by {
                assert(all@[a].seq != all@[b].seq);
            }
            return r;
        }
        let mut r: Vec<u64> = Vec::new();
        let mut i: usize = 0;
        while i < seqs.len()
            invariant
                self.wf(),
                i <= seqs@.len(),
                r@ == seqs@.subrange(0, i as int).filter(
                    |s: u64|
                        self@.commitments.contains_key(commitment_path_spec(port_id@, channel_id@, s)),
                ),
            decreases seqs@.len() - i,
        {
            let s = seqs[i];
            proof {
                reveal(Seq::filter);
                assert(seqs@.subrange(0, i + 1).drop_last() =~= seqs@.subrange(0, i as int));
            }
            if self.get_packet_commitment(port_id, channel_id, s).is_ok() {
                r.push(s);
            }
            i = i + 1;
        }
        assert(seqs@.subrange(0, seqs@.len() as int) =~= seqs@);
        r
    }
    /// Raises the client counter by one; fails when it is at `u64::MAX`.
    pub fn increase_client_counter(&mut self) -> (r: Result<(), ClientError>)
        ensures
            old(self)@.client_counter < u64::MAX ==> r is Ok && final(self)@ == (ContextView {
                client_counter: (old(self)@.client_counter + 1) as u64,
                ..old(self)@
            }),
            old(self)@.client_counter == u64::MAX ==> r == Err::<(), ClientError>(
                ClientError::CounterOverflow,
            ) && final(self)@ == old(self)@,
            final(self).wf() == old(self).wf(),
    {
        if self.client_counter == u64::MAX {
            return Err(ClientError::CounterOverflow);
        }
        self.client_counter = self.client_counter + 1;
        Ok(())
    }

    /// Raises the connection counter by one; fails when it is at `u64::MAX`.
    pub fn increase_connection_counter(&mut self) -> (r: Result<(), ConnectionError>)
        ensures
            old(self)@.connection_counter < u64::MAX ==> r is Ok && final(self)@ == (ContextView {
                connection_counter: (old(self)@.connection_counter + 1) as u64,
                ..old(self)@
            }),
            old(self)@.connection_counter == u64::MAX ==> r == Err::<(), ConnectionError>(
                ConnectionError::CounterOverflow,
            ) && final(self)@ == old(self)@,
            final(self).wf() == old(self).wf(),
    {
        if self.connection_counter == u64::MAX {
            return Err(ConnectionError::CounterOverflow);
        }
        self.connection_counter = self.connection_counter + 1;
        Ok(())
    }

    /// Raises the channel counter by one; fails when it is at `u64::MAX`.
    pub fn increase_channel_counter(&mut self) -> (r: Result<(), ChannelError>)
        ensures
            old(self)@.channel_counter < u64::MAX ==> r is Ok && final(self)@ == (ContextView {
                channel_counter: (old(self)@.channel_counter + 1) as u64,
                ..old(self)@
            }),
            old(self)@.channel_counter == u64::MAX ==> r == Err::<(), ChannelError>(
                ChannelError::CounterOverflow,
            ) && final(self)@ == old(self)@,
            final(self).wf() == old(self).wf(),
    {
        if self.channel_counter == u64::MAX {
            return Err(ChannelError::CounterOverflow);
        }
        self.channel_counter = self.channel_counter + 1;
        Ok(())
    }

    /// Stores `client_state` for `client_id`.
    pub fn store_client_state(&mut self, client_id: &ClientId, client_state: MockClientState)
        requires
            old(self).wf(),
        ensures
            final(self).wf(),
            final(self)@ == (ContextView {
                client_states: old(self)@.client_states.insert(
                    client_state_path_spec(client_id@),
                    client_state,
                ),
                ..old(self)@
            }),
    {
        self.client_states.set(client_state_path(client_id), client_state);
    }

    /// Stores `consensus_state` for `client_id` at `height`.
    pub fn store_consensus_state(
        &mut self,
        client_id: &ClientId,
        height: &Height,
        consensus_state: MockConsensusState,
    )
        requires
            old(self).wf(),
        ensures
            final(self).wf(),
            final(self)@ == (ContextView {
                consensus_states: old(self)@.consensus_states.insert(
                    consensus_state_path_spec(client_id@, height@.0, height@.1),
                    consensus_state,
                ),
                processed_times: old(self)@.processed_times.insert(
                    consensus_state_path_spec(client_id@, height@.0, height@.1),
                    old(self)@.host_timestamp,
                ),
                ..old(self)@
            }),
    {
        let p = consensus_state_path(client_id, height.revision_number(), height.revision_height());
        let q = consensus_state_path(client_id, height.revision_number(), height.revision_height());
        self.consensus_states.set(p, consensus_state);
        self.processed_times.set(q, self.host_timestamp);
    }

    /// The host timestamp at which the consensus state of `client_id` at
    /// `height` was stored, if it was.
    pub fn consensus_processed_time(&self, client_id: &ClientId, height: &Height) -> (r: Option<u64>)
        requires
            self.wf(),
        ensures
            ({
                let p = consensus_state_path_spec(client_id@, height@.0, height@.1);
                match r {
                    Some(t) => self@.processed_times.contains_key(p) && t == self@.processed_times[p],
                    None => !self@.processed_times.contains_key(p),
                }
            }),
    {
        let p = consensus_state_path(client_id, height.revision_number(), height.revision_height());
        match self.processed_times.get(p.as_str()) {
            Some(t) => Some(*t),
            None => None,
        }
    }

    /// Moves the host to a new block at `height` and `timestamp`.
    pub fn advance_host(&mut self, height: Height, timestamp: u64)
        ensures
            final(self)@ == (ContextView { host_height: height, host_timestamp: timestamp, ..old(self)@ }),
            final(self).wf() == old(self).wf(),
    {
        self.host_height = height;
        self.host_timestamp = timestamp;
    }

    /// Stores `connection_end` under `conn_id`.
    pub fn store_connection(&mut self, conn_id: &ConnectionId, connection_end: ConnectionEnd)
        requires
            old(self).wf(),
        ensures
            final(self).wf(),
            final(self)@ == (ContextView {
                connections: old(self)@.connections.insert(
                    connection_path_spec(conn_id@),
                    connection_end,
                ),
                ..old(self)@
            }),
    {
        self.connections.set(connection_path(conn_id), connection_end);
    }

    /// Appends `conn_id` to the connections recorded for `client_id`.
    pub fn store_connection_to_client(&mut self, client_id: &ClientId, conn_id: ConnectionId)
        requires
            old(self).wf(),
        ensures
            final(self).wf(),
            ({
                let p = client_connections_path_spec(client_id@);
                let before = if old(self)@.client_connections.contains_key(p) {
                    old(self)@.client_connections[p]@
                } else {
                    Seq::<ConnectionId>::empty()
                };
                &&& final(self)@.client_connections.contains_key(p)
                &&& final(self)@.client_connections[p]@ == before.push(conn_id)
                &&& final(self)@ == (ContextView {
                    client_connections: final(self)@.client_connections,
                    ..old(self)@
                })
                &&& final(self)@.client_connections.remove(p) == old(
                    self,
                )@.client_connections.remove(p)
            }),
    {
        let p = client_connections_path(client_id);
        let mut ids: Vec<ConnectionId> = Vec::new();
        match self.client_connections.get(p.as_str()) {
            Some(existing) => {
                let mut i: usize = 0;
                while i < existing.len()
                    invariant
                        i <= existing@.len(),
                        ids@ == existing@.subrange(0, i as int),
                    decreases existing@.len() - i,
                {
                    ids.push(existing[i].duplicate_exact());
                    i = i + 1;
                    assert(ids@ =~= existing@.subrange(0, i as int));
                }
                assert(existing@.subrange(0, existing@.len() as int) =~= existing@);
            },
            None => {},
        }
        ids.push(conn_id);
        self.client_connections.set(p, ids);
        assert(self.client_connections@.remove(client_connections_path_spec(client_id@))
            =~= old(self).client_connections@.remove(client_connections_path_spec(client_id@)));
    }

    /// Stores `channel_end` under `(port_id, channel_id)`.
    pub fn store_channel(&mut self, port_id: &PortId, channel_id: &ChannelId, channel_end: ChannelEnd)
        requires
            old(self).wf(),
        ensures
            final(self).wf(),
            final(self)@ == (ContextView {
                channels: old(self)@.channels.insert(
                    channel_end_path_spec(port_id@, channel_id@),
                    channel_end,
                ),
                ..old(self)@
            }),
    {
        self.channels.set(channel_end_path(port_id, channel_id), channel_end);
    }

    /// Sets the next sequence to send on `(port_id, channel_id)`.
    pub fn store_next_sequence_send(&mut self, port_id: &PortId, channel_id: &ChannelId, seq: u64)
        requires
            old(self).wf(),
        ensures
            final(self).wf(),
            final(self)@ == (ContextView {
                send_seqs: old(self)@.send_seqs.insert(seq_send_path_spec(port_id@, channel_id@), seq),
                ..old(self)@
            }),
    {
        self.send_seqs.set(seq_send_path(port_id, channel_id), seq);
    }

    /// Sets the next sequence to receive on `(port_id, channel_id)`.
    pub fn store_next_sequence_recv(&mut self, port_id: &PortId, channel_id: &ChannelId, seq: u64)
        requires
            old(self).wf(),
        ensures
            final(self).wf(),
            final(self)@ == (ContextView {
                recv_seqs: old(self)@.recv_seqs.insert(seq_recv_path_spec(port_id@, channel_id@), seq),
                ..old(self)@
            }),
    {
        self.recv_seqs.set(seq_recv_path(port_id, channel_id), seq);
    }

    /// Sets the next sequence to acknowledge on `(port_id, channel_id)`.
    pub fn store_next_sequence_ack(&mut self, port_id: &PortId, channel_id: &ChannelId, seq: u64)
        requires
            old(self).wf(),
        ensures
            final(self).wf(),
            final(self)@ == (ContextView {
                ack_seqs: old(self)@.ack_seqs.insert(seq_ack_path_spec(port_id@, channel_id@), seq),
                ..old(self)@
            }),
    {
        self.ack_seqs.set(seq_ack_path(port_id, channel_id), seq);
    }

    /// Stores the commitment of packet `seq` sent on `(port_id, channel_id)`.
    pub fn store_packet_commitment(
        &mut self,
        port_id: &PortId,
        channel_id: &ChannelId,
        seq: u64,
        commitment: Vec<u8>,
    )
        requires
            old(self).wf(),
        ensures
            final(self).wf(),
            final(self)@ == (ContextView {
                commitments: old(self)@.commitments.insert(
                    commitment_path_spec(port_id@, channel_id@, seq),
                    commitment,
                ),
                ..old(self)@
            }),
    {
        self.commitments.set(commitment_path(port_id, channel_id, seq), commitment);
    }

    /// Deletes the commitment of packet `seq` sent on `(port_id, channel_id)`.
    pub fn delete_packet_commitment(&mut self, port_id: &PortId, channel_id: &ChannelId, seq: u64)
        requires
            old(self).wf(),
        ensures
            final(self).wf(),
            final(self)@ == (ContextView {
                commitments: old(self)@.commitments.remove(
                    commitment_path_spec(port_id@, channel_id@, seq),
                ),
                ..old(self)@
            }),
    {
        self.commitments.remove(commitment_path(port_id, channel_id, seq).as_str());
    }

    /// Records that packet `seq` was received on `(port_id, channel_id)`.
    pub fn store_packet_receipt(&mut self, port_id: &PortId, channel_id: &ChannelId, seq: u64)
        requires
            old(self).wf(),
        ensures
            final(self).wf(),
            final(self)@ == (ContextView {
                receipts: old(self)@.receipts.insert(receipt_path_spec(port_id@, channel_id@, seq), ()),
                ..old(self)@
            }),
    {
        self.receipts.set(receipt_path(port_id, channel_id, seq), ());
    }

    /// Stores the acknowledgement commitment of packet `seq` received on `(port_id, channel_id)`.
    pub fn store_packet_acknowledgement(
        &mut self,
        port_id: &PortId,
        channel_id: &ChannelId,
        seq: u64,
        ack_commitment: Vec<u8>,
    )
        requires
            old(self).wf(),
        ensures
            final(self).wf(),
            final(self)@ == (ContextView {
                acks: old(self)@.acks.insert(ack_path_spec(port_id@, channel_id@, seq), ack_commitment),
                ..old(self)@
            }),
    {
        self.acks.set(ack_path(port_id, channel_id, seq), ack_commitment);
    }

    /// Deletes the acknowledgement commitment of packet `seq` on `(port_id, channel_id)`.
    pub fn delete_packet_acknowledgement(&mut self, port_id: &PortId, channel_id: &ChannelId, seq: u64)
        requires
            old(self).wf(),
        ensures
            final(self).wf(),
            final(self)@ == (ContextView {
                acks: old(self)@.acks.remove(ack_path_spec(port_id@, channel_id@, seq)),
                ..old(self)@
            }),
    {
        self.acks.remove(ack_path(port_id, channel_id, seq).as_str());
    }

    /// Appends `event` to the emitted events.
    pub fn emit_ibc_event(&mut self, event: IbcEvent)
        ensures
            final(self)@ == (ContextView { events: old(self)@.events.push(event), ..old(self)@ }),
            final(self).wf() == old(self).wf(),
    {
        self.events.push(event);
    }

    /// Appends `message` to the log.
    pub fn log_message(&mut self, message: String)
        ensures
            final(self)@ == (ContextView { logs: old(self)@.logs.push(message), ..old(self)@ }),
            final(self).wf() == old(self).wf(),
    {
        self.logs.push(message);
    }
}

impl ClientTypes for MockContext {
    type AnyClientState = MockClientState;

    type AnyConsensusState = MockConsensusState;
}

impl ClientValidationContext for MockContext {
    open spec fn valid(&self) -> bool {
        self.wf()
    }

    fn client_state(&self, client_id: &ClientId) -> Result<MockClientState, ClientError> {
        MockContext::client_state(self, client_id)
    }

    fn consensus_state(&self, client_id: &ClientId, height: &Height) -> Result<
        MockConsensusState,
        ClientError,
    > {
        MockContext::consensus_state(self, client_id, height)
    }
}

impl ClientExecutionContext for MockContext {
    fn store_client_state(&mut self, client_id: &ClientId, client_state: MockClientState) -> Result<
        (),
        ClientError,
    > {
        MockContext::store_client_state(self, client_id, client_state);
        Ok(())
    }

    fn store_consensus_state(
        &mut self,
        client_id: &ClientId,
        height: &Height,
        consensus_state: MockConsensusState,
    ) -> Result<(), ClientError> {
        MockContext::store_consensus_state(self, client_id, height, consensus_state);
        Ok(())
    }
}

impl MockContext {
    /// The versions this host supports.
    pub fn get_compatible_versions(&self) -> (r: Vec<Version>)
        ensures
            r@.len() == 1,
            r@[0]@ == Version::default_version_spec(),
    {
        let v = Version::default_version();
        proof {
            reveal_strlit("1");
            reveal_strlit("ORDER_ORDERED");
            reveal_strlit("ORDER_UNORDERED");
            assert(v@ =~= Version::default_version_spec());
        }
        vec![v]
    }

    /// Every client with its state. A stored path yields an entry exactly
    /// when it is `clients/{id}/clientState` for a valid client identifier.
    pub fn client_states(&self) -> (r: Vec<(ClientId, MockClientState)>)
        requires
            self.wf(),
        ensures
            forall|i: int|
                0 <= i < r@.len() ==> {
                    &&& valid_client_id(#[trigger] r@[i].0@)
                    &&& self@.client_states.contains_key(client_state_path_spec(r@[i].0@))
                    &&& r@[i].1 == self@.client_states[client_state_path_spec(r@[i].0@)]
                },
            forall|k: Seq<char>|
                #[trigger] self@.client_states.contains_key(k) && has_affixes(
                    k,
                    "clients/"@,
                    "/clientState"@,
                ) && valid_client_id(middle(k, "clients/"@, "/clientState"@)) ==> exists|i: int|
                    0 <= i < r@.len() && client_state_path_spec(#[trigger] r@[i].0@) == k,
            forall|a: int, b: int| 0 <= a < b < r@.len() ==> r@[a].0@ != r@[b].0@,
    {
        let keys = self.client_states.key_list();
        let mut r: Vec<(ClientId, MockClientState)> = Vec::new();
        let mut i: usize = 0;
        let ghost mut idx: Seq<int> = Seq::empty();
        while i < keys.len()
            invariant
                idx.len() == r@.len(),
                forall|m: int| 0 <= m < r@.len() ==> 0 <= #[trigger] idx[m] < i && client_state_path_spec(r@[m].0@) == keys@[idx[m]]@,
                forall|a: int, b: int| 0 <= a < b < r@.len() ==> idx[a] < idx[b],
                forall|x: int, y: int| 0 <= x < keys@.len() && 0 <= y < keys@.len() && x != y ==> keys@[x]@ != keys@[y]@,
                self.wf(),
                i <= keys@.len(),
                forall|j: int| 0 <= j < keys@.len() ==> #[trigger] self@.client_states.contains_key(keys@[j]@),
                forall|m: int|
                    0 <= m < r@.len() ==> {
                        &&& valid_client_id(#[trigger] r@[m].0@)
                        &&& self@.client_states.contains_key(client_state_path_spec(r@[m].0@))
                        &&& r@[m].1 == self@.client_states[client_state_path_spec(r@[m].0@)]
                    },
                forall|j: int|
                    0 <= j < i && has_affixes(#[trigger] keys@[j]@, "clients/"@, "/clientState"@)
                        && valid_client_id(middle(keys@[j]@, "clients/"@, "/clientState"@))
                        ==> exists|m: int| 0 <= m < r@.len() && client_state_path_spec(#[trigger] r@[m].0@) == keys@[j]@,
            decreases keys@.len() - i,
        {
            let ghost r0 = r@;
            let k = keys[i].as_str();
            assert(k@ == keys@[i as int]@);
            assert(self@.client_states.contains_key(k@));
            match strip_affixes(k, "clients/", "/clientState") {
                Some(mid) => {
                    match ClientId::parse(mid) {
                        Ok(id) => {
                            assert(client_state_path_spec(id@) == k@);
                            match self.client_states.get(k) {
                                Some(cs) => {
                                    r.push((id, *cs));
                                    proof {
                                        idx = idx.push(i as int);
                                    }
                                    assert(client_state_path_spec(r@[r@.len() - 1].0@) == keys@[i as int]@);
                                },
                                None => {},
                            }
                        },
                        Err(_) => {},
                    }
                },
                None => {},
            }
            assert forall|j: int|
                0 <= j < i + 1 && has_affixes(#[trigger] keys@[j]@, "clients/"@, "/clientState"@)
                    && valid_client_id(middle(keys@[j]@, "clients/"@, "/clientState"@)) implies exists|m: int|
                0 <= m < r@.len() && client_state_path_spec(#[trigger] r@[m].0@) == keys@[j]@ by {
                if j < i {
                    let m = choose|m: int| 0 <= m < r0.len() && client_state_path_spec(#[trigger] r0[m].0@) == keys@[j]@;
                    assert(r@[m] == r0[m]);
                } else {
                    assert(r@.len() == r0.len() + 1);
                    assert(client_state_path_spec(r@[r0.len() as int].0@) == keys@[j]@);
                }
            }
            i = i + 1;
        }
        assert forall|a: int, b: int| 0 <= a < b < r@.len() implies r@[a].0@ != r@[b].0@ by {
            assert(keys@[idx[a]]@ != keys@[idx[b]]@);
            assert(client_state_path_spec(r@[a].0@) == keys@[idx[a]]@);
            assert(client_state_path_spec(r@[b].0@) == keys@[idx[b]]@);
        }
        r
    }

    /// Every connection end with its identifier. A stored path yields an
    /// entry exactly when it is `connections/connection-{n}`.
    pub fn connection_ends(&self) -> (r: Vec<IdentifiedConnectionEnd>)
        requires
            self.wf(),
        ensures
            forall|i: int|
                0 <= i < r@.len() ==> {
                    &&& self@.connections.contains_key(connection_path_spec(#[trigger] r@[i].connection_id@))
                    &&& r@[i].connection_end@ == self@.connections[connection_path_spec(r@[i].connection_id@)]@
                },
            forall|k: Seq<char>|
                #[trigger] self@.connections.contains_key(k) && has_affixes(k, "connections/"@, ""@)
                    && is_named_index(middle(k, "connections/"@, ""@), "connection-"@) ==> exists|i: int|
                    0 <= i < r@.len() && connection_path_spec(#[trigger] r@[i].connection_id@) == k,
            forall|a: int, b: int| 0 <= a < b < r@.len() ==> r@[a].connection_id@ != r@[b].connection_id@,
    {
        let keys = self.connections.key_list();
        let mut r: Vec<IdentifiedConnectionEnd> = Vec::new();
        let mut i: usize = 0;
        proof {
            reveal_strlit("");
        }
        let ghost mut idx: Seq<int> = Seq::empty();
        while i < keys.len()
            invariant
                idx.len() == r@.len(),
                forall|m: int| 0 <= m < r@.len() ==> 0 <= #[trigger] idx[m] < i && connection_path_spec(r@[m].connection_id@) == keys@[idx[m]]@,
                forall|a: int, b: int| 0 <= a < b < r@.len() ==> idx[a] < idx[b],
                forall|x: int, y: int| 0 <= x < keys@.len() && 0 <= y < keys@.len() && x != y ==> keys@[x]@ != keys@[y]@,
                self.wf(),
                i <= keys@.len(),
                ""@ == Seq::<char>::empty(),
                forall|j: int| 0 <= j < keys@.len() ==> #[trigger] self@.connections.contains_key(keys@[j]@),
                forall|m: int|
                    0 <= m < r@.len() ==> {
                        &&& self@.connections.contains_key(connection_path_spec(#[trigger] r@[m].connection_id@))
                        &&& r@[m].connection_end@ == self@.connections[connection_path_spec(r@[m].connection_id@)]@
                    },
                forall|j: int|
                    0 <= j < i && has_affixes(#[trigger] keys@[j]@, "connections/"@, ""@)
                        && is_named_index(middle(keys@[j]@, "connections/"@, ""@), "connection-"@)
                        ==> exists|m: int| 0 <= m < r@.len() && connection_path_spec(#[trigger] r@[m].connection_id@) == keys@[j]@,
            decreases keys@.len() - i,
        {
            let ghost r0 = r@;
            let k = keys[i].as_str();
            assert(k@ == keys@[i as int]@);
            assert(self@.connections.contains_key(k@));
            match strip_affixes(k, "connections/", "") {
                Some(mid) => {
                    match ConnectionId::parse(mid) {
                        Ok(id) => {
                            assert(connection_path_spec(id@) =~= k@);
                            match self.connections.get(k) {
                                Some(end) => {
                                    r.push(IdentifiedConnectionEnd { connection_id: id, connection_end: end.duplicate() });
                                    proof {
                                        idx = idx.push(i as int);
                                    }
                                    assert(connection_path_spec(r@[r@.len() - 1].connection_id@) == keys@[i as int]@);
                                },
                                None => {},
                            }
                        },
                        Err(_) => {},
                    }
                },
                None => {},
            }
            assert forall|j: int|
                0 <= j < i + 1 && has_affixes(#[trigger] keys@[j]@, "connections/"@, ""@)
                    && is_named_index(middle(keys@[j]@, "connections/"@, ""@), "connection-"@) implies exists|m: int|
                0 <= m < r@.len() && connection_path_spec(#[trigger] r@[m].connection_id@) == keys@[j]@ by {
                if j < i {
                    let m = choose|m: int| 0 <= m < r0.len() && connection_path_spec(#[trigger] r0[m].connection_id@) == keys@[j]@;
                    assert(r@[m] == r0[m]);
                } else {
                    assert(r@.len() == r0.len() + 1);
                    assert(connection_path_spec(r@[r0.len() as int].connection_id@) == keys@[j]@);
                }
            }
            i = i + 1;
        }
        assert forall|a: int, b: int| 0 <= a < b < r@.len() implies r@[a].connection_id@ != r@[b].connection_id@ by {
            assert(keys@[idx[a]]@ != keys@[idx[b]]@);
            assert(connection_path_spec(r@[a].connection_id@) == keys@[idx[a]]@);
            assert(connection_path_spec(r@[b].connection_id@) == keys@[idx[b]]@);
        }
        r
    }

    /// The connections recorded for `client_id`; none if nothing is recorded.
    pub fn client_connection_ends(&self, client_id: &ClientId) -> (r: Vec<ConnectionId>)
        requires
            self.wf(),
        ensures
            ({
                let p = client_connections_path_spec(client_id@);
                if self@.client_connections.contains_key(p) {
                    r@ == self@.client_connections[p]@
                } else {
                    r@.len() == 0
                }
            }),
    {
        let mut r: Vec<ConnectionId> = Vec::new();
        match self.client_connections.get(client_connections_path(client_id).as_str()) {
            Some(ids) => {
                let mut i: usize = 0;
                while i < ids.len()
                    invariant
                        i <= ids@.len(),
                        r@ == ids@.subrange(0, i as int),
                    decreases ids@.len() - i,
                {
                    r.push(ids[i].duplicate_exact());
                    i = i + 1;
                    assert(r@ =~= ids@.subrange(0, i as int));
                }
                assert(ids@.subrange(0, ids@.len() as int) =~= ids@);
            },
            None => {},
        }
        r
    }

    /// Every entry of `store` under `{root}/ports/{port}/channels/{channel}/sequences/{seq}`.
    /// A stored path yields an entry exactly when it is such a path, with the
    /// sequence written as a canonical numeral.
    fn list_packet_states(store: &PathMap<Vec<u8>>, root: &str, port_id: &PortId, channel_id: &ChannelId) -> (r: Vec<PacketState>)
        requires
            store.wf(),
        ensures
            forall|i: int|
                0 <= i < r@.len() ==> stored_entry(store@, port_id@, channel_id@, #[trigger] r@[i], root@),
            forall|k: Seq<char>|
                #[trigger] store@.contains_key(k) && has_affixes(
                    k,
                    crate::path::packet_prefix_spec(root@, port_id@, channel_id@),
                    ""@,
                ) && parse_u64_spec(middle(k, crate::path::packet_prefix_spec(root@, port_id@, channel_id@), ""@)) is Some
                    ==> exists|i: int|
                    0 <= i < r@.len() && crate::path::packet_path_spec(root@, port_id@, channel_id@, #[trigger] r@[i].seq) == k,
            forall|a: int, b: int| 0 <= a < b < r@.len() ==> r@[a].seq != r@[b].seq,
    {
        let prefix = crate::path::packet_prefix(root, port_id, channel_id);
        let keys = store.key_list();
        let mut r: Vec<PacketState> = Vec::new();
        let mut i: usize = 0;
        proof {
            reveal_strlit("");
        }
        let ghost pre = prefix@;
        let ghost mut idx: Seq<int> = Seq::empty();
        while i < keys.len()
            invariant
                idx.len() == r@.len(),
                forall|m: int| 0 <= m < r@.len() ==> 0 <= #[trigger] idx[m] < i && crate::path::packet_path_spec(root@, port_id@, channel_id@, r@[m].seq) == keys@[idx[m]]@,
                forall|a: int, b: int| 0 <= a < b < r@.len() ==> idx[a] < idx[b],
                forall|x: int, y: int| 0 <= x < keys@.len() && 0 <= y < keys@.len() && x != y ==> keys@[x]@ != keys@[y]@,
                store.wf(),
                i <= keys@.len(),
                ""@ == Seq::<char>::empty(),
                pre == prefix@,
                pre == crate::path::packet_prefix_spec(root@, port_id@, channel_id@),
                forall|j: int| 0 <= j < keys@.len() ==> #[trigger] store@.contains_key(keys@[j]@),
                forall|m: int|
                    0 <= m < r@.len() ==> stored_entry(store@, port_id@, channel_id@, #[trigger] r@[m], root@),
                forall|j: int|
                    0 <= j < i && has_affixes(#[trigger] keys@[j]@, pre, ""@)
                        && parse_u64_spec(middle(keys@[j]@, pre, ""@)) is Some
                        ==> exists|m: int| 0 <= m < r@.len() && crate::path::packet_path_spec(root@, port_id@, channel_id@, #[trigger] r@[m].seq) == keys@[j]@,
            decreases keys@.len() - i,
        {
            let ghost r0 = r@;
            let k = keys[i].as_str();
            assert(k@ == keys@[i as int]@);
            assert(store@.contains_key(k@));
            match strip_affixes(k, prefix.as_str(), "") {
                Some(mid) => {
                    match parse_u64(mid) {
                        Some(seq) => {
                            proof {
                                crate::identifiers::lemma_canonical_unique(mid@);
                            }
                            assert(crate::path::packet_path_spec(root@, port_id@, channel_id@, seq) =~= k@);
                            match store.get(k) {
                                Some(c) => {
                                    r.push(PacketState {
                                        port_id: port_id.duplicate(),
                                        chan_id: channel_id.duplicate(),
                                        seq,
                                        data: c.clone(),
                                    });
                                    proof {
                                        idx = idx.push(i as int);
                                    }
                                    assert(crate::path::packet_path_spec(root@, port_id@, channel_id@, r@[r@.len() - 1].seq) == keys@[i as int]@);
                                },
                                None => {},
                            }
                        },
                        None => {},
                    }
                },
                None => {},
            }
            assert forall|m: int| 0 <= m < r0.len() implies r@[m] == r0[m] by {}
            assert forall|j: int|
                0 <= j < i + 1 && has_affixes(#[trigger] keys@[j]@, pre, ""@)
                    && parse_u64_spec(middle(keys@[j]@, pre, ""@)) is Some implies exists|m: int|
                0 <= m < r@.len() && crate::path::packet_path_spec(root@, port_id@, channel_id@, #[trigger] r@[m].seq) == keys@[j]@ by {
                if j < i {
                    let m = choose|m: int| 0 <= m < r0.len() && crate::path::packet_path_spec(root@, port_id@, channel_id@, #[trigger] r0[m].seq) == keys@[j]@;
                    assert(r@[m] == r0[m]);
                } else {
                    assert(r@.len() == r0.len() + 1);
                    assert(crate::path::packet_path_spec(root@, port_id@, channel_id@, r@[r0.len() as int].seq) == keys@[j]@);
                }
            }
            i = i + 1;
        }
        assert forall|a: int, b: int| 0 <= a < b < r@.len() implies r@[a].seq != r@[b].seq by {
            assert(keys@[idx[a]]@ != keys@[idx[b]]@);
            assert(crate::path::packet_path_spec(root@, port_id@, channel_id@, r@[a].seq) == keys@[idx[a]]@);
            assert(crate::path::packet_path_spec(root@, port_id@, channel_id@, r@[b].seq) == keys@[idx[b]]@);
        }
        r
    }

    /// Every packet commitment on `(port_id, channel_id)`, as `list_packet_states` finds them.
    pub fn packet_commitments(&self, port_id: &PortId, channel_id: &ChannelId) -> (r: Vec<PacketState>)
        requires
            self.wf(),
        ensures
            forall|i: int|
                0 <= i < r@.len() ==> stored_entry(self@.commitments, port_id@, channel_id@, #[trigger] r@[i], "commitments"@),
            forall|k: Seq<char>|
                #[trigger] self@.commitments.contains_key(k) && has_affixes(
                    k,
                    crate::path::packet_prefix_spec("commitments"@, port_id@, channel_id@),
                    ""@,
                ) && parse_u64_spec(middle(k, crate::path::packet_prefix_spec("commitments"@, port_id@, channel_id@), ""@)) is Some
                    ==> exists|i: int|
                    0 <= i < r@.len() && commitment_path_spec(port_id@, channel_id@, #[trigger] r@[i].seq) == k,
            forall|a: int, b: int| 0 <= a < b < r@.len() ==> r@[a].seq != r@[b].seq,
    {
        MockContext::list_packet_states(&self.commitments, "commitments", port_id, channel_id)
    }

    /// The acknowledgements on `(port_id, channel_id)`: of the sequences in
    /// `seqs`, in order, those that have one; all of them, as
    /// `list_packet_states` finds them, when `seqs` is empty.
    pub fn packet_acknowledgements(&self, port_id: &PortId, channel_id: &ChannelId, seqs: &Vec<u64>) -> (r: Vec<PacketState>)
        requires
            self.wf(),
        ensures
            forall|i: int|
                0 <= i < r@.len() ==> stored_entry(self@.acks, port_id@, channel_id@, #[trigger] r@[i], "acks"@),
            seqs@.len() > 0 ==> r@.map_values(|e: PacketState| e.seq) == seqs@.filter(
                |s: u64| self@.acks.contains_key(ack_path_spec(port_id@, channel_id@, s)),
            ),
            seqs@.len() == 0 ==> forall|k: Seq<char>|
                #[trigger] self@.acks.contains_key(k) && has_affixes(
                    k,
                    crate::path::packet_prefix_spec("acks"@, port_id@, channel_id@),
                    ""@,
                ) && parse_u64_spec(middle(k, crate::path::packet_prefix_spec("acks"@, port_id@, channel_id@), ""@)) is Some
                    ==> exists|i: int|
                    0 <= i < r@.len() && ack_path_spec(port_id@, channel_id@, #[trigger] r@[i].seq) == k,
            seqs@.len() == 0 ==> forall|a: int, b: int| 0 <= a < b < r@.len() ==> r@[a].seq != r@[b].seq,
    {
        if seqs.len() == 0 {
            return MockContext::list_packet_states(&self.acks, "acks", port_id, channel_id);
        }
        let mut r: Vec<PacketState> = Vec::new();
        let mut i: usize = 0;
        while i < seqs.len()
            invariant
                self.wf(),
                i <= seqs@.len(),
                forall|m: int|
                    0 <= m < r@.len() ==> stored_entry(self@.acks, port_id@, channel_id@, #[trigger] r@[m], "acks"@),
                r@.map_values(|e: PacketState| e.seq) == seqs@.subrange(0, i as int).filter(
                    |s: u64| self@.acks.contains_key(ack_path_spec(port_id@, channel_id@, s)),
                ),
            decreases seqs@.len() - i,
        {
            let s = seqs[i];
            let ghost r0 = r@;
            proof {
                reveal(Seq::filter);
                assert(seqs@.subrange(0, i + 1).drop_last() =~= seqs@.subrange(0, i as int));
            }
            match self.get_packet_acknowledgement(port_id, channel_id, s) {
                Ok(ack) => {
                    r.push(PacketState {
                        port_id: port_id.duplicate(),
                        chan_id: channel_id.duplicate(),
                        seq: s,
                        data: ack.clone(),
                    });
                    assert(r@.map_values(|e: PacketState| e.seq) =~= r0.map_values(|e: PacketState| e.seq).push(s));
                },
                Err(_) => {},
            }
            assert forall|m: int| 0 <= m < r0.len() implies r@[m] == r0[m] by {}
            i = i + 1;
        }
        assert(seqs@.subrange(0, seqs@.len() as int) =~= seqs@);
        r
    }
}

impl MockContext {
    /// Every consensus state of `client_id` with its height. A stored path
    /// yields an entry exactly when it is
    /// `clients/{client_id}/consensusStates/{rev}-{height}` with canonical
    /// numerals and a non-zero height.
    pub fn consensus_states(&self, client_id: &ClientId) -> (r: Vec<(Height, MockConsensusState)>)
        requires
            self.wf(),
        ensures
            forall|i: int|
                0 <= i < r@.len() ==> {
                    let p = consensus_state_path_spec(client_id@, (#[trigger] r@[i]).0@.0, r@[i].0@.1);
                    &&& self@.consensus_states.contains_key(p)
                    &&& r@[i].1 == self@.consensus_states[p]
                },
            forall|k: Seq<char>|
                #[trigger] self@.consensus_states.contains_key(k) && has_affixes(k, consensus_prefix_spec(client_id@), ""@)
                    && parse_height_spec(middle(k, consensus_prefix_spec(client_id@), ""@)) is Some
                    ==> exists|i: int|
                    0 <= i < r@.len() && consensus_state_path_spec(client_id@, (#[trigger] r@[i]).0@.0, r@[i].0@.1) == k,
            forall|a: int, b: int| 0 <= a < b < r@.len() ==> r@[a].0@ != r@[b].0@,
            forall|i: int| 0 <= i < r@.len() ==> (#[trigger] r@[i]).0@.1 > 0,
    {
        let mut prefix = String::from_str("clients/");
        prefix.append(client_id.as_str());
        prefix.append("/consensusStates/");
        let keys = self.consensus_states.key_list();
        let mut r: Vec<(Height, MockConsensusState)> = Vec::new();
        let mut i: usize = 0;
        proof {
            reveal_strlit("");
            reveal_strlit("-");
        }
        let ghost mut idx: Seq<int> = Seq::empty();
        while i < keys.len()
            invariant
                forall|m: int| 0 <= m < r@.len() ==> (#[trigger] r@[m]).0@.1 > 0,
                idx.len() == r@.len(),
                forall|m: int| 0 <= m < r@.len() ==> 0 <= #[trigger] idx[m] < i && consensus_state_path_spec(client_id@, r@[m].0@.0, r@[m].0@.1) == keys@[idx[m]]@,
                forall|a: int, b: int| 0 <= a < b < r@.len() ==> idx[a] < idx[b],
                forall|x: int, y: int| 0 <= x < keys@.len() && 0 <= y < keys@.len() && x != y ==> keys@[x]@ != keys@[y]@,
                self.wf(),
                i <= keys@.len(),
                ""@ == Seq::<char>::empty(),
                "-"@ == seq!['-'],
                prefix@ == consensus_prefix_spec(client_id@),
                forall|j: int| 0 <= j < keys@.len() ==> #[trigger] self@.consensus_states.contains_key(keys@[j]@),
                forall|m: int|
                    0 <= m < r@.len() ==> {
                        let p = consensus_state_path_spec(client_id@, (#[trigger] r@[m]).0@.0, r@[m].0@.1);
                        &&& self@.consensus_states.contains_key(p)
                        &&& r@[m].1 == self@.consensus_states[p]
                    },
                forall|j: int|
                    0 <= j < i && has_affixes(#[trigger] keys@[j]@, consensus_prefix_spec(client_id@), ""@)
                        && parse_height_spec(middle(keys@[j]@, consensus_prefix_spec(client_id@), ""@)) is Some
                        ==> exists|m: int| 0 <= m < r@.len() && consensus_state_path_spec(client_id@, (#[trigger] r@[m]).0@.0, r@[m].0@.1) == keys@[j]@,
            decreases keys@.len() - i,
        {
            let ghost r0 = r@;
            let k = keys[i].as_str();
            assert(k@ == keys@[i as int]@);
            assert(self@.consensus_states.contains_key(k@));
            match strip_affixes(k, prefix.as_str(), "") {
                Some(mid) => {
                    match crate::chain_id::parse_chain_id_string(mid) {
                        Ok((a, h)) => {
                            match parse_u64(a) {
                                Some(rev) => {
                                    if h > 0 {
                                        proof {
                                            crate::chain_id::lemma_chain_id_round_trip(mid@);
                                            crate::identifiers::lemma_canonical_unique(a@);
                                            assert(consensus_state_path_spec(client_id@, rev, h) =~= k@);
                                        }
                                        let height = Height::new(rev, h).unwrap();
                                        match self.consensus_states.get(k) {
                                            Some(cs) => {
                                                r.push((height, *cs));
                                                proof {
                                                    idx = idx.push(i as int);
                                                }
                                            },
                                            None => {},
                                        }
                                    }
                                },
                                None => {},
                            }
                        },
                        Err(_) => {},
                    }
                },
                None => {},
            }
            assert forall|m: int| 0 <= m < r0.len() implies r@[m] == r0[m] by {}
            assert forall|j: int|
                0 <= j < i + 1 && has_affixes(#[trigger] keys@[j]@, consensus_prefix_spec(client_id@), ""@)
                    && parse_height_spec(middle(keys@[j]@, consensus_prefix_spec(client_id@), ""@)) is Some
                    implies exists|m: int| 0 <= m < r@.len() && consensus_state_path_spec(client_id@, (#[trigger] r@[m]).0@.0, r@[m].0@.1) == keys@[j]@ by {
                if j < i {
                    let m = choose|m: int| 0 <= m < r0.len() && consensus_state_path_spec(client_id@, (#[trigger] r0[m]).0@.0, r0[m].0@.1) == keys@[j]@;
                    assert(r@[m] == r0[m]);
                } else {
                    assert(r@.len() == r0.len() + 1);
                    assert(consensus_state_path_spec(client_id@, r@[r0.len() as int].0@.0, r@[r0.len() as int].0@.1) == keys@[j]@);
                }
            }
            i = i + 1;
        }
        assert forall|a: int, b: int| 0 <= a < b < r@.len() implies r@[a].0@ != r@[b].0@ by {
            assert(keys@[idx[a]]@ != keys@[idx[b]]@);
            assert(consensus_state_path_spec(client_id@, r@[a].0@.0, r@[a].0@.1) == keys@[idx[a]]@);
            assert(consensus_state_path_spec(client_id@, r@[b].0@.0, r@[b].0@.1) == keys@[idx[b]]@);
        }
        r
    }

    /// The heights of every consensus state of `client_id`, as `consensus_states` finds them.
    pub fn consensus_state_heights(&self, client_id: &ClientId) -> (r: Vec<Height>)
        requires
            self.wf(),
        ensures
            forall|i: int|
                0 <= i < r@.len() ==> self@.consensus_states.contains_key(
                    consensus_state_path_spec(client_id@, (#[trigger] r@[i])@.0, r@[i]@.1),
                ),
            forall|k: Seq<char>|
                #[trigger] self@.consensus_states.contains_key(k) && has_affixes(k, consensus_prefix_spec(client_id@), ""@)
                    && parse_height_spec(middle(k, consensus_prefix_spec(client_id@), ""@)) is Some
                    ==> exists|i: int|
                    0 <= i < r@.len() && consensus_state_path_spec(client_id@, (#[trigger] r@[i])@.0, r@[i]@.1) == k,
            forall|i: int| 0 <= i < r@.len() ==> (#[trigger] r@[i])@.1 > 0,
            forall|a: int, b: int| 0 <= a < b < r@.len() ==> r@[a]@ != r@[b]@,
    {
        let all = self.consensus_states(client_id);
        let mut r: Vec<Height> = Vec::new();
        let mut i: usize = 0;
        while i < all.len()
            invariant
                i <= all@.len(),
                r@.len() == i,
                forall|m: int| 0 <= m < i ==> #[trigger] r@[m] == all@[m].0,
            decreases all@.len() - i,
        {
            r.push(all[i].0);
            i = i + 1;
        }
        assert forall|k: Seq<char>|
            #[trigger] self@.consensus_states.contains_key(k) && has_affixes(k, consensus_prefix_spec(client_id@), ""@)
                && parse_height_spec(middle(k, consensus_prefix_spec(client_id@), ""@)) is Some
                implies exists|i: int|
                0 <= i < r@.len() && consensus_state_path_spec(client_id@, (#[trigger] r@[i])@.0, r@[i]@.1) == k by {
            let j = choose|j: int| 0 <= j < all@.len() && consensus_state_path_spec(client_id@, (#[trigger] all@[j]).0@.0, all@[j].0@.1) == k;
            assert(r@[j] == all@[j].0);
        }
        assert forall|m: int| 0 <= m < r@.len() implies self@.consensus_states.contains_key(
                consensus_state_path_spec(client_id@, (#[trigger] r@[m])@.0, r@[m]@.1),
            ) by {
            assert(r@[m] == all@[m].0);
            let e = all@[m];
            assert(self@.consensus_states.contains_key(consensus_state_path_spec(client_id@, e.0@.0, e.0@.1)));
        }
        assert forall|a: int, b: int| 0 <= a < b < r@.len() implies r@[a]@ != r@[b]@ by {
            assert(all@[a].0@ != all@[b].0@);
        }
        assert forall|i: int| 0 <= i < r@.len() implies (#[trigger] r@[i])@.1 > 0 by {
            assert(all@[i].0@.1 > 0);
        }
        r
    }
}

impl MockContext {
    /// Every channel end with its port and channel. A stored path yields an
    /// entry exactly when it is `channelEnds/ports/{port}/channels/{channel}`
    /// for a valid port and a `channel-{n}` channel.
    pub fn channel_ends(&self) -> (r: Vec<IdentifiedChannelEnd>)
        requires
            self.wf(),
        ensures
            forall|i: int|
                0 <= i < r@.len() ==> {
                    let p = channel_end_path_spec((#[trigger] r@[i]).port_id@, r@[i].channel_id@);
                    &&& self@.channels.contains_key(p)
                    &&& same_channel_end(self@.channels[p], r@[i].channel_end)
                },
            forall|k: Seq<char>|
                #[trigger] self@.channels.contains_key(k) && names_channel(k) ==> exists|i: int|
                    0 <= i < r@.len() && channel_end_path_spec((#[trigger] r@[i]).port_id@, r@[i].channel_id@) == k,
            forall|a: int, b: int| 0 <= a < b < r@.len() ==> (r@[a].port_id@, r@[a].channel_id@) != (r@[b].port_id@, r@[b].channel_id@),
    {
        let keys = self.channels.key_list();
        let mut r: Vec<IdentifiedChannelEnd> = Vec::new();
        let mut i: usize = 0;
        proof {
            reveal_strlit("");
        }
        let ghost mut idx: Seq<int> = Seq::empty();
        while i < keys.len()
            invariant
                idx.len() == r@.len(),
                forall|m: int| 0 <= m < r@.len() ==> 0 <= #[trigger] idx[m] < i && channel_end_path_spec(r@[m].port_id@, r@[m].channel_id@) == keys@[idx[m]]@,
                forall|a: int, b: int| 0 <= a < b < r@.len() ==> idx[a] < idx[b],
                forall|x: int, y: int| 0 <= x < keys@.len() && 0 <= y < keys@.len() && x != y ==> keys@[x]@ != keys@[y]@,
                self.wf(),
                i <= keys@.len(),
                ""@ == Seq::<char>::empty(),
                forall|j: int| 0 <= j < keys@.len() ==> #[trigger] self@.channels.contains_key(keys@[j]@),
                forall|m: int|
                    0 <= m < r@.len() ==> {
                        let p = channel_end_path_spec((#[trigger] r@[m]).port_id@, r@[m].channel_id@);
                        &&& self@.channels.contains_key(p)
                        &&& same_channel_end(self@.channels[p], r@[m].channel_end)
                    },
                forall|j: int|
                    0 <= j < i && names_channel(#[trigger] keys@[j]@) ==> exists|m: int|
                        0 <= m < r@.len() && channel_end_path_spec((#[trigger] r@[m]).port_id@, r@[m].channel_id@) == keys@[j]@,
            decreases keys@.len() - i,
        {
            let ghost r0 = r@;
            let k = keys[i].as_str();
            assert(k@ == keys@[i as int]@);
            assert(self@.channels.contains_key(k@));
            match strip_affixes(k, "channelEnds/ports/", "") {
                Some(mid) => {
                    match find_first_slash(mid) {
                        Some(s) => {
                            proof {
                                lemma_first_slash_unique(mid@, s as int);
                            }
                            let n = mid.unicode_len();
                            let port_str = mid.substring_char(0, s);
                            let rest = mid.substring_char(s, n);
                            match strip_affixes(rest, "/channels/", "") {
                                Some(chan_str) => {
                                    match (PortId::new(port_str), ChannelId::parse(chan_str)) {
                                        (Ok(port), Ok(chan)) => {
                                            proof {
                                                reveal_strlit("channelEnds/ports/");
                                                reveal_strlit("channelEnds");
                                                reveal_strlit("/ports/");
                                                assert("channelEnds/ports/"@ =~= "channelEnds"@ + "/ports/"@);
                                                assert(mid@ =~= port_str@ + rest@);
                                            }
                                            assert(channel_end_path_spec(port@, chan@) =~= k@);
                                            match self.channels.get(k) {
                                                Some(c) => {
                                                    r.push(IdentifiedChannelEnd { port_id: port, channel_id: chan, channel_end: copy_channel_end(c) });
                                                    proof {
                                                        idx = idx.push(i as int);
                                                    }
                                                },
                                                None => {},
                                            }
                                        },
                                        _ => {},
                                    }
                                },
                                None => {},
                            }
                        },
                        None => {},
                    }
                },
                None => {},
            }
            assert forall|m: int| 0 <= m < r0.len() implies r@[m] == r0[m] by {}
            assert forall|j: int|
                0 <= j < i + 1 && names_channel(#[trigger] keys@[j]@) implies exists|m: int|
                    0 <= m < r@.len() && channel_end_path_spec((#[trigger] r@[m]).port_id@, r@[m].channel_id@) == keys@[j]@ by {
                if j < i {
                    let m = choose|m: int| 0 <= m < r0.len() && channel_end_path_spec((#[trigger] r0[m]).port_id@, r0[m].channel_id@) == keys@[j]@;
                    assert(r@[m] == r0[m]);
                } else {
                    assert(r@.len() == r0.len() + 1);
                    assert(channel_end_path_spec(r@[r0.len() as int].port_id@, r@[r0.len() as int].channel_id@) == keys@[j]@);
                }
            }
            i = i + 1;
        }
        assert forall|a: int, b: int| 0 <= a < b < r@.len() implies (r@[a].port_id@, r@[a].channel_id@) != (r@[b].port_id@, r@[b].channel_id@) by {
            assert(keys@[idx[a]]@ != keys@[idx[b]]@);
            assert(channel_end_path_spec(r@[a].port_id@, r@[a].channel_id@) == keys@[idx[a]]@);
            assert(channel_end_path_spec(r@[b].port_id@, r@[b].channel_id@) == keys@[idx[b]]@);
        }
        r
    }
}

} // verus!
