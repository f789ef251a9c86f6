//! Heights, the mock light client's states, and the interface through which
//! handlers reach a host's client store.
use vstd::prelude::*;

use crate::identifiers::ClientId;

verus! {

/// A height of a counterparty chain: `(revision_number, revision_height)`,
/// ordered lexicographically; the revision height is never 0.
#[derive(Clone, Copy, Debug, PartialEq, Eq, Structural, PartialOrd, Ord, Hash)]
pub struct Height {
    revision_number: u64,
    revision_height: u64,
}

impl View for Height {
    type V = (u64, u64);

    closed spec fn view(&self) -> (u64, u64) {
        (self.revision_number, self.revision_height)
    }
}

/// `a` comes strictly before `b` in lexicographic order.
pub open spec fn height_lt(a: (u64, u64), b: (u64, u64)) -> bool {
    a.0 < b.0 || (a.0 == b.0 && a.1 < b.1)
}

impl Height {
    /// Builds a height; fails when `revision_height` is 0.
    pub fn new(revision_number: u64, revision_height: u64) -> (r: Result<Height, ClientError>)
        ensures
            r is Ok <==> revision_height > 0,
            r matches Ok(h) ==> h@ == (revision_number, revision_height),
            r is Err ==> r == Err::<Height, ClientError>(ClientError::InvalidHeight),
    {
        if revision_height == 0 {
            Err(ClientError::InvalidHeight)
        } else {
            Ok(Height { revision_number, revision_height })
        }
    }

    pub fn revision_number(&self) -> (r: u64)
        ensures
            r == self@.0,
    {
        self.revision_number
    }

    pub fn revision_height(&self) -> (r: u64)
        ensures
            r == self@.1,
    {
        self.revision_height
    }

    /// Whether `self` comes strictly before `other`.
    pub fn lt(&self, other: &Height) -> (r: bool)
        ensures
            r == height_lt(self@, other@),
    {
        self.revision_number < other.revision_number || (self.revision_number
            == other.revision_number && self.revision_height < other.revision_height)
    }

    pub fn same(&self, other: &Height) -> (r: bool)
        ensures
            r == (self@ == other@),
    {
        self.revision_number == other.revision_number && self.revision_height
            == other.revision_height
    }
}

/// Errors of the client subsystem.
#[derive(Clone, Debug, PartialEq, Eq)]
pub enum ClientError {
    /// A height with revision height 0.
    InvalidHeight,
    /// No client state is stored for the client.
    ClientStateNotFound { client_id: ClientId },
    /// No consensus state is stored for the client at the height.
    ConsensusStateNotFound { client_id: ClientId, height: Height },
    /// The host keeps no consensus state of its own at the height.
    MissingLocalConsensusState { height: Height },
    /// The client is frozen.
    FrozenClient { client_id: ClientId },
    /// The client counter cannot grow further.
    CounterOverflow,
    /// A client state that cannot start a client.
    InvalidClientState,
}

/// The state of the mock light client: the latest height it has verified,
/// and whether misbehaviour froze it.
#[derive(Clone, Copy, Debug, PartialEq, Eq, Structural)]
pub struct MockClientState {
    pub latest_height: Height,
    pub frozen: bool,
}

/// What the mock light client keeps of a counterparty header: its height
/// and its timestamp.
#[derive(Clone, Copy, Debug, PartialEq, Eq, Structural)]
pub struct MockConsensusState {
    pub height: Height,
    pub timestamp: u64,
}

impl MockClientState {
    /// A client that has verified headers up to `latest_height`.
    pub fn new(latest_height: Height) -> (r: MockClientState)
        ensures
            r.latest_height == latest_height,
            !r.frozen,
    {
        MockClientState { latest_height, frozen: false }
    }
}

/// The types a host gives its client states and consensus states.
pub trait ClientTypes {
    type AnyClientState;

    type AnyConsensusState;
}

/// Client state reads, needed during both validation and execution.
pub trait ClientValidationContext: ClientTypes + Sized {
    /// The context is in a state its methods can work on.
    spec fn valid(&self) -> bool;

    /// The client state of `client_id`.
    fn client_state(&self, client_id: &ClientId) -> Result<Self::AnyClientState, ClientError>
        requires
            self.valid(),
    ;

    /// The consensus state of `client_id` at `height`; an error if none is stored.
    fn consensus_state(&self, client_id: &ClientId, height: &Height) -> Result<
        Self::AnyConsensusState,
        ClientError,
    >
        requires
            self.valid(),
    ;
}

/// Client state writes, made when a client is created or updated.
pub trait ClientExecutionContext: ClientValidationContext + Sized {
    /// Stores the client state of `client_id`.
    fn store_client_state(&mut self, client_id: &ClientId, client_state: Self::AnyClientState) -> Result<
        (),
        ClientError,
    >
        requires
            old(self).valid(),
    ;

    /// Stores the consensus state of `client_id` at `height`.
    fn store_consensus_state(
        &mut self,
        client_id: &ClientId,
        height: &Height,
        consensus_state: Self::AnyConsensusState,
    ) -> Result<(), ClientError>
        requires
            old(self).valid(),
    ;
}

} // verus!
