//! Connection ends and their handshake state machine.
use vstd::prelude::*;

use crate::identifiers::{ClientId, ConnectionId};

verus! {

/// The handshake state of a connection end.
#[derive(Clone, Copy, Debug, PartialEq, Eq, Structural)]
pub enum State {
    Uninitialized,
    Init,
    TryOpen,
    Open,
}

/// A connection version: an identifier and the features it allows.
#[derive(Clone, Debug, PartialEq, Eq)]
pub struct Version {
    pub identifier: String,
    pub features: Vec<String>,
}

impl View for Version {
    type V = (Seq<char>, Seq<Seq<char>>);

    open spec fn view(&self) -> (Seq<char>, Seq<Seq<char>>) {
        (self.identifier@, self.features@.map_values(|f: String| f@))
    }
}

/// The versions of a list, as values.
pub open spec fn versions_view(v: Seq<Version>) -> Seq<(Seq<char>, Seq<Seq<char>>)> {
    v.map_values(|x: Version| x@)
}

impl Version {
    /// The supported version as a value: `1`, with ordered and unordered channels.
    pub open spec fn default_version_spec() -> (Seq<char>, Seq<Seq<char>>) {
        ("1"@, seq!["ORDER_ORDERED"@, "ORDER_UNORDERED"@])
    }

    /// The version every host supports: `1`, with ordered and unordered channels.
    pub fn default_version() -> (r: Version)
        ensures
            r.identifier@ == "1"@,
            r.features@.len() == 2,
            r.features@[0]@ == "ORDER_ORDERED"@,
            r.features@[1]@ == "ORDER_UNORDERED"@,
    {
        let mut features: Vec<String> = Vec::new();
        features.push(String::from_str("ORDER_ORDERED"));
        features.push(String::from_str("ORDER_UNORDERED"));
        Version { identifier: String::from_str("1"), features }
    }

    pub fn duplicate(&self) -> (r: Version)
        ensures
            r@ == self@,
    {
        let features = self.features.clone();
        assert(features@.map_values(|f: String| f@) =~= self.features@.map_values(|f: String| f@));
        Version { identifier: self.identifier.clone(), features }
    }

    /// Whether two versions have the same identifier and features.
    pub fn same(&self, other: &Version) -> (r: bool)
        ensures
            r == (self@ == other@),
    {
        if self.identifier != other.identifier {
            return false;
        }
        let n = self.features.len();
        if n != other.features.len() {
            assert(self@.1.len() != other@.1.len());
            return false;
        }
        let mut i: usize = 0;
        while i < n
            invariant
                n == self.features@.len(),
                n == other.features@.len(),
                i <= n,
                forall|j: int| 0 <= j < i ==> self.features@[j]@ == other.features@[j]@,
            decreases n - i,
        {
            if self.features[i] != other.features[i] {
                assert(self@.1[i as int] != other@.1[i as int]);
                return false;
            }
            i = i + 1;
        }
        assert(self@.1 =~= other@.1);
        true
    }
}

/// Copies a list of versions.
pub fn duplicate_versions(v: &Vec<Version>) -> (r: Vec<Version>)
    ensures
        versions_view(r@) == versions_view(v@),
{
    let mut r: Vec<Version> = Vec::new();
    let mut i: usize = 0;
    while i < v.len()
        invariant
            i <= v@.len(),
            r@.len() == i,
            forall|j: int| 0 <= j < i ==> #[trigger] r@[j]@ == v@[j]@,
        decreases v@.len() - i,
    {
        r.push(v[i].duplicate());
        i = i + 1;
    }
    assert(versions_view(r@) =~= versions_view(v@));
    r
}

/// The other chain's side of a connection.
#[derive(Clone, Debug, PartialEq, Eq)]
pub struct Counterparty {
    pub client_id: ClientId,
    pub connection_id: Option<ConnectionId>,
    pub prefix: Vec<u8>,
}

impl View for Counterparty {
    type V = (ClientId, Option<ConnectionId>, Seq<u8>);

    open spec fn view(&self) -> (ClientId, Option<ConnectionId>, Seq<u8>) {
        (self.client_id, self.connection_id, self.prefix@)
    }
}

impl Counterparty {
    pub fn new(client_id: ClientId, connection_id: Option<ConnectionId>, prefix: Vec<u8>) -> (r:
        Counterparty)
        ensures
            r.client_id == client_id,
            r.connection_id == connection_id,
            r.prefix == prefix,
    {
        Counterparty { client_id, connection_id, prefix }
    }

    pub fn duplicate(&self) -> (r: Counterparty)
        ensures
            r@ == self@,
    {
        let connection_id = match &self.connection_id {
            Some(c) => Some(c.duplicate_exact()),
            None => None,
        };
        Counterparty { client_id: self.client_id.duplicate_exact(), connection_id, prefix: self.prefix.clone() }
    }
}

/// One end of a connection, as its chain stores it.
#[derive(Clone, Debug, PartialEq, Eq)]
pub struct ConnectionEnd {
    pub state: State,
    pub client_id: ClientId,
    pub counterparty: Counterparty,
    pub versions: Vec<Version>,
    pub delay_period: u64,
}

/// A connection end as a value.
pub ghost struct ConnectionEndView {
    pub state: State,
    pub client_id: ClientId,
    pub counterparty: (ClientId, Option<ConnectionId>, Seq<u8>),
    pub versions: Seq<(Seq<char>, Seq<Seq<char>>)>,
    pub delay_period: u64,
}

impl View for ConnectionEnd {
    type V = ConnectionEndView;

    open spec fn view(&self) -> ConnectionEndView {
        ConnectionEndView {
            state: self.state,
            client_id: self.client_id,
            counterparty: self.counterparty@,
            versions: versions_view(self.versions@),
            delay_period: self.delay_period,
        }
    }
}

impl ConnectionEnd {
    pub fn new(
        state: State,
        client_id: ClientId,
        counterparty: Counterparty,
        versions: Vec<Version>,
        delay_period: u64,
    ) -> (r: ConnectionEnd)
        ensures
            r == (ConnectionEnd { state, client_id, counterparty, versions, delay_period }),
    {
        ConnectionEnd { state, client_id, counterparty, versions, delay_period }
    }

    pub fn duplicate(&self) -> (r: ConnectionEnd)
        ensures
            r@ == self@,
    {
        ConnectionEnd {
            state: self.state,
            client_id: self.client_id.duplicate_exact(),
            counterparty: self.counterparty.duplicate(),
            versions: duplicate_versions(&self.versions),
            delay_period: self.delay_period,
        }
    }

    /// Whether the end is in state `s`.
    pub fn state_matches(&self, s: State) -> (r: bool)
        ensures
            r == (self.state == s),
    {
        self.state == s
    }
}

} // verus!
