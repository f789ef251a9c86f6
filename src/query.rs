//! Requests of the client query service, in raw (wire) and domain form.
use vstd::prelude::*;

use crate::client::{ClientError, Height};
use crate::identifiers::{valid_client_id, ClientId, IdentifierError};

verus! {

/// Errors of a query request.
#[derive(Clone, Debug, PartialEq, Eq)]
pub enum QueryError {
    Identifier(IdentifierError),
    Client(ClientError),
}

/// Pagination of a list query, as the wire carries it.
#[derive(Clone, Debug, PartialEq, Eq)]
pub struct RawPageRequest {
    pub key: Vec<u8>,
    pub offset: u64,
    pub limit: u64,
    pub count_total: bool,
    pub reverse: bool,
}

/// Pagination of a list query: start at `key` or skip `offset` entries,
/// return at most `limit`, count them all if `count_total`, walk backwards
/// if `reverse`.
#[derive(Clone, Debug, PartialEq, Eq)]
pub struct PageRequest {
    pub key: Vec<u8>,
    pub offset: u64,
    pub limit: u64,
    pub count_total: bool,
    pub reverse: bool,
}

/// The two forms of a page request hold the same fields.
pub open spec fn same_page(a: PageRequest, b: RawPageRequest) -> bool {
    a.key@ == b.key@ && a.offset == b.offset && a.limit == b.limit && a.count_total
        == b.count_total && a.reverse == b.reverse
}

pub open spec fn same_page_opt(a: Option<PageRequest>, b: Option<RawPageRequest>) -> bool {
    match (a, b) {
        (Some(x), Some(y)) => same_page(x, y),
        (None, None) => true,
        _ => false,
    }
}

impl PageRequest {
    pub fn from_raw(raw: RawPageRequest) -> (r: PageRequest)
        ensures
            same_page(r, raw),
    {
        PageRequest {
            key: raw.key,
            offset: raw.offset,
            limit: raw.limit,
            count_total: raw.count_total,
            reverse: raw.reverse,
        }
    }

    pub fn into_raw(self) -> (r: RawPageRequest)
        ensures
            same_page(self, r),
    {
        RawPageRequest {
            key: self.key,
            offset: self.offset,
            limit: self.limit,
            count_total: self.count_total,
            reverse: self.reverse,
        }
    }
}

fn page_from_raw(p: Option<RawPageRequest>) -> (r: Option<PageRequest>)
    ensures
        same_page_opt(r, p),
{
    match p {
        Some(x) => Some(PageRequest::from_raw(x)),
        None => None,
    }
}

fn page_into_raw(p: Option<PageRequest>) -> (r: Option<RawPageRequest>)
    ensures
        same_page_opt(p, r),
{
    match p {
        Some(x) => Some(x.into_raw()),
        None => None,
    }
}

fn parse_client_id(s: &String) -> (r: Result<ClientId, QueryError>)
    ensures
        r is Ok <==> valid_client_id(s@),
        r matches Ok(c) ==> c@ == s@,
{
    match ClientId::parse(s.as_str()) {
        Ok(c) => Ok(c),
        Err(e) => Err(QueryError::Identifier(e)),
    }
}

#[derive(Clone, Debug, PartialEq, Eq)]
pub struct RawQueryClientStateRequest {
    pub client_id: String,
}

/// Query of a client's state.
#[derive(Clone, Debug, PartialEq, Eq)]
pub struct QueryClientStateRequest {
    /// The client identifier.
    pub client_id: ClientId,
    /// The height at which to query; the latest height if not given.
    pub query_height: Option<Height>,
}

impl QueryClientStateRequest {
    pub fn try_from(request: RawQueryClientStateRequest) -> (r: Result<QueryClientStateRequest, QueryError>)
        ensures
            r is Ok <==> valid_client_id(request.client_id@),
            r matches Ok(q) ==> q.client_id@ == request.client_id@ && q.query_height is None,
    {
        Ok(QueryClientStateRequest { client_id: parse_client_id(&request.client_id)?, query_height: None })
    }
}

#[derive(Clone, Debug, PartialEq, Eq)]
pub struct RawQueryClientStatesRequest {
    pub pagination: Option<RawPageRequest>,
}

/// Query of all client states.
#[derive(Clone, Debug, PartialEq, Eq)]
pub struct QueryClientStatesRequest {
    pub pagination: Option<PageRequest>,
}

impl QueryClientStatesRequest {
    pub fn from(request: RawQueryClientStatesRequest) -> (r: QueryClientStatesRequest)
        ensures
            same_page_opt(r.pagination, request.pagination),
    {
        QueryClientStatesRequest { pagination: page_from_raw(request.pagination) }
    }
}

#[derive(Clone, Debug, PartialEq, Eq)]
pub struct RawQueryConsensusStateRequest {
    pub client_id: String,
    pub revision_number: u64,
    pub revision_height: u64,
    pub latest_height: bool,
}

/// Query of a client's consensus state.
#[derive(Clone, Debug, PartialEq, Eq)]
pub struct QueryConsensusStateRequest {
    /// The client identifier.
    pub client_id: ClientId,
    /// The consensus height to query; the latest if not given.
    pub consensus_height: Option<Height>,
    /// The height at which to query; the latest height if not given.
    pub query_height: Option<Height>,
}

impl QueryConsensusStateRequest {
    pub fn try_from(request: RawQueryConsensusStateRequest) -> (r: Result<
        QueryConsensusStateRequest,
        QueryError,
    >)
        ensures
            r is Ok <==> valid_client_id(request.client_id@) && (request.latest_height
                || request.revision_height > 0),
            r matches Ok(q) ==> {
                &&& q.client_id@ == request.client_id@
                &&& q.query_height is None
                &&& if request.latest_height {
                    q.consensus_height is None
                } else {
                    q.consensus_height matches Some(h) && h@ == (
                        request.revision_number,
                        request.revision_height,
                    )
                }
            },
    {
        let client_id = parse_client_id(&request.client_id)?;
        let consensus_height = if request.latest_height {
            None
        } else {
            match Height::new(request.revision_number, request.revision_height) {
                Ok(h) => Some(h),
                Err(e) => return Err(QueryError::Client(e)),
            }
        };
        Ok(QueryConsensusStateRequest { client_id, consensus_height, query_height: None })
    }
}

#[derive(Clone, Debug, PartialEq, Eq)]
pub struct RawQueryUpgradedClientStateRequest {}

/// Query of the client state that an upgrade will install.
#[derive(Clone, Debug, PartialEq, Eq)]
pub struct QueryUpgradedClientStateRequest {
    /// Height at which the chain is scheduled to halt for upgrade.
    pub upgrade_height: Option<Height>,
}

impl QueryUpgradedClientStateRequest {
    pub fn from(_request: RawQueryUpgradedClientStateRequest) -> (r: QueryUpgradedClientStateRequest)
        ensures
            r.upgrade_height is None,
    {
        QueryUpgradedClientStateRequest { upgrade_height: None }
    }
}

#[derive(Clone, Debug, PartialEq, Eq)]
pub struct RawQueryUpgradedConsensusStateRequest {}

/// Query of the consensus state that an upgrade will install.
#[derive(Clone, Debug, PartialEq, Eq)]
pub struct QueryUpgradedConsensusStateRequest {
    /// Height at which the chain is scheduled to halt for upgrade.
    pub upgrade_height: Option<Height>,
}

impl QueryUpgradedConsensusStateRequest {
    pub fn from(_request: RawQueryUpgradedConsensusStateRequest) -> (r: QueryUpgradedConsensusStateRequest)
        ensures
            r.upgrade_height is None,
    {
        QueryUpgradedConsensusStateRequest { upgrade_height: None }
    }
}

#[derive(Clone, Debug, PartialEq, Eq)]
pub struct RawQueryConsensusStatesRequest {
    pub client_id: String,
    pub pagination: Option<RawPageRequest>,
}

/// Query of all consensus states of a client.
#[derive(Clone, Debug, PartialEq, Eq)]
pub struct QueryConsensusStatesRequest {
    pub client_id: ClientId,
    pub pagination: Option<PageRequest>,
}

impl QueryConsensusStatesRequest {
    pub fn try_from(request: RawQueryConsensusStatesRequest) -> (r: Result<
        QueryConsensusStatesRequest,
        QueryError,
    >)
        ensures
            r is Ok <==> valid_client_id(request.client_id@),
            r matches Ok(q) ==> q.client_id@ == request.client_id@ && same_page_opt(
                q.pagination,
                request.pagination,
            ),
    {
        Ok(QueryConsensusStatesRequest {
            client_id: parse_client_id(&request.client_id)?,
            pagination: page_from_raw(request.pagination),
        })
    }
}

impl RawQueryConsensusStatesRequest {
    pub fn from(request: QueryConsensusStatesRequest) -> (r: RawQueryConsensusStatesRequest)
        ensures
            r.client_id@ == request.client_id@,
            same_page_opt(request.pagination, r.pagination),
    {
        RawQueryConsensusStatesRequest {
            client_id: String::from_str(request.client_id.as_str()),
            pagination: page_into_raw(request.pagination),
        }
    }
}

#[derive(Clone, Debug, PartialEq, Eq)]
pub struct RawQueryConsensusStateHeightsRequest {
    pub client_id: String,
    pub pagination: Option<RawPageRequest>,
}

/// Query of the heights of a client's consensus states.
#[derive(Clone, Debug, PartialEq, Eq)]
pub struct QueryConsensusStateHeightsRequest {
    pub client_id: ClientId,
    pub pagination: Option<PageRequest>,
}

impl QueryConsensusStateHeightsRequest {
    pub fn try_from(request: RawQueryConsensusStateHeightsRequest) -> (r: Result<
        QueryConsensusStateHeightsRequest,
        QueryError,
    >)
        ensures
            r is Ok <==> valid_client_id(request.client_id@),
            r matches Ok(q) ==> q.client_id@ == request.client_id@ && same_page_opt(
                q.pagination,
                request.pagination,
            ),
    {
        Ok(QueryConsensusStateHeightsRequest {
            client_id: parse_client_id(&request.client_id)?,
            pagination: page_from_raw(request.pagination),
        })
    }
}

impl RawQueryConsensusStateHeightsRequest {
    pub fn from(request: QueryConsensusStateHeightsRequest) -> (r: RawQueryConsensusStateHeightsRequest)
        ensures
            r.client_id@ == request.client_id@,
            same_page_opt(request.pagination, r.pagination),
    {
        RawQueryConsensusStateHeightsRequest {
            client_id: String::from_str(request.client_id.as_str()),
            pagination: page_into_raw(request.pagination),
        }
    }
}

/// Query of the host's own consensus state.
#[derive(Clone, Debug, PartialEq, Eq)]
pub struct QueryHostConsensusStateRequest {
    pub query_height: Option<Height>,
}

#[derive(Clone, Debug, PartialEq, Eq)]
pub struct RawQueryClientStatusRequest {
    pub client_id: String,
}

/// Query of a client's status.
#[derive(Clone, Debug, PartialEq, Eq)]
pub struct QueryClientStatusRequest {
    pub client_id: ClientId,
    pub query_height: Option<Height>,
}

impl QueryClientStatusRequest {
    pub fn try_from(request: RawQueryClientStatusRequest) -> (r: Result<QueryClientStatusRequest, QueryError>)
        ensures
            r is Ok <==> valid_client_id(request.client_id@),
            r matches Ok(q) ==> q.client_id@ == request.client_id@ && q.query_height is None,
    {
        Ok(QueryClientStatusRequest { client_id: parse_client_id(&request.client_id)?, query_height: None })
    }
}

#[derive(Clone, Debug, PartialEq, Eq)]
pub struct RawQueryClientParamsRequest {}

/// Query of the client module's parameters.
#[derive(Clone, Debug, PartialEq, Eq)]
pub struct QueryClientParamsRequest {
    pub query_height: Option<Height>,
}

impl QueryClientParamsRequest {
    pub fn from(_request: RawQueryClientParamsRequest) -> (r: QueryClientParamsRequest)
        ensures
            r.query_height is None,
    {
        QueryClientParamsRequest { query_height: None }
    }
}

} // verus!
