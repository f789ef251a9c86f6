//! Host-side state machine of the Inter-Blockchain Communication protocol.
//!
//! - `identifiers`, `chain_id`, `path`: ICS-24 identifiers and the exact
//!   store paths counterparties prove against.
//! - `store`, `context`: a path-addressed store and the in-memory host
//!   context that holds every IBC entity, with its queries.
//! - `create_client`, `update_client`, `conn_handshake`, `conn_open_confirm`,
//!   `chan_handshake`, `chan_close_init`, `chan_close_confirm`, `packet`:
//!   the handlers, each all-or-nothing: on failure the context is unchanged.
//! - `router`: routes a message envelope to its handler and packet
//!   callbacks to the application module.
//! - `msgs`, `query`, `dummies`: messages and query requests in raw and
//!   domain form, and ready-made messages.
use vstd::prelude::*;

pub mod chain_id;
pub mod chan_close_confirm;
pub mod chan_handshake;
pub mod chan_close_init;
pub mod channel;
pub mod client;
pub mod commitment;
pub mod conn_handshake;
pub mod create_client;
pub mod conn_open_confirm;
pub mod connection;
pub mod context;
pub mod dummies;
pub mod error;
pub mod identifiers;
pub mod msgs;
pub mod packet;
pub mod path;
pub mod query;
pub mod router;
pub mod store;
pub mod update_client;

verus! {

} // verus!
