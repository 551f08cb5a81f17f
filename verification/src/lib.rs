//! Data-plane engine of an API gateway: a dynamically updatable routing
//! table with an atomic hot-swap update protocol, an exact/prefix request
//! matcher with path rewriting, and the decision logic of the layered
//! request-processing pipeline (CORS, route resolution, access logging)
//! around the outbound proxy call.
//!
//! Everything here works on plain values (strings, vectors, integers).
//! The surrounding process — the HTTP server and client, the control
//! channel, host telemetry — drives these functions and is kept outside
//! the verified core.

pub mod access_log;
pub mod api;
pub mod config;
pub mod control;
pub mod cors;
pub mod message;
pub mod pipeline;
pub mod proxy;
pub mod route;
pub mod store;
pub mod table;
pub mod text;

pub use api::DeserializedApi;
pub use api::ManagedApi;
pub use api::MatchType;
