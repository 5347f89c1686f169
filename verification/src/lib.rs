//! Synchronous cross-runtime call bridge.
//!
//! A native caller needs to invoke long-running work that only executes on a
//! separate, single-threaded host environment. The decision logic of that
//! protocol lives here, verified: how output is chunked and buffered, how the
//! wire request is framed and the wire response parsed, and how one in-flight
//! call moves from scheduling to exactly one delivered result. The host-side
//! plumbing (the event loop, the callback handles, the actual scheduling)
//! stays outside and drives these functions.

pub mod bridge;
pub mod chunk;
pub mod errors;
pub mod json;
pub mod registry;
pub mod sink;
pub mod text;
pub mod wire;
