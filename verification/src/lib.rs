//! Protocol engine and session bookkeeping for driving agent subprocesses
//! over line-delimited JSON-RPC.
//!
//! The crate holds the verified core: request serialization, response
//! correlation, streaming-update decoding, and the session registry with its
//! cancellation and stale-lock recovery rules. Process spawning and the byte
//! pipes themselves live with the embedding application, which feeds lines in
//! and carries lines out.

pub mod engine;
pub mod files;
pub mod frame;
pub mod jsonq;
pub mod mcp;
pub mod prompt;
pub mod registry;
pub mod requests;
pub mod resume;
pub mod stream;
pub mod text;
