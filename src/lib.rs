//! Upload session coordinator for chunked multipart uploads.
//!
//! The library owns the lifecycle of one upload session: it validates each
//! request, decides which backend multipart call has to be made, and applies
//! the outcome of that call to the session record. All I/O (the object-storage
//! backend, the session store, HTTP) happens in the caller, which hands the
//! library plain values and persists what it returns.

pub mod constants;
pub mod config;
pub mod models;
pub mod parts;
pub mod text;
pub mod runtime;
pub mod utils;
pub mod middleware;
pub mod coordinator;
pub mod store;
pub mod laws;
pub mod errors;
