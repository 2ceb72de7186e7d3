//! Lifecycle and orchestration core of a small process supervisor.
//!
//! The crate owns the parts of the supervisor that carry real policy: the
//! hierarchical cancellation scopes, the exclusive-access handles around
//! mutable service state, the service lifecycle state machine, and the
//! decision logic of the HTTP middleware pipeline (routing, per-request
//! timeouts, metrics exclusion, and the uniform response envelope).
//! The surrounding process (sockets, signals, the async runtime, the
//! configuration file, the database) lives outside and feeds this core
//! plain values.

pub mod api;
pub mod application;
pub mod cli;
pub mod conf;
pub mod devops;
pub mod error;
pub mod interface;
pub mod repository;
pub mod scope;
pub mod server;
pub mod text;

pub use error::AppError;
