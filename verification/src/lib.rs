//! Resilient transfer client for the PixelDrain file-hosting service.
//!
//! The crate holds the decisions of the client: how progress is accounted,
//! which failures are retried and how often, how requests are addressed and
//! authenticated, how responses are split into results and errors, and how the
//! state shared with a user interface evolves. Network and file I/O are left to
//! the caller, who hands in plain values and acts on what comes back.

pub mod client;
pub mod config;
pub mod coordinator;
pub mod error;
pub mod links;
pub mod progress;
pub mod retry;
pub mod state;
pub mod text;
pub mod transport;
pub mod types;
