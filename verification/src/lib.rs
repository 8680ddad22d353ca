//! Bounded-latency IPC bridge to a local file-synchronization daemon.
//!
//! A latency-sensitive caller asks "what is this file's sync state?" of a
//! possibly-absent background daemon, and fires off state-changing requests,
//! without ever blocking past a small deadline and without failure handling
//! of its own: every fault degrades to a neutral default.
//!
//! The core layers, leaves first:
//! - [`wire`] and [`frame`]: the framed, tagged-union wire protocol, with
//!   round-trip and soundness proofs;
//! - [`conn`]: the per-request roundtrip state machine that owns connect,
//!   send, and receive, and turns every fault into a discarded connection;
//! - [`worker`]: the bounded FIFO request queue and the at-most-two-attempts
//!   retry policy;
//! - [`facade`]: the public query API and its neutral defaults;
//! - [`endpoint`]: the per-user daemon endpoint path;
//! - [`laws`]: the properties that hold across these layers.
//!
//! What the host file manager shows is decided in [`provider`] (emblems) and
//! [`menu`] (context-menu actions).  The process glue around all of this —
//! the dedicated worker thread, the socket I/O, the host-plugin registration
//! — lives outside this crate and only performs the steps these state
//! machines ask for.

pub mod conn;
pub mod endpoint;
pub mod facade;
pub mod frame;
pub mod laws;
pub mod menu;
pub mod provider;
pub mod status;
pub mod uri;
pub mod worker;
pub mod wire;

pub use status::FileAvailability;
pub use status::FileStatusData;
pub use status::SyncStatus;
