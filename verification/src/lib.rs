//! Verified core of the simprint runtime: the framed IPC protocol, the
//! stream framing, the runtime state machine and the browser launch plan.

pub mod buffers;
pub mod le;
pub mod text;
pub mod topics;
pub mod protocol;
pub mod framing;
pub mod api;
pub mod environments;
pub mod runtime;
pub mod fingerprint;
pub mod browser;
pub mod cdp_client;
