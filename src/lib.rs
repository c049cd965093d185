//! Dispatch and routing engine of an execution manager: the wire codec, the
//! connection registry, the per-command handlers, the local/remote router and
//! the periodic scheduler. Sockets, threads and locks live with the caller.

pub mod protocol;
pub mod helpers;
pub mod connection;
pub mod registry;
pub mod periodic;
pub mod output;
pub mod handlers;
