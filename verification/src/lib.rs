//! A prefork execution-delegation protocol: a short-lived client captures a
//! command, its arguments, working directory and standard streams, and hands
//! them to a long-running daemon over a local IPC endpoint.
//!
//! The crate covers the protocol core: endpoint discovery with a fixed
//! priority order, the execution-context model and its wire codec, the
//! descriptor-transport bound, and the daemon's accept/shutdown state machine.
pub mod client;
pub mod codec;
pub mod context;
pub mod daemon;
pub mod discovery;
pub mod transport;
