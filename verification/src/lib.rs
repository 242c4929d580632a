//! Verified core of a terminal client for a proxy daemon: the key-handling
//! state machine, the polling updates, the view computations, the daemon
//! settings and the control-command planning.
pub mod text;
pub mod model;
pub mod keys;
pub mod exits;
pub mod poll;
pub mod sessions;
pub mod view;
pub mod daemon;
pub mod rpc;
pub mod cli;
pub mod laws;
