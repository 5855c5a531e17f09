//! Snapshot persistence for an event-sourced core.
//!
//! A pure reducer advances an immutable application state one action at a
//! time; after every reduction the whole new state is handed to a persistence
//! port, which stores it as an atomic snapshot and later hands it back on
//! load. The port is a capability trait so that concrete backends can be
//! injected; the reference store here keeps at most one snapshot in process
//! memory.

pub mod error;
pub mod pipeline;
pub mod port;
pub mod state;
