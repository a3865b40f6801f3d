//! A non-blocking controller for a background pruning run.
//!
//! A node's foreground event loop must keep advancing the canonical chain
//! while, from time to time, a pruner deletes old records from the shared
//! store. The store permits only one writer, and the pruner holds the write
//! path for its whole pass, so the foreground must know at every moment
//! whether a pass is outstanding and defer its own writes while one is.
//!
//! This crate provides that coordination: a controller that owns the runner
//! while idle, hands it to an injected task spawner to start a pass without
//! blocking, and reports each state transition as an event. The completion
//! handoff itself (a one-shot channel polled by the caller's event loop) is
//! outside code; the controller consumes the result of each non-blocking
//! channel check as a plain value and is verified for every such value.

pub mod controller;
pub mod event;
pub mod laws;
pub mod state;
