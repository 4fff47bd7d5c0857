//! Dual-mode command dispatch for an interactive Kubernetes trainer.
//!
//! Commands typed by the user are classified by a guard, then routed either
//! to an embedded pseudo-terminal session or to an external terminal paired
//! over an authenticated loopback socket.  This crate holds the decision
//! logic of that subsystem: the guard, the session and bridge state machines,
//! the router that composes them, and the plain data the surrounding
//! application displays.  All I/O (the pseudo-terminal, the sockets, the
//! event loop) lives with the caller, which feeds events in and carries
//! queued writes out.

pub mod args;
pub mod bridge;
pub mod checks;
pub mod coach;
pub mod command_info;
pub mod guard;
pub mod loader;
pub mod models;
pub mod progress;
pub mod pty;
pub mod shell_mode;
pub mod state;
pub mod text;
pub mod ui;
