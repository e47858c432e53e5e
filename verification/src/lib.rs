//! Core logic of a terminal-session bridge.
//!
//! The library holds the decision logic of a bridge between a pseudo-terminal
//! running a shell and a remote client speaking a duplex message stream:
//! scanning terminal output for alternate-screen switches, attributing output
//! to the currently open command block, classifying inbound client messages
//! into keystrokes and resize controls, and tracking the block state driven
//! by shell hook events.  The surrounding process (sockets, the terminal
//! device, task scheduling) drives these functions and performs the I/O.

pub mod scan;
pub mod msg;
pub mod json;
pub mod events;
pub mod router;
pub mod input;
pub mod relay;
pub mod endpoint;
