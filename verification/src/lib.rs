//! A two-player tic-tac-toe game server, written as a verified core.
//!
//! The crate holds every decision the server makes: how a one-byte wire
//! message is read, how the two-player session reacts to a connection, a
//! message and a disconnection, how descriptors are registered and looked up,
//! and how one wake-up of the event loop is dispatched. Socket and polling
//! calls are left to the host program, which performs the commands the crate
//! hands back.

pub mod dispatch;
pub mod event;
pub mod session;
pub mod wire;

pub use crate::event::Event;
pub use crate::session::{onclose, onmessage, onopen};
