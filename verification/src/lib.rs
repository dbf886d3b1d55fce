//! The fan-out core of a single shared chat room: a registry of connected
//! users with unique names, the per-connection session protocol, and the
//! hub that relays events to every participant.

pub mod clock;
pub mod ident;
pub mod hub;
pub mod laws;
pub mod message;
pub mod session;
pub mod state;
pub mod table;
pub mod text;
pub mod user;
