//! Connection logic of NetherNet, a transport that carries messages over WebRTC
//! data channels: the negotiation of a connection on both sides, the routing of
//! signals, and the state of an established session.
//!
//! The modules decide; the program around them performs. A negotiation, for
//! example, says which step comes next, is handed the result of that step, and
//! moves on.

pub mod addr;
pub mod buffer;
pub mod delivery;
pub mod error;
pub mod laws;
pub mod session;
pub mod signal;
pub mod transport;
