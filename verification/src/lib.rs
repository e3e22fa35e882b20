//! Link-cable protocol engine for bridging a browser-based Game Boy emulator
//! with the BGB emulator's clocked serial-exchange wire protocol.
//!
//! The crate holds the verified core: the fixed 8-byte packet codec, the
//! transport state machine that resolves collision and keepalive packets
//! around a single outstanding byte exchange, the game sequencer that drives
//! a game's link protocol on top of that primitive, and the detection of the
//! fixed configuration/probe messages that are intercepted before any byte
//! reaches the link. Socket, thread and front-end plumbing live outside the
//! crate
//! and drive these machines by feeding them events and performing the
//! actions they return.

pub mod bridge;
pub mod packet;
pub mod session;
pub mod transport;
