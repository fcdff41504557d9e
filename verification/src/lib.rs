//! Serial protocol engine and shared device-state broker for a
//! serial-attached audio amplifier.
//!
//! The crate turns high-level intents (volume up, power on, select input,
//! select effect) into the exact byte frames the device expects, decodes the
//! device's fixed-layout binary status response into a structured snapshot,
//! caches the last known status, and arbitrates access to the one half-duplex
//! link so that many front ends can share it without interleaving frames.

pub mod actions;
pub mod broker;
pub mod codec;
pub mod device;
pub mod errors;
pub mod html;
pub mod script;
pub mod status;
pub mod transport;

pub use errors::AmpError;
pub use status::{Effect, Input, Status};
