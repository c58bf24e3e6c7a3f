//! Protocol layer for a family of grid-pad MIDI controllers.
//!
//! The crate decodes the device's raw three-byte MIDI messages into domain
//! events, maintains and serializes the fixed-layout SysEx LED frame each
//! device expects, pairs discovered input/output port names, and fans the
//! per-device event streams into one ordered sequence for a single consumer.

pub mod events;
pub mod session;
pub mod mux;
pub mod discovery;
