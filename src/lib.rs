//! Firmware update session for a serially attached drone device: discovery
//! of newly attached ports, identity and update-location handshakes, and the
//! acknowledged block transfer, as a state machine over plain values.

pub mod firmware;
pub mod ports;
pub mod protocol;
pub mod text;
pub mod updater;
