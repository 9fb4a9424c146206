//! Verified core of a six-track loop station: track transport state machine,
//! MIDI byte-stream parsing and framing, control-surface debouncing and
//! gesture recognition, LED shift-register bookkeeping, rotary-encoder
//! decoding, memory-slot addressing and the system settings pages.
//!
//! Sample processing (floating point) lives outside this crate.

pub mod audio;
pub mod bounded;
pub mod midi;
pub mod settings;
pub mod effects;
pub mod hal;
pub mod storage;
pub mod controls;
pub mod performance;
pub mod rhythm;
pub mod modulation;
pub mod tempo;
pub mod communication;
