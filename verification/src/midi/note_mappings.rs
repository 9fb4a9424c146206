//! MIDI note numbers for track and transport control.

use vstd::prelude::*;

verus! {

/// Track record/play notes (C2 upwards).
pub const TRACK_1_REC_PLAY: u8 = 36;
pub const TRACK_2_REC_PLAY: u8 = 37;
pub const TRACK_3_REC_PLAY: u8 = 38;
pub const TRACK_4_REC_PLAY: u8 = 39;
pub const TRACK_5_REC_PLAY: u8 = 40;
pub const TRACK_6_REC_PLAY: u8 = 41;

/// Track stop notes.
pub const TRACK_1_STOP: u8 = 42;
pub const TRACK_2_STOP: u8 = 43;
pub const TRACK_3_STOP: u8 = 44;
pub const TRACK_4_STOP: u8 = 45;
pub const TRACK_5_STOP: u8 = 46;
pub const TRACK_6_STOP: u8 = 47;

/// Transport control notes.
pub const ALL_START: u8 = 48;
pub const ALL_STOP: u8 = 49;
pub const TAP_TEMPO: u8 = 50;

} // verus!
