//! Standard Control Change numbers for loopstation control.

use vstd::prelude::*;

verus! {

pub const TRACK_1_VOLUME: u8 = 7;
pub const TRACK_2_VOLUME: u8 = 8;
pub const TRACK_3_VOLUME: u8 = 9;
pub const TRACK_4_VOLUME: u8 = 10;
pub const TRACK_5_VOLUME: u8 = 11;
pub const TRACK_6_VOLUME: u8 = 12;

pub const TRACK_1_PAN: u8 = 13;
pub const TRACK_2_PAN: u8 = 14;
pub const TRACK_3_PAN: u8 = 15;
pub const TRACK_4_PAN: u8 = 16;
pub const TRACK_5_PAN: u8 = 17;
pub const TRACK_6_PAN: u8 = 18;

pub const MASTER_VOLUME: u8 = 19;
pub const TEMPO: u8 = 20;

pub const FX_1_PARAM_1: u8 = 21;
pub const FX_1_PARAM_2: u8 = 22;
pub const FX_1_PARAM_3: u8 = 23;
pub const FX_1_PARAM_4: u8 = 24;

/// Expression pedal controllers.
pub const EXPRESSION_1: u8 = 1;
pub const EXPRESSION_2: u8 = 2;
pub const EXPRESSION_3: u8 = 3;
pub const EXPRESSION_4: u8 = 4;

} // verus!
