//! The drum sounds of the rhythm machine.

use vstd::prelude::*;

verus! {

/// Maximum number of rhythm patterns.
pub const MAX_RHYTHM_PATTERNS: usize = 16;

/// Maximum number of steps per pattern.
pub const MAX_PATTERN_STEPS: usize = 16;

/// Maximum number of drum sounds.
pub const MAX_DRUM_SOUNDS: usize = 8;

/// Drum sound types for rhythm patterns.
#[derive(Debug, Clone, Copy, PartialEq, Eq, Structural)]
pub enum DrumSound {
    /// Kick drum.
    Kick,
    /// Snare drum.
    Snare,
    /// Closed hi-hat.
    HiHatClosed,
    /// Open hi-hat.
    HiHatOpen,
    /// Crash cymbal.
    Crash,
    /// Ride cymbal.
    Ride,
    /// Tom 1 (high).
    Tom1,
    /// Tom 2 (low).
    Tom2,
}

/// The display name of each drum sound.
pub open spec fn spec_drum_name(d: DrumSound) -> Seq<char> {
    match d {
        DrumSound::Kick => "Kick"@,
        DrumSound::Snare => "Snare"@,
        DrumSound::HiHatClosed => "HH Closed"@,
        DrumSound::HiHatOpen => "HH Open"@,
        DrumSound::Crash => "Crash"@,
        DrumSound::Ride => "Ride"@,
        DrumSound::Tom1 => "Tom 1"@,
        DrumSound::Tom2 => "Tom 2"@,
    }
}

impl DrumSound {
    /// Every drum sound, in kit order.
    pub fn all() -> (r: [DrumSound; 8])
        ensures
            r@ == seq![
                DrumSound::Kick,
                DrumSound::Snare,
                DrumSound::HiHatClosed,
                DrumSound::HiHatOpen,
                DrumSound::Crash,
                DrumSound::Ride,
                DrumSound::Tom1,
                DrumSound::Tom2,
            ],
    {
        let r = [
            DrumSound::Kick,
            DrumSound::Snare,
            DrumSound::HiHatClosed,
            DrumSound::HiHatOpen,
            DrumSound::Crash,
            DrumSound::Ride,
            DrumSound::Tom1,
            DrumSound::Tom2,
        ];
        assert(r@ =~= seq![
            DrumSound::Kick,
            DrumSound::Snare,
            DrumSound::HiHatClosed,
            DrumSound::HiHatOpen,
            DrumSound::Crash,
            DrumSound::Ride,
            DrumSound::Tom1,
            DrumSound::Tom2,
        ]);
        r
    }

    /// The display name of the drum sound.
    pub fn name(&self) -> (r: &'static str)
        ensures
            r@ == spec_drum_name(*self),
    {
        match self {
            DrumSound::Kick => "Kick",
            DrumSound::Snare => "Snare",
            DrumSound::HiHatClosed => "HH Closed",
            DrumSound::HiHatOpen => "HH Open",
            DrumSound::Crash => "Crash",
            DrumSound::Ride => "Ride",
            DrumSound::Tom1 => "Tom 1",
            DrumSound::Tom2 => "Tom 2",
        }
    }
}

/// The kit lists each drum sound exactly once.
pub proof fn lemma_all_sounds_once(d: DrumSound)
    ensures
        ({
            let kit = seq![
                DrumSound::Kick,
                DrumSound::Snare,
                DrumSound::HiHatClosed,
                DrumSound::HiHatOpen,
                DrumSound::Crash,
                DrumSound::Ride,
                DrumSound::Tom1,
                DrumSound::Tom2,
            ];
            &&& kit.contains(d)
            &&& forall|i: int, j: int| 0 <= i < j < 8 ==> kit[i] != kit[j]
        }),
{
    let kit = seq![
        DrumSound::Kick,
        DrumSound::Snare,
        DrumSound::HiHatClosed,
        DrumSound::HiHatOpen,
        DrumSound::Crash,
        DrumSound::Ride,
        DrumSound::Tom1,
        DrumSound::Tom2,
    ];
    let i: int = match d {
        DrumSound::Kick => 0,
        DrumSound::Snare => 1,
        DrumSound::HiHatClosed => 2,
        DrumSound::HiHatOpen => 3,
        DrumSound::Crash => 4,
        DrumSound::Ride => 5,
        DrumSound::Tom1 => 6,
        DrumSound::Tom2 => 7,
    };
    assert(kit[i] == d);
}

} // verus!
