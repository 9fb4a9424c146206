//! Tap tempo: the window of recent tap intervals from which the tempo is
//! taken, and the note values of tempo-synced effects.

use vstd::prelude::*;
use crate::bounded::{words8, words8_as_slice, words8_clear, words8_new, words8_push, words8_remove};

verus! {

/// Maximum number of tap intervals kept.
pub const MAX_TAP_SAMPLES: usize = 8;

/// Shortest tap interval that counts, in ms (200 BPM).
pub const MIN_TAP_INTERVAL_MS: u32 = 300;

/// Longest tap interval that counts, in ms (60 BPM).
pub const MAX_TAP_INTERVAL_MS: u32 = 1000;

/// A pause longer than this (ms) starts a new tap sequence.
pub const TAP_RESET_MS: u32 = 2000;

/// MIDI clock pulses per quarter note.
pub const MIDI_CLOCK_PPQ: u32 = 24;

/// Note values for tempo-synced effects.
#[derive(Debug, Clone, Copy, PartialEq, Eq, Structural)]
pub enum NoteValue {
    /// Whole note (4 beats).
    Whole,
    /// Half note (2 beats).
    Half,
    /// Quarter note (1 beat).
    Quarter,
    /// Eighth note (1/2 beat).
    Eighth,
    /// Sixteenth note (1/4 beat).
    Sixteenth,
    /// Thirty-second note (1/8 beat).
    ThirtySecond,
    /// Quarter note triplet.
    QuarterTriplet,
    /// Eighth note triplet.
    EighthTriplet,
    /// Dotted quarter note (1.5 beats).
    DottedQuarter,
    /// Dotted eighth note (0.75 beats).
    DottedEighth,
}

impl Default for NoteValue {
    fn default() -> (r: Self)
        ensures
            r == NoteValue::Quarter,
    {
        NoteValue::Quarter
    }
}

/// `a - b`, or 0 when `b` is later than `a`.
pub open spec fn spec_since(a: u32, b: u32) -> u32 {
    if a >= b { (a - b) as u32 } else { 0 }
}

/// Whether an interval counts as a tap: 300 to 1000 ms after a previous tap.
pub open spec fn spec_valid_tap(interval: u32, last_tap_time: u32) -> bool {
    MIN_TAP_INTERVAL_MS <= interval <= MAX_TAP_INTERVAL_MS && last_tap_time > 0
}

/// The interval window after a tap at `now`: a valid interval is appended
/// (the oldest dropped when eight are held); a pause over two seconds
/// clears the window; anything else leaves it as it was.
pub open spec fn spec_tap_window(samples: Seq<u32>, last_tap_time: u32, now: u32) -> Seq<u32> {
    let interval = spec_since(now, last_tap_time);
    if spec_valid_tap(interval, last_tap_time) {
        if samples.len() < MAX_TAP_SAMPLES {
            samples.push(interval)
        } else {
            samples.drop_first().push(interval)
        }
    } else if interval > TAP_RESET_MS {
        Seq::empty()
    } else {
        samples
    }
}

/// The sum of a run of intervals.
pub open spec fn spec_sum(s: Seq<u32>) -> int
    decreases s.len(),
{
    if s.len() == 0 { 0 } else { spec_sum(s.drop_last()) + s.last() }
}

/// Tap-tempo tracker: the last taps' intervals and the time of the last tap.
#[derive(Debug, Clone)]
pub struct TapTempo {
    /// Recent tap intervals in ms, oldest first.
    pub tap_samples: heapless::Vec<u32, 8>,
    /// Last tap timestamp (0 when no sequence is running).
    pub last_tap_time: u32,
    /// Number of intervals held.
    pub tap_count: u8,
}

impl TapTempo {
    /// At most eight intervals, each between 300 and 1000 ms, counted by
    /// `tap_count`.
    pub open spec fn wf(&self) -> bool {
        &&& words8(self.tap_samples).len() <= MAX_TAP_SAMPLES
        &&& self.tap_count == words8(self.tap_samples).len()
        &&& forall|i: int| 0 <= i < words8(self.tap_samples).len()
            ==> MIN_TAP_INTERVAL_MS <= #[trigger] words8(self.tap_samples)[i] <= MAX_TAP_INTERVAL_MS
    }

    /// No taps.
    pub fn new() -> (r: Self)
        ensures
            r.wf(),
            words8(r.tap_samples).len() == 0,
            r.last_tap_time == 0,
    {
        TapTempo { tap_samples: words8_new(), last_tap_time: 0, tap_count: 0 }
    }

    /// Register a tap at `timestamp_ms`.  Returns true when the tap
    /// completed a valid interval, so that a tempo can be taken from the
    /// window; the tap time is remembered either way.
    pub fn tap(&mut self, timestamp_ms: u32) -> (r: bool)
        requires
            old(self).wf(),
        ensures
            final(self).wf(),
            words8(final(self).tap_samples) == spec_tap_window(words8(old(self).tap_samples), old(self).last_tap_time, timestamp_ms),
            final(self).last_tap_time == timestamp_ms,
            r == spec_valid_tap(spec_since(timestamp_ms, old(self).last_tap_time), old(self).last_tap_time),
    {
        let time_diff = timestamp_ms.saturating_sub(self.last_tap_time);
        if time_diff >= MIN_TAP_INTERVAL_MS && time_diff <= MAX_TAP_INTERVAL_MS && self.last_tap_time > 0 {
            if words8_as_slice(&self.tap_samples).len() >= MAX_TAP_SAMPLES {
                let _ = words8_remove(&mut self.tap_samples, 0);
            }
            let _ = words8_push(&mut self.tap_samples, time_diff);
            self.tap_count = words8_as_slice(&self.tap_samples).len() as u8;
            self.last_tap_time = timestamp_ms;
            proof {
                let old_s = words8(old(self).tap_samples);
                if old_s.len() >= MAX_TAP_SAMPLES {
                    assert(words8(self.tap_samples) =~= old_s.drop_first().push(time_diff));
                }
            }
            return true;
        } else if time_diff > TAP_RESET_MS {
            self.clear();
        }
        self.last_tap_time = timestamp_ms;
        false
    }

    /// Forget every tap.
    pub fn clear(&mut self)
        ensures
            final(self).wf(),
            words8(final(self).tap_samples).len() == 0,
            final(self).last_tap_time == 0,
    {
        words8_clear(&mut self.tap_samples);
        self.tap_count = 0;
        self.last_tap_time = 0;
    }

    /// The sum of the held intervals, in ms.
    pub fn interval_sum(&self) -> (r: u32)
        requires
            self.wf(),
        ensures
            r == spec_sum(words8(self.tap_samples)),
            MIN_TAP_INTERVAL_MS * words8(self.tap_samples).len() <= r <= MAX_TAP_INTERVAL_MS * words8(self.tap_samples).len(),
    {
        let samples = words8_as_slice(&self.tap_samples);
        let mut sum: u32 = 0;
        let mut i: usize = 0;
        while i < samples.len()
            invariant
                self.wf(),
                i <= words8(self.tap_samples).len(),
                samples@ == words8(self.tap_samples),
                sum == spec_sum(words8(self.tap_samples).take(i as int)),
                MIN_TAP_INTERVAL_MS * i <= sum <= MAX_TAP_INTERVAL_MS * i,
            decreases words8(self.tap_samples).len() - i,
        {
            proof {
                assert(words8(self.tap_samples).take(i + 1).drop_last() =~= words8(self.tap_samples).take(i as int));
            }
            sum = sum + samples[i];
            i = i + 1;
        }
        proof {
            assert(words8(self.tap_samples).take(i as int) =~= words8(self.tap_samples));
        }
        sum
    }
}

/// Tempo from taps: with `n` intervals summing to `sum` ms, the tempo is
/// `60000 * n / sum` BPM, which always lies between 60 and 200.
pub proof fn lemma_tap_tempo_in_range(sum: int, n: int)
    requires
        1 <= n <= MAX_TAP_SAMPLES,
        MIN_TAP_INTERVAL_MS * n <= sum <= MAX_TAP_INTERVAL_MS * n,
    ensures
        60 * sum <= 60000 * n <= 200 * sum,
{
}

/// The window never holds more than eight intervals, keeps only valid
/// ones, and always ends with the interval of a valid tap.
pub proof fn lemma_tap_window(samples: Seq<u32>, last_tap_time: u32, now: u32)
    requires
        samples.len() <= MAX_TAP_SAMPLES,
    ensures
        spec_tap_window(samples, last_tap_time, now).len() <= MAX_TAP_SAMPLES,
        spec_valid_tap(spec_since(now, last_tap_time), last_tap_time) ==> {
            let w = spec_tap_window(samples, last_tap_time, now);
            &&& w.len() >= 1
            &&& w.last() == spec_since(now, last_tap_time)
        },
{
}

} // verus!
