//! Names and targets of the modulation sources (LFOs and step sequencers).

use vstd::prelude::*;
use crate::effects::EffectChainType;

verus! {

/// Maximum number of LFOs per system.
pub const MAX_LFOS: usize = 8;

/// Maximum number of Step Sequencers per system.
pub const MAX_STEP_SEQUENCERS: usize = 4;

/// Maximum steps per Step Sequencer.
pub const MAX_STEPS: usize = 16;

/// Maximum modulation assignments per LFO/Step Sequencer.
pub const MAX_ASSIGNMENTS: usize = 8;

/// LFO waveform types.
#[derive(Debug, Clone, Copy, PartialEq, Eq, Structural)]
pub enum LfoWaveform {
    Sine,
    Triangle,
    Square,
    Sawtooth,
    Random,
}

/// The display name of each waveform.
pub open spec fn spec_waveform_name(w: LfoWaveform) -> Seq<char> {
    match w {
        LfoWaveform::Sine => "SINE"@,
        LfoWaveform::Triangle => "TRIANGLE"@,
        LfoWaveform::Square => "SQUARE"@,
        LfoWaveform::Sawtooth => "SAWTOOTH"@,
        LfoWaveform::Random => "RANDOM"@,
    }
}

impl LfoWaveform {
    /// The display name for this waveform.
    pub fn name(&self) -> (r: &'static str)
        ensures
            r@ == spec_waveform_name(*self),
    {
        match self {
            LfoWaveform::Sine => "SINE",
            LfoWaveform::Triangle => "TRIANGLE",
            LfoWaveform::Square => "SQUARE",
            LfoWaveform::Sawtooth => "SAWTOOTH",
            LfoWaveform::Random => "RANDOM",
        }
    }
}

/// LFO sync mode for tempo synchronization.
#[derive(Debug, Clone, Copy, PartialEq, Eq, Structural)]
pub enum LfoSyncMode {
    /// Free-running mode (Hz).
    FreeRunning,
    /// Tempo synchronized mode.
    TempoSync,
}

/// Tempo sync divisions for LFO.
#[derive(Debug, Clone, Copy, PartialEq, Eq, Structural)]
pub enum TempoSyncDivision {
    ThirtySecond,
    Sixteenth,
    Eighth,
    Quarter,
    Half,
    WholeNote,
    TwoBars,
    FourBars,
    EightBars,
}

/// The display name of each division.
pub open spec fn spec_division_name(d: TempoSyncDivision) -> Seq<char> {
    match d {
        TempoSyncDivision::ThirtySecond => "1/32"@,
        TempoSyncDivision::Sixteenth => "1/16"@,
        TempoSyncDivision::Eighth => "1/8"@,
        TempoSyncDivision::Quarter => "1/4"@,
        TempoSyncDivision::Half => "1/2"@,
        TempoSyncDivision::WholeNote => "1 BAR"@,
        TempoSyncDivision::TwoBars => "2 BARS"@,
        TempoSyncDivision::FourBars => "4 BARS"@,
        TempoSyncDivision::EightBars => "8 BARS"@,
    }
}

impl TempoSyncDivision {
    /// The display name for this division.
    pub fn name(&self) -> (r: &'static str)
        ensures
            r@ == spec_division_name(*self),
    {
        match self {
            TempoSyncDivision::ThirtySecond => "1/32",
            TempoSyncDivision::Sixteenth => "1/16",
            TempoSyncDivision::Eighth => "1/8",
            TempoSyncDivision::Quarter => "1/4",
            TempoSyncDivision::Half => "1/2",
            TempoSyncDivision::WholeNote => "1 BAR",
            TempoSyncDivision::TwoBars => "2 BARS",
            TempoSyncDivision::FourBars => "4 BARS",
            TempoSyncDivision::EightBars => "8 BARS",
        }
    }
}

/// Modulation target for LFO and Step Sequencer assignment.
#[derive(Debug, Clone, Copy, PartialEq, Eq, Structural)]
pub enum ModulationTarget {
    /// Track volume (track_id).
    TrackVolume(u8),
    /// Track pan (track_id).
    TrackPan(u8),
    /// Master volume.
    MasterVolume,
    /// Effect parameter.
    EffectParameter { chain_type: EffectChainType, slot_index: u8, param_index: u8, track_id: Option<u8> },
    /// Filter cutoff frequency.
    FilterCutoff,
    /// Filter resonance.
    FilterResonance,
    /// LFO rate (for LFO-to-LFO modulation).
    LfoRate(u8),
    /// LFO depth (for LFO-to-LFO modulation).
    LfoDepth(u8),
}

/// Modulation activity status for display.
#[derive(Debug, Clone, Copy, PartialEq, Eq, Structural)]
pub struct ModulationActivity {
    /// Number of active LFOs.
    pub active_lfos: u8,
    /// Number of active Step Sequencers.
    pub active_step_sequencers: u8,
    /// Total number of modulation assignments.
    pub total_assignments: usize,
}

} // verus!
