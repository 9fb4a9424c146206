//! Performance bookkeeping that needs no floating point: the optimisation
//! switches, the status levels, the relative cost of each effect type, and
//! the input-to-output latency budget.

use vstd::prelude::*;
use crate::effects::EffectType;

verus! {

/// Optimization flags for enabling/disabling performance optimizations.
#[derive(Debug, Clone, Copy, PartialEq, Eq, Structural)]
pub struct OptimizationFlags {
    /// Enable SIMD optimizations where available.
    pub simd_enabled: bool,
    /// Enable fast math approximations.
    pub fast_math: bool,
    /// Enable audio buffer pre-allocation.
    pub buffer_prealloc: bool,
    /// Enable effect chain optimization.
    pub effect_chain_opt: bool,
    /// Enable track processing optimization.
    pub track_processing_opt: bool,
    /// Enable memory pool allocation.
    pub memory_pool: bool,
}

impl Default for OptimizationFlags {
    /// Every optimisation on.
    fn default() -> (r: Self)
        ensures
            r.simd_enabled && r.fast_math && r.buffer_prealloc,
            r.effect_chain_opt && r.track_processing_opt && r.memory_pool,
    {
        OptimizationFlags {
            simd_enabled: true,
            fast_math: true,
            buffer_prealloc: true,
            effect_chain_opt: true,
            track_processing_opt: true,
            memory_pool: true,
        }
    }
}

/// Performance status levels.
#[derive(Debug, Clone, Copy, PartialEq, Eq, Structural)]
pub enum PerformanceStatus {
    /// System performing well within requirements.
    Good,
    /// System has performance warnings but still functional.
    Warning,
    /// System has critical performance issues.
    Critical,
}

/// Relative processing cost of each effect type, from 1 (mixer) to 6
/// (pitch processing).
pub open spec fn spec_effect_cost(e: EffectType) -> u32 {
    match e {
        EffectType::Mixer => 1,
        EffectType::Limiter | EffectType::NoiseSuppressor => 2,
        EffectType::Compressor | EffectType::MasteringEQ | EffectType::AutoWah | EffectType::DJFilter
        | EffectType::Reverse | EffectType::Sidechain => 3,
        EffectType::TapeEcho | EffectType::T3Delay | EffectType::Chorus | EffectType::Flanger
        | EffectType::Slicer | EffectType::Isolator | EffectType::JC120 | EffectType::Tweed
        | EffectType::Metal => 4,
        EffectType::SpaceReverb | EffectType::BeatRepeat | EffectType::MultibandCompressor => 5,
        EffectType::PitchShift | EffectType::PitchCorrect => 6,
    }
}

/// Audio processing optimization utilities.
pub struct AudioOptimizer;

impl AudioOptimizer {
    /// Estimate the computational cost of an effect.
    pub fn estimate_effect_cost(effect_type: &EffectType) -> (r: u32)
        ensures
            r == spec_effect_cost(*effect_type),
    {
        match effect_type {
            EffectType::Mixer => 1,
            EffectType::Limiter => 2,
            EffectType::NoiseSuppressor => 2,
            EffectType::Compressor => 3,
            EffectType::MasteringEQ => 3,
            EffectType::AutoWah => 3,
            EffectType::DJFilter => 3,
            EffectType::TapeEcho => 4,
            EffectType::T3Delay => 4,
            EffectType::Chorus => 4,
            EffectType::Flanger => 4,
            EffectType::SpaceReverb => 5,
            EffectType::BeatRepeat => 5,
            EffectType::PitchShift => 6,
            EffectType::PitchCorrect => 6,
            EffectType::Slicer => 4,
            EffectType::Reverse => 3,
            EffectType::MultibandCompressor => 5,
            EffectType::Isolator => 4,
            EffectType::JC120 => 4,
            EffectType::Tweed => 4,
            EffectType::Metal => 4,
            EffectType::Sidechain => 3,
        }
    }
}

/// The mixer is the cheapest effect and pitch processing the dearest:
/// every cost lies between them.
pub proof fn lemma_effect_cost_range(e: EffectType)
    ensures
        spec_effect_cost(EffectType::Mixer) <= spec_effect_cost(e) <= spec_effect_cost(EffectType::PitchShift),
        spec_effect_cost(e) == 1 <==> e == EffectType::Mixer,
{
}

/// Latency measurement, every component in samples.
#[derive(Debug, Clone, Copy, PartialEq, Eq, Structural)]
pub struct LatencyMeasurement {
    /// Input to output latency.
    pub total_latency: u32,
    /// ADC latency.
    pub adc_latency: u32,
    /// Processing latency.
    pub processing_latency: u32,
    /// DAC latency.
    pub dac_latency: u32,
    /// Buffer latency.
    pub buffer_latency: u32,
}

/// ADC latency of the delta-sigma converters, in samples.
pub const ADC_LATENCY_SAMPLES: u32 = 2;

/// DAC latency of the delta-sigma converters, in samples.
pub const DAC_LATENCY_SAMPLES: u32 = 3;

/// Required input-to-output latency bound, in milliseconds.
pub const MAX_LATENCY_MS: u32 = 5;

impl LatencyMeasurement {
    /// The total of the four components.
    pub open spec fn spec_sum(&self) -> int {
        self.adc_latency + self.dac_latency + self.buffer_latency + self.processing_latency
    }

    /// All components zero.
    pub fn new() -> (r: Self)
        ensures
            r.total_latency == 0 && r.adc_latency == 0 && r.processing_latency == 0,
            r.dac_latency == 0 && r.buffer_latency == 0,
    {
        LatencyMeasurement { total_latency: 0, adc_latency: 0, processing_latency: 0, dac_latency: 0, buffer_latency: 0 }
    }

    /// Estimate the latency components for a buffer size: two samples of
    /// ADC, three of DAC, one buffer period added by double buffering and a
    /// quarter buffer of processing.  A 128-sample buffer at 44.1 kHz thus
    /// comes to 165 samples, within the 5 ms target.
    pub fn measure_impulse_latency(&mut self, sample_rate: u32, buffer_size: u32)
        requires
            buffer_size + buffer_size / 4 + ADC_LATENCY_SAMPLES + DAC_LATENCY_SAMPLES <= u32::MAX,
        ensures
            final(self).adc_latency == ADC_LATENCY_SAMPLES,
            final(self).dac_latency == DAC_LATENCY_SAMPLES,
            final(self).buffer_latency == buffer_size,
            final(self).processing_latency == buffer_size / 4,
            final(self).total_latency == final(self).spec_sum(),
    {
        self.adc_latency = ADC_LATENCY_SAMPLES;
        self.dac_latency = DAC_LATENCY_SAMPLES;
        self.buffer_latency = buffer_size;
        self.processing_latency = buffer_size / 4;
        self.total_latency = self.adc_latency + self.dac_latency + self.buffer_latency + self.processing_latency;
    }

    /// Whether the total latency is under 5 ms at the given sample rate:
    /// `total / sample_rate * 1000 < 5`, decided in whole numbers.
    pub fn meets_requirements(&self, sample_rate: u32) -> (r: bool)
        ensures
            r <==> self.total_latency * 1000 < MAX_LATENCY_MS * sample_rate,
    {
        let total: u64 = self.total_latency as u64;
        let rate: u64 = sample_rate as u64;
        assert(total * 1000 <= 0xffff_ffff * 1000 && 5 * rate <= 5 * 0xffff_ffff) by (nonlinear_arith)
            requires
                total <= 0xffff_ffff,
                rate <= 0xffff_ffff,
        ;
        total * 1000 < 5 * rate
    }
}

} // verus!
