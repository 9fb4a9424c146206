use loopstation_core_stm32::effects::{EffectSlots, EffectType};
use loopstation_core_stm32::performance::{AudioOptimizer, LatencyMeasurement};

#[test]
fn test_effect_types_parameter_counts() {
    assert_eq!(EffectType::Compressor.parameter_count(), 4);
    assert_eq!(EffectType::SpaceReverb.parameter_count(), 4);
    assert_eq!(EffectType::TapeEcho.parameter_count(), 4);
    assert_eq!(EffectType::MasteringEQ.parameter_count(), 4);
    assert_eq!(EffectType::Slicer.parameter_count(), 4);
    assert_eq!(EffectType::NoiseSuppressor.parameter_count(), 2);
    assert_eq!(EffectType::Limiter.parameter_count(), 3);
}

#[test]
fn test_effect_types_tempo_sync_support() {
    assert!(EffectType::TapeEcho.supports_tempo_sync());
    assert!(EffectType::T3Delay.supports_tempo_sync());
    assert!(EffectType::BeatRepeat.supports_tempo_sync());
    assert!(EffectType::Slicer.supports_tempo_sync());
    assert!(EffectType::Chorus.supports_tempo_sync());
    assert!(EffectType::Flanger.supports_tempo_sync());

    assert!(!EffectType::Compressor.supports_tempo_sync());
    assert!(!EffectType::SpaceReverb.supports_tempo_sync());
    assert!(!EffectType::MasteringEQ.supports_tempo_sync());
}

#[test]
fn test_effect_types_names() {
    assert_eq!(EffectType::Compressor.name(), "COMPRESSOR");
    assert_eq!(EffectType::SpaceReverb.name(), "SPACE REVERB");
    assert_eq!(EffectType::TapeEcho.name(), "TAPE ECHO");
    assert_eq!(EffectType::MasteringEQ.name(), "MASTERING EQ");
    assert_eq!(EffectType::BeatRepeat.name(), "BEAT REPEAT");
    assert_eq!(EffectType::NoiseSuppressor.name(), "NOISE SUPPRESSOR");
}

#[test]
fn test_effect_types() {
    assert_eq!(EffectType::Compressor.name(), "COMPRESSOR");
    assert_eq!(EffectType::Compressor.parameter_count(), 4);
    assert!(!EffectType::Compressor.supports_tempo_sync());

    assert_eq!(EffectType::TapeEcho.name(), "TAPE ECHO");
    assert_eq!(EffectType::TapeEcho.parameter_count(), 4);
    assert!(EffectType::TapeEcho.supports_tempo_sync());
}

#[test]
fn test_audio_optimizer_effect_cost_estimation() {
    let mixer_cost = AudioOptimizer::estimate_effect_cost(&EffectType::Mixer);
    let reverb_cost = AudioOptimizer::estimate_effect_cost(&EffectType::SpaceReverb);
    let pitch_cost = AudioOptimizer::estimate_effect_cost(&EffectType::PitchShift);

    assert!(reverb_cost > mixer_cost);
    assert!(pitch_cost >= reverb_cost);
}

#[test]
fn test_latency_measurement() {
    let mut latency = LatencyMeasurement::new();

    latency.measure_impulse_latency(44100, 256);

    assert!(latency.total_latency > 0);
    assert!(latency.adc_latency > 0);
    assert!(latency.dac_latency > 0);
    assert!(latency.buffer_latency > 0);

    let expected_total = latency.adc_latency + latency.dac_latency +
                        latency.buffer_latency + latency.processing_latency;
    assert_eq!(latency.total_latency, expected_total);
}

#[test]
fn latency_components_for_256_sample_buffer() {
    let mut latency = LatencyMeasurement::new();
    latency.measure_impulse_latency(44100, 256);
    assert_eq!(latency.adc_latency, 2);
    assert_eq!(latency.dac_latency, 3);
    assert_eq!(latency.buffer_latency, 256);
    assert_eq!(latency.processing_latency, 64);
    assert_eq!(latency.total_latency, 325);
}

#[test]
fn test_latency_measurement_requirements() {
    let mut latency = LatencyMeasurement::new();

    // Test with small buffer (should meet requirements)
    latency.measure_impulse_latency(44100, 128);
    assert!(latency.meets_requirements(44100));

    // Test with large buffer (might not meet requirements)
    latency.measure_impulse_latency(44100, 2048);
    let latency_ms = (latency.total_latency as f32 / 44100.0f32) * 1000.0;

    if latency_ms >= 5.0 {
        assert!(!latency.meets_requirements(44100));
    }
}

#[test]
fn latency_requirement_small_and_large_buffers() {
    let mut latency = LatencyMeasurement::new();
    latency.measure_impulse_latency(44100, 128);
    assert_eq!(latency.total_latency, 165);
    assert!(latency.meets_requirements(44100));
    latency.measure_impulse_latency(44100, 2048);
    assert_eq!(latency.total_latency, 2565);
    assert!(!latency.meets_requirements(44100));
    // The bound is strict: 220 samples at 44.1 kHz is just under 5 ms,
    // 221 samples just over.
    latency.total_latency = 220;
    assert!(latency.meets_requirements(44100));
    latency.total_latency = 221;
    assert!(!latency.meets_requirements(44100));
}

#[test]
fn effect_costs_exact_values() {
    assert_eq!(AudioOptimizer::estimate_effect_cost(&EffectType::Mixer), 1);
    assert_eq!(AudioOptimizer::estimate_effect_cost(&EffectType::Limiter), 2);
    assert_eq!(AudioOptimizer::estimate_effect_cost(&EffectType::Reverse), 3);
    assert_eq!(AudioOptimizer::estimate_effect_cost(&EffectType::Slicer), 4);
    assert_eq!(AudioOptimizer::estimate_effect_cost(&EffectType::MultibandCompressor), 5);
    assert_eq!(AudioOptimizer::estimate_effect_cost(&EffectType::PitchCorrect), 6);
}

#[test]
fn effect_slots_fill_in_order() {
    let mut slots: EffectSlots<u32> = EffectSlots::new();
    assert!(!slots.has_effects());
    assert_eq!(slots.add_effect(10), Ok(0));
    assert_eq!(slots.add_effect(11), Ok(1));
    assert_eq!(slots.set_effect(3, Some(13)), Ok(()));
    assert_eq!(slots.set_effect(4, Some(14)), Err(()));
    assert_eq!(slots.add_effect(12), Ok(2));
    assert_eq!(slots.add_effect(15), Err(()));
    assert_eq!(slots.active_effect_count(), 4);
    assert_eq!(slots.remove_effect(1), Some(11));
    assert_eq!(slots.get_effect(1), None);
    assert_eq!(slots.add_effect(16), Ok(1));
    assert_eq!(slots.get_effect(1), Some(&16));
    assert_eq!(slots.get_effect(7), None);
    slots.clear();
    assert_eq!(slots.active_effect_count(), 0);
}

#[test]
fn effect_names_are_distinct_and_upper_case() {
    let all = [
        EffectType::Slicer, EffectType::BeatRepeat, EffectType::Reverse, EffectType::TapeEcho,
        EffectType::SpaceReverb, EffectType::T3Delay, EffectType::Chorus, EffectType::Flanger,
        EffectType::Compressor, EffectType::NoiseSuppressor, EffectType::Limiter,
        EffectType::MultibandCompressor, EffectType::AutoWah, EffectType::Isolator, EffectType::DJFilter,
        EffectType::MasteringEQ, EffectType::PitchShift, EffectType::PitchCorrect, EffectType::JC120,
        EffectType::Tweed, EffectType::Metal, EffectType::Mixer, EffectType::Sidechain,
    ];
    for (i, a) in all.iter().enumerate() {
        let name = a.name();
        assert!(!name.is_empty());
        assert!(name.chars().all(|c| c.is_ascii_uppercase() || c.is_ascii_digit() || c == ' ' || c == '-'));
        for b in all.iter().skip(i + 1) {
            assert_ne!(name, b.name());
        }
    }
    assert_eq!(EffectType::JC120.name(), "JC-120");
    assert_eq!(EffectType::T3Delay.name(), "T3 DELAY");
}
