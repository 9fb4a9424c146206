use loopstation_core_stm32::modulation::{LfoWaveform, TempoSyncDivision};
use loopstation_core_stm32::rhythm::DrumSound;
use loopstation_core_stm32::tempo::{NoteValue, TapTempo};

#[test]
fn second_tap_gives_a_tempo() {
    let mut taps = TapTempo::new();
    assert!(!taps.tap(1000));
    assert!(taps.tap(1500));
    assert_eq!(taps.tap_count, 1);
    assert_eq!(taps.interval_sum(), 500);
    // 60000 * 1 / 500 = 120 BPM
    assert_eq!(60000 * taps.tap_count as u32 / taps.interval_sum(), 120);
}

#[test]
fn taps_outside_the_window_do_not_count() {
    let mut taps = TapTempo::new();
    assert!(!taps.tap(1000));
    assert!(!taps.tap(1200));
    assert!(!taps.tap(2300));
    assert_eq!(taps.tap_count, 0);
    assert!(taps.tap(2900));
    assert_eq!(taps.tap_count, 1);
    // A pause of more than two seconds clears the window.
    assert!(!taps.tap(5000));
    assert_eq!(taps.tap_count, 0);
    assert_eq!(taps.last_tap_time, 5000);
}

#[test]
fn tap_window_keeps_last_eight_intervals() {
    let mut taps = TapTempo::new();
    let mut t = 1000u32;
    taps.tap(t);
    for i in 0..10u32 {
        t += 400 + i;
        assert!(taps.tap(t));
    }
    assert_eq!(taps.tap_count, 8);
    assert_eq!(taps.tap_samples.as_slice(), &[402, 403, 404, 405, 406, 407, 408, 409]);
    taps.clear();
    assert_eq!(taps.tap_count, 0);
    assert_eq!(taps.last_tap_time, 0);
}

#[test]
fn note_value_default_is_quarter() {
    assert_eq!(NoteValue::default(), NoteValue::Quarter);
}

#[test]
fn display_names() {
    assert_eq!(LfoWaveform::Triangle.name(), "TRIANGLE");
    assert_eq!(TempoSyncDivision::WholeNote.name(), "1 BAR");
    assert_eq!(TempoSyncDivision::ThirtySecond.name(), "1/32");
    assert_eq!(DrumSound::HiHatClosed.name(), "HH Closed");
    assert_eq!(DrumSound::all()[7], DrumSound::Tom2);
    assert_eq!(DrumSound::all().len(), 8);
}
