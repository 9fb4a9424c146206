use loopstation_core_stm32::hal::{
    check_usb_audio_format, sync_leds_with_system_state, ButtonId, ButtonMapping, ButtonState,
    ControllerType, DawRoutingConfig, HalError, Hc595LedController, Ky040RotaryEncoder, LedCommand,
    LedId, Pcf8575Controller, PressType, UsbAudioMode, UsbSource,
};

#[test]
fn button_mapping_track_controller() {
    let m = ButtonMapping::new(ControllerType::TrackButtons);
    assert_eq!(m.get_button_for_pin(0), Some(ButtonId::Track(0)));
    assert_eq!(m.get_button_for_pin(8), Some(ButtonId::TrackSelect(0)));
    assert_eq!(m.get_button_for_pin(6), None);
    assert_eq!(m.get_button_for_pin(16), None);
    assert_eq!(m.get_pin_for_button(ButtonId::TrackSelect(5)), Some(13));
    assert_eq!(m.get_pin_for_button(ButtonId::Play), None);
}

#[test]
fn pcf8575_changes_confirmed_on_third_count() {
    let mut c = Pcf8575Controller::new(0x20, ControllerType::FxAndTransport);
    // Pin 8 (Play) goes low: bit 8 is in the most significant byte.
    let pressed = [0xFE, 0xFF];
    let released = [0xFF, 0xFF];
    assert!(c.process_read(pressed, 10).is_empty());
    assert!(c.process_read(released, 20).is_empty());
    assert!(c.process_read(pressed, 30).is_empty());
    assert!(c.get_button_state(ButtonId::Play));
    // A confirmed change needs three counted changes, on release too.
    assert!(c.process_read(released, 100).is_empty());
    assert!(c.process_read(pressed, 110).is_empty());
    let ev = c.process_read(released, 120);
    assert_eq!(ev.as_slice(), &[(ButtonId::Play, PressType::Short)]);
}

#[test]
fn pcf8575_output_frame_is_big_endian() {
    assert_eq!(Pcf8575Controller::output_frame(0x12AB), [0x12, 0xAB]);
}

#[test]
fn debounced_button_state_reports_edges() {
    let mut b = ButtonState::new();
    assert!(!b.update(true, 0));
    assert!(!b.update(true, 5));
    assert!(b.update(true, 10));
    assert!(b.just_pressed());
    assert!(!b.just_released());
}

#[test]
fn led_set_and_read_back() {
    let mut leds = Hc595LedController::new(4);
    assert_eq!(leds.init(), Ok(()));
    assert_eq!(leds.set_led(LedId::Track(1), LedCommand::On), Ok(()));
    assert_eq!(leds.get_led_state(LedId::Track(1)), Ok(true));
    assert_eq!(leds.get_led_state(LedId::Track(2)), Ok(false));
    assert_eq!(leds.set_led(LedId::Track(1), LedCommand::Toggle), Ok(()));
    assert_eq!(leds.get_led_state(LedId::Track(1)), Ok(false));
    assert_eq!(leds.get_led_state(LedId::Track(0)), Err(HalError::InvalidControl));
    assert_eq!(leds.set_all_leds(), Ok(()));
    assert_eq!(leds.get_led_state(LedId::Power), Ok(true));
    assert_eq!(leds.clear_all_leds(), Ok(()));
    assert_eq!(leds.get_led_state(LedId::Power), Ok(false));
}

#[test]
fn rotary_encoder_position_and_reset() {
    let mut enc = Ky040RotaryEncoder::new();
    assert_eq!(enc.init(), Ok(()));
    assert_eq!(enc.get_position(), 0);
    enc.reset_position();
    assert_eq!(enc.get_position(), 0);
    assert!(!enc.is_button_pressed());
}

#[test]
fn usb_audio_formats() {
    assert_eq!(UsbAudioMode::Standard.format(), (44100, 16));
    assert_eq!(check_usb_audio_format(48000, 24), Ok(()));
    assert_eq!(check_usb_audio_format(44100, 20), Err(HalError::UnsupportedFormat));
}

#[test]
fn sync_leds_shows_system_state() {
    let mut leds = Hc595LedController::new(4);
    assert_eq!(leds.init(), Ok(()));
    assert_eq!(leds.set_led(LedId::Play, LedCommand::On), Ok(()));
    assert_eq!(leds.set_led(LedId::Memory, LedCommand::On), Ok(()));
    assert_eq!(sync_leds_with_system_state(&mut leds, true), Ok(()));
    assert_eq!(leds.get_led_state(LedId::Track(1)), Ok(true));
    assert_eq!(leds.get_led_state(LedId::Track(3)), Ok(true));
    assert_eq!(leds.get_led_state(LedId::Track(4)), Ok(false));
    assert_eq!(leds.get_led_state(LedId::TrackRec(1)), Ok(true));
    assert_eq!(leds.get_led_state(LedId::TrackRec(2)), Ok(false));
    assert_eq!(leds.get_led_state(LedId::FX(2)), Ok(true));
    assert_eq!(leds.get_led_state(LedId::FX(3)), Ok(false));
    assert_eq!(leds.get_led_state(LedId::Play), Ok(false));
    assert_eq!(leds.get_led_state(LedId::Stop), Ok(true));
    assert_eq!(leds.get_led_state(LedId::Power), Ok(true));
    assert_eq!(leds.get_led_state(LedId::Error), Ok(false));
    // Not part of the pattern: left as it was.
    assert_eq!(leds.get_led_state(LedId::Memory), Ok(true));
}

#[test]
fn sync_leds_without_engine_leaves_tracks() {
    let mut leds = Hc595LedController::new(4);
    assert_eq!(leds.init(), Ok(()));
    assert_eq!(leds.set_led(LedId::Track(5), LedCommand::On), Ok(()));
    assert_eq!(sync_leds_with_system_state(&mut leds, false), Ok(()));
    assert_eq!(leds.get_led_state(LedId::Track(5)), Ok(true));
    assert_eq!(leds.get_led_state(LedId::Track(1)), Ok(false));
    assert_eq!(leds.get_led_state(LedId::Stop), Ok(true));
}

#[test]
fn sync_leds_needs_four_chips() {
    let mut leds = Hc595LedController::new(3);
    assert_eq!(leds.init(), Ok(()));
    assert_eq!(sync_leds_with_system_state(&mut leds, true), Err(HalError::InvalidControl));
}

#[test]
fn default_daw_routing() {
    let cfg = DawRoutingConfig::default();
    assert_eq!(cfg.validate(), Ok(()));
    let plan = cfg.usb_output_plan();
    assert_eq!(plan[0], UsbSource::TrackLeft(0));
    assert_eq!(plan[3], UsbSource::TrackRight(1));
    assert_eq!(plan[11], UsbSource::TrackRight(5));
    assert_eq!(plan[12], UsbSource::Silent);
    assert_eq!(plan[14], UsbSource::MasterLeft);
    assert_eq!(plan[15], UsbSource::MasterRight);
    assert_eq!(cfg.usb_input_for_track(1), Ok(Some(0)));
    assert_eq!(cfg.usb_input_for_track(6), Ok(Some(5)));
    assert_eq!(cfg.usb_input_for_track(0), Err(HalError::InvalidParameter));
    assert_eq!(cfg.usb_input_for_track(7), Err(HalError::InvalidParameter));
}

#[test]
fn routing_overlaps_and_rejects() {
    let mut cfg = DawRoutingConfig::default();
    // Track 2 moved onto the master pair: the master wins.
    cfg.track_output_routing[1] = Some((14, 15));
    cfg.track_input_routing[2] = Some(20);
    cfg.track_input_routing[3] = None;
    let plan = cfg.usb_output_plan();
    assert_eq!(plan[2], UsbSource::Silent);
    assert_eq!(plan[14], UsbSource::MasterLeft);
    assert_eq!(cfg.usb_input_for_track(3), Ok(None));
    assert_eq!(cfg.usb_input_for_track(4), Ok(None));
    cfg.master_output_routing = (16, 17);
    assert_eq!(cfg.validate(), Err(HalError::InvalidConfiguration));
    let plan = cfg.usb_output_plan();
    assert_eq!(plan[14], UsbSource::TrackLeft(1));
}

#[test]
fn led_set_leaves_other_leds_and_toggle_twice_restores() {
    let mut leds = Hc595LedController::new(4);
    assert_eq!(leds.init(), Ok(()));
    assert_eq!(leds.set_led(LedId::Track(2), LedCommand::On), Ok(()));
    let before = leds.led_states;
    assert_eq!(leds.set_led(LedId::Track(3), LedCommand::On), Ok(()));
    assert_eq!(leds.get_led_state(LedId::Track(3)), Ok(true));
    assert_eq!(leds.get_led_state(LedId::Track(2)), Ok(true));
    assert_eq!(leds.get_led_state(LedId::TrackRec(1)), Ok(false));
    assert!(leds.update_pending);
    assert_eq!(leds.set_led(LedId::Track(3), LedCommand::Off), Ok(()));
    assert_eq!(leds.get_led_state(LedId::Track(3)), Ok(false));
    assert_eq!(leds.led_states, before);
    assert_eq!(leds.set_led(LedId::Memory, LedCommand::Toggle), Ok(()));
    assert_eq!(leds.get_led_state(LedId::Memory), Ok(true));
    assert_eq!(leds.set_led(LedId::Memory, LedCommand::Toggle), Ok(()));
    assert_eq!(leds.led_states, before);
    assert_eq!(leds.set_led(LedId::Memory, LedCommand::Brightness(10)), Err(HalError::InvalidControl));
    assert_eq!(leds.led_states, before);
}

#[test]
fn leds_on_chips_beyond_eight_are_usable_for_status_leds() {
    let mut leds = Hc595LedController::new(12);
    leds.enabled = true;
    assert_eq!(leds.set_led(LedId::Power, LedCommand::On), Ok(()));
    assert_eq!(leds.get_led_state(LedId::Power), Ok(true));
}

#[test]
fn pcf8575_overflow_check() {
    let mut c = Pcf8575Controller::new(0x20, ControllerType::FxAndTransport);
    assert!(!c.read_overflows_counter([0xFE, 0xFF]));
    c.debounce_counters[8] = 255;
    assert!(c.read_overflows_counter([0xFE, 0xFF]));
    // No change on pin 8: nothing is counted.
    assert!(!c.read_overflows_counter([0xFF, 0xFF]));
}

#[test]
fn rotary_update_fits_ranges() {
    let mut enc = Ky040RotaryEncoder::new();
    assert_eq!(enc.init(), Ok(()));
    assert!(enc.update_fits(500));
    enc.prev_clk_state = true;
    enc.position = i32::MAX;
    // At t = 1500 CLK reads low (falling edge) and DT high: a clockwise step.
    assert!(!enc.update_fits(1500));
    enc.position = i32::MIN;
    assert!(enc.update_fits(1500));
    enc.prev_button_state = true;
    enc.button_debounce_counter = 255;
    assert!(!enc.update_fits(0));
}

#[test]
fn rotary_encoder_turns_on_falling_clock_edge() {
    let mut enc = Ky040RotaryEncoder::new();
    assert_eq!(enc.init(), Ok(()));
    // CLK reads high at t = 0, low at t = 1500 with DT high: clockwise.
    assert!(enc.update(0).is_empty());
    let ev = enc.update(1500);
    assert_eq!(ev.as_slice(), &[hal_rotary_cw()]);
    assert_eq!(enc.get_position(), 1);
    // No edge while CLK stays low; the next falling edge turns it again.
    assert!(enc.update(1800).is_empty());
    assert!(enc.update(2500).is_empty());
    let ev = enc.update(3500);
    assert_eq!(ev.len(), 1);
    assert_eq!(enc.get_position(), 2);
}

fn hal_rotary_cw() -> loopstation_core_stm32::hal::RotaryEvent {
    loopstation_core_stm32::hal::RotaryEvent::Clockwise
}

#[test]
fn sync_leds_applies_commands_before_the_first_missing_chip() {
    let mut leds = Hc595LedController::new(2);
    assert_eq!(leds.init(), Ok(()));
    // FX 5 lies on the third chip: the commands before it were applied.
    assert_eq!(sync_leds_with_system_state(&mut leds, true), Err(HalError::InvalidControl));
    assert_eq!(leds.get_led_state(LedId::Track(1)), Ok(true));
    assert_eq!(leds.get_led_state(LedId::TrackRec(1)), Ok(true));
    assert_eq!(leds.get_led_state(LedId::Track(4)), Ok(false));
    assert_eq!(leds.get_led_state(LedId::FX(1)), Ok(true));
    assert_eq!(leds.get_led_state(LedId::FX(2)), Ok(true));
    assert_eq!(leds.get_led_state(LedId::FX(3)), Ok(false));
}

#[test]
fn disabled_controller_ignores_leds_past_the_eighth_chip() {
    let mut leds = Hc595LedController::new(12);
    leds.enabled = false;
    assert_eq!(leds.set_led(LedId::Custom(60), LedCommand::On), Ok(()));
    assert_eq!(leds.led_states, [0; 8]);
}
