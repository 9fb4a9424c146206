use loopstation_core_stm32::controls::{
    button_id_to_index, collect_control_events, map_hal_button_to_control_button, ButtonFunction,
    ButtonId, ButtonPress, ControlEvent, ControlSystem, EffectSlot, FaderId,
    HardwareControlInterface, KnobId,
};
use loopstation_core_stm32::effects::EffectChainType;
use loopstation_core_stm32::hal::{self, PressType, RotaryEvent};
use loopstation_core_stm32::storage::FXButtonAssignment;

fn press(button: ButtonId, press_type: ButtonPress) -> Option<ControlEvent> {
    Some(ControlEvent::ButtonPress { button, press_type })
}

#[test]
fn control_system_defaults() {
    let cs = ControlSystem::new();
    assert_eq!(cs.debounce_time_ms, 10);
    assert_eq!(cs.long_press_threshold_ms, 500);
    assert_eq!(cs.double_press_window_ms, 300);
    assert!(cs.get_fx_button_assignment(0).is_none());
}

#[test]
fn track_button_functions() {
    let cs = ControlSystem::new();
    assert_eq!(cs.get_button_function(ButtonId::Track3, ButtonPress::Short), Some(ButtonFunction::TrackPlayStop(3)));
    assert_eq!(cs.get_button_function(ButtonId::Track3, ButtonPress::Long), Some(ButtonFunction::TrackRecord(3)));
    assert_eq!(cs.get_button_function(ButtonId::Track3, ButtonPress::Double), Some(ButtonFunction::TrackClear(3)));
    assert_eq!(cs.get_button_function(ButtonId::TrackSelect6, ButtonPress::Long), Some(ButtonFunction::TrackMute(6)));
    assert_eq!(cs.get_button_function(ButtonId::TrackSelect6, ButtonPress::Double), None);
    assert_eq!(cs.get_button_function(ButtonId::Stop, ButtonPress::Long), Some(ButtonFunction::AllClear));
    assert_eq!(cs.get_button_function(ButtonId::Exit, ButtonPress::Double), Some(ButtonFunction::MenuExit));
    assert_eq!(cs.get_button_function(ButtonId::Rec, ButtonPress::Short), None);
    assert_eq!(cs.get_button_function(ButtonId::FX1, ButtonPress::Short), None);
}

#[test]
fn fx_button_assignment_functions() {
    let mut cs = ControlSystem::new();
    let a = FXButtonAssignment {
        chain_type: EffectChainType::MasterFX,
        slot_index: 2,
        target_track: None,
        momentary: true,
    };
    cs.set_fx_button_assignment(1, Some(a));
    cs.set_fx_button_assignment(9, Some(a));
    assert_eq!(cs.get_fx_button_assignment(1), Some(&a));
    assert_eq!(cs.get_fx_button_assignment(9), None);
    let slot = EffectSlot { chain_type: EffectChainType::MasterFX, slot_index: 2, track_id: None };
    assert_eq!(cs.get_button_function(ButtonId::FX2, ButtonPress::Short), Some(ButtonFunction::EffectMomentary(slot)));
    assert_eq!(cs.get_button_function(ButtonId::FX2, ButtonPress::Long), Some(ButtonFunction::EffectToggle(slot)));
    assert_eq!(cs.get_button_function(ButtonId::FX2, ButtonPress::Double), None);
    assert_eq!(cs.get_fx_button_function(5, ButtonPress::Short), None);
}

#[test]
fn fader_events_map_to_track_play_stop() {
    let cs = ControlSystem::new();
    let ev = ControlEvent::FaderMove { fader: FaderId::Track4Level, value_bits: 0.5f32.to_bits() };
    assert_eq!(cs.process_control_event(ev), Some(ButtonFunction::TrackPlayStop(4)));
    let knob = ControlEvent::KnobTurn { knob: KnobId::Knob1, value_bits: 0 };
    assert_eq!(cs.process_control_event(knob), None);
}

#[test]
fn short_press_after_debounce() {
    let mut hw = HardwareControlInterface::new();
    hw.update_time(100);
    assert_eq!(hw.process_button(ButtonId::Play, true), None);
    hw.update_time(115);
    assert_eq!(hw.process_button(ButtonId::Play, true), None);
    hw.update_time(200);
    assert_eq!(hw.process_button(ButtonId::Play, false), None);
    hw.update_time(215);
    assert_eq!(hw.process_button(ButtonId::Play, false), press(ButtonId::Play, ButtonPress::Short));
}

#[test]
fn bounce_shorter_than_debounce_is_ignored() {
    let mut hw = HardwareControlInterface::new();
    hw.update_time(100);
    assert_eq!(hw.process_button(ButtonId::Menu, true), None);
    hw.update_time(105);
    assert_eq!(hw.process_button(ButtonId::Menu, false), None);
    hw.update_time(200);
    assert_eq!(hw.process_button(ButtonId::Menu, false), None);
    assert!(!hw.button_states[button_id_to_index(ButtonId::Menu)].logical_state);
}

#[test]
fn long_press_reported_once_while_held() {
    let mut hw = HardwareControlInterface::new();
    hw.update_time(1000);
    hw.process_button(ButtonId::Track1, true);
    hw.update_time(1010);
    assert_eq!(hw.process_button(ButtonId::Track1, true), None);
    hw.update_time(1600);
    assert_eq!(hw.process_button(ButtonId::Track1, true), press(ButtonId::Track1, ButtonPress::Long));
    hw.update_time(1700);
    assert_eq!(hw.process_button(ButtonId::Track1, true), None);
}

#[test]
fn double_press_within_window() {
    let mut hw = HardwareControlInterface::new();
    let steps: [(u32, bool); 8] = [
        (100, true), (110, true), (150, false), (160, false),
        (200, true), (210, true), (250, false), (260, false),
    ];
    let mut events = Vec::new();
    for (t, level) in steps {
        hw.update_time(t);
        if let Some(e) = hw.process_button(ButtonId::Track2, level) {
            events.push(e);
        }
    }
    assert_eq!(
        events,
        vec![
            ControlEvent::ButtonPress { button: ButtonId::Track2, press_type: ButtonPress::Short },
            ControlEvent::ButtonPress { button: ButtonId::Track2, press_type: ButtonPress::Double },
        ]
    );
}

#[test]
fn ctl3_and_ctl4_share_a_slot() {
    assert_eq!(button_id_to_index(ButtonId::CTL3), 31);
    assert_eq!(button_id_to_index(ButtonId::CTL4), 31);
    assert_eq!(button_id_to_index(ButtonId::Track1), 0);
}

#[test]
fn hal_buttons_map_to_control_buttons() {
    assert_eq!(map_hal_button_to_control_button(hal::ButtonId::Track(2)), Some(ButtonId::Track3));
    assert_eq!(map_hal_button_to_control_button(hal::ButtonId::FX(4)), Some(ButtonId::FX5));
    assert_eq!(map_hal_button_to_control_button(hal::ButtonId::FX(5)), None);
    assert_eq!(map_hal_button_to_control_button(hal::ButtonId::Edit), Some(ButtonId::Edit));
}

#[test]
fn control_events_from_hardware_events() {
    let buttons = vec![
        (hal::ButtonId::Play, PressType::Short),
        (hal::ButtonId::Track(9), PressType::Short),
        (hal::ButtonId::Stop, PressType::Idle),
        (hal::ButtonId::Menu, PressType::Long),
    ];
    let rotary = vec![RotaryEvent::Clockwise, RotaryEvent::ButtonRelease, RotaryEvent::ButtonPress];
    let events = collect_control_events(&buttons, &rotary);
    assert_eq!(
        events.as_slice(),
        &[
            ControlEvent::ButtonPress { button: ButtonId::Play, press_type: ButtonPress::Short },
            ControlEvent::ButtonPress { button: ButtonId::Menu, press_type: ButtonPress::Long },
            ControlEvent::ButtonPress { button: ButtonId::PageRight, press_type: ButtonPress::Short },
            ControlEvent::ButtonPress { button: ButtonId::Enter, press_type: ButtonPress::Short },
        ]
    );
}

#[test]
fn control_events_are_capped_at_sixteen() {
    let buttons: Vec<(hal::ButtonId, PressType)> = (0..20).map(|_| (hal::ButtonId::Play, PressType::Short)).collect();
    let rotary = vec![RotaryEvent::Clockwise];
    let events = collect_control_events(&buttons, &rotary);
    assert_eq!(events.len(), 16);
    assert!(events.iter().all(|e| *e == ControlEvent::ButtonPress { button: ButtonId::Play, press_type: ButtonPress::Short }));
}

#[test]
fn control_leds_follow_fx_assignments() {
    let mut hci = HardwareControlInterface::new();
    let a = FXButtonAssignment {
        chain_type: EffectChainType::TrackFX,
        slot_index: 0,
        target_track: Some(2),
        momentary: false,
    };
    hci.control_system.set_fx_button_assignment(1, Some(a));
    let mut leds = hal::Hc595LedController::new(4);
    assert_eq!(leds.init(), Ok(()));
    assert_eq!(leds.set_led(hal::LedId::FX(1), hal::LedCommand::On), Ok(()));
    assert_eq!(leds.set_led(hal::LedId::Error, hal::LedCommand::On), Ok(()));
    assert_eq!(leds.set_led(hal::LedId::Play, hal::LedCommand::On), Ok(()));
    assert_eq!(hci.update_leds(&mut leds), Ok(()));
    assert_eq!(leds.get_led_state(hal::LedId::FX(1)), Ok(false));
    assert_eq!(leds.get_led_state(hal::LedId::FX(2)), Ok(true));
    assert_eq!(leds.get_led_state(hal::LedId::FX(5)), Ok(false));
    assert_eq!(leds.get_led_state(hal::LedId::Power), Ok(true));
    assert_eq!(leds.get_led_state(hal::LedId::Error), Ok(false));
    assert_eq!(leds.get_led_state(hal::LedId::Play), Ok(true));

    let mut small = hal::Hc595LedController::new(3);
    assert_eq!(small.init(), Ok(()));
    assert_eq!(hci.update_leds(&mut small), Err(hal::HalError::InvalidControl));
    // The FX LEDs on the fitted chips were set before Power was refused.
    assert_eq!(small.get_led_state(hal::LedId::FX(1)), Ok(false));
    assert_eq!(small.get_led_state(hal::LedId::FX(2)), Ok(true));
    assert_eq!(small.get_led_state(hal::LedId::FX(5)), Ok(false));
}
