//! The control surface: button identifiers, the button-to-function map, FX
//! button assignments, and the debouncing / gesture recognition that turns
//! raw button levels into short, long and double presses.

use vstd::prelude::*;
use crate::effects::EffectChainType;
use crate::hal::{HalError, Hc595LedController, LedCommand, LedId, PressType, RotaryEvent};
use crate::storage::{ControlAssignments, FXButtonAssignment};
use crate::bounded::{control_events16, control_events16_new, control_events16_push};

verus! {

/// Button identifiers for the loopstation.
#[derive(Debug, Clone, Copy, PartialEq, Eq, Hash, Structural)]
pub enum ButtonId {
    Track1,
    Track2,
    Track3,
    Track4,
    Track5,
    Track6,
    TrackSelect1,
    TrackSelect2,
    TrackSelect3,
    TrackSelect4,
    TrackSelect5,
    TrackSelect6,
    FX1,
    FX2,
    FX3,
    FX4,
    FX5,
    Play,
    Stop,
    Rec,
    UndoRedo,
    TapTempo,
    Memory,
    Menu,
    PageLeft,
    PageRight,
    Enter,
    Exit,
    Edit,
    CTL1,
    CTL2,
    CTL3,
    CTL4,
}

/// Button press types for gesture recognition.
#[derive(Debug, Clone, Copy, PartialEq, Eq, Structural)]
pub enum ButtonPress {
    /// Short press (< 500ms).
    Short,
    /// Long press (>= 500ms).
    Long,
    /// Double press (two short presses within 300ms).
    Double,
}

/// Effect slot identifier for FX button assignments.
#[derive(Debug, Clone, Copy, PartialEq, Eq, Structural)]
pub struct EffectSlot {
    /// Effect chain type.
    pub chain_type: EffectChainType,
    /// Slot index (0-3).
    pub slot_index: u8,
    /// Target track (for Track FX only).
    pub track_id: Option<u8>,
}

/// Button functions that can be assigned.
#[derive(Debug, Clone, Copy, PartialEq, Eq, Structural)]
pub enum ButtonFunction {
    TrackPlayStop(u8),
    TrackRecord(u8),
    TrackClear(u8),
    TrackSelect(u8),
    TrackMute(u8),
    EffectMomentary(EffectSlot),
    EffectToggle(EffectSlot),
    AllStart,
    AllStop,
    AllClear,
    Undo,
    Redo,
    TapTempo,
    TempoReset,
    MenuOpen,
    MenuExit,
    PageLeft,
    PageRight,
    Enter,
    MemorySave,
    MemoryLoad,
    MemoryInc,
    MemoryDec,
    /// Stop all audio immediately.
    Panic,
}

/// Knob identifiers.
#[derive(Debug, Clone, Copy, PartialEq, Eq, Hash, Structural)]
pub enum KnobId {
    Knob1,
    Knob2,
    Knob3,
    Knob4,
    OutputLevel,
}

/// Fader identifiers.
#[derive(Debug, Clone, Copy, PartialEq, Eq, Hash, Structural)]
pub enum FaderId {
    Track1Level,
    Track2Level,
    Track3Level,
    Track4Level,
    Track5Level,
    Track6Level,
}

/// Expression input identifiers.
#[allow(non_camel_case_types)]
#[derive(Debug, Clone, Copy, PartialEq, Eq, Hash, Structural)]
pub enum ExpressionInput {
    CTL1_EXP1,
    CTL2_EXP1,
    CTL3_EXP2,
    CTL4_EXP2,
}

/// Unified analog control identifier.
#[derive(Debug, Clone, Copy, PartialEq, Eq, Structural)]
pub enum AnalogControlId {
    Knob(KnobId),
    Fader(FaderId),
    Expression(ExpressionInput),
}

/// Control input event.  Analog readings (0.0 to 1.0) are carried as the
/// IEEE-754 bit pattern of the `f32` value (`f32::to_bits`).
#[derive(Debug, Clone, Copy, PartialEq, Eq, Structural)]
pub enum ControlEvent {
    /// Button press event.
    ButtonPress { button: ButtonId, press_type: ButtonPress },
    /// Knob turn event.
    KnobTurn { knob: KnobId, value_bits: u32 },
    /// Fader movement event.
    FaderMove { fader: FaderId, value_bits: u32 },
    /// Expression pedal/control input.
    ExpressionInput { input: ExpressionInput, value_bits: u32 },
}

/// The track number (1-6) of a track button.
pub open spec fn spec_track_button(b: ButtonId) -> Option<u8> {
    match b {
        ButtonId::Track1 => Some(1u8),
        ButtonId::Track2 => Some(2u8),
        ButtonId::Track3 => Some(3u8),
        ButtonId::Track4 => Some(4u8),
        ButtonId::Track5 => Some(5u8),
        ButtonId::Track6 => Some(6u8),
        _ => None,
    }
}

/// The track number (1-6) of a track-select button.
pub open spec fn spec_track_select_button(b: ButtonId) -> Option<u8> {
    match b {
        ButtonId::TrackSelect1 => Some(1u8),
        ButtonId::TrackSelect2 => Some(2u8),
        ButtonId::TrackSelect3 => Some(3u8),
        ButtonId::TrackSelect4 => Some(4u8),
        ButtonId::TrackSelect5 => Some(5u8),
        ButtonId::TrackSelect6 => Some(6u8),
        _ => None,
    }
}

/// The assignment index (0-4) of an FX button.
pub open spec fn spec_fx_button(b: ButtonId) -> Option<int> {
    match b {
        ButtonId::FX1 => Some(0int),
        ButtonId::FX2 => Some(1int),
        ButtonId::FX3 => Some(2int),
        ButtonId::FX4 => Some(3int),
        ButtonId::FX5 => Some(4int),
        _ => None,
    }
}

/// What an FX assignment does on a press: a short press fires a momentary
/// effect or toggles it, a long press toggles it, a double press does nothing.
pub open spec fn spec_fx_function(a: FXButtonAssignment, press: ButtonPress) -> Option<ButtonFunction> {
    let slot = EffectSlot { chain_type: a.chain_type, slot_index: a.slot_index, track_id: a.target_track };
    match press {
        ButtonPress::Short => if a.momentary {
            Some(ButtonFunction::EffectMomentary(slot))
        } else {
            Some(ButtonFunction::EffectToggle(slot))
        },
        ButtonPress::Long => Some(ButtonFunction::EffectToggle(slot)),
        ButtonPress::Double => None,
    }
}

/// The function of the fixed (non-FX) buttons for each press type.
pub open spec fn spec_fixed_function(b: ButtonId, press: ButtonPress) -> Option<ButtonFunction> {
    if let Some(n) = spec_track_button(b) {
        match press {
            ButtonPress::Short => Some(ButtonFunction::TrackPlayStop(n)),
            ButtonPress::Long => Some(ButtonFunction::TrackRecord(n)),
            ButtonPress::Double => Some(ButtonFunction::TrackClear(n)),
        }
    } else if let Some(n) = spec_track_select_button(b) {
        match press {
            ButtonPress::Short => Some(ButtonFunction::TrackSelect(n)),
            ButtonPress::Long => Some(ButtonFunction::TrackMute(n)),
            ButtonPress::Double => None,
        }
    } else {
        match (b, press) {
            (ButtonId::Play, ButtonPress::Short) => Some(ButtonFunction::AllStart),
            (ButtonId::Play, ButtonPress::Long) => Some(ButtonFunction::AllStop),
            (ButtonId::Stop, ButtonPress::Short) => Some(ButtonFunction::AllStop),
            (ButtonId::Stop, ButtonPress::Long) => Some(ButtonFunction::AllClear),
            (ButtonId::UndoRedo, ButtonPress::Short) => Some(ButtonFunction::Undo),
            (ButtonId::UndoRedo, ButtonPress::Long) => Some(ButtonFunction::Redo),
            (ButtonId::TapTempo, ButtonPress::Short) => Some(ButtonFunction::TapTempo),
            (ButtonId::TapTempo, ButtonPress::Long) => Some(ButtonFunction::TempoReset),
            (ButtonId::Memory, ButtonPress::Short) => Some(ButtonFunction::MemoryLoad),
            (ButtonId::Memory, ButtonPress::Long) => Some(ButtonFunction::MemorySave),
            (ButtonId::Menu, ButtonPress::Short) => Some(ButtonFunction::MenuOpen),
            (ButtonId::Menu, ButtonPress::Long) => Some(ButtonFunction::MenuExit),
            (ButtonId::PageLeft, _) => Some(ButtonFunction::PageLeft),
            (ButtonId::PageRight, _) => Some(ButtonFunction::PageRight),
            (ButtonId::Enter, _) => Some(ButtonFunction::Enter),
            (ButtonId::Exit, _) => Some(ButtonFunction::MenuExit),
            _ => None,
        }
    }
}

/// Control system state and configuration.
#[derive(Debug, Clone)]
pub struct ControlSystem {
    /// Control assignments.
    pub assignments: ControlAssignments,
    /// Button debounce time in milliseconds.
    pub debounce_time_ms: u32,
    /// Long press threshold in milliseconds.
    pub long_press_threshold_ms: u32,
    /// Double press window in milliseconds.
    pub double_press_window_ms: u32,
}

impl ControlSystem {
    /// The function a button press maps to under the current assignments.
    pub open spec fn spec_button_function(&self, b: ButtonId, press: ButtonPress) -> Option<ButtonFunction> {
        match spec_fx_button(b) {
            Some(i) => match self.assignments.fx_button_assignments[i] {
                Some(a) => spec_fx_function(a, press),
                None => None,
            },
            None => spec_fixed_function(b, press),
        }
    }

    /// The function a control event maps to.  Fader moves map to the
    /// play/stop function of their track; knob and expression events are
    /// handled elsewhere and map to nothing.
    pub open spec fn spec_event_function(&self, event: ControlEvent) -> Option<ButtonFunction> {
        match event {
            ControlEvent::ButtonPress { button, press_type } => self.spec_button_function(button, press_type),
            ControlEvent::FaderMove { fader, .. } => Some(ButtonFunction::TrackPlayStop(spec_fader_track(fader))),
            _ => None,
        }
    }

    /// A control system with empty assignments, 10 ms debouncing, a 500 ms
    /// long-press threshold and a 300 ms double-press window.
    pub fn new() -> (r: Self)
        ensures
            r.assignments.wf(),
            r.assignments.spec_is_empty(),
            r.debounce_time_ms == 10,
            r.long_press_threshold_ms == 500,
            r.double_press_window_ms == 300,
    {
        ControlSystem {
            assignments: ControlAssignments::new(),
            debounce_time_ms: 10,
            long_press_threshold_ms: 500,
            double_press_window_ms: 300,
        }
    }

    /// Process a control event and return the corresponding function.
    pub fn process_control_event(&self, event: ControlEvent) -> (r: Option<ButtonFunction>)
        ensures
            r == self.spec_event_function(event),
    {
        match event {
            ControlEvent::ButtonPress { button, press_type } => self.get_button_function(button, press_type),
            ControlEvent::KnobTurn { .. } => None,
            ControlEvent::FaderMove { fader, .. } => Some(ButtonFunction::TrackPlayStop(fader_track(fader))),
            ControlEvent::ExpressionInput { .. } => None,
        }
    }

    /// Button function for a button and press type.
    pub fn get_button_function(&self, button: ButtonId, press_type: ButtonPress) -> (r: Option<ButtonFunction>)
        ensures
            r == self.spec_button_function(button, press_type),
    {
        match button {
            ButtonId::FX1 => return self.get_fx_button_function(0, press_type),
            ButtonId::FX2 => return self.get_fx_button_function(1, press_type),
            ButtonId::FX3 => return self.get_fx_button_function(2, press_type),
            ButtonId::FX4 => return self.get_fx_button_function(3, press_type),
            ButtonId::FX5 => return self.get_fx_button_function(4, press_type),
            _ => {},
        }
        if let Some(n) = track_button(button) {
            return match press_type {
                ButtonPress::Short => Some(ButtonFunction::TrackPlayStop(n)),
                ButtonPress::Long => Some(ButtonFunction::TrackRecord(n)),
                ButtonPress::Double => Some(ButtonFunction::TrackClear(n)),
            };
        }
        if let Some(n) = track_select_button(button) {
            return match press_type {
                ButtonPress::Short => Some(ButtonFunction::TrackSelect(n)),
                ButtonPress::Long => Some(ButtonFunction::TrackMute(n)),
                ButtonPress::Double => None,
            };
        }
        match (button, press_type) {
            (ButtonId::Play, ButtonPress::Short) => Some(ButtonFunction::AllStart),
            (ButtonId::Play, ButtonPress::Long) => Some(ButtonFunction::AllStop),
            (ButtonId::Stop, ButtonPress::Short) => Some(ButtonFunction::AllStop),
            (ButtonId::Stop, ButtonPress::Long) => Some(ButtonFunction::AllClear),
            (ButtonId::UndoRedo, ButtonPress::Short) => Some(ButtonFunction::Undo),
            (ButtonId::UndoRedo, ButtonPress::Long) => Some(ButtonFunction::Redo),
            (ButtonId::TapTempo, ButtonPress::Short) => Some(ButtonFunction::TapTempo),
            (ButtonId::TapTempo, ButtonPress::Long) => Some(ButtonFunction::TempoReset),
            (ButtonId::Memory, ButtonPress::Short) => Some(ButtonFunction::MemoryLoad),
            (ButtonId::Memory, ButtonPress::Long) => Some(ButtonFunction::MemorySave),
            (ButtonId::Menu, ButtonPress::Short) => Some(ButtonFunction::MenuOpen),
            (ButtonId::Menu, ButtonPress::Long) => Some(ButtonFunction::MenuExit),
            (ButtonId::PageLeft, _) => Some(ButtonFunction::PageLeft),
            (ButtonId::PageRight, _) => Some(ButtonFunction::PageRight),
            (ButtonId::Enter, _) => Some(ButtonFunction::Enter),
            (ButtonId::Exit, _) => Some(ButtonFunction::MenuExit),
            _ => None,
        }
    }

    /// FX button function from the assignment table; indices past the table
    /// give `None`.
    pub fn get_fx_button_function(&self, fx_button_index: usize, press_type: ButtonPress) -> (r: Option<ButtonFunction>)
        ensures
            fx_button_index >= 5 ==> r is None,
            fx_button_index < 5 ==> r == match self.assignments.fx_button_assignments[fx_button_index as int] {
                Some(a) => spec_fx_function(a, press_type),
                None => None,
            },
    {
        if fx_button_index >= 5 {
            return None;
        }
        if let Some(assignment) = self.assignments.fx_button_assignments[fx_button_index] {
            let effect_slot = EffectSlot {
                chain_type: assignment.chain_type,
                slot_index: assignment.slot_index,
                track_id: assignment.target_track,
            };
            match press_type {
                ButtonPress::Short => if assignment.momentary {
                    Some(ButtonFunction::EffectMomentary(effect_slot))
                } else {
                    Some(ButtonFunction::EffectToggle(effect_slot))
                },
                ButtonPress::Long => Some(ButtonFunction::EffectToggle(effect_slot)),
                ButtonPress::Double => None,
            }
        } else {
            None
        }
    }

    /// Set an FX button assignment; indices past the table are ignored.
    pub fn set_fx_button_assignment(&mut self, button_index: usize, assignment: Option<FXButtonAssignment>)
        ensures
            button_index < 5 ==> final(self).assignments.fx_button_assignments@
                == old(self).assignments.fx_button_assignments@.update(button_index as int, assignment),
            button_index >= 5 ==> final(self).assignments.fx_button_assignments
                == old(self).assignments.fx_button_assignments,
            crate::bounded::midi_assignments32(final(self).assignments.midi_assignments)
                == crate::bounded::midi_assignments32(old(self).assignments.midi_assignments),
            final(self).assignments.expression_assignments == old(self).assignments.expression_assignments,
            final(self).assignments.footswitch_assignments == old(self).assignments.footswitch_assignments,
            final(self).debounce_time_ms == old(self).debounce_time_ms,
            final(self).long_press_threshold_ms == old(self).long_press_threshold_ms,
            final(self).double_press_window_ms == old(self).double_press_window_ms,
    {
        if button_index < 5 {
            self.assignments.fx_button_assignments[button_index] = assignment;
        }
    }

    /// The FX button assignment at an index, if any.
    pub fn get_fx_button_assignment(&self, button_index: usize) -> (r: Option<&FXButtonAssignment>)
        ensures
            button_index >= 5 ==> r is None,
            button_index < 5 ==> match self.assignments.fx_button_assignments[button_index as int] {
                Some(a) => r == Some(&a),
                None => r is None,
            },
    {
        if button_index >= 5 {
            return None;
        }
        match &self.assignments.fx_button_assignments[button_index] {
            Some(a) => Some(a),
            None => None,
        }
    }
}

impl Default for ControlSystem {
    fn default() -> (r: Self)
        ensures
            r.assignments.wf(),
            r.assignments.spec_is_empty(),
            r.debounce_time_ms == 10,
            r.long_press_threshold_ms == 500,
            r.double_press_window_ms == 300,
    {
        Self::new()
    }
}

/// The track number of a fader.
pub open spec fn spec_fader_track(f: FaderId) -> u8 {
    match f {
        FaderId::Track1Level => 1,
        FaderId::Track2Level => 2,
        FaderId::Track3Level => 3,
        FaderId::Track4Level => 4,
        FaderId::Track5Level => 5,
        FaderId::Track6Level => 6,
    }
}

fn fader_track(f: FaderId) -> (r: u8)
    ensures
        r == spec_fader_track(f),
{
    match f {
        FaderId::Track1Level => 1,
        FaderId::Track2Level => 2,
        FaderId::Track3Level => 3,
        FaderId::Track4Level => 4,
        FaderId::Track5Level => 5,
        FaderId::Track6Level => 6,
    }
}

fn track_button(b: ButtonId) -> (r: Option<u8>)
    ensures
        r == spec_track_button(b),
{
    match b {
        ButtonId::Track1 => Some(1),
        ButtonId::Track2 => Some(2),
        ButtonId::Track3 => Some(3),
        ButtonId::Track4 => Some(4),
        ButtonId::Track5 => Some(5),
        ButtonId::Track6 => Some(6),
        _ => None,
    }
}

fn track_select_button(b: ButtonId) -> (r: Option<u8>)
    ensures
        r == spec_track_select_button(b),
{
    match b {
        ButtonId::TrackSelect1 => Some(1),
        ButtonId::TrackSelect2 => Some(2),
        ButtonId::TrackSelect3 => Some(3),
        ButtonId::TrackSelect4 => Some(4),
        ButtonId::TrackSelect5 => Some(5),
        ButtonId::TrackSelect6 => Some(6),
        _ => None,
    }
}

/// `a - b`, or 0 when `b` is later than `a`.
pub open spec fn spec_elapsed(a: u32, b: u32) -> u32 {
    if a >= b { (a - b) as u32 } else { 0 }
}

/// Debouncing and gesture state of one button.
#[derive(Debug, Clone, Copy, PartialEq, Eq, Structural)]
pub struct ButtonState {
    /// Current physical state (pressed/released).
    pub physical_state: bool,
    /// Debounced logical state.
    pub logical_state: bool,
    /// Last physical change timestamp.
    pub last_change_time: u32,
    /// Press start timestamp.
    pub press_start_time: u32,
    /// Last press end timestamp (for double press detection).
    pub last_press_end_time: u32,
    /// Number of short presses waiting for a second one (0 or 1).
    pub press_count: u8,
    /// Whether the current press has been reported as long.
    pub is_long_press: bool,
}

impl ButtonState {
    /// A released button with every timestamp at 0.
    pub open spec fn spec_default() -> ButtonState {
        ButtonState {
            physical_state: false,
            logical_state: false,
            last_change_time: 0,
            press_start_time: 0,
            last_press_end_time: 0,
            press_count: 0,
            is_long_press: false,
        }
    }
}

impl Default for ButtonState {
    fn default() -> (r: Self)
        ensures
            r == ButtonState::spec_default(),
    {
        ButtonState {
            physical_state: false,
            logical_state: false,
            last_change_time: 0,
            press_start_time: 0,
            last_press_end_time: 0,
            press_count: 0,
            is_long_press: false,
        }
    }
}

/// The release of a debounced press at `now`: long when the press was
/// already reported long or lasted `long_ms` or more; otherwise a double
/// press when it ends within `window_ms` of a waiting short press, else a
/// short press that now waits for a second one.
pub open spec fn spec_release(s: ButtonState, now: u32, long_ms: u32, window_ms: u32) -> (ButtonState, ButtonPress) {
    if s.is_long_press {
        (s, ButtonPress::Long)
    } else if spec_elapsed(now, s.press_start_time) >= long_ms {
        (ButtonState { is_long_press: true, ..s }, ButtonPress::Long)
    } else if spec_elapsed(now, s.last_press_end_time) <= window_ms && s.press_count == 1 {
        (ButtonState { press_count: 0, last_press_end_time: now, ..s }, ButtonPress::Double)
    } else {
        (ButtonState { press_count: 1, last_press_end_time: now, ..s }, ButtonPress::Short)
    }
}

/// One sample of a button at time `now`.
///
/// A change of the physical level restarts the debounce timer.  Once the
/// level has been stable for `debounce_ms`, the logical state follows it: a
/// press reports nothing yet, a release reports the press type.  While the
/// button is held past `long_ms` a long press is reported once.
pub open spec fn spec_button_step(
    s: ButtonState,
    pressed: bool,
    now: u32,
    debounce_ms: u32,
    long_ms: u32,
    window_ms: u32,
) -> (ButtonState, Option<ButtonPress>) {
    let s1 = if s.physical_state != pressed {
        ButtonState { physical_state: pressed, last_change_time: now, ..s }
    } else {
        s
    };
    if spec_elapsed(now, s1.last_change_time) >= debounce_ms && s1.logical_state != s1.physical_state {
        if s1.physical_state {
            (ButtonState { logical_state: true, press_start_time: now, is_long_press: false, ..s1 }, None)
        } else {
            let (s2, press) = spec_release(ButtonState { logical_state: false, ..s1 }, now, long_ms, window_ms);
            (s2, Some(press))
        }
    } else if s1.logical_state && !s1.is_long_press && spec_elapsed(now, s1.press_start_time) >= long_ms {
        (ButtonState { is_long_press: true, ..s1 }, Some(ButtonPress::Long))
    } else {
        (s1, None)
    }
}

/// Number of button slots of the control interface.
pub const BUTTON_SLOTS: usize = 32;

/// The state slot of each button; CTL3 and CTL4 share the last slot.
pub open spec fn spec_button_index(b: ButtonId) -> int {
    match b {
        ButtonId::Track1 => 0,
        ButtonId::Track2 => 1,
        ButtonId::Track3 => 2,
        ButtonId::Track4 => 3,
        ButtonId::Track5 => 4,
        ButtonId::Track6 => 5,
        ButtonId::TrackSelect1 => 6,
        ButtonId::TrackSelect2 => 7,
        ButtonId::TrackSelect3 => 8,
        ButtonId::TrackSelect4 => 9,
        ButtonId::TrackSelect5 => 10,
        ButtonId::TrackSelect6 => 11,
        ButtonId::FX1 => 12,
        ButtonId::FX2 => 13,
        ButtonId::FX3 => 14,
        ButtonId::FX4 => 15,
        ButtonId::FX5 => 16,
        ButtonId::Play => 17,
        ButtonId::Stop => 18,
        ButtonId::Rec => 19,
        ButtonId::UndoRedo => 20,
        ButtonId::TapTempo => 21,
        ButtonId::Memory => 22,
        ButtonId::Menu => 23,
        ButtonId::PageLeft => 24,
        ButtonId::PageRight => 25,
        ButtonId::Enter => 26,
        ButtonId::Exit => 27,
        ButtonId::Edit => 28,
        ButtonId::CTL1 => 29,
        ButtonId::CTL2 => 30,
        ButtonId::CTL3 => 31,
        ButtonId::CTL4 => 31,
    }
}

/// The analog smoothing slot of each analog control.
pub open spec fn spec_analog_index(c: AnalogControlId) -> int {
    match c {
        AnalogControlId::Knob(KnobId::Knob1) => 0,
        AnalogControlId::Knob(KnobId::Knob2) => 1,
        AnalogControlId::Knob(KnobId::Knob3) => 2,
        AnalogControlId::Knob(KnobId::Knob4) => 3,
        AnalogControlId::Knob(KnobId::OutputLevel) => 4,
        AnalogControlId::Fader(FaderId::Track1Level) => 5,
        AnalogControlId::Fader(FaderId::Track2Level) => 6,
        AnalogControlId::Fader(FaderId::Track3Level) => 7,
        AnalogControlId::Fader(FaderId::Track4Level) => 8,
        AnalogControlId::Fader(FaderId::Track5Level) => 9,
        AnalogControlId::Fader(FaderId::Track6Level) => 10,
        AnalogControlId::Expression(ExpressionInput::CTL1_EXP1) => 11,
        AnalogControlId::Expression(ExpressionInput::CTL2_EXP1) => 12,
        AnalogControlId::Expression(ExpressionInput::CTL3_EXP2) => 13,
        AnalogControlId::Expression(ExpressionInput::CTL4_EXP2) => 14,
    }
}

/// Hardware control interface: debouncing and gesture recognition for the
/// buttons, on top of the button-to-function map.
#[derive(Debug, Clone)]
pub struct HardwareControlInterface {
    /// Button states for debouncing.
    pub button_states: [ButtonState; 32],
    /// Control system configuration.
    pub control_system: ControlSystem,
    /// Current timestamp for timing.
    pub current_time_ms: u32,
}

impl HardwareControlInterface {
    /// A new interface: every button released, time 0, default control system.
    pub fn new() -> (r: Self)
        ensures
            forall|i: int| 0 <= i < 32 ==> r.button_states[i] == ButtonState::spec_default(),
            r.current_time_ms == 0,
            r.control_system.assignments.wf(),
            r.control_system.assignments.spec_is_empty(),
            r.control_system.debounce_time_ms == 10,
            r.control_system.long_press_threshold_ms == 500,
            r.control_system.double_press_window_ms == 300,
    {
        let d = ButtonState::default();
        HardwareControlInterface {
            button_states: [d; 32],
            control_system: ControlSystem::new(),
            current_time_ms: 0,
        }
    }

    /// Update the current timestamp (called from the main loop).
    pub fn update_time(&mut self, time_ms: u32)
        ensures
            final(self).current_time_ms == time_ms,
            final(self).button_states == old(self).button_states,
            final(self).control_system == old(self).control_system,
    {
        self.current_time_ms = time_ms;
    }

    /// Feed one physical sample of a button through debouncing and gesture
    /// recognition.  Returns the press event the sample completes, if any.
    pub fn process_button(&mut self, button_id: ButtonId, physical_pressed: bool) -> (r: Option<ControlEvent>)
        ensures
            ({
                let i = spec_button_index(button_id);
                let cs = old(self).control_system;
                let (next, press) = spec_button_step(
                    old(self).button_states[i],
                    physical_pressed,
                    old(self).current_time_ms,
                    cs.debounce_time_ms,
                    cs.long_press_threshold_ms,
                    cs.double_press_window_ms,
                );
                &&& final(self).button_states@ == old(self).button_states@.update(i, next)
                &&& r == match press {
                    Some(p) => Some(ControlEvent::ButtonPress { button: button_id, press_type: p }),
                    None => None::<ControlEvent>,
                }
            }),
            final(self).current_time_ms == old(self).current_time_ms,
            final(self).control_system == old(self).control_system,
    {
        let button_index = button_id_to_index(button_id);
        let now = self.current_time_ms;
        let debounce_time = self.control_system.debounce_time_ms;
        let long_press_threshold = self.control_system.long_press_threshold_ms;
        let double_press_window = self.control_system.double_press_window_ms;
        let mut state = self.button_states[button_index];

        if state.physical_state != physical_pressed {
            state.physical_state = physical_pressed;
            state.last_change_time = now;
        }

        let mut result: Option<ButtonPress> = None;
        let time_since_change = now.saturating_sub(state.last_change_time);
        if time_since_change >= debounce_time && state.logical_state != state.physical_state {
            let new_logical_state = state.physical_state;
            state.logical_state = new_logical_state;
            if new_logical_state {
                state.press_start_time = now;
                state.is_long_press = false;
            } else {
                let press_duration = now.saturating_sub(state.press_start_time);
                let press_type = if state.is_long_press {
                    ButtonPress::Long
                } else if press_duration >= long_press_threshold {
                    state.is_long_press = true;
                    ButtonPress::Long
                } else {
                    let time_since_last_press = now.saturating_sub(state.last_press_end_time);
                    if time_since_last_press <= double_press_window && state.press_count == 1 {
                        state.press_count = 0;
                        state.last_press_end_time = now;
                        ButtonPress::Double
                    } else {
                        state.press_count = 1;
                        state.last_press_end_time = now;
                        ButtonPress::Short
                    }
                };
                result = Some(press_type);
            }
        } else if state.logical_state && !state.is_long_press {
            let press_duration = now.saturating_sub(state.press_start_time);
            if press_duration >= long_press_threshold {
                state.is_long_press = true;
                result = Some(ButtonPress::Long);
            }
        }

        self.button_states[button_index] = state;
        match result {
            Some(p) => Some(ControlEvent::ButtonPress { button: button_id, press_type: p }),
            None => None,
        }
    }

    /// Process a control event and return the corresponding function.
    pub fn process_control_event(&self, event: ControlEvent) -> (r: Option<ButtonFunction>)
        ensures
            r == self.control_system.spec_event_function(event),
    {
        self.control_system.process_control_event(event)
    }

    /// The control system.
    pub fn control_system(&self) -> (r: &ControlSystem)
        ensures
            *r == self.control_system,
    {
        &self.control_system
    }
}

/// Where the LED of FX button `i` (0-4) sits: FX1-FX4 on bits 4-7 of the
/// second chip, FX5 on bit 0 of the third.
pub open spec fn spec_fx_led(i: int) -> (int, int) {
    if i < 4 { (1, i + 4) } else { (2, 0) }
}

/// Whether LED `(c, k)` is one of the first `n` FX LEDs.
pub open spec fn spec_fx_led_among(c: int, k: int, n: int) -> bool {
    (c == 1 && 4 <= k < 4 + n && k < 8) || (c == 2 && k == 0 && n >= 5)
}

/// The LEDs that reflect the control state: the five FX LEDs, Power and
/// Error.
pub open spec fn spec_status_led(c: int, k: int) -> bool {
    spec_fx_led_among(c, k, 5) || (c == 3 && (k == 1 || k == 2))
}

impl HardwareControlInterface {
    /// Show the control state on the LEDs: each FX LED is lit when its button
    /// has an assignment, Power is lit, Error is dark, and the LEDs are
    /// shifted out.  A disabled controller is left alone; with fewer than
    /// four chips fitted the status LEDs do not exist and the request is
    /// refused.
    pub fn update_leds(&self, leds: &mut Hc595LedController) -> (r: Result<(), HalError>)
        ensures
            *final(leds) == (Hc595LedController {
                led_states: final(leds).led_states,
                update_pending: final(leds).update_pending,
                ..*old(leds)
            }),
            !old(leds).enabled ==> r is Ok && final(leds).led_states == old(leds).led_states,
            old(leds).enabled && old(leds).chip_count < 4 ==> {
                &&& r == Err::<(), HalError>(HalError::InvalidControl)
                &&& forall|i: int| 0 <= i < 5 && spec_fx_led(i).0 < old(leds).chip_count
                    ==> #[trigger] final(leds).spec_led_on(spec_fx_led(i).0, spec_fx_led(i).1)
                        == (self.control_system.assignments.fx_button_assignments[i] is Some)
                &&& forall|c: int, k: int| 0 <= c < 8 && 0 <= k < 8 && !(spec_fx_led_among(c, k, 5) && c < old(leds).chip_count)
                    ==> #[trigger] final(leds).spec_led_on(c, k) == old(leds).spec_led_on(c, k)
            },
            old(leds).enabled && old(leds).chip_count >= 4 ==> {
                &&& r is Ok
                &&& forall|i: int| 0 <= i < 5 ==> #[trigger] final(leds).spec_led_on(spec_fx_led(i).0, spec_fx_led(i).1)
                    == (self.control_system.assignments.fx_button_assignments[i] is Some)
                &&& final(leds).spec_led_on(3, 1)
                &&& !final(leds).spec_led_on(3, 2)
                &&& forall|c: int, k: int| 0 <= c < 8 && 0 <= k < 8 && !spec_status_led(c, k)
                    ==> #[trigger] final(leds).spec_led_on(c, k) == old(leds).spec_led_on(c, k)
                &&& !final(leds).update_pending
            },
    {
        let ghost before = *leds;
        if !leds.enabled {
            let r = leds.update_leds();
            return r;
        }
        let mut fx_index: usize = 0;
        while fx_index < 5
            invariant
                fx_index <= 5,
                before == *old(leds),
                *leds == (Hc595LedController {
                    led_states: leds.led_states,
                    update_pending: leds.update_pending,
                    ..before
                }),
                leds.enabled,
                before.enabled,
                forall|j: int| 0 <= j < fx_index ==> #[trigger] spec_fx_led(j).0 < before.chip_count,
                forall|j: int| 0 <= j < fx_index ==> #[trigger] leds.spec_led_on(spec_fx_led(j).0, spec_fx_led(j).1)
                    == (self.control_system.assignments.fx_button_assignments[j] is Some),
                forall|c: int, k: int| 0 <= c < 8 && 0 <= k < 8 && !spec_fx_led_among(c, k, fx_index as int)
                    ==> #[trigger] leds.spec_led_on(c, k) == before.spec_led_on(c, k),
            decreases 5 - fx_index,
        {
            let fx_id = (fx_index + 1) as u8;
            let command = if self.control_system.assignments.fx_button_assignments[fx_index].is_some() {
                LedCommand::On
            } else {
                LedCommand::Off
            };
            let ghost mid = *leds;
            proof {
                assert(crate::hal::spec_led_position(LedId::FX(fx_id), leds.chip_count) == Some(spec_fx_led(fx_index as int)));
            }
            match leds.set_led(LedId::FX(fx_id), command) {
                Ok(()) => {},
                Err(e) => {
                    proof {
                        assert(spec_fx_led(fx_index as int).0 >= before.chip_count);
                        assert forall|c: int, k: int| 0 <= c < 8 && 0 <= k < 8
                            && !(spec_fx_led_among(c, k, 5) && c < before.chip_count)
                            implies #[trigger] leds.spec_led_on(c, k) == before.spec_led_on(c, k) by {
                            if spec_fx_led_among(c, k, fx_index as int) {
                                assert(spec_fx_led(k - 4).0 < before.chip_count);
                            }
                            assert(mid.spec_led_on(c, k) == before.spec_led_on(c, k));
                        }
                    }
                    return Err(e);
                },
            }
            proof {
                {
                    let (c0, k0) = spec_fx_led(fx_index as int);
                    assert(crate::hal::spec_led_position(LedId::FX(fx_id), leds.chip_count) == Some((c0, k0)));
                    assert forall|c: int, k: int| 0 <= c < 8 && 0 <= k < 8 && !spec_fx_led_among(c, k, fx_index + 1)
                        implies #[trigger] leds.spec_led_on(c, k) == before.spec_led_on(c, k) by {
                        assert(mid.spec_led_on(c, k) == before.spec_led_on(c, k));
                        if c == c0 {
                            assert(k != k0);
                            assert(leds.spec_led_on(c, k) == mid.spec_led_on(c, k));
                        } else {
                            assert(leds.led_states[c] == mid.led_states[c]);
                        }
                    }
                    assert forall|j: int| 0 <= j < fx_index + 1 implies #[trigger] leds.spec_led_on(spec_fx_led(j).0, spec_fx_led(j).1)
                        == (self.control_system.assignments.fx_button_assignments[j] is Some) by {
                        if j < fx_index {
                            let (cj, kj) = spec_fx_led(j);
                            assert(mid.spec_led_on(cj, kj) == (self.control_system.assignments.fx_button_assignments[j] is Some));
                            if cj == c0 {
                                assert(kj != k0);
                                assert(leds.spec_led_on(cj, kj) == mid.spec_led_on(cj, kj));
                            } else {
                                assert(leds.led_states[cj] == mid.led_states[cj]);
                            }
                        }
                    }
                }
            }
            fx_index = fx_index + 1;
        }
        let ghost after_fx = *leds;
        match leds.set_led(LedId::Power, LedCommand::On) {
            Ok(()) => {},
            Err(e) => {
                proof {
                    assert forall|c: int, k: int| 0 <= c < 8 && 0 <= k < 8
                        && !(spec_fx_led_among(c, k, 5) && c < before.chip_count)
                        implies #[trigger] leds.spec_led_on(c, k) == before.spec_led_on(c, k) by {
                        if spec_fx_led_among(c, k, 5) {
                            if c == 1 {
                                assert(spec_fx_led(k - 4).0 < before.chip_count);
                            } else {
                                assert(spec_fx_led(4).0 < before.chip_count);
                            }
                        }
                    }
                }
                return Err(e);
            },
        }
        let ghost after_power = *leds;
        match leds.set_led(LedId::Error, LedCommand::Off) {
            Ok(()) => {},
            Err(e) => {
                return Err(e);
            },
        }
        let ghost after_error = *leds;
        let r = leds.update_leds();
        proof {
            assert(leds.led_states == after_error.led_states);
            assert forall|i: int| 0 <= i < 5 implies #[trigger] leds.spec_led_on(spec_fx_led(i).0, spec_fx_led(i).1)
                == (self.control_system.assignments.fx_button_assignments[i] is Some) by {
                let (ci, ki) = spec_fx_led(i);
                assert(after_fx.spec_led_on(ci, ki) == (self.control_system.assignments.fx_button_assignments[i] is Some));
                assert(after_error.led_states[ci] == after_power.led_states[ci]);
                assert(after_power.led_states[ci] == after_fx.led_states[ci]);
            }
            assert(after_power.spec_led_on(3, 1));
            assert(after_error.spec_led_on(3, 1));
            assert(!after_error.spec_led_on(3, 2));
            assert(leds.spec_led_on(3, 1));
            assert(!leds.spec_led_on(3, 2));
            assert(!leds.update_pending);
            assert forall|c: int, k: int| 0 <= c < 8 && 0 <= k < 8 && !spec_status_led(c, k)
                implies #[trigger] leds.spec_led_on(c, k) == before.spec_led_on(c, k) by {
                assert(after_fx.spec_led_on(c, k) == before.spec_led_on(c, k));
                if c == 3 {
                    assert(after_error.spec_led_on(c, k) == after_power.spec_led_on(c, k));
                    assert(after_power.spec_led_on(c, k) == after_fx.spec_led_on(c, k));
                } else {
                    assert(after_error.led_states[c] == after_fx.led_states[c]);
                }
            }
        }
        r
    }
}

impl Default for HardwareControlInterface {
    fn default() -> (r: Self)
        ensures
            forall|i: int| 0 <= i < 32 ==> r.button_states[i] == ButtonState::spec_default(),
            r.current_time_ms == 0,
            r.control_system.debounce_time_ms == 10,
            r.control_system.long_press_threshold_ms == 500,
            r.control_system.double_press_window_ms == 300,
    {
        Self::new()
    }
}

/// The state slot of a button.
pub fn button_id_to_index(button_id: ButtonId) -> (r: usize)
    ensures
        r == spec_button_index(button_id),
        r < BUTTON_SLOTS,
{
    match button_id {
        ButtonId::Track1 => 0,
        ButtonId::Track2 => 1,
        ButtonId::Track3 => 2,
        ButtonId::Track4 => 3,
        ButtonId::Track5 => 4,
        ButtonId::Track6 => 5,
        ButtonId::TrackSelect1 => 6,
        ButtonId::TrackSelect2 => 7,
        ButtonId::TrackSelect3 => 8,
        ButtonId::TrackSelect4 => 9,
        ButtonId::TrackSelect5 => 10,
        ButtonId::TrackSelect6 => 11,
        ButtonId::FX1 => 12,
        ButtonId::FX2 => 13,
        ButtonId::FX3 => 14,
        ButtonId::FX4 => 15,
        ButtonId::FX5 => 16,
        ButtonId::Play => 17,
        ButtonId::Stop => 18,
        ButtonId::Rec => 19,
        ButtonId::UndoRedo => 20,
        ButtonId::TapTempo => 21,
        ButtonId::Memory => 22,
        ButtonId::Menu => 23,
        ButtonId::PageLeft => 24,
        ButtonId::PageRight => 25,
        ButtonId::Enter => 26,
        ButtonId::Exit => 27,
        ButtonId::Edit => 28,
        ButtonId::CTL1 => 29,
        ButtonId::CTL2 => 30,
        ButtonId::CTL3 => 31,
        ButtonId::CTL4 => 31,
    }
}

/// The smoothing slot of an analog control.
pub fn analog_control_id_to_index(control_id: AnalogControlId) -> (r: usize)
    ensures
        r == spec_analog_index(control_id),
        r < 16,
{
    match control_id {
        AnalogControlId::Knob(KnobId::Knob1) => 0,
        AnalogControlId::Knob(KnobId::Knob2) => 1,
        AnalogControlId::Knob(KnobId::Knob3) => 2,
        AnalogControlId::Knob(KnobId::Knob4) => 3,
        AnalogControlId::Knob(KnobId::OutputLevel) => 4,
        AnalogControlId::Fader(FaderId::Track1Level) => 5,
        AnalogControlId::Fader(FaderId::Track2Level) => 6,
        AnalogControlId::Fader(FaderId::Track3Level) => 7,
        AnalogControlId::Fader(FaderId::Track4Level) => 8,
        AnalogControlId::Fader(FaderId::Track5Level) => 9,
        AnalogControlId::Fader(FaderId::Track6Level) => 10,
        AnalogControlId::Expression(ExpressionInput::CTL1_EXP1) => 11,
        AnalogControlId::Expression(ExpressionInput::CTL2_EXP1) => 12,
        AnalogControlId::Expression(ExpressionInput::CTL3_EXP2) => 13,
        AnalogControlId::Expression(ExpressionInput::CTL4_EXP2) => 14,
    }
}

/// Debouncing: a sample that changes the physical level never changes the
/// logical state (when the debounce time is not zero), and a press that has
/// become stable reports nothing until it is released.
pub proof fn lemma_debounce(s: ButtonState, pressed: bool, now: u32, debounce_ms: u32, long_ms: u32, window_ms: u32)
    ensures
        pressed != s.physical_state && debounce_ms > 0
            ==> spec_button_step(s, pressed, now, debounce_ms, long_ms, window_ms).0.logical_state == s.logical_state,
        pressed && s.physical_state && !s.logical_state && spec_elapsed(now, s.last_change_time) >= debounce_ms ==> {
            let (next, press) = spec_button_step(s, pressed, now, debounce_ms, long_ms, window_ms);
            &&& next.logical_state
            &&& next.press_start_time == now
            &&& press is None
        },
{
}

/// Releases: the debounced release of a press always reports a press
/// type; the release of a press that was already reported long, or that
/// lasted at least `long_ms`, is reported as long, and the release of a
/// shorter press is never long.
pub proof fn lemma_release_press_type(s: ButtonState, pressed: bool, now: u32, debounce_ms: u32, long_ms: u32, window_ms: u32)
    ensures
        ({
            let (next, press) = spec_button_step(s, pressed, now, debounce_ms, long_ms, window_ms);
            let released = s.logical_state && !next.logical_state;
            &&& released ==> press is Some
            &&& released && (s.is_long_press || spec_elapsed(now, s.press_start_time) >= long_ms)
                ==> press == Some(ButtonPress::Long)
            &&& released && !s.is_long_press && spec_elapsed(now, s.press_start_time) < long_ms
                ==> press != Some(ButtonPress::Long)
        }),
{
}

/// Memory button: a short press loads a memory and only a long press saves
/// one; no other button or press type loads or saves, whatever the FX
/// assignments are.
pub proof fn lemma_memory_load_save(cs: ControlSystem, b: ButtonId, press: ButtonPress)
    ensures
        cs.spec_button_function(b, press) == Some(ButtonFunction::MemoryLoad)
            <==> (b == ButtonId::Memory && press == ButtonPress::Short),
        cs.spec_button_function(b, press) == Some(ButtonFunction::MemorySave)
            <==> (b == ButtonId::Memory && press == ButtonPress::Long),
{
}

/// What triggers each transport, track and tempo function, whatever the
/// FX assignments are: a track button plays/stops its own track on a short
/// press, records it on a long one and clears it on a double press; a
/// track-select button selects its track on a short press and mutes it on
/// a long one; Play starts everything, Stop long clears everything, and the
/// Undo/Redo and Tap Tempo buttons undo/tap on a short press and redo/reset
/// on a long one.
pub proof fn lemma_button_function_triggers(cs: ControlSystem, b: ButtonId, press: ButtonPress, n: u8)
    ensures
        cs.spec_button_function(b, press) == Some(ButtonFunction::TrackPlayStop(n))
            <==> (spec_track_button(b) == Some(n) && press == ButtonPress::Short),
        cs.spec_button_function(b, press) == Some(ButtonFunction::TrackRecord(n))
            <==> (spec_track_button(b) == Some(n) && press == ButtonPress::Long),
        cs.spec_button_function(b, press) == Some(ButtonFunction::TrackClear(n))
            <==> (spec_track_button(b) == Some(n) && press == ButtonPress::Double),
        cs.spec_button_function(b, press) == Some(ButtonFunction::TrackSelect(n))
            <==> (spec_track_select_button(b) == Some(n) && press == ButtonPress::Short),
        cs.spec_button_function(b, press) == Some(ButtonFunction::TrackMute(n))
            <==> (spec_track_select_button(b) == Some(n) && press == ButtonPress::Long),
        cs.spec_button_function(b, press) == Some(ButtonFunction::AllStart)
            <==> (b == ButtonId::Play && press == ButtonPress::Short),
        cs.spec_button_function(b, press) == Some(ButtonFunction::AllClear)
            <==> (b == ButtonId::Stop && press == ButtonPress::Long),
        cs.spec_button_function(b, press) == Some(ButtonFunction::Undo)
            <==> (b == ButtonId::UndoRedo && press == ButtonPress::Short),
        cs.spec_button_function(b, press) == Some(ButtonFunction::Redo)
            <==> (b == ButtonId::UndoRedo && press == ButtonPress::Long),
        cs.spec_button_function(b, press) == Some(ButtonFunction::TapTempo)
            <==> (b == ButtonId::TapTempo && press == ButtonPress::Short),
        cs.spec_button_function(b, press) == Some(ButtonFunction::TempoReset)
            <==> (b == ButtonId::TapTempo && press == ButtonPress::Long),
        cs.spec_button_function(b, press) == Some(ButtonFunction::AllStop)
            <==> ((b == ButtonId::Play && press == ButtonPress::Long) || (b == ButtonId::Stop && press == ButtonPress::Short)),
{
}

/// Long presses: a press held past the threshold is reported as long once;
/// while it stays held nothing more is reported.
pub proof fn lemma_long_press_once(s: ButtonState, now: u32, later: u32, debounce_ms: u32, long_ms: u32, window_ms: u32)
    requires
        s.physical_state,
        s.logical_state,
        !s.is_long_press,
        spec_elapsed(now, s.press_start_time) >= long_ms,
    ensures
        ({
            let (next, press) = spec_button_step(s, true, now, debounce_ms, long_ms, window_ms);
            &&& press == Some(ButtonPress::Long)
            &&& next.is_long_press
            &&& spec_button_step(next, true, later, debounce_ms, long_ms, window_ms).1 is None
        }),
{
}

/// Short and double presses: a short release leaves one press waiting; a
/// second short release within the window is a double press and clears the
/// waiting count, so a third press starts over.
pub proof fn lemma_double_press(s: ButtonState, now: u32, long_ms: u32, window_ms: u32)
    requires
        !s.is_long_press,
        spec_elapsed(now, s.press_start_time) < long_ms,
    ensures
        s.press_count == 1 && spec_elapsed(now, s.last_press_end_time) <= window_ms ==> {
            let (next, press) = spec_release(s, now, long_ms, window_ms);
            press == ButtonPress::Double && next.press_count == 0
        },
        !(s.press_count == 1 && spec_elapsed(now, s.last_press_end_time) <= window_ms) ==> {
            let (next, press) = spec_release(s, now, long_ms, window_ms);
            press == ButtonPress::Short && next.press_count == 1 && next.last_press_end_time == now
        },
{
}

/// The waiting-press count never exceeds one.
pub proof fn lemma_press_count_bounded(s: ButtonState, pressed: bool, now: u32, debounce_ms: u32, long_ms: u32, window_ms: u32)
    requires
        s.press_count <= 1,
    ensures
        spec_button_step(s, pressed, now, debounce_ms, long_ms, window_ms).0.press_count <= 1,
{
}

/// The control button of each hardware button, where there is one.
pub open spec fn spec_map_hal_button(b: crate::hal::ButtonId) -> Option<ButtonId> {
    match b {
        crate::hal::ButtonId::Track(0) => Some(ButtonId::Track1),
        crate::hal::ButtonId::Track(1) => Some(ButtonId::Track2),
        crate::hal::ButtonId::Track(2) => Some(ButtonId::Track3),
        crate::hal::ButtonId::Track(3) => Some(ButtonId::Track4),
        crate::hal::ButtonId::Track(4) => Some(ButtonId::Track5),
        crate::hal::ButtonId::Track(5) => Some(ButtonId::Track6),
        crate::hal::ButtonId::TrackSelect(0) => Some(ButtonId::TrackSelect1),
        crate::hal::ButtonId::TrackSelect(1) => Some(ButtonId::TrackSelect2),
        crate::hal::ButtonId::TrackSelect(2) => Some(ButtonId::TrackSelect3),
        crate::hal::ButtonId::TrackSelect(3) => Some(ButtonId::TrackSelect4),
        crate::hal::ButtonId::TrackSelect(4) => Some(ButtonId::TrackSelect5),
        crate::hal::ButtonId::TrackSelect(5) => Some(ButtonId::TrackSelect6),
        crate::hal::ButtonId::FX(0) => Some(ButtonId::FX1),
        crate::hal::ButtonId::FX(1) => Some(ButtonId::FX2),
        crate::hal::ButtonId::FX(2) => Some(ButtonId::FX3),
        crate::hal::ButtonId::FX(3) => Some(ButtonId::FX4),
        crate::hal::ButtonId::FX(4) => Some(ButtonId::FX5),
        crate::hal::ButtonId::Play => Some(ButtonId::Play),
        crate::hal::ButtonId::Stop => Some(ButtonId::Stop),
        crate::hal::ButtonId::Rec => Some(ButtonId::Rec),
        crate::hal::ButtonId::Menu => Some(ButtonId::Menu),
        crate::hal::ButtonId::PageLeft => Some(ButtonId::PageLeft),
        crate::hal::ButtonId::PageRight => Some(ButtonId::PageRight),
        crate::hal::ButtonId::Enter => Some(ButtonId::Enter),
        crate::hal::ButtonId::Exit => Some(ButtonId::Exit),
        crate::hal::ButtonId::TapTempo => Some(ButtonId::TapTempo),
        crate::hal::ButtonId::Memory => Some(ButtonId::Memory),
        crate::hal::ButtonId::UndoRedo => Some(ButtonId::UndoRedo),
        crate::hal::ButtonId::Edit => Some(ButtonId::Edit),
        _ => None,
    }
}

/// Map a hardware button to its control button.
pub fn map_hal_button_to_control_button(hal_button_id: crate::hal::ButtonId) -> (r: Option<ButtonId>)
    ensures
        r == spec_map_hal_button(hal_button_id),
{
    match hal_button_id {
        crate::hal::ButtonId::Track(i) => match i {
            0 => Some(ButtonId::Track1),
            1 => Some(ButtonId::Track2),
            2 => Some(ButtonId::Track3),
            3 => Some(ButtonId::Track4),
            4 => Some(ButtonId::Track5),
            5 => Some(ButtonId::Track6),
            _ => None,
        },
        crate::hal::ButtonId::TrackSelect(i) => match i {
            0 => Some(ButtonId::TrackSelect1),
            1 => Some(ButtonId::TrackSelect2),
            2 => Some(ButtonId::TrackSelect3),
            3 => Some(ButtonId::TrackSelect4),
            4 => Some(ButtonId::TrackSelect5),
            5 => Some(ButtonId::TrackSelect6),
            _ => None,
        },
        crate::hal::ButtonId::FX(i) => match i {
            0 => Some(ButtonId::FX1),
            1 => Some(ButtonId::FX2),
            2 => Some(ButtonId::FX3),
            3 => Some(ButtonId::FX4),
            4 => Some(ButtonId::FX5),
            _ => None,
        },
        crate::hal::ButtonId::Play => Some(ButtonId::Play),
        crate::hal::ButtonId::Stop => Some(ButtonId::Stop),
        crate::hal::ButtonId::Rec => Some(ButtonId::Rec),
        crate::hal::ButtonId::Menu => Some(ButtonId::Menu),
        crate::hal::ButtonId::PageLeft => Some(ButtonId::PageLeft),
        crate::hal::ButtonId::PageRight => Some(ButtonId::PageRight),
        crate::hal::ButtonId::Enter => Some(ButtonId::Enter),
        crate::hal::ButtonId::Exit => Some(ButtonId::Exit),
        crate::hal::ButtonId::TapTempo => Some(ButtonId::TapTempo),
        crate::hal::ButtonId::Memory => Some(ButtonId::Memory),
        crate::hal::ButtonId::UndoRedo => Some(ButtonId::UndoRedo),
        crate::hal::ButtonId::Edit => Some(ButtonId::Edit),
    }
}

/// The control event of a hardware button event: mapped buttons with a real
/// press type become a button press; the rest are dropped.
pub open spec fn spec_button_event(e: (crate::hal::ButtonId, PressType)) -> Option<ControlEvent> {
    match (spec_map_hal_button(e.0), e.1) {
        (Some(b), PressType::Short) => Some(ControlEvent::ButtonPress { button: b, press_type: ButtonPress::Short }),
        (Some(b), PressType::Long) => Some(ControlEvent::ButtonPress { button: b, press_type: ButtonPress::Long }),
        (Some(b), PressType::Double) => Some(ControlEvent::ButtonPress { button: b, press_type: ButtonPress::Double }),
        _ => None,
    }
}

/// The control event of an encoder event: turning right is PageRight,
/// turning left is PageLeft, pushing is Enter; the release is dropped.
pub open spec fn spec_rotary_event(e: RotaryEvent) -> Option<ControlEvent> {
    match e {
        RotaryEvent::Clockwise => Some(ControlEvent::ButtonPress { button: ButtonId::PageRight, press_type: ButtonPress::Short }),
        RotaryEvent::CounterClockwise => Some(ControlEvent::ButtonPress { button: ButtonId::PageLeft, press_type: ButtonPress::Short }),
        RotaryEvent::ButtonPress => Some(ControlEvent::ButtonPress { button: ButtonId::Enter, press_type: ButtonPress::Short }),
        RotaryEvent::ButtonRelease => None,
    }
}

/// The control events of a run of hardware button events, in order.
pub open spec fn spec_button_events(s: Seq<(crate::hal::ButtonId, PressType)>) -> Seq<ControlEvent>
    decreases s.len(),
{
    if s.len() == 0 {
        Seq::empty()
    } else {
        let rest = spec_button_events(s.drop_last());
        match spec_button_event(s.last()) {
            Some(e) => rest.push(e),
            None => rest,
        }
    }
}

/// The control events of a run of encoder events, in order.
pub open spec fn spec_rotary_events(s: Seq<RotaryEvent>) -> Seq<ControlEvent>
    decreases s.len(),
{
    if s.len() == 0 {
        Seq::empty()
    } else {
        let rest = spec_rotary_events(s.drop_last());
        match spec_rotary_event(s.last()) {
            Some(e) => rest.push(e),
            None => rest,
        }
    }
}

/// At most this many control events are produced per update.
pub const MAX_CONTROL_EVENTS: usize = 16;

/// The first `MAX_CONTROL_EVENTS` events of a sequence.
pub open spec fn spec_cap(s: Seq<ControlEvent>) -> Seq<ControlEvent> {
    if s.len() <= MAX_CONTROL_EVENTS { s } else { s.take(MAX_CONTROL_EVENTS as int) }
}

/// All control events of one update: button events first, then encoder
/// events, cut to the first `MAX_CONTROL_EVENTS`.
pub open spec fn spec_control_events(
    buttons: Seq<(crate::hal::ButtonId, PressType)>,
    rotary: Seq<RotaryEvent>,
) -> Seq<ControlEvent> {
    spec_cap(spec_button_events(buttons) + spec_rotary_events(rotary))
}

fn button_event(e: (crate::hal::ButtonId, PressType)) -> (r: Option<ControlEvent>)
    ensures
        r == spec_button_event(e),
{
    let (hal_button_id, press_type) = e;
    match map_hal_button_to_control_button(hal_button_id) {
        Some(b) => match press_type {
            PressType::Short => Some(ControlEvent::ButtonPress { button: b, press_type: ButtonPress::Short }),
            PressType::Long => Some(ControlEvent::ButtonPress { button: b, press_type: ButtonPress::Long }),
            PressType::Double => Some(ControlEvent::ButtonPress { button: b, press_type: ButtonPress::Double }),
            PressType::Idle => None,
        },
        None => None,
    }
}

fn rotary_event(e: RotaryEvent) -> (r: Option<ControlEvent>)
    ensures
        r == spec_rotary_event(e),
{
    match e {
        RotaryEvent::Clockwise => Some(ControlEvent::ButtonPress { button: ButtonId::PageRight, press_type: ButtonPress::Short }),
        RotaryEvent::CounterClockwise => Some(ControlEvent::ButtonPress { button: ButtonId::PageLeft, press_type: ButtonPress::Short }),
        RotaryEvent::ButtonPress => Some(ControlEvent::ButtonPress { button: ButtonId::Enter, press_type: ButtonPress::Short }),
        RotaryEvent::ButtonRelease => None,
    }
}

/// Appending to a capped sequence only while it has room keeps it the cap
/// of the longer sequence.
proof fn lemma_cap_push(prev: Seq<ControlEvent>, e: ControlEvent)
    ensures
        spec_cap(prev).len() < MAX_CONTROL_EVENTS ==> spec_cap(prev.push(e)) == spec_cap(prev).push(e),
        spec_cap(prev).len() >= MAX_CONTROL_EVENTS ==> spec_cap(prev.push(e)) == spec_cap(prev),
{
    if spec_cap(prev).len() >= MAX_CONTROL_EVENTS {
        assert(prev.push(e).take(MAX_CONTROL_EVENTS as int) =~= spec_cap(prev));
    } else {
        assert(spec_cap(prev.push(e)) =~= prev.push(e));
    }
}

/// Turn the button and encoder events of one update into control events.
pub fn collect_control_events(
    button_events: &[(crate::hal::ButtonId, PressType)],
    rotary_events: &[RotaryEvent],
) -> (r: heapless::Vec<ControlEvent, 16>)
    ensures
        control_events16(r) == spec_control_events(button_events@, rotary_events@),
{
    let mut events = control_events16_new();
    let mut i: usize = 0;
    while i < button_events.len()
        invariant
            i <= button_events@.len(),
            control_events16(events) == spec_cap(spec_button_events(button_events@.take(i as int))),
        decreases button_events@.len() - i,
    {
        let ghost prev = spec_button_events(button_events@.take(i as int));
        proof {
            assert(button_events@.take(i + 1).drop_last() =~= button_events@.take(i as int));
            assert(button_events@.take(i + 1).last() == button_events@[i as int]);
        }
        match button_event(button_events[i]) {
            Some(e) => {
                proof {
                    lemma_cap_push(prev, e);
                }
                let _ = control_events16_push(&mut events, e);
            },
            None => {},
        }
        i = i + 1;
    }
    let ghost first = spec_button_events(button_events@);
    proof {
        assert(button_events@.take(i as int) =~= button_events@);
        assert(first + spec_rotary_events(rotary_events@.take(0)) =~= first);
    }
    let mut j: usize = 0;
    while j < rotary_events.len()
        invariant
            j <= rotary_events@.len(),
            first == spec_button_events(button_events@),
            control_events16(events) == spec_cap(first + spec_rotary_events(rotary_events@.take(j as int))),
        decreases rotary_events@.len() - j,
    {
        let ghost prev = first + spec_rotary_events(rotary_events@.take(j as int));
        proof {
            assert(rotary_events@.take(j + 1).drop_last() =~= rotary_events@.take(j as int));
            assert(rotary_events@.take(j + 1).last() == rotary_events@[j as int]);
        }
        match rotary_event(rotary_events[j]) {
            Some(e) => {
                proof {
                    lemma_cap_push(prev, e);
                    assert(first + spec_rotary_events(rotary_events@.take(j + 1)) =~= prev.push(e));
                }
                let _ = control_events16_push(&mut events, e);
            },
            None => {
                proof {
                    assert(first + spec_rotary_events(rotary_events@.take(j + 1)) =~= prev);
                }
            },
        }
        j = j + 1;
    }
    proof {
        assert(rotary_events@.take(j as int) =~= rotary_events@);
    }
    events
}

} // verus!
