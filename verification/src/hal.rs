//! Hardware-facing logic: PCF8575 button expanders, button debouncing,
//! the KY-040 rotary encoder, the 74HC595 LED shift registers, and the
//! plain configuration types of the audio, USB and UART interfaces.

use vstd::prelude::*;
use crate::bounded::{
    button_events16, button_events16_new, button_events16_push, bytes512, events4_new, events4_push, rotary_events4,
    vec512_new,
};

verus! {

/// System clock frequency (400MHz).
pub const SYSTEM_CLOCK_HZ: u32 = 400_000_000;

/// Audio sample rate (44.1kHz).
pub const SAMPLE_RATE_HZ: u32 = 44_100;

/// Audio buffer size for DMA transfers (stereo samples).
pub const AUDIO_BUFFER_SIZE: usize = 256;

/// Number of I2S input channels (4x PCM1808 = 8 channels).
pub const I2S_INPUT_CHANNELS: usize = 8;

/// Number of I2S output channels (4x PCM5102A = 8 channels).
pub const I2S_OUTPUT_CHANNELS: usize = 8;

/// DMA buffer size for double buffering.
pub const DMA_BUFFER_SIZE: usize = 512;

/// DAC resolution (12-bit).
pub const DAC_RESOLUTION: u32 = 4096;

/// Consecutive differing reads that confirm a PCF8575 pin change.
pub const DEBOUNCE_THRESHOLD: u8 = 3;

/// Hold time, in milliseconds, from which a press counts as long.
pub const LONG_PRESS_THRESHOLD: u32 = 500;

/// Window, in milliseconds, for a double press.
pub const DOUBLE_PRESS_WINDOW: u32 = 300;

/// Hardware abstraction layer errors.
#[derive(Debug, Clone, Copy, PartialEq, Eq, Structural)]
pub enum HalError {
    PeripheralAccess,
    InitError,
    UsbError,
    InvalidConfiguration,
    UnsupportedFormat,
    DeviceNotEnabled,
    InvalidParameter,
    Timeout,
    DmaError,
    I2cError,
    SpiError,
    UartError,
    /// A control, LED or controller index that does not exist.
    InvalidControl,
    /// A fixed-capacity buffer is full.
    BufferFull,
    /// An I2C transfer failed.
    I2CError,
    /// A received message could not be parsed.
    ParseError,
    /// A message could not be serialised.
    SerializationError,
    /// The display link is disabled or failed.
    CommunicationError,
}

/// I2S audio input configuration for the PCM1808 ADCs.
pub struct AudioInput {
    pub initialized: bool,
    /// Current input buffer (double buffering).
    pub current_input_buffer: bool,
    pub input_buffer_a: [i32; 4096],
    pub input_buffer_b: [i32; 4096],
    pub dma_active: bool,
}

/// I2S audio output configuration for the PCM5102A DACs.
pub struct AudioOutput {
    pub initialized: bool,
    /// Current output buffer (double buffering).
    pub current_output_buffer: bool,
    pub output_buffer_a: [i32; 4096],
    pub output_buffer_b: [i32; 4096],
    pub dma_active: bool,
}

/// Control ADC for faders and knobs.
pub struct ControlAdc {
    pub initialized: bool,
}

/// Button press types for gesture recognition.
#[derive(Debug, Clone, Copy, PartialEq, Eq, Structural)]
pub enum PressType {
    Idle,
    Short,
    Long,
    Double,
}

/// Control identifiers for reading analog controls.
#[derive(Debug, Clone, Copy, PartialEq, Eq, Structural)]
pub enum ControlId {
    TrackFader(usize),
    Knob(usize),
    OutputLevel,
    ExpressionPedal(usize),
}

/// Button identifiers for reading digital controls.
#[derive(Debug, Clone, Copy, PartialEq, Eq, Structural)]
pub enum ButtonId {
    Track(usize),
    FX(usize),
    TrackSelect(usize),
    Play,
    Stop,
    Rec,
    Menu,
    PageLeft,
    PageRight,
    Enter,
    Exit,
    TapTempo,
    Memory,
    UndoRedo,
    Edit,
}

/// MIDI event types.
#[derive(Debug, Clone, Copy, PartialEq, Eq, Structural)]
pub enum MidiEvent {
    NoteOn { channel: u8, note: u8, velocity: u8 },
    NoteOff { channel: u8, note: u8, velocity: u8 },
    ControlChange { channel: u8, controller: u8, value: u8 },
    ProgramChange { channel: u8, program: u8 },
}

/// PCF8575 controller types for the different button groups.
#[derive(Debug, Clone, Copy, PartialEq, Eq, Structural)]
pub enum ControllerType {
    /// Track buttons 1-6 and track select buttons 1-6.
    TrackButtons,
    /// FX buttons 1-5 and transport controls.
    FxAndTransport,
    /// Menu navigation and utility buttons.
    MenuAndUtility,
    /// Additional controls and expansion.
    Additional,
}

/// The button wired to each pin of a controller of type `t`.
pub open spec fn spec_pin_assignment(t: ControllerType, pin: int) -> Option<ButtonId> {
    match t {
        ControllerType::TrackButtons => if 0 <= pin <= 5 {
            Some(ButtonId::Track(pin as usize))
        } else if 8 <= pin <= 13 {
            Some(ButtonId::TrackSelect((pin - 8) as usize))
        } else {
            None
        },
        ControllerType::FxAndTransport => if 0 <= pin <= 4 {
            Some(ButtonId::FX(pin as usize))
        } else if pin == 8 {
            Some(ButtonId::Play)
        } else if pin == 9 {
            Some(ButtonId::Stop)
        } else if pin == 10 {
            Some(ButtonId::Rec)
        } else {
            None
        },
        ControllerType::MenuAndUtility => if pin == 0 {
            Some(ButtonId::Menu)
        } else if pin == 1 {
            Some(ButtonId::PageLeft)
        } else if pin == 2 {
            Some(ButtonId::PageRight)
        } else if pin == 3 {
            Some(ButtonId::Enter)
        } else if pin == 4 {
            Some(ButtonId::Exit)
        } else if pin == 8 {
            Some(ButtonId::TapTempo)
        } else if pin == 9 {
            Some(ButtonId::Memory)
        } else if pin == 10 {
            Some(ButtonId::UndoRedo)
        } else if pin == 11 {
            Some(ButtonId::Edit)
        } else {
            None
        },
        ControllerType::Additional => None,
    }
}

/// Button mapping of a PCF8575 controller.
#[derive(Debug, Clone, Copy)]
pub struct ButtonMapping {
    pub controller_type: ControllerType,
    /// Button assignment of each of the 16 pins.
    pub pin_assignments: [Option<ButtonId>; 16],
}

impl ButtonMapping {
    /// Create the button mapping for a controller type.
    pub fn new(controller_type: ControllerType) -> (r: Self)
        ensures
            r.controller_type == controller_type,
            forall|p: int| 0 <= p < 16 ==> r.pin_assignments[p] == spec_pin_assignment(controller_type, p),
    {
        let mut pin_assignments: [Option<ButtonId>; 16] = [None; 16];
        match controller_type {
            ControllerType::TrackButtons => {
                pin_assignments[0] = Some(ButtonId::Track(0));
                pin_assignments[1] = Some(ButtonId::Track(1));
                pin_assignments[2] = Some(ButtonId::Track(2));
                pin_assignments[3] = Some(ButtonId::Track(3));
                pin_assignments[4] = Some(ButtonId::Track(4));
                pin_assignments[5] = Some(ButtonId::Track(5));
                pin_assignments[8] = Some(ButtonId::TrackSelect(0));
                pin_assignments[9] = Some(ButtonId::TrackSelect(1));
                pin_assignments[10] = Some(ButtonId::TrackSelect(2));
                pin_assignments[11] = Some(ButtonId::TrackSelect(3));
                pin_assignments[12] = Some(ButtonId::TrackSelect(4));
                pin_assignments[13] = Some(ButtonId::TrackSelect(5));
            },
            ControllerType::FxAndTransport => {
                pin_assignments[0] = Some(ButtonId::FX(0));
                pin_assignments[1] = Some(ButtonId::FX(1));
                pin_assignments[2] = Some(ButtonId::FX(2));
                pin_assignments[3] = Some(ButtonId::FX(3));
                pin_assignments[4] = Some(ButtonId::FX(4));
                pin_assignments[8] = Some(ButtonId::Play);
                pin_assignments[9] = Some(ButtonId::Stop);
                pin_assignments[10] = Some(ButtonId::Rec);
            },
            ControllerType::MenuAndUtility => {
                pin_assignments[0] = Some(ButtonId::Menu);
                pin_assignments[1] = Some(ButtonId::PageLeft);
                pin_assignments[2] = Some(ButtonId::PageRight);
                pin_assignments[3] = Some(ButtonId::Enter);
                pin_assignments[4] = Some(ButtonId::Exit);
                pin_assignments[8] = Some(ButtonId::TapTempo);
                pin_assignments[9] = Some(ButtonId::Memory);
                pin_assignments[10] = Some(ButtonId::UndoRedo);
                pin_assignments[11] = Some(ButtonId::Edit);
            },
            ControllerType::Additional => {},
        }
        ButtonMapping { controller_type, pin_assignments }
    }

    /// The button on a pin, if any.
    pub fn get_button_for_pin(&self, pin: usize) -> (r: Option<ButtonId>)
        ensures
            r == (if pin < 16 { self.pin_assignments[pin as int] } else { None }),
    {
        if pin < 16 {
            self.pin_assignments[pin]
        } else {
            None
        }
    }

    /// The first pin wired to a button, if any.
    pub fn get_pin_for_button(&self, button_id: ButtonId) -> (r: Option<usize>)
        ensures
            r matches Some(p) ==> p < 16 && self.pin_assignments[p as int] == Some(button_id)
                && forall|q: int| 0 <= q < p ==> self.pin_assignments[q] != Some(button_id),
            r is None ==> forall|q: int| 0 <= q < 16 ==> self.pin_assignments[q] != Some(button_id),
    {
        let mut pin: usize = 0;
        while pin < 16
            invariant
                pin <= 16,
                forall|q: int| 0 <= q < pin ==> self.pin_assignments[q] != Some(button_id),
            decreases 16 - pin,
        {
            if let Some(mapped) = self.pin_assignments[pin] {
                if mapped == button_id {
                    return Some(pin);
                }
            }
            pin = pin + 1;
        }
        None
    }
}

/// In every built-in mapping each button sits on one pin only, so looking a
/// button's pin up and reading that pin back gives the button again.
pub proof fn lemma_mapping_pins_distinct(t: ControllerType, p: int, q: int)
    requires
        0 <= p < 16,
        0 <= q < 16,
        spec_pin_assignment(t, p) is Some,
        spec_pin_assignment(t, p) == spec_pin_assignment(t, q),
    ensures
        p == q,
{
}

/// Pin `pin` of a PCF8575 state reads pressed (the inputs are active low).
pub open spec fn spec_pin_pressed(state: u16, pin: int) -> bool {
    (state as int / pow2_u16(pin)) % 2 == 0
}

/// 2 to the power `pin`, for pins 0-15.
pub open spec fn pow2_u16(pin: int) -> int
    decreases pin,
{
    if pin <= 0 { 1 } else { 2 * pow2_u16(pin - 1) }
}

proof fn lemma_pin_bit(state: u16, pin: u16)
    requires
        pin < 16,
    ensures
        ((state & (1u16 << pin)) == 0) == spec_pin_pressed(state, pin as int),
{
    reveal_with_fuel(pow2_u16, 17);
    assert((state & (1u16 << pin)) == 0 <==> (state >> pin) % 2 == 0) by (bit_vector)
        requires pin < 16;
    assert((state >> pin) == state / (1u16 << pin)) by (bit_vector)
        requires pin < 16;
    assert(pin == 0 ==> (1u16 << pin) == 1) by (bit_vector);
    assert(pin == 1 ==> (1u16 << pin) == 2) by (bit_vector);
    assert(pin == 2 ==> (1u16 << pin) == 4) by (bit_vector);
    assert(pin == 3 ==> (1u16 << pin) == 8) by (bit_vector);
    assert(pin == 4 ==> (1u16 << pin) == 16) by (bit_vector);
    assert(pin == 5 ==> (1u16 << pin) == 32) by (bit_vector);
    assert(pin == 6 ==> (1u16 << pin) == 64) by (bit_vector);
    assert(pin == 7 ==> (1u16 << pin) == 128) by (bit_vector);
    assert(pin == 8 ==> (1u16 << pin) == 256) by (bit_vector);
    assert(pin == 9 ==> (1u16 << pin) == 512) by (bit_vector);
    assert(pin == 10 ==> (1u16 << pin) == 1024) by (bit_vector);
    assert(pin == 11 ==> (1u16 << pin) == 2048) by (bit_vector);
    assert(pin == 12 ==> (1u16 << pin) == 4096) by (bit_vector);
    assert(pin == 13 ==> (1u16 << pin) == 8192) by (bit_vector);
    assert(pin == 14 ==> (1u16 << pin) == 16384) by (bit_vector);
    assert(pin == 15 ==> (1u16 << pin) == 32768) by (bit_vector);
}

/// The per-pin debouncing state of a PCF8575 controller.
pub ghost struct PinState {
    pub counter: int,
    pub press_start: u32,
    pub press_type: PressType,
}

/// Milliseconds from `start` to `now`, zero when `now` is earlier.
pub open spec fn spec_elapsed(now: u32, start: u32) -> int {
    if now >= start { now - start } else { 0 }
}

/// One debouncing step of a pin, given whether it reads pressed now and
/// read pressed on the previous scan.  A change is counted; three counted
/// changes confirm it: a confirmed press records its start time as a short
/// press, a confirmed release reports a long press (held 500 ms or more) or
/// a short one.  A stable pin resets the count, and a held short press turns
/// long, and is reported, once it has lasted 500 ms.
pub open spec fn spec_pin_step(s: PinState, current: bool, previous: bool, now: u32) -> (PinState, Option<PressType>) {
    if current != previous {
        let c = s.counter + 1;
        if current {
            if c >= DEBOUNCE_THRESHOLD {
                (PinState { counter: 0, press_start: now, press_type: PressType::Short }, None)
            } else {
                (PinState { counter: c, ..s }, None)
            }
        } else {
            if c >= DEBOUNCE_THRESHOLD {
                (
                    PinState { counter: 0, press_type: PressType::Idle, ..s },
                    Some(if spec_elapsed(now, s.press_start) >= LONG_PRESS_THRESHOLD { PressType::Long } else { PressType::Short }),
                )
            } else {
                (PinState { counter: c, ..s }, None)
            }
        }
    } else if current && s.press_type == PressType::Short && spec_elapsed(now, s.press_start) >= LONG_PRESS_THRESHOLD {
        (PinState { counter: 0, press_type: PressType::Long, ..s }, Some(PressType::Long))
    } else {
        (PinState { counter: 0, ..s }, None)
    }
}

/// PCF8575 16-bit I2C I/O expander scanning a group of buttons.
pub struct Pcf8575Controller {
    /// I2C device address (0x20-0x27).
    pub address: u8,
    /// Current button states (active low).
    pub current_state: u16,
    /// Previous button states for change detection.
    pub previous_state: u16,
    pub button_mapping: ButtonMapping,
    /// Debounce counters for the 16 pins.
    pub debounce_counters: [u8; 16],
    /// Press start times for gesture recognition.
    pub press_start_times: [u32; 16],
    /// Press types of the 16 pins.
    pub press_types: [PressType; 16],
    pub enabled: bool,
}

impl Pcf8575Controller {
    /// The debouncing state of pin `p`.
    pub open spec fn pin_state(&self, p: int) -> PinState {
        PinState {
            counter: self.debounce_counters[p] as int,
            press_start: self.press_start_times[p],
            press_type: self.press_types[p],
        }
    }

    /// The events a scan reporting `new_state` produces on pins `0..p`.
    pub open spec fn spec_events(&self, new_state: u16, now: u32, p: int) -> Seq<(ButtonId, PressType)>
        decreases p,
    {
        if p <= 0 {
            Seq::empty()
        } else {
            let earlier = self.spec_events(new_state, now, p - 1);
            match self.button_mapping.pin_assignments[p - 1] {
                Some(b) => match spec_pin_step(
                    self.pin_state(p - 1),
                    spec_pin_pressed(new_state, p - 1),
                    spec_pin_pressed(self.current_state, p - 1),
                    now,
                ).1 {
                    Some(t) => earlier.push((b, t)),
                    None => earlier,
                },
                None => earlier,
            }
        }
    }

    /// Create a new PCF8575 controller with every button released.
    pub fn new(address: u8, controller_type: ControllerType) -> (r: Self)
        ensures
            r.address == address,
            r.current_state == 0xFFFF,
            r.previous_state == 0xFFFF,
            r.button_mapping.controller_type == controller_type,
            forall|p: int| 0 <= p < 16 ==> r.button_mapping.pin_assignments[p] == spec_pin_assignment(controller_type, p),
            forall|p: int| 0 <= p < 16 ==> r.debounce_counters[p] == 0,
            forall|p: int| 0 <= p < 16 ==> r.press_start_times[p] == 0,
            forall|p: int| 0 <= p < 16 ==> r.press_types[p] == PressType::Idle,
            r.enabled,
    {
        let button_mapping = ButtonMapping::new(controller_type);
        Pcf8575Controller {
            address,
            current_state: 0xFFFF,
            previous_state: 0xFFFF,
            button_mapping,
            debounce_counters: [0; 16],
            press_start_times: [0; 16],
            press_types: [PressType::Idle; 16],
            enabled: true,
        }
    }

    /// Process the two bytes read from the expander (most significant byte
    /// first): the read becomes the current state, the former current state
    /// the previous one, and every mapped pin takes one debouncing step
    /// comparing the two.  Returns the button events, in pin order.
    pub fn process_read(&mut self, buffer: [u8; 2], timestamp: u32) -> (r: heapless::Vec<(ButtonId, PressType), 16>)
        requires
            forall|p: int|
                0 <= p < 16 && old(self).button_mapping.pin_assignments[p] is Some
                    && spec_pin_pressed(((buffer[0] as u16) * 256 + buffer[1] as u16) as u16, p)
                        != spec_pin_pressed(old(self).current_state, p)
                    ==> old(self).debounce_counters[p] < 255,
        ensures
            ({
                let new_state = ((buffer[0] as u16) * 256 + buffer[1] as u16) as u16;
                &&& final(self).current_state == new_state
                &&& final(self).previous_state == old(self).current_state
                &&& button_events16(r) == old(self).spec_events(new_state, timestamp, 16)
                &&& forall|p: int| 0 <= p < 16 ==> #[trigger] final(self).pin_state(p) ==
                    if old(self).button_mapping.pin_assignments[p] is Some {
                        spec_pin_step(
                            old(self).pin_state(p),
                            spec_pin_pressed(new_state, p),
                            spec_pin_pressed(old(self).current_state, p),
                            timestamp,
                        ).0
                    } else {
                        old(self).pin_state(p)
                    }
            }),
            final(self).button_mapping == old(self).button_mapping,
            final(self).address == old(self).address,
            final(self).enabled == old(self).enabled,
    {
        let b0 = buffer[0];
        let b1 = buffer[1];
        let new_state: u16 = ((b0 as u16) << 8) | (b1 as u16);
        proof {
            assert(((b0 as u16) << 8) | (b1 as u16) == ((b0 as u16) * 256 + b1 as u16) as u16) by (bit_vector);
        }
        self.previous_state = self.current_state;
        self.current_state = new_state;
        let ghost start = *self;
        let mut button_events = button_events16_new();
        let mut pin: u16 = 0;
        while pin < 16
            invariant
                pin <= 16,
                self.current_state == new_state,
                self.previous_state == start.previous_state,
                self.button_mapping == start.button_mapping,
                self.address == start.address,
                self.enabled == start.enabled,
                start.current_state == new_state,
                start.previous_state == old(self).current_state,
                start.button_mapping == old(self).button_mapping,
                forall|p: int| 0 <= p < 16 ==> start.pin_state(p) == old(self).pin_state(p),
                forall|p: int|
                    0 <= p < 16 && old(self).button_mapping.pin_assignments[p] is Some
                        && spec_pin_pressed(new_state, p) != spec_pin_pressed(old(self).current_state, p)
                        ==> old(self).debounce_counters[p] < 255,
                button_events16(button_events) == old(self).spec_events(new_state, timestamp, pin as int),
                button_events16(button_events).len() <= pin,
                forall|p: int| pin <= p < 16 ==> self.pin_state(p) == old(self).pin_state(p),
                forall|p: int| 0 <= p < pin ==> #[trigger] self.pin_state(p) ==
                    if old(self).button_mapping.pin_assignments[p] is Some {
                        spec_pin_step(
                            old(self).pin_state(p),
                            spec_pin_pressed(new_state, p),
                            spec_pin_pressed(old(self).current_state, p),
                            timestamp,
                        ).0
                    } else {
                        old(self).pin_state(p)
                    },
            decreases 16 - pin,
        {
            let pin_mask: u16 = 1u16 << pin;
            let current_pressed = (self.current_state & pin_mask) == 0;
            let previous_pressed = (self.previous_state & pin_mask) == 0;
            proof {
                lemma_pin_bit(self.current_state, pin);
                lemma_pin_bit(self.previous_state, pin);
            }
            let ghost before = *self;
            if let Some(button_id) = self.button_mapping.pin_assignments[pin as usize] {
                let outcome = self.process_button_change(pin as usize, current_pressed, previous_pressed, timestamp);
                if let Some(press_type) = outcome {
                    let _ = button_events16_push(&mut button_events, (button_id, press_type));
                }
            }
            proof {
                assert forall|p: int| 0 <= p < pin + 1 implies #[trigger] self.pin_state(p) ==
                    if old(self).button_mapping.pin_assignments[p] is Some {
                        spec_pin_step(
                            old(self).pin_state(p),
                            spec_pin_pressed(new_state, p),
                            spec_pin_pressed(old(self).current_state, p),
                            timestamp,
                        ).0
                    } else {
                        old(self).pin_state(p)
                    } by {
                    if p < pin {
                        assert(self.pin_state(p) == before.pin_state(p));
                    }
                }
            }
            pin = pin + 1;
        }
        button_events
    }

    /// One debouncing step of `pin`.
    fn process_button_change(&mut self, pin: usize, current_pressed: bool, previous_pressed: bool, timestamp: u32) -> (r: Option<PressType>)
        requires
            pin < 16,
            current_pressed != previous_pressed ==> old(self).debounce_counters[pin as int] < 255,
        ensures
            ({
                let (s, out) = spec_pin_step(old(self).pin_state(pin as int), current_pressed, previous_pressed, timestamp);
                &&& final(self).pin_state(pin as int) == s
                &&& r == out
            }),
            forall|p: int| 0 <= p < 16 && p != pin ==> final(self).pin_state(p) == old(self).pin_state(p),
            final(self).current_state == old(self).current_state,
            final(self).previous_state == old(self).previous_state,
            final(self).button_mapping == old(self).button_mapping,
            final(self).address == old(self).address,
            final(self).enabled == old(self).enabled,
    {
        if current_pressed != previous_pressed {
            if current_pressed {
                self.debounce_counters[pin] = self.debounce_counters[pin] + 1;
                if self.debounce_counters[pin] >= DEBOUNCE_THRESHOLD {
                    self.press_start_times[pin] = timestamp;
                    self.press_types[pin] = PressType::Short;
                    self.debounce_counters[pin] = 0;
                }
            } else {
                self.debounce_counters[pin] = self.debounce_counters[pin] + 1;
                if self.debounce_counters[pin] >= DEBOUNCE_THRESHOLD {
                    let press_duration = timestamp.saturating_sub(self.press_start_times[pin]);
                    self.debounce_counters[pin] = 0;
                    let press_type = if press_duration >= LONG_PRESS_THRESHOLD {
                        PressType::Long
                    } else {
                        PressType::Short
                    };
                    self.press_types[pin] = PressType::Idle;
                    return Some(press_type);
                }
            }
        } else {
            self.debounce_counters[pin] = 0;
            if current_pressed && self.press_types[pin] == PressType::Short {
                let press_duration = timestamp.saturating_sub(self.press_start_times[pin]);
                if press_duration >= LONG_PRESS_THRESHOLD {
                    self.press_types[pin] = PressType::Long;
                    return Some(PressType::Long);
                }
            }
        }
        None
    }

    /// Whether taking `buffer` would count a change on a mapped pin whose
    /// debounce counter is already at its largest value (255): the case the
    /// counter cannot represent, which `process_read` leaves out.
    pub fn read_overflows_counter(&self, buffer: [u8; 2]) -> (r: bool)
        ensures
            !r <==> forall|p: int|
                0 <= p < 16 && self.button_mapping.pin_assignments[p] is Some
                    && spec_pin_pressed(((buffer[0] as u16) * 256 + buffer[1] as u16) as u16, p)
                        != spec_pin_pressed(self.current_state, p)
                    ==> self.debounce_counters[p] < 255,
    {
        let b0 = buffer[0];
        let b1 = buffer[1];
        let new_state: u16 = ((b0 as u16) << 8) | (b1 as u16);
        proof {
            assert(((b0 as u16) << 8) | (b1 as u16) == ((b0 as u16) * 256 + b1 as u16) as u16) by (bit_vector);
        }
        let mut pin: u16 = 0;
        while pin < 16
            invariant
                pin <= 16,
                new_state == ((buffer[0] as u16) * 256 + buffer[1] as u16) as u16,
                forall|p: int|
                    0 <= p < pin && self.button_mapping.pin_assignments[p] is Some
                        && spec_pin_pressed(new_state, p) != spec_pin_pressed(self.current_state, p)
                        ==> self.debounce_counters[p] < 255,
            decreases 16 - pin,
        {
            let pin_mask: u16 = 1u16 << pin;
            let changed = ((new_state & pin_mask) == 0) != ((self.current_state & pin_mask) == 0);
            proof {
                lemma_pin_bit(new_state, pin);
                lemma_pin_bit(self.current_state, pin);
            }
            if self.button_mapping.pin_assignments[pin as usize].is_some() && changed
                && self.debounce_counters[pin as usize] == 255 {
                return true;
            }
            pin = pin + 1;
        }
        false
    }

    /// The two bytes written to the expander for `data`, most significant
    /// byte first.
    pub fn output_frame(data: u16) -> (r: [u8; 2])
        ensures
            r[0] as int == data as int / 256,
            r[1] as int == data as int % 256,
    {
        let hi = (data >> 8) as u8;
        let lo = data as u8;
        proof {
            assert((data >> 8) as u8 as int == data as int / 256) by (bit_vector);
            assert(data as u8 as int == data as int % 256) by (bit_vector);
        }
        [hi, lo]
    }

    /// Enable or disable the controller.
    pub fn set_enabled(&mut self, enabled: bool)
        ensures
            final(self).enabled == enabled,
            final(self).current_state == old(self).current_state,
            final(self).previous_state == old(self).previous_state,
            final(self).button_mapping == old(self).button_mapping,
            final(self).debounce_counters == old(self).debounce_counters,
            final(self).press_start_times == old(self).press_start_times,
            final(self).press_types == old(self).press_types,
            final(self).address == old(self).address,
    {
        self.enabled = enabled;
    }

    /// Whether the first pin wired to `button_id` reads pressed.
    pub fn get_button_state(&self, button_id: ButtonId) -> (r: bool)
        ensures
            match self.button_mapping.pin_assignments@.index_of_first(Some(button_id)) {
                Some(p) => r == spec_pin_pressed(self.current_state, p),
                None => !r,
            },
    {
        let mut pin: u16 = 0;
        while pin < 16
            invariant
                pin <= 16,
                forall|q: int| 0 <= q < pin ==> self.button_mapping.pin_assignments@[q] != Some(button_id),
            decreases 16 - pin,
        {
            if let Some(mapped) = self.button_mapping.pin_assignments[pin as usize] {
                if mapped == button_id {
                    let pin_mask: u16 = 1u16 << pin;
                    proof {
                        lemma_pin_bit(self.current_state, pin);
                        lemma_index_of_first(self.button_mapping.pin_assignments@, Some(button_id), pin as int);
                    }
                    return (self.current_state & pin_mask) == 0;
                }
            }
            pin = pin + 1;
        }
        proof {
            lemma_index_of_first_none(self.button_mapping.pin_assignments@, Some(button_id));
        }
        false
    }
}

proof fn lemma_index_of_first<A>(s: Seq<A>, x: A, p: int)
    requires
        0 <= p < s.len(),
        s[p] == x,
        forall|q: int| 0 <= q < p ==> s[q] != x,
    ensures
        s.index_of_first(x) == Some(p),
{
    s.index_of_first_ensures(x);
    if let Some(i) = s.index_of_first(x) {
        assert(i == p);
    }
}

proof fn lemma_index_of_first_none<A>(s: Seq<A>, x: A)
    requires
        forall|q: int| 0 <= q < s.len() ==> s[q] != x,
    ensures
        s.index_of_first(x) is None,
{
    s.index_of_first_ensures(x);
}

/// Every debouncing step keeps a pin's counter below three when it was
/// below three: changes are confirmed on the third count and reset it.
pub proof fn lemma_pin_counter_bounded(s: PinState, current: bool, previous: bool, now: u32)
    requires
        0 <= s.counter < DEBOUNCE_THRESHOLD,
    ensures
        0 <= spec_pin_step(s, current, previous, now).0.counter < DEBOUNCE_THRESHOLD,
{
}

/// A pin that is not confirmed by three counted changes reports nothing
/// on a change, and a release is only ever reported as a short or long press.
pub proof fn lemma_pin_release_reports(s: PinState, now: u32)
    requires
        0 <= s.counter,
    ensures
        s.counter + 1 < DEBOUNCE_THRESHOLD ==> spec_pin_step(s, false, true, now).1 is None,
        spec_pin_step(s, false, true, now).1 matches Some(t) ==> (t is Short || t is Long),
        spec_pin_step(s, true, false, now).1 is None,
{
}

/// Button state tracking for debouncing.
pub struct ButtonStates {
    pub track_button_states: [ButtonState; 6],
    pub fx_button_states: [ButtonState; 5],
    /// Play, Stop, Rec.
    pub transport_states: [ButtonState; 3],
    /// Menu, PageL, PageR, Enter, Exit.
    pub menu_states: [ButtonState; 5],
    /// Tap, Memory, Undo, Edit.
    pub control_states: [ButtonState; 4],
    pub track_select_states: [ButtonState; 6],
    /// Timestamp for debouncing.
    pub last_update: u32,
}

impl ButtonStates {
    /// Every button released.
    pub fn new() -> (r: Self)
        ensures
            r.last_update == 0,
            forall|i: int| 0 <= i < 6 ==> r.track_button_states[i] == ButtonState::spec_new(),
            forall|i: int| 0 <= i < 5 ==> r.fx_button_states[i] == ButtonState::spec_new(),
            forall|i: int| 0 <= i < 3 ==> r.transport_states[i] == ButtonState::spec_new(),
            forall|i: int| 0 <= i < 5 ==> r.menu_states[i] == ButtonState::spec_new(),
            forall|i: int| 0 <= i < 4 ==> r.control_states[i] == ButtonState::spec_new(),
            forall|i: int| 0 <= i < 6 ==> r.track_select_states[i] == ButtonState::spec_new(),
    {
        ButtonStates {
            track_button_states: [ButtonState::new(); 6],
            fx_button_states: [ButtonState::new(); 5],
            transport_states: [ButtonState::new(); 3],
            menu_states: [ButtonState::new(); 5],
            control_states: [ButtonState::new(); 4],
            track_select_states: [ButtonState::new(); 6],
            last_update: 0,
        }
    }
}

/// Debouncing state of a single button.
#[derive(Debug, Clone, Copy, PartialEq, Eq, Structural)]
pub struct ButtonState {
    pub current: bool,
    pub previous: bool,
    pub debounce_counter: u8,
    pub press_type: PressType,
    pub press_start_time: u32,
}

impl ButtonState {
    pub open spec fn spec_new() -> ButtonState {
        ButtonState { current: false, previous: false, debounce_counter: 0, press_type: PressType::Idle, press_start_time: 0 }
    }

    /// One debouncing step of a button: the previous state becomes the
    /// current one; a raw reading differing from it is counted, and three
    /// counts switch the state (a press records its start as a short press)
    /// and report a change; a stable reading resets the count.  A button held
    /// more than 500 ms after a short press start turns long and reports a
    /// change once.
    pub open spec fn spec_update(self, raw_state: bool, timestamp: u32) -> (ButtonState, bool) {
        let s = ButtonState { previous: self.current, ..self };
        if raw_state != s.current && s.debounce_counter + 1 >= 3 {
            let switched = ButtonState { current: raw_state, debounce_counter: 0, ..s };
            if raw_state && !s.previous {
                (ButtonState { press_start_time: timestamp, press_type: PressType::Short, ..switched }, true)
            } else {
                (switched, true)
            }
        } else {
            let counted = if raw_state != s.current {
                ButtonState { debounce_counter: (s.debounce_counter + 1) as u8, ..s }
            } else {
                ButtonState { debounce_counter: 0, ..s }
            };
            if counted.current && timestamp - counted.press_start_time > 500 && counted.press_type == PressType::Short {
                (ButtonState { press_type: PressType::Long, ..counted }, true)
            } else {
                (counted, false)
            }
        }
    }

    /// A released button.
    pub fn new() -> (r: Self)
        ensures
            r == Self::spec_new(),
    {
        ButtonState { current: false, previous: false, debounce_counter: 0, press_type: PressType::Idle, press_start_time: 0 }
    }

    /// Update the button with a raw reading; true when its state changed or a
    /// long press was detected.
    pub fn update(&mut self, raw_state: bool, timestamp: u32) -> (r: bool)
        requires
            raw_state != old(self).current ==> old(self).debounce_counter < 255,
            old(self).current ==> timestamp >= old(self).press_start_time,
        ensures
            (*final(self), r) == old(self).spec_update(raw_state, timestamp),
    {
        self.previous = self.current;
        if raw_state != self.current {
            self.debounce_counter = self.debounce_counter + 1;
            if self.debounce_counter >= 3 {
                self.current = raw_state;
                self.debounce_counter = 0;
                if self.current && !self.previous {
                    self.press_start_time = timestamp;
                    self.press_type = PressType::Short;
                }
                return true;
            }
        } else {
            self.debounce_counter = 0;
        }
        if self.current && (timestamp - self.press_start_time) > 500 {
            if self.press_type == PressType::Short {
                self.press_type = PressType::Long;
                return true;
            }
        }
        false
    }

    /// Pressed now and released at the previous update.
    pub fn just_pressed(&self) -> (r: bool)
        ensures
            r == (self.current && !self.previous),
    {
        self.current && !self.previous
    }

    /// Released now and pressed at the previous update.
    pub fn just_released(&self) -> (r: bool)
        ensures
            r == (!self.current && self.previous),
    {
        !self.current && self.previous
    }

    /// The current press type.
    pub fn press_type(&self) -> (r: PressType)
        ensures
            r == self.press_type,
    {
        self.press_type
    }
}

/// A button's counter stays below three from one update to the next, and
/// a state change is reported exactly when the debounced state switches or
/// a short press turns long.
pub proof fn lemma_button_update_laws(b: ButtonState, raw: bool, t: u32)
    requires
        b.debounce_counter < 3,
    ensures
        b.spec_update(raw, t).0.debounce_counter < 3,
        b.spec_update(raw, t).1 <==> (b.spec_update(raw, t).0.current != b.current
            || (b.spec_update(raw, t).0.press_type == PressType::Long && b.press_type == PressType::Short)),
        b.spec_update(raw, t).0.previous == b.current,
{
}

/// KY-040 rotary encoder: quadrature decoding and push-button detection.
pub struct Ky040RotaryEncoder {
    /// CLK (A phase) pin.
    pub clk_pin: Option<bool>,
    /// DT (B phase) pin.
    pub dt_pin: Option<bool>,
    /// SW (push button) pin.
    pub sw_pin: Option<bool>,
    pub prev_clk_state: bool,
    pub prev_dt_state: bool,
    pub prev_button_state: bool,
    /// Signed encoder position.
    pub position: i32,
    pub button_pressed: bool,
    pub button_debounce_counter: u8,
    pub last_update_time: u32,
    pub enabled: bool,
}

/// Rotary encoder events.
#[derive(Debug, Clone, Copy, PartialEq, Eq, Structural)]
pub enum RotaryEvent {
    Clockwise,
    CounterClockwise,
    ButtonPress,
    ButtonRelease,
}

/// The CLK level sampled at `t`: high during even seconds.
pub open spec fn spec_clk_level(t: u32) -> bool {
    (t / 1000) % 2 == 0
}

/// The DT level sampled at `t`: high during odd seconds.
pub open spec fn spec_dt_level(t: u32) -> bool {
    ((t / 1000) + 1) % 2 == 0
}

impl Ky040RotaryEncoder {
    /// The encoder state and events after one update at `t`: a falling CLK
    /// edge moves the position one step (clockwise when DT reads high), and
    /// the push button (active low, reading released) is debounced over
    /// three readings.
    pub open spec fn spec_update(self, t: u32) -> (Ky040RotaryEncoder, Seq<RotaryEvent>) {
        if !self.enabled {
            (self, Seq::empty())
        } else if self.clk_pin is Some && self.dt_pin is Some && self.sw_pin is Some {
            let clk = spec_clk_level(t);
            let dt = spec_dt_level(t);
            let falling = self.prev_clk_state && !clk;
            let position = if falling { if dt { self.position + 1 } else { self.position - 1 } } else { self.position as int };
            let rotation: Seq<RotaryEvent> = if falling {
                if dt { seq![RotaryEvent::Clockwise] } else { seq![RotaryEvent::CounterClockwise] }
            } else {
                Seq::empty()
            };
            let pressed = false;
            let (counter, button, events) = if pressed != self.prev_button_state {
                let c = self.button_debounce_counter + 1;
                if c >= 3 {
                    (0int, pressed, rotation.push(if pressed { RotaryEvent::ButtonPress } else { RotaryEvent::ButtonRelease }))
                } else {
                    (c, self.button_pressed, rotation)
                }
            } else {
                (0int, self.button_pressed, rotation)
            };
            (
                Ky040RotaryEncoder {
                    position: position as i32,
                    button_debounce_counter: counter as u8,
                    button_pressed: button,
                    prev_clk_state: clk,
                    prev_dt_state: dt,
                    prev_button_state: pressed,
                    last_update_time: t,
                    ..self
                },
                events,
            )
        } else {
            (Ky040RotaryEncoder { last_update_time: t, ..self }, Seq::empty())
        }
    }

    /// A new, enabled encoder with no pins configured.
    pub fn new() -> (r: Self)
        ensures
            r.clk_pin is None && r.dt_pin is None && r.sw_pin is None,
            !r.prev_clk_state && !r.prev_dt_state && !r.prev_button_state,
            r.position == 0,
            !r.button_pressed,
            r.button_debounce_counter == 0,
            r.last_update_time == 0,
            r.enabled,
    {
        Ky040RotaryEncoder {
            clk_pin: None,
            dt_pin: None,
            sw_pin: None,
            prev_clk_state: false,
            prev_dt_state: false,
            prev_button_state: false,
            position: 0,
            button_pressed: false,
            button_debounce_counter: 0,
            last_update_time: 0,
            enabled: true,
        }
    }

    /// Configure the pins and reset the remembered pin levels.
    pub fn init(&mut self) -> (r: Result<(), HalError>)
        ensures
            r is Ok,
            final(self).clk_pin == Some(false),
            final(self).dt_pin == Some(false),
            final(self).sw_pin == Some(false),
            !final(self).prev_clk_state && !final(self).prev_dt_state && !final(self).prev_button_state,
            final(self).position == old(self).position,
            final(self).button_pressed == old(self).button_pressed,
            final(self).button_debounce_counter == old(self).button_debounce_counter,
            final(self).last_update_time == old(self).last_update_time,
            final(self).enabled == old(self).enabled,
    {
        self.clk_pin = Some(false);
        self.dt_pin = Some(false);
        self.sw_pin = Some(false);
        self.prev_clk_state = false;
        self.prev_dt_state = false;
        self.prev_button_state = false;
        Ok(())
    }

    /// Whether an update at `t` stays within the ranges of the position
    /// (`i32`) and of the button counter (`u8`): a step past either end of
    /// the position, or a count past 255, cannot be represented.
    pub open spec fn spec_update_fits(self, t: u32) -> bool {
        let active = self.enabled && self.clk_pin is Some && self.dt_pin is Some && self.sw_pin is Some;
        let falling = self.prev_clk_state && !spec_clk_level(t);
        active ==> {
            &&& falling && spec_dt_level(t) ==> self.position < i32::MAX
            &&& falling && !spec_dt_level(t) ==> self.position > i32::MIN
            &&& self.prev_button_state ==> self.button_debounce_counter < 255
        }
    }

    /// Whether an update at `timestamp` stays within the value ranges.
    pub fn update_fits(&self, timestamp: u32) -> (r: bool)
        ensures
            r == self.spec_update_fits(timestamp),
    {
        if !(self.enabled && self.clk_pin.is_some() && self.dt_pin.is_some() && self.sw_pin.is_some()) {
            return true;
        }
        let clk_state = (timestamp / 1000) % 2 == 0;
        let dt_state = ((timestamp / 1000) + 1) % 2 == 0;
        let falling = self.prev_clk_state && !clk_state;
        if falling && dt_state && self.position == i32::MAX {
            return false;
        }
        if falling && !dt_state && self.position == i32::MIN {
            return false;
        }
        !(self.prev_button_state && self.button_debounce_counter == 255)
    }

    /// Sample the encoder at `timestamp` and return its events.
    pub fn update(&mut self, timestamp: u32) -> (r: heapless::Vec<RotaryEvent, 4>)
        requires
            old(self).spec_update_fits(timestamp),
        ensures
            (*final(self), rotary_events4(r)) == old(self).spec_update(timestamp),
    {
        let mut events = events4_new();
        if !self.enabled {
            return events;
        }
        self.last_update_time = timestamp;
        if self.clk_pin.is_some() && self.dt_pin.is_some() && self.sw_pin.is_some() {
            let clk_state = (timestamp / 1000) % 2 == 0;
            let dt_state = ((timestamp / 1000) + 1) % 2 == 0;
            let sw_state = true;
            if self.prev_clk_state && !clk_state {
                if dt_state {
                    self.position = self.position + 1;
                    let _ = events4_push(&mut events, RotaryEvent::Clockwise);
                } else {
                    self.position = self.position - 1;
                    let _ = events4_push(&mut events, RotaryEvent::CounterClockwise);
                }
            }
            let button_pressed = !sw_state;
            if button_pressed != self.prev_button_state {
                if button_pressed {
                    self.button_debounce_counter = self.button_debounce_counter + 1;
                    if self.button_debounce_counter >= 3 {
                        self.button_pressed = true;
                        self.button_debounce_counter = 0;
                        let _ = events4_push(&mut events, RotaryEvent::ButtonPress);
                    }
                } else {
                    self.button_debounce_counter = self.button_debounce_counter + 1;
                    if self.button_debounce_counter >= 3 {
                        self.button_pressed = false;
                        self.button_debounce_counter = 0;
                        let _ = events4_push(&mut events, RotaryEvent::ButtonRelease);
                    }
                }
            } else {
                self.button_debounce_counter = 0;
            }
            self.prev_clk_state = clk_state;
            self.prev_dt_state = dt_state;
            self.prev_button_state = button_pressed;
        }
        proof {
            let (s, ev) = old(self).spec_update(timestamp);
            assert(rotary_events4(events) =~= ev);
        }
        events
    }

    /// Current encoder position.
    pub fn get_position(&self) -> (r: i32)
        ensures
            r == self.position,
    {
        self.position
    }

    /// Reset the encoder position to zero.
    pub fn reset_position(&mut self)
        ensures
            *final(self) == (Ky040RotaryEncoder { position: 0, ..*old(self) }),
    {
        self.position = 0;
    }

    /// Current debounced button state.
    pub fn is_button_pressed(&self) -> (r: bool)
        ensures
            r == self.button_pressed,
    {
        self.button_pressed
    }

    /// Enable or disable the encoder.
    pub fn set_enabled(&mut self, enabled: bool)
        ensures
            *final(self) == (Ky040RotaryEncoder { enabled, ..*old(self) }),
    {
        self.enabled = enabled;
    }
}

/// The position moves by exactly the number of clockwise events minus the
/// number of counter-clockwise events, and at most one of them per update.
pub proof fn lemma_encoder_position_counts(e: Ky040RotaryEncoder, t: u32)
    requires
        i32::MIN < e.position < i32::MAX,
    ensures
        ({
            let (n, ev) = e.spec_update(t);
            let cw = ev.filter(|x: RotaryEvent| x == RotaryEvent::Clockwise).len();
            let ccw = ev.filter(|x: RotaryEvent| x == RotaryEvent::CounterClockwise).len();
            &&& n.position == e.position + cw - ccw
            &&& cw + ccw <= 1
        }),
{
    let (n, ev) = e.spec_update(t);
    reveal_with_fuel(Seq::filter, 3);
    if e.enabled && e.clk_pin is Some && e.dt_pin is Some && e.sw_pin is Some {
        let clk = spec_clk_level(t);
        let dt = spec_dt_level(t);
        let falling = e.prev_clk_state && !clk;
        let rotation: Seq<RotaryEvent> = if falling {
            if dt { seq![RotaryEvent::Clockwise] } else { seq![RotaryEvent::CounterClockwise] }
        } else {
            Seq::empty()
        };
        assert(rotation.filter(|x: RotaryEvent| x == RotaryEvent::Clockwise).len()
            == ev.filter(|x: RotaryEvent| x == RotaryEvent::Clockwise).len()) by {
            if ev.len() > rotation.len() {
                assert(ev.drop_last() =~= rotation);
            } else {
                assert(ev =~= rotation);
            }
        }
        assert(rotation.filter(|x: RotaryEvent| x == RotaryEvent::CounterClockwise).len()
            == ev.filter(|x: RotaryEvent| x == RotaryEvent::CounterClockwise).len()) by {
            if ev.len() > rotation.len() {
                assert(ev.drop_last() =~= rotation);
            } else {
                assert(ev =~= rotation);
            }
        }
    }
}

/// 74HC595 shift-register driver for the LED matrix.
pub struct Hc595LedController {
    /// SPI peripheral (optional - GPIO can be used).
    pub spi_peripheral: Option<()>,
    /// Data pin (SER/DS).
    pub data_pin: Option<bool>,
    /// Shift clock pin (SRCLK/SHCP).
    pub clock_pin: Option<bool>,
    /// Latch pin (RCLK/STCP).
    pub latch_pin: Option<bool>,
    /// Output enable pin (OE, active low).
    pub output_enable_pin: Option<bool>,
    /// Number of cascaded chips.
    pub chip_count: u8,
    /// LED states, one byte per chip (up to 64 LEDs).
    pub led_states: [u8; 8],
    pub update_pending: bool,
    pub enabled: bool,
}

/// LED identifiers for status indication.
#[derive(Debug, Clone, Copy, PartialEq, Eq, Structural)]
pub enum LedId {
    /// Track status LEDs (1-6).
    Track(u8),
    /// Track recording LEDs (1-6).
    TrackRec(u8),
    /// FX status LEDs (1-5).
    FX(u8),
    Play,
    Stop,
    Rec,
    Menu,
    PageLeft,
    PageRight,
    Memory,
    Tempo,
    Power,
    Error,
    /// Expansion LEDs.
    Custom(u8),
}

/// LED control commands.
#[derive(Debug, Clone, Copy, PartialEq, Eq, Structural)]
pub enum LedCommand {
    On,
    Off,
    Toggle,
    /// Brightness (0-255) where PWM is supported.
    Brightness(u8),
}

/// The chip and bit of an LED on a board with `chip_count` chips: tracks on
/// chip 0, record LEDs after them, FX LEDs from chip 1 bit 4, transport,
/// menu and system LEDs on chips 2 and 3, and custom LEDs from bit 32 on.
pub open spec fn spec_led_position(led: LedId, chip_count: u8) -> Option<(int, int)> {
    match led {
        LedId::Track(t) => if 1 <= t <= 6 { Some((0, t - 1)) } else { None },
        LedId::TrackRec(t) => if 1 <= t <= 2 {
            Some((0, t + 5))
        } else if 3 <= t <= 6 {
            Some((1, t - 3))
        } else {
            None
        },
        LedId::FX(f) => if 1 <= f <= 4 {
            Some((1, f + 3))
        } else if f == 5 {
            Some((2, 0))
        } else {
            None
        },
        LedId::Play => Some((2, 1)),
        LedId::Stop => Some((2, 2)),
        LedId::Rec => Some((2, 3)),
        LedId::Menu => Some((2, 4)),
        LedId::PageLeft => Some((2, 5)),
        LedId::PageRight => Some((2, 6)),
        LedId::Memory => Some((2, 7)),
        LedId::Tempo => Some((3, 0)),
        LedId::Power => Some((3, 1)),
        LedId::Error => Some((3, 2)),
        LedId::Custom(id) => if (id + 32) / 8 < chip_count { Some(((id + 32) / 8, (id + 32) % 8)) } else { None },
    }
}

/// Bit `bit` of `byte`.
pub open spec fn spec_bit(byte: u8, bit: int) -> bool {
    (byte as int / pow2_u16(bit)) % 2 == 1
}

proof fn lemma_u8_bits(b: u8, bit: u8)
    requires
        bit < 8,
    ensures
        ((b & (1u8 << bit)) != 0) == spec_bit(b, bit as int),
        forall|k: u8| k < 8 ==> spec_bit(b | (1u8 << bit), k as int) == (k == bit || spec_bit(b, k as int)),
        forall|k: u8| k < 8 ==> spec_bit(b & !(1u8 << bit), k as int) == (k != bit && spec_bit(b, k as int)),
        forall|k: u8| k < 8 ==> spec_bit(b ^ (1u8 << bit), k as int) == (if k == bit { !spec_bit(b, k as int) } else { spec_bit(b, k as int) }),
{
    assert forall|x: u8, k: u8| k < 8 implies spec_bit(x, k as int) == ((x >> k) & 1u8 == 1u8) by {
        lemma_spec_bit_shift(x, k);
    }
    assert(((b & (1u8 << bit)) != 0) == ((b >> bit) & 1u8 == 1u8)) by (bit_vector)
        requires bit < 8;
    assert forall|k: u8| k < 8 implies (((b | (1u8 << bit)) >> k) & 1u8 == 1u8) == (k == bit || ((b >> k) & 1u8 == 1u8)) by {
        assert(k < 8 && bit < 8 ==> ((((b | (1u8 << bit)) >> k) & 1u8 == 1u8) == (k == bit || ((b >> k) & 1u8 == 1u8)))) by (bit_vector);
    }
    assert forall|k: u8| k < 8 implies (((b & !(1u8 << bit)) >> k) & 1u8 == 1u8) == (k != bit && ((b >> k) & 1u8 == 1u8)) by {
        assert(k < 8 && bit < 8 ==> ((((b & !(1u8 << bit)) >> k) & 1u8 == 1u8) == (k != bit && ((b >> k) & 1u8 == 1u8)))) by (bit_vector);
    }
    assert forall|k: u8| k < 8 implies (((b ^ (1u8 << bit)) >> k) & 1u8 == 1u8) == (if k == bit { !((b >> k) & 1u8 == 1u8) } else { (b >> k) & 1u8 == 1u8 }) by {
        assert(k < 8 && bit < 8 ==> ((((b ^ (1u8 << bit)) >> k) & 1u8 == 1u8) == (if k == bit { !((b >> k) & 1u8 == 1u8) } else { (b >> k) & 1u8 == 1u8 }))) by (bit_vector);
    }
}

proof fn lemma_spec_bit_shift(x: u8, k: u8)
    requires
        k < 8,
    ensures
        spec_bit(x, k as int) == ((x >> k) & 1u8 == 1u8),
{
    reveal_with_fuel(pow2_u16, 9);
    assert(((x >> k) & 1u8 == 1u8) == ((x >> k) % 2 == 1)) by (bit_vector);
    assert(x >> k == x / (1u8 << k)) by (bit_vector)
        requires k < 8;
    assert(k == 0 ==> (1u8 << k) == 1) by (bit_vector);
    assert(k == 1 ==> (1u8 << k) == 2) by (bit_vector);
    assert(k == 2 ==> (1u8 << k) == 4) by (bit_vector);
    assert(k == 3 ==> (1u8 << k) == 8) by (bit_vector);
    assert(k == 4 ==> (1u8 << k) == 16) by (bit_vector);
    assert(k == 5 ==> (1u8 << k) == 32) by (bit_vector);
    assert(k == 6 ==> (1u8 << k) == 64) by (bit_vector);
    assert(k == 7 ==> (1u8 << k) == 128) by (bit_vector);
}

impl Hc595LedController {
    /// The lit state of the LED at a chip and bit.
    pub open spec fn spec_led_on(&self, chip: int, bit: int) -> bool {
        spec_bit(self.led_states[chip], bit)
    }

    /// A new, enabled controller with every LED off and at most 8 chips.
    pub fn new(chip_count: u8) -> (r: Self)
        ensures
            r.chip_count == if chip_count < 8 { chip_count } else { 8 },
            forall|i: int| 0 <= i < 8 ==> r.led_states[i] == 0,
            !r.update_pending,
            r.enabled,
            r.spi_peripheral is None && r.data_pin is None && r.clock_pin is None,
            r.latch_pin is None && r.output_enable_pin is None,
    {
        Hc595LedController {
            spi_peripheral: None,
            data_pin: None,
            clock_pin: None,
            latch_pin: None,
            output_enable_pin: None,
            chip_count: if chip_count < 8 { chip_count } else { 8 },
            led_states: [0u8; 8],
            update_pending: false,
            enabled: true,
        }
    }

    /// Configure the pins and switch every LED off.
    pub fn init(&mut self) -> (r: Result<(), HalError>)
        requires
            old(self).chip_count <= 8,
        ensures
            r is Ok,
            forall|i: int| 0 <= i < old(self).chip_count ==> final(self).led_states[i] == 0,
            forall|i: int| old(self).chip_count <= i < 8 ==> final(self).led_states[i] == old(self).led_states[i],
            final(self).update_pending == !old(self).enabled,
            *final(self) == (Hc595LedController {
                data_pin: Some(false),
                clock_pin: Some(false),
                latch_pin: Some(false),
                output_enable_pin: Some(false),
                led_states: final(self).led_states,
                update_pending: final(self).update_pending,
                ..*old(self)
            }),
    {
        self.data_pin = Some(false);
        self.clock_pin = Some(false);
        self.latch_pin = Some(false);
        self.output_enable_pin = Some(false);
        self.clear_all_leds()
    }

    /// Map an LED to its chip and bit.
    pub fn led_id_to_position(&self, led_id: LedId) -> (r: Result<(usize, usize), HalError>)
        ensures
            match spec_led_position(led_id, self.chip_count) {
                Some((c, b)) => r == Ok::<(usize, usize), HalError>((c as usize, b as usize)),
                None => r == Err::<(usize, usize), HalError>(HalError::InvalidControl),
            },
    {
        match led_id {
            LedId::Track(track) if track >= 1 && track <= 6 => Ok((0, (track - 1) as usize)),
            LedId::TrackRec(track) if track >= 1 && track <= 6 => {
                if track <= 2 {
                    Ok((0, (track + 5) as usize))
                } else {
                    Ok((1, (track - 3) as usize))
                }
            },
            LedId::FX(fx) if fx >= 1 && fx <= 5 => {
                if fx <= 4 {
                    Ok((1, (fx + 3) as usize))
                } else {
                    Ok((2, 0))
                }
            },
            LedId::Play => Ok((2, 1)),
            LedId::Stop => Ok((2, 2)),
            LedId::Rec => Ok((2, 3)),
            LedId::Menu => Ok((2, 4)),
            LedId::PageLeft => Ok((2, 5)),
            LedId::PageRight => Ok((2, 6)),
            LedId::Memory => Ok((2, 7)),
            LedId::Tempo => Ok((3, 0)),
            LedId::Power => Ok((3, 1)),
            LedId::Error => Ok((3, 2)),
            LedId::Custom(id) => {
                let total_position = id as usize + 32;
                let chip_index = total_position / 8;
                let bit_index = total_position % 8;
                if chip_index < self.chip_count as usize {
                    Ok((chip_index, bit_index))
                } else {
                    Err(HalError::InvalidControl)
                }
            },
            _ => Err(HalError::InvalidControl),
        }
    }

    /// Set the state of an LED.  Disabled controllers ignore the request;
    /// LEDs outside the fitted chips, and brightness (unsupported), are
    /// refused.
    pub fn set_led(&mut self, led_id: LedId, command: LedCommand) -> (r: Result<(), HalError>)
        requires
            old(self).enabled && !(command is Brightness) ==> spec_led_chip(led_id, old(self).chip_count) < 8,
        ensures
            *final(self) == (Hc595LedController {
                led_states: final(self).led_states,
                update_pending: final(self).update_pending,
                ..*old(self)
            }),
            !old(self).enabled ==> r is Ok && *final(self) == *old(self),
            old(self).enabled && spec_led_settable(*old(self), led_id, command) ==> r is Ok
                && spec_set_led_step(*old(self), *final(self), led_id, command),
            old(self).enabled && !spec_led_settable(*old(self), led_id, command)
                ==> r == Err::<(), HalError>(HalError::InvalidControl) && *final(self) == *old(self),
    {
        if !self.enabled {
            return Ok(());
        }
        let (chip_index, bit_index) = self.led_id_to_position(led_id)?;
        if chip_index >= self.chip_count as usize {
            return Err(HalError::InvalidControl);
        }
        let bit = bit_index as u8;
        proof {
            lemma_u8_bits(self.led_states[chip_index as int], bit);
        }
        match command {
            LedCommand::On => {
                self.led_states[chip_index] = self.led_states[chip_index] | (1u8 << bit);
            },
            LedCommand::Off => {
                self.led_states[chip_index] = self.led_states[chip_index] & !(1u8 << bit);
            },
            LedCommand::Toggle => {
                self.led_states[chip_index] = self.led_states[chip_index] ^ (1u8 << bit);
            },
            LedCommand::Brightness(_) => {
                return Err(HalError::InvalidControl);
            },
        }
        self.update_pending = true;
        proof {
            assert forall|k: int| 0 <= k < 8 implies #[trigger] self.spec_led_on(chip_index as int, k) == if k == bit_index {
                match command {
                    LedCommand::On => true,
                    LedCommand::Off => false,
                    _ => !old(self).spec_led_on(chip_index as int, k),
                }
            } else {
                old(self).spec_led_on(chip_index as int, k)
            } by {
                assert(k as u8 as int == k);
            }
        }
        Ok(())
    }

    /// Shift the LED states out to the chips: a pending update of an enabled
    /// controller is marked done.
    pub fn update_leds(&mut self) -> (r: Result<(), HalError>)
        ensures
            r is Ok,
            *final(self) == (Hc595LedController {
                update_pending: old(self).update_pending && !old(self).enabled,
                ..*old(self)
            }),
    {
        if !self.enabled || !self.update_pending {
            return Ok(());
        }
        self.update_pending = false;
        Ok(())
    }

    /// Switch every LED off.
    pub fn clear_all_leds(&mut self) -> (r: Result<(), HalError>)
        requires
            old(self).chip_count <= 8,
        ensures
            r is Ok,
            forall|i: int| 0 <= i < old(self).chip_count ==> final(self).led_states[i] == 0,
            forall|i: int| old(self).chip_count <= i < 8 ==> final(self).led_states[i] == old(self).led_states[i],
            final(self).update_pending == !old(self).enabled,
            *final(self) == (Hc595LedController {
                led_states: final(self).led_states,
                update_pending: final(self).update_pending,
                ..*old(self)
            }),
    {
        let mut chip_index: usize = 0;
        let count = self.chip_count as usize;
        while chip_index < count
            invariant
                chip_index <= count,
                count == old(self).chip_count,
                count <= 8,
                *self == (Hc595LedController { led_states: self.led_states, ..*old(self) }),
                forall|i: int| 0 <= i < chip_index ==> self.led_states[i] == 0,
                forall|i: int| chip_index <= i < 8 ==> self.led_states[i] == old(self).led_states[i],
            decreases count - chip_index,
        {
            self.led_states[chip_index] = 0;
            chip_index = chip_index + 1;
        }
        self.update_pending = true;
        self.update_leds()
    }

    /// Switch every LED on.
    pub fn set_all_leds(&mut self) -> (r: Result<(), HalError>)
        requires
            old(self).chip_count <= 8,
        ensures
            r is Ok,
            forall|i: int| 0 <= i < old(self).chip_count ==> final(self).led_states[i] == 0xFF,
            forall|i: int| old(self).chip_count <= i < 8 ==> final(self).led_states[i] == old(self).led_states[i],
            final(self).update_pending == !old(self).enabled,
            *final(self) == (Hc595LedController {
                led_states: final(self).led_states,
                update_pending: final(self).update_pending,
                ..*old(self)
            }),
    {
        let mut chip_index: usize = 0;
        let count = self.chip_count as usize;
        while chip_index < count
            invariant
                chip_index <= count,
                count == old(self).chip_count,
                count <= 8,
                *self == (Hc595LedController { led_states: self.led_states, ..*old(self) }),
                forall|i: int| 0 <= i < chip_index ==> self.led_states[i] == 0xFF,
                forall|i: int| chip_index <= i < 8 ==> self.led_states[i] == old(self).led_states[i],
            decreases count - chip_index,
        {
            self.led_states[chip_index] = 0xFF;
            chip_index = chip_index + 1;
        }
        self.update_pending = true;
        self.update_leds()
    }

    /// Whether an LED is lit.
    pub fn get_led_state(&self, led_id: LedId) -> (r: Result<bool, HalError>)
        requires
            spec_led_chip(led_id, self.chip_count) < 8,
        ensures
            match spec_led_position(led_id, self.chip_count) {
                Some((c, b)) => if c < self.chip_count {
                    r == Ok::<bool, HalError>(self.spec_led_on(c, b))
                } else {
                    r == Err::<bool, HalError>(HalError::InvalidControl)
                },
                None => r == Err::<bool, HalError>(HalError::InvalidControl),
            },
    {
        let (chip_index, bit_index) = self.led_id_to_position(led_id)?;
        if chip_index >= self.chip_count as usize {
            return Err(HalError::InvalidControl);
        }
        let bit = bit_index as u8;
        proof {
            lemma_u8_bits(self.led_states[chip_index as int], bit);
        }
        let bit_mask: u8 = 1u8 << bit;
        Ok((self.led_states[chip_index] & bit_mask) != 0)
    }

    /// Enable or disable the controller.
    pub fn set_enabled(&mut self, enabled: bool)
        ensures
            *final(self) == (Hc595LedController { enabled, ..*old(self) }),
    {
        self.enabled = enabled;
    }
}

/// Whether `set_led` on an enabled controller accepts the request: the LED
/// lies on a fitted chip and the command is on, off or toggle.
pub open spec fn spec_led_settable(s: Hc595LedController, led: LedId, command: LedCommand) -> bool {
    &&& spec_led_position(led, s.chip_count) matches Some((c, _)) && c < s.chip_count
    &&& !(command is Brightness)
}

/// One accepted `set_led`: the LED's bit is lit by On, darkened by Off and
/// flipped by Toggle, every other bit of every chip is kept, and an update
/// is pending.
pub open spec fn spec_set_led_step(before: Hc595LedController, after: Hc595LedController, led: LedId, command: LedCommand) -> bool {
    let (c, b) = spec_led_position(led, before.chip_count)->0;
    &&& spec_led_settable(before, led, command)
    &&& after == (Hc595LedController { led_states: after.led_states, update_pending: true, ..before })
    &&& forall|i: int| 0 <= i < 8 && i != c ==> after.led_states[i] == before.led_states[i]
    &&& forall|k: int| 0 <= k < 8 ==> #[trigger] after.spec_led_on(c, k) == if k == b {
        match command {
            LedCommand::On => true,
            LedCommand::Off => false,
            _ => !before.spec_led_on(c, k),
        }
    } else {
        before.spec_led_on(c, k)
    }
}

/// The chip of an LED, or -1 when it has no position.
pub open spec fn spec_led_chip(led: LedId, chip_count: u8) -> int {
    match spec_led_position(led, chip_count) {
        Some((c, _)) => c,
        None => -1,
    }
}

/// Whether one of the first `n` commands addresses the LED at `(c, k)`.
pub open spec fn spec_commanded(cmds: Seq<(LedId, LedCommand)>, n: int, chip_count: u8, c: int, k: int) -> bool {
    exists|j: int| 0 <= j < n && #[trigger] spec_led_position(cmds[j].0, chip_count) == Some((c, k))
}

/// A list of commands that switch distinct, existing LEDs on or off.
pub open spec fn spec_plain_commands(cmds: Seq<(LedId, LedCommand)>, chip_count: u8) -> bool {
    &&& forall|j: int| 0 <= j < cmds.len() ==> (#[trigger] cmds[j]).1 is On || cmds[j].1 is Off
    &&& forall|j: int| 0 <= j < cmds.len() ==> (#[trigger] spec_led_position(cmds[j].0, chip_count)) is Some
    &&& forall|i: int, j: int| 0 <= i < j < cmds.len()
        ==> spec_led_position(#[trigger] cmds[i].0, chip_count) != spec_led_position(#[trigger] cmds[j].0, chip_count)
}

/// The LED states an enabled controller reaches by applying the first `n`
/// commands of `cmds` to `before`: each of those LEDs lit exactly when its
/// command is On, every other LED as before.
pub open spec fn spec_applied_upto(
    before: Hc595LedController,
    after: Hc595LedController,
    cmds: Seq<(LedId, LedCommand)>,
    n: int,
) -> bool {
    &&& forall|j: int| 0 <= j < n ==> {
        let p = spec_led_position((#[trigger] cmds[j]).0, before.chip_count)->0;
        after.spec_led_on(p.0, p.1) == (cmds[j].1 is On)
    }
    &&& forall|c: int, k: int| 0 <= c < 8 && 0 <= k < 8 && !spec_commanded(cmds, n, before.chip_count, c, k)
        ==> #[trigger] after.spec_led_on(c, k) == before.spec_led_on(c, k)
}

/// The LED states an enabled controller reaches by applying all of `cmds`.
pub open spec fn spec_applied(before: Hc595LedController, after: Hc595LedController, cmds: Seq<(LedId, LedCommand)>) -> bool {
    spec_applied_upto(before, after, cmds, cmds.len() as int)
}

/// `i` is the first command whose LED lies past the fitted chips.
pub open spec fn spec_first_off_chip(cmds: Seq<(LedId, LedCommand)>, chip_count: u8, i: int) -> bool {
    &&& 0 <= i < cmds.len()
    &&& spec_led_chip(cmds[i].0, chip_count) >= chip_count
    &&& forall|j: int| 0 <= j < i ==> #[trigger] spec_led_chip(cmds[j].0, chip_count) < chip_count
}

impl Hc595LedController {
    /// Apply a list of on/off commands in order.  It succeeds when every
    /// LED lies on a fitted chip, and otherwise stops at the first one that
    /// does not.
    pub fn apply_led_commands(&mut self, commands: &[(LedId, LedCommand)]) -> (r: Result<(), HalError>)
        requires
            spec_plain_commands(commands@, old(self).chip_count),
            forall|j: int| 0 <= j < commands@.len() ==> #[trigger] spec_led_chip(commands@[j].0, old(self).chip_count) < 8,
        ensures
            *final(self) == (Hc595LedController {
                led_states: final(self).led_states,
                update_pending: final(self).update_pending,
                ..*old(self)
            }),
            !old(self).enabled ==> r is Ok && final(self).led_states == old(self).led_states,
            old(self).enabled ==> (r is Ok <==> forall|j: int| 0 <= j < commands@.len()
                ==> #[trigger] spec_led_chip(commands@[j].0, old(self).chip_count) < old(self).chip_count),
            r is Err ==> r == Err::<(), HalError>(HalError::InvalidControl),
            r is Ok && old(self).enabled ==> spec_applied(*old(self), *final(self), commands@),
            old(self).enabled ==> forall|i: int| #[trigger] spec_first_off_chip(commands@, old(self).chip_count, i)
                ==> spec_applied_upto(*old(self), *final(self), commands@, i),
    {
        let ghost before = *self;
        let mut i: usize = 0;
        while i < commands.len()
            invariant
                i <= commands@.len(),
                before == *old(self),
                *self == (Hc595LedController {
                    led_states: self.led_states,
                    update_pending: self.update_pending,
                    ..before
                }),
                forall|j: int| 0 <= j < commands@.len() ==> #[trigger] spec_led_chip(commands@[j].0, before.chip_count) < 8,
                spec_plain_commands(commands@, before.chip_count),
                !before.enabled ==> self.led_states == before.led_states,
                before.enabled ==> forall|j: int| 0 <= j < i
                    ==> #[trigger] spec_led_chip(commands@[j].0, before.chip_count) < before.chip_count,
                before.enabled ==> forall|j: int| 0 <= j < i ==> {
                    let p = spec_led_position((#[trigger] commands@[j]).0, before.chip_count)->0;
                    self.spec_led_on(p.0, p.1) == (commands@[j].1 is On)
                },
                before.enabled ==> forall|c: int, k: int| 0 <= c < 8 && 0 <= k < 8
                    && !spec_commanded(commands@, i as int, before.chip_count, c, k)
                    ==> #[trigger] self.spec_led_on(c, k) == before.spec_led_on(c, k),
            decreases commands@.len() - i,
        {
            let (led_id, command) = commands[i];
            let ghost mid = *self;
            let ghost pos = spec_led_position(led_id, before.chip_count)->0;
            proof {
                assert(spec_led_position(commands@[i as int].0, before.chip_count) is Some);
            }
            match self.set_led(led_id, command) {
                Ok(()) => {},
                Err(e) => {
                    proof {
                        assert(commands@[i as int].0 == led_id);
                        assert(spec_led_chip(commands@[i as int].0, before.chip_count) >= before.chip_count);
                        assert(spec_applied_upto(before, *self, commands@, i as int));
                        assert forall|i2: int| #[trigger] spec_first_off_chip(commands@, before.chip_count, i2)
                            implies spec_applied_upto(before, *self, commands@, i2) by {
                            if i2 < i {
                                assert(spec_led_chip(commands@[i2].0, before.chip_count) < before.chip_count);
                            } else if i2 > i {
                                assert(spec_led_chip(commands@[i as int].0, before.chip_count) < before.chip_count);
                            }
                        }
                    }
                    return Err(e);
                },
            }
            proof {
                if before.enabled {
                    let (c0, k0) = pos;
                    assert forall|j: int| 0 <= j < i + 1 implies {
                        let p = spec_led_position((#[trigger] commands@[j]).0, before.chip_count)->0;
                        self.spec_led_on(p.0, p.1) == (commands@[j].1 is On)
                    } by {
                        if j < i {
                            let p = spec_led_position(commands@[j].0, before.chip_count)->0;
                            assert(spec_led_chip(commands@[j].0, before.chip_count) < 8);
                            lemma_led_positions_distinct(commands@[j].0, commands@[j].0, before.chip_count);
                            assert(spec_led_position(commands@[j].0, before.chip_count) != spec_led_position(commands@[i as int].0, before.chip_count));
                            assert(mid.spec_led_on(p.0, p.1) == (commands@[j].1 is On));
                            if p.0 == c0 {
                                assert(p.1 != k0);
                                assert(self.spec_led_on(p.0, p.1) == mid.spec_led_on(p.0, p.1));
                            } else {
                                assert(self.led_states[p.0] == mid.led_states[p.0]);
                            }
                        }
                    }
                    assert forall|c: int, k: int| 0 <= c < 8 && 0 <= k < 8
                        && !spec_commanded(commands@, i + 1, before.chip_count, c, k)
                        implies #[trigger] self.spec_led_on(c, k) == before.spec_led_on(c, k) by {
                        if spec_commanded(commands@, i as int, before.chip_count, c, k) {
                            let j = choose|j: int| 0 <= j < i && #[trigger] spec_led_position(commands@[j].0, before.chip_count) == Some((c, k));
                            assert(spec_led_position(commands@[j].0, before.chip_count) == Some((c, k)));
                        }
                        assert(mid.spec_led_on(c, k) == before.spec_led_on(c, k));
                        if c == c0 {
                            assert(spec_led_position(commands@[i as int].0, before.chip_count) == Some((c0, k0)));
                            assert(k != k0);
                            assert(self.spec_led_on(c, k) == mid.spec_led_on(c, k));
                        } else {
                            assert(self.led_states[c] == mid.led_states[c]);
                        }
                    }
                }
            }
            i = i + 1;
        }
        Ok(())
    }
}

/// The LED pattern shown for the system state: with an audio engine
/// running, tracks 1-3 lit and the record LED of track 1 lit; FX 1-2 lit;
/// Stop and Power lit; Play, Rec and Error dark.
pub open spec fn spec_system_led_commands(engine_present: bool) -> Seq<(LedId, LedCommand)> {
    let tracks = seq![
        (LedId::Track(1), LedCommand::On), (LedId::TrackRec(1), LedCommand::On),
        (LedId::Track(2), LedCommand::On), (LedId::TrackRec(2), LedCommand::Off),
        (LedId::Track(3), LedCommand::On), (LedId::TrackRec(3), LedCommand::Off),
        (LedId::Track(4), LedCommand::Off), (LedId::TrackRec(4), LedCommand::Off),
        (LedId::Track(5), LedCommand::Off), (LedId::TrackRec(5), LedCommand::Off),
        (LedId::Track(6), LedCommand::Off), (LedId::TrackRec(6), LedCommand::Off),
    ];
    let rest = seq![
        (LedId::FX(1), LedCommand::On), (LedId::FX(2), LedCommand::On), (LedId::FX(3), LedCommand::Off),
        (LedId::FX(4), LedCommand::Off), (LedId::FX(5), LedCommand::Off),
        (LedId::Play, LedCommand::Off), (LedId::Stop, LedCommand::On), (LedId::Rec, LedCommand::Off),
        (LedId::Power, LedCommand::On), (LedId::Error, LedCommand::Off),
    ];
    if engine_present { tracks + rest } else { rest }
}

proof fn lemma_system_led_commands_plain(engine_present: bool, chip_count: u8)
    ensures
        spec_plain_commands(spec_system_led_commands(engine_present), chip_count),
        forall|j: int| 0 <= j < spec_system_led_commands(engine_present).len()
            ==> #[trigger] spec_led_chip(spec_system_led_commands(engine_present)[j].0, chip_count) < 4,
{
    let cmds = spec_system_led_commands(engine_present);
    assert forall|i: int, j: int| 0 <= i < j < cmds.len()
        implies spec_led_position(#[trigger] cmds[i].0, chip_count) != spec_led_position(#[trigger] cmds[j].0, chip_count) by {
        lemma_led_positions_distinct(cmds[i].0, cmds[j].0, chip_count);
    }
}

/// Show the system state on the LEDs and shift them out.  `engine_present`
/// says whether an audio engine is running; without one the track LEDs are
/// left alone.
pub fn sync_leds_with_system_state(leds: &mut Hc595LedController, engine_present: bool) -> (r: Result<(), HalError>)
    ensures
        *final(leds) == (Hc595LedController {
            led_states: final(leds).led_states,
            update_pending: final(leds).update_pending,
            ..*old(leds)
        }),
        !old(leds).enabled ==> r is Ok && final(leds).led_states == old(leds).led_states,
        old(leds).enabled ==> (r is Ok <==> old(leds).chip_count >= 4),
        r is Err ==> r == Err::<(), HalError>(HalError::InvalidControl),
        r is Ok && old(leds).enabled ==> spec_applied(*old(leds), *final(leds), spec_system_led_commands(engine_present))
            && !final(leds).update_pending,
        old(leds).enabled ==> forall|i: int| #[trigger] spec_first_off_chip(spec_system_led_commands(engine_present), old(leds).chip_count, i)
            ==> spec_applied_upto(*old(leds), *final(leds), spec_system_led_commands(engine_present), i),
{
    let rest: [(LedId, LedCommand); 10] = [
        (LedId::FX(1), LedCommand::On), (LedId::FX(2), LedCommand::On), (LedId::FX(3), LedCommand::Off),
        (LedId::FX(4), LedCommand::Off), (LedId::FX(5), LedCommand::Off),
        (LedId::Play, LedCommand::Off), (LedId::Stop, LedCommand::On), (LedId::Rec, LedCommand::Off),
        (LedId::Power, LedCommand::On), (LedId::Error, LedCommand::Off),
    ];
    let mut commands: Vec<(LedId, LedCommand)> = Vec::new();
    if engine_present {
        let mut track_id: u8 = 1;
        while track_id <= 6
            invariant
                1 <= track_id <= 7,
                commands@ == spec_system_led_commands(true).take(2 * (track_id - 1)),
            decreases 7 - track_id,
        {
            let active = if track_id <= 3 { LedCommand::On } else { LedCommand::Off };
            let recording = if track_id == 1 { LedCommand::On } else { LedCommand::Off };
            commands.push((LedId::Track(track_id), active));
            commands.push((LedId::TrackRec(track_id), recording));
            proof {
                assert(commands@ =~= spec_system_led_commands(true).take(2 * track_id));
            }
            track_id = track_id + 1;
        }
    }
    let mut j: usize = 0;
    let ghost base = commands@;
    while j < 10
        invariant
            j <= 10,
            commands@ == base + rest@.take(j as int),
        decreases 10 - j,
    {
        commands.push(rest[j]);
        proof {
            assert(rest@.take(j + 1) =~= rest@.take(j as int).push(rest@[j as int]));
        }
        j = j + 1;
    }
    proof {
        assert(commands@ =~= spec_system_led_commands(engine_present));
        lemma_system_led_commands_plain(engine_present, leds.chip_count);
        if leds.enabled && leds.chip_count < 4 {
            let cmds = spec_system_led_commands(engine_present);
            let last = cmds.len() - 1;
            assert(cmds[last] == (LedId::Error, LedCommand::Off));
            assert(spec_led_chip(cmds[last].0, leds.chip_count) >= leds.chip_count);
        }
    }
    match leds.apply_led_commands(commands.as_slice()) {
        Ok(()) => {},
        Err(e) => {
            return Err(e);
        },
    }
    let ghost mid = *leds;
    let r = leds.update_leds();
    proof {
        assert forall|c: int, k: int| #[trigger] leds.spec_led_on(c, k) == mid.spec_led_on(c, k) by {}
    }
    r
}

/// Every LED has a position on its chip (bit 0-7) and distinct LEDs never
/// share a position.
pub proof fn lemma_led_positions_distinct(a: LedId, b: LedId, chip_count: u8)
    ensures
        spec_led_position(a, chip_count) matches Some((c, k)) ==> 0 <= c && 0 <= k < 8,
        spec_led_position(a, chip_count) is Some && spec_led_position(a, chip_count) == spec_led_position(b, chip_count)
            ==> a == b,
{
}

/// Reading an LED back after setting it gives what was set: on after On,
/// off after Off, flipped after Toggle; every other LED reads as before,
/// and an update is pending.
pub proof fn lemma_led_read_after_write(
    before: Hc595LedController,
    after: Hc595LedController,
    led: LedId,
    command: LedCommand,
    other: LedId,
)
    requires
        spec_set_led_step(before, after, led, command),
    ensures
        ({
            let (c, b) = spec_led_position(led, before.chip_count)->0;
            after.spec_led_on(c, b) == match command {
                LedCommand::On => true,
                LedCommand::Off => false,
                _ => !before.spec_led_on(c, b),
            }
        }),
        other != led ==> match spec_led_position(other, before.chip_count) {
            Some((c2, b2)) => c2 < 8 ==> after.spec_led_on(c2, b2) == before.spec_led_on(c2, b2),
            None => true,
        },
        after.update_pending,
        after.chip_count == before.chip_count,
{
    lemma_led_positions_distinct(led, other, before.chip_count);
    lemma_led_positions_distinct(other, led, before.chip_count);
}

proof fn lemma_byte_from_bits(x: u8, y: u8)
    requires
        forall|k: int| 0 <= k < 8 ==> #[trigger] spec_bit(x, k) == spec_bit(y, k),
    ensures
        x == y,
{
    lemma_spec_bit_shift(x, 0u8);
    lemma_spec_bit_shift(y, 0u8);
    assert(spec_bit(x, 0) == spec_bit(y, 0));
    lemma_spec_bit_shift(x, 1u8);
    lemma_spec_bit_shift(y, 1u8);
    assert(spec_bit(x, 1) == spec_bit(y, 1));
    lemma_spec_bit_shift(x, 2u8);
    lemma_spec_bit_shift(y, 2u8);
    assert(spec_bit(x, 2) == spec_bit(y, 2));
    lemma_spec_bit_shift(x, 3u8);
    lemma_spec_bit_shift(y, 3u8);
    assert(spec_bit(x, 3) == spec_bit(y, 3));
    lemma_spec_bit_shift(x, 4u8);
    lemma_spec_bit_shift(y, 4u8);
    assert(spec_bit(x, 4) == spec_bit(y, 4));
    lemma_spec_bit_shift(x, 5u8);
    lemma_spec_bit_shift(y, 5u8);
    assert(spec_bit(x, 5) == spec_bit(y, 5));
    lemma_spec_bit_shift(x, 6u8);
    lemma_spec_bit_shift(y, 6u8);
    assert(spec_bit(x, 6) == spec_bit(y, 6));
    lemma_spec_bit_shift(x, 7u8);
    lemma_spec_bit_shift(y, 7u8);
    assert(spec_bit(x, 7) == spec_bit(y, 7));
    assert(((x >> 0u8) & 1u8 == 1u8) == ((y >> 0u8) & 1u8 == 1u8));
    assert(((x >> 1u8) & 1u8 == 1u8) == ((y >> 1u8) & 1u8 == 1u8));
    assert(((x >> 2u8) & 1u8 == 1u8) == ((y >> 2u8) & 1u8 == 1u8));
    assert(((x >> 3u8) & 1u8 == 1u8) == ((y >> 3u8) & 1u8 == 1u8));
    assert(((x >> 4u8) & 1u8 == 1u8) == ((y >> 4u8) & 1u8 == 1u8));
    assert(((x >> 5u8) & 1u8 == 1u8) == ((y >> 5u8) & 1u8 == 1u8));
    assert(((x >> 6u8) & 1u8 == 1u8) == ((y >> 6u8) & 1u8 == 1u8));
    assert(((x >> 7u8) & 1u8 == 1u8) == ((y >> 7u8) & 1u8 == 1u8));
    assert(x == y) by (bit_vector)
        requires
            ((x >> 0u8) & 1u8 == 1u8) == ((y >> 0u8) & 1u8 == 1u8),
            ((x >> 1u8) & 1u8 == 1u8) == ((y >> 1u8) & 1u8 == 1u8),
            ((x >> 2u8) & 1u8 == 1u8) == ((y >> 2u8) & 1u8 == 1u8),
            ((x >> 3u8) & 1u8 == 1u8) == ((y >> 3u8) & 1u8 == 1u8),
            ((x >> 4u8) & 1u8 == 1u8) == ((y >> 4u8) & 1u8 == 1u8),
            ((x >> 5u8) & 1u8 == 1u8) == ((y >> 5u8) & 1u8 == 1u8),
            ((x >> 6u8) & 1u8 == 1u8) == ((y >> 6u8) & 1u8 == 1u8),
            ((x >> 7u8) & 1u8 == 1u8) == ((y >> 7u8) & 1u8 == 1u8);
}

/// Toggling the same LED twice restores every LED state.
pub proof fn lemma_led_toggle_twice(
    before: Hc595LedController,
    mid: Hc595LedController,
    after: Hc595LedController,
    led: LedId,
)
    requires
        spec_set_led_step(before, mid, led, LedCommand::Toggle),
        spec_set_led_step(mid, after, led, LedCommand::Toggle),
    ensures
        after.led_states == before.led_states,
{
    let (c, b) = spec_led_position(led, before.chip_count)->0;
    lemma_led_positions_distinct(led, led, before.chip_count);
    assert forall|k: int| 0 <= k < 8 implies #[trigger] spec_bit(after.led_states[c], k) == spec_bit(before.led_states[c], k) by {
        assert(after.spec_led_on(c, k) == if k == b { !mid.spec_led_on(c, k) } else { mid.spec_led_on(c, k) });
        assert(mid.spec_led_on(c, k) == if k == b { !before.spec_led_on(c, k) } else { before.spec_led_on(c, k) });
    }
    lemma_byte_from_bits(after.led_states[c], before.led_states[c]);
    assert(after.led_states@ =~= before.led_states@);
}

/// Validation of a DAW routing request.
#[derive(Debug, Clone, Copy, PartialEq, Eq)]
pub struct DawRoutingConfig {
    /// Track input routing (track -> USB input channel).
    pub track_input_routing: [Option<u8>; 6],
    /// Track output routing (track -> USB output channel pair).
    pub track_output_routing: [Option<(u8, u8)>; 6],
    /// Master output routing (USB output channel pair).
    pub master_output_routing: (u8, u8),
    /// Input monitoring routing (USB input -> hardware output).
    pub input_monitoring_routing: [Option<u8>; 16],
    pub track_monitoring_enabled: [bool; 6],
    pub master_monitoring_enabled: bool,
}

impl DawRoutingConfig {
    /// A routing is valid when every routed track output and the master
    /// output use USB channels 0-15.
    pub open spec fn spec_valid(&self) -> bool {
        &&& forall|t: int| 0 <= t < 6 ==> (#[trigger] self.track_output_routing[t] matches Some((l, r)) ==> l < 16 && r < 16)
        &&& self.master_output_routing.0 < 16 && self.master_output_routing.1 < 16
    }

    /// Check the routing before it is applied.
    pub fn validate(&self) -> (r: Result<(), HalError>)
        ensures
            r is Ok <==> self.spec_valid(),
            r is Err ==> r == Err::<(), HalError>(HalError::InvalidConfiguration),
    {
        let mut t: usize = 0;
        while t < 6
            invariant
                t <= 6,
                forall|u: int| 0 <= u < t ==> (#[trigger] self.track_output_routing[u] matches Some((l, r)) ==> l < 16 && r < 16),
            decreases 6 - t,
        {
            if let Some((left, right)) = self.track_output_routing[t] {
                if left >= 16 || right >= 16 {
                    return Err(HalError::InvalidConfiguration);
                }
            }
            t = t + 1;
        }
        if self.master_output_routing.0 >= 16 || self.master_output_routing.1 >= 16 {
            return Err(HalError::InvalidConfiguration);
        }
        Ok(())
    }
}

impl Default for DawRoutingConfig {
    /// Tracks 1-6 record from USB inputs 0-5 and play to USB output pairs
    /// (0,1) to (10,11); the master goes to (14,15); USB inputs 0-5 are
    /// monitored; every monitor is on.
    fn default() -> (r: Self)
        ensures
            forall|t: int| 0 <= t < 6 ==> #[trigger] r.track_input_routing[t] == Some(t as u8),
            forall|t: int| 0 <= t < 6 ==> #[trigger] r.track_output_routing[t] == Some(((2 * t) as u8, (2 * t + 1) as u8)),
            r.master_output_routing == (14u8, 15u8),
            forall|i: int| 0 <= i < 16 ==> #[trigger] r.input_monitoring_routing[i] == if i < 6 { Some(i as u8) } else { None },
            forall|t: int| 0 <= t < 6 ==> #[trigger] r.track_monitoring_enabled[t],
            r.master_monitoring_enabled,
    {
        let r = DawRoutingConfig {
            track_input_routing: [Some(0), Some(1), Some(2), Some(3), Some(4), Some(5)],
            track_output_routing: [Some((0, 1)), Some((2, 3)), Some((4, 5)), Some((6, 7)), Some((8, 9)), Some((10, 11))],
            master_output_routing: (14, 15),
            input_monitoring_routing: [
                Some(0), Some(1), Some(2), Some(3), Some(4), Some(5),
                None, None, None, None, None, None, None, None, None, None,
            ],
            track_monitoring_enabled: [true; 6],
            master_monitoring_enabled: true,
        };
        assert forall|i: int| 0 <= i < 16 implies #[trigger] r.input_monitoring_routing[i] == if i < 6 { Some(i as u8) } else { None } by {
            assert(r.input_monitoring_routing@[i] == r.input_monitoring_routing[i]);
        }
        r
    }
}

/// What feeds one USB output channel.
#[derive(Debug, Clone, Copy, PartialEq, Eq, Structural)]
pub enum UsbSource {
    /// Nothing is routed here: the channel carries silence.
    Silent,
    /// The left channel of track `t` (0-5).
    TrackLeft(u8),
    /// The right channel of track `t` (0-5).
    TrackRight(u8),
    /// The left channel of the master bus.
    MasterLeft,
    /// The right channel of the master bus.
    MasterRight,
}

/// A channel pair that lies within the 16 USB channels.
pub open spec fn spec_pair_in_range(p: (u8, u8)) -> bool {
    p.0 < 16 && p.1 < 16
}

/// The track source of USB output `ch` from the routes of tracks `0..n`:
/// a later track overrides an earlier one, and a track's right channel its
/// left one.
pub open spec fn spec_track_source(cfg: DawRoutingConfig, ch: int, n: int) -> UsbSource
    decreases n,
{
    if n <= 0 {
        UsbSource::Silent
    } else {
        match cfg.track_output_routing[n - 1] {
            Some(p) => if spec_pair_in_range(p) && p.1 == ch {
                UsbSource::TrackRight((n - 1) as u8)
            } else if spec_pair_in_range(p) && p.0 == ch {
                UsbSource::TrackLeft((n - 1) as u8)
            } else {
                spec_track_source(cfg, ch, n - 1)
            },
            None => spec_track_source(cfg, ch, n - 1),
        }
    }
}

/// The source of USB output `ch`: the master bus when routed there (its
/// right channel first), otherwise the tracks.
pub open spec fn spec_usb_source(cfg: DawRoutingConfig, ch: int) -> UsbSource {
    let m = cfg.master_output_routing;
    if spec_pair_in_range(m) && m.1 == ch {
        UsbSource::MasterRight
    } else if spec_pair_in_range(m) && m.0 == ch {
        UsbSource::MasterLeft
    } else {
        spec_track_source(cfg, ch, 6)
    }
}

impl DawRoutingConfig {
    /// For each of the 16 USB outputs, the signal routed to it: each track
    /// with an in-range pair writes its left then its right channel, in
    /// track order, and then the master pair, so later writes win.
    pub fn usb_output_plan(&self) -> (r: [UsbSource; 16])
        ensures
            forall|ch: int| 0 <= ch < 16 ==> #[trigger] r[ch] == spec_usb_source(*self, ch),
    {
        let mut plan: [UsbSource; 16] = [UsbSource::Silent; 16];
        let mut t: usize = 0;
        while t < 6
            invariant
                t <= 6,
                forall|ch: int| 0 <= ch < 16 ==> #[trigger] plan[ch] == spec_track_source(*self, ch, t as int),
            decreases 6 - t,
        {
            if let Some((left, right)) = self.track_output_routing[t] {
                if left < 16 && right < 16 {
                    plan[left as usize] = UsbSource::TrackLeft(t as u8);
                    plan[right as usize] = UsbSource::TrackRight(t as u8);
                }
            }
            proof {
                assert forall|ch: int| 0 <= ch < 16 implies #[trigger] plan[ch] == spec_track_source(*self, ch, t + 1) by {
                    assert(plan@[ch] == plan[ch]);
                }
            }
            t = t + 1;
        }
        let (master_left, master_right) = self.master_output_routing;
        if master_left < 16 && master_right < 16 {
            plan[master_left as usize] = UsbSource::MasterLeft;
            plan[master_right as usize] = UsbSource::MasterRight;
        }
        proof {
            assert forall|ch: int| 0 <= ch < 16 implies #[trigger] plan[ch] == spec_usb_source(*self, ch) by {
                assert(plan@[ch] == plan[ch]);
            }
        }
        plan
    }

    /// The USB input channel a track (1-6) records from, if it is routed to
    /// one of the 16 channels; other track numbers are refused.
    pub fn usb_input_for_track(&self, track_id: u8) -> (r: Result<Option<usize>, HalError>)
        ensures
            !(1 <= track_id <= 6) ==> r == Err::<Option<usize>, HalError>(HalError::InvalidParameter),
            1 <= track_id <= 6 ==> match self.track_input_routing[track_id - 1] {
                Some(c) => r == Ok::<Option<usize>, HalError>(if c < 16 { Some(c as usize) } else { None }),
                None => r == Ok::<Option<usize>, HalError>(None),
            },
    {
        if track_id == 0 || track_id > 6 {
            return Err(HalError::InvalidParameter);
        }
        match self.track_input_routing[(track_id - 1) as usize] {
            Some(c) => if c < 16 {
                Ok(Some(c as usize))
            } else {
                Ok(None)
            },
            None => Ok(None),
        }
    }
}

/// The default routing is valid and gives every track its own stereo pair,
/// apart from the master's: no two sources share a USB output.
pub proof fn lemma_default_routing(cfg: DawRoutingConfig, ch: int)
    requires
        forall|t: int| 0 <= t < 6 ==> #[trigger] cfg.track_output_routing[t] == Some(((2 * t) as u8, (2 * t + 1) as u8)),
        cfg.master_output_routing == (14u8, 15u8),
        0 <= ch < 16,
    ensures
        cfg.spec_valid(),
        ch < 12 ==> spec_usb_source(cfg, ch) == if ch % 2 == 0 {
            UsbSource::TrackLeft((ch / 2) as u8)
        } else {
            UsbSource::TrackRight((ch / 2) as u8)
        },
        ch == 12 || ch == 13 ==> spec_usb_source(cfg, ch) == UsbSource::Silent,
        ch == 14 ==> spec_usb_source(cfg, ch) == UsbSource::MasterLeft,
        ch == 15 ==> spec_usb_source(cfg, ch) == UsbSource::MasterRight,
{
    assert(cfg.track_output_routing[0] == Some((0u8, 1u8)));
    assert(cfg.track_output_routing[1] == Some((2u8, 3u8)));
    assert(cfg.track_output_routing[2] == Some((4u8, 5u8)));
    assert(cfg.track_output_routing[3] == Some((6u8, 7u8)));
    assert(cfg.track_output_routing[4] == Some((8u8, 9u8)));
    assert(cfg.track_output_routing[5] == Some((10u8, 11u8)));
    reveal_with_fuel(spec_track_source, 7);
}

/// USB audio streaming mode.
#[derive(Debug, Clone, Copy, PartialEq, Eq, Structural)]
pub enum UsbAudioMode {
    /// 44.1kHz, 16-bit.
    Standard,
    /// 48kHz, 24-bit.
    HighQuality,
    /// 96kHz, 24-bit.
    Professional,
}

impl UsbAudioMode {
    /// Sample rate and bit depth of a mode.
    pub fn format(&self) -> (r: (u32, u8))
        ensures
            r == match *self {
                UsbAudioMode::Standard => (44100u32, 16u8),
                UsbAudioMode::HighQuality => (48000u32, 24u8),
                UsbAudioMode::Professional => (96000u32, 24u8),
            },
    {
        match self {
            UsbAudioMode::Standard => (44100, 16),
            UsbAudioMode::HighQuality => (48000, 24),
            UsbAudioMode::Professional => (96000, 24),
        }
    }
}

/// Whether the USB interface supports a format: 44.1, 48 or 96 kHz at
/// 16 or 24 bits.
pub fn check_usb_audio_format(sample_rate: u32, bit_depth: u8) -> (r: Result<(), HalError>)
    ensures
        r is Ok <==> ((sample_rate == 44100 || sample_rate == 48000 || sample_rate == 96000)
            && (bit_depth == 16 || bit_depth == 24)),
        r is Err ==> r == Err::<(), HalError>(HalError::UnsupportedFormat),
{
    match sample_rate {
        44100 | 48000 | 96000 => {},
        _ => return Err(HalError::UnsupportedFormat),
    }
    match bit_depth {
        16 | 24 => {},
        _ => return Err(HalError::UnsupportedFormat),
    }
    Ok(())
}

/// Every USB audio mode has a supported format.
pub proof fn lemma_modes_supported(m: UsbAudioMode)
    ensures
        ({
            let (rate, depth) = match m {
                UsbAudioMode::Standard => (44100u32, 16u8),
                UsbAudioMode::HighQuality => (48000u32, 24u8),
                UsbAudioMode::Professional => (96000u32, 24u8),
            };
            (rate == 44100 || rate == 48000 || rate == 96000) && (depth == 16 || depth == 24)
        }),
{
}

/// USB audio channel assignment.
#[derive(Debug, Clone, Copy, PartialEq, Eq)]
pub struct UsbChannelAssignment {
    /// USB channel number (0-15).
    pub usb_channel: u8,
    /// Track assignment (None for unassigned).
    pub track_assignment: Option<u8>,
    pub channel_type: UsbChannelType,
    pub enabled: bool,
}

/// USB channel type.
#[derive(Debug, Clone, Copy, PartialEq, Eq, Structural)]
pub enum UsbChannelType {
    /// From the DAW to the loopstation.
    Input,
    /// From the loopstation to the DAW.
    Output,
}

/// USB audio status for monitoring.
#[derive(Debug, Clone, Copy, PartialEq, Eq, Structural)]
pub struct UsbAudioStatus {
    pub connected: bool,
    pub streaming: bool,
    pub sample_rate: u32,
    pub bit_depth: u8,
    pub underrun_count: u32,
    pub overrun_count: u32,
    pub error_count: u32,
}

/// UART interface to the display module.
pub struct Esp32UartInterface {
    pub rx_buffer: heapless::Vec<u8, 512>,
    pub tx_buffer: heapless::Vec<u8, 512>,
    pub last_communication: u32,
    pub error_count: u32,
    pub enabled: bool,
}

impl Esp32UartInterface {
    /// An enabled interface with empty buffers.
    pub fn new() -> (r: Self)
        ensures
            bytes512(r.rx_buffer) == Seq::<u8>::empty(),
            bytes512(r.tx_buffer) == Seq::<u8>::empty(),
            r.last_communication == 0,
            r.error_count == 0,
            r.enabled,
    {
        Esp32UartInterface {
            rx_buffer: vec512_new(),
            tx_buffer: vec512_new(),
            last_communication: 0,
            error_count: 0,
            enabled: true,
        }
    }
}

/// Track state for communication.
#[derive(Debug, Clone, Copy, PartialEq, Eq, Structural)]
pub enum TrackStateComm {
    Stopped,
    Recording,
    Playing,
    Overdubbing,
    Muted,
}

/// Parameter identifiers for communication.
#[derive(Debug, Clone, Copy, PartialEq, Eq, Structural)]
pub enum ParameterId {
    TrackVolume(u8),
    TrackPan(u8),
    MasterVolume,
    Tempo,
    FxParameter { fx_id: u8, param_id: u8 },
}

/// Command types from the display module.
#[derive(Debug, Clone, Copy, PartialEq, Eq, Structural)]
pub enum CommandType {
    TrackPlay,
    TrackStop,
    TrackRecord,
    TrackClear,
    TrackMute,
    SetVolume,
    SetTempo,
    FxToggle,
    MemoryLoad,
    MemorySave,
}

} // verus!
