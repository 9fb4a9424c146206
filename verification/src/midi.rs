//! MIDI messages: parsing from and serialising to bytes, and the MIDI
//! handler with its input and output byte buffers.

use vstd::prelude::*;
use crate::bounded::{
    bytes8, vec8_new, vec8_push,
    bytes64, vec64_new, vec64_push, vec64_as_slice,
    bytes256, vec256_new, vec256_push, vec256_as_slice, vec256_clear, vec256_remove,
    midi_messages16, midi16_new, midi16_push,
};

pub mod cc_mappings;
pub mod note_mappings;

verus! {

/// Most messages returned by one call of [`MidiHandler::process_input`].
pub const MAX_MESSAGES_PER_INPUT: usize = 16;

/// Capacity of the handler's input and output byte buffers.
pub const MIDI_BUFFER_CAPACITY: usize = 256;

/// Most data bytes kept from a System Exclusive message.
pub const MAX_SYSEX_DATA: usize = 64;

/// MIDI channel configuration.
#[derive(Debug, Clone, Copy, PartialEq, Eq, Structural)]
pub enum MidiChannel {
    /// Specific MIDI channel (1-16).
    Channel(u8),
    /// Omni mode (respond to all channels).
    Omni,
}

impl Default for MidiChannel {
    fn default() -> (r: Self)
        ensures
            r == MidiChannel::Channel(1),
    {
        MidiChannel::Channel(1)
    }
}

/// MIDI message types supported by the loopstation.
#[derive(Debug, Clone, PartialEq, Eq)]
pub enum MidiMessage {
    NoteOn { channel: u8, note: u8, velocity: u8 },
    NoteOff { channel: u8, note: u8, velocity: u8 },
    ControlChange { channel: u8, controller: u8, value: u8 },
    ProgramChange { channel: u8, program: u8 },
    Clock,
    Start,
    Stop,
    Continue,
    /// System Exclusive message, at most 64 data bytes.
    SysEx { data: heapless::Vec<u8, 64> },
}

/// A MIDI message as a value: the System Exclusive payload is its bytes.
pub ghost enum MidiValue {
    NoteOn { channel: u8, note: u8, velocity: u8 },
    NoteOff { channel: u8, note: u8, velocity: u8 },
    ControlChange { channel: u8, controller: u8, value: u8 },
    ProgramChange { channel: u8, program: u8 },
    Clock,
    Start,
    Stop,
    Continue,
    SysEx { data: Seq<u8> },
}

impl View for MidiMessage {
    type V = MidiValue;

    open spec fn view(&self) -> MidiValue {
        match *self {
            MidiMessage::NoteOn { channel, note, velocity } => MidiValue::NoteOn { channel, note, velocity },
            MidiMessage::NoteOff { channel, note, velocity } => MidiValue::NoteOff { channel, note, velocity },
            MidiMessage::ControlChange { channel, controller, value } => MidiValue::ControlChange { channel, controller, value },
            MidiMessage::ProgramChange { channel, program } => MidiValue::ProgramChange { channel, program },
            MidiMessage::Clock => MidiValue::Clock,
            MidiMessage::Start => MidiValue::Start,
            MidiMessage::Stop => MidiValue::Stop,
            MidiMessage::Continue => MidiValue::Continue,
            MidiMessage::SysEx { data } => MidiValue::SysEx { data: bytes64(data) },
        }
    }
}

/// Index of the first 0xF7 (End of Exclusive) at or after `i`.
pub open spec fn spec_find_eox(bytes: Seq<u8>, i: int) -> Option<int>
    decreases bytes.len() - i,
{
    if i < 0 || i >= bytes.len() {
        None
    } else if bytes[i] == 0xF7u8 {
        Some(i)
    } else {
        spec_find_eox(bytes, i + 1)
    }
}

/// The channel (1-16) carried in the low nibble of a status byte.
pub open spec fn spec_status_channel(status: u8) -> u8 {
    (status % 16 + 1) as u8
}

/// The message that `from_bytes` reads from the front of `bytes`.
pub open spec fn spec_from_bytes(bytes: Seq<u8>) -> Option<MidiValue> {
    if bytes.len() == 0 {
        None
    } else {
        let status = bytes[0];
        if 0x80 <= status <= 0x8F {
            if bytes.len() >= 3 {
                Some(MidiValue::NoteOff { channel: spec_status_channel(status), note: bytes[1], velocity: bytes[2] })
            } else {
                None
            }
        } else if 0x90 <= status <= 0x9F {
            if bytes.len() >= 3 {
                Some(MidiValue::NoteOn { channel: spec_status_channel(status), note: bytes[1], velocity: bytes[2] })
            } else {
                None
            }
        } else if 0xB0 <= status <= 0xBF {
            if bytes.len() >= 3 {
                Some(MidiValue::ControlChange { channel: spec_status_channel(status), controller: bytes[1], value: bytes[2] })
            } else {
                None
            }
        } else if 0xC0 <= status <= 0xCF {
            if bytes.len() >= 2 {
                Some(MidiValue::ProgramChange { channel: spec_status_channel(status), program: bytes[1] })
            } else {
                None
            }
        } else if status == 0xF8 {
            Some(MidiValue::Clock)
        } else if status == 0xFA {
            Some(MidiValue::Start)
        } else if status == 0xFB {
            Some(MidiValue::Continue)
        } else if status == 0xFC {
            Some(MidiValue::Stop)
        } else if status == 0xF0 {
            match spec_find_eox(bytes, 0) {
                Some(end) => Some(MidiValue::SysEx {
                    data: if end - 1 <= 64 { bytes.subrange(1, end) } else { bytes.subrange(1, 65) },
                }),
                None => None,
            }
        } else {
            None
        }
    }
}

/// The status byte of a channel message of kind `base` (0x80, 0x90, ...)
/// on `channel`; channels above 16 spill into the kind bits.
pub open spec fn spec_status(base: u8, channel: u8) -> u8 {
    base | ((channel - 1) as u8)
}

/// True when every channel message names a channel from 1 upwards, so that
/// `channel - 1` does not underflow.
pub open spec fn spec_has_valid_channel(m: MidiValue) -> bool {
    match m {
        MidiValue::NoteOn { channel, .. } => channel >= 1,
        MidiValue::NoteOff { channel, .. } => channel >= 1,
        MidiValue::ControlChange { channel, .. } => channel >= 1,
        MidiValue::ProgramChange { channel, .. } => channel >= 1,
        _ => true,
    }
}

/// The bytes `to_bytes` produces, at most eight: a System Exclusive message
/// keeps its end marker only when its data takes at most six bytes, and
/// longer data is cut to seven bytes.
pub open spec fn spec_to_bytes(m: MidiValue) -> Seq<u8> {
    match m {
        MidiValue::NoteOff { channel, note, velocity } => seq![spec_status(0x80, channel), note, velocity],
        MidiValue::NoteOn { channel, note, velocity } => seq![spec_status(0x90, channel), note, velocity],
        MidiValue::ControlChange { channel, controller, value } => seq![spec_status(0xB0, channel), controller, value],
        MidiValue::ProgramChange { channel, program } => seq![spec_status(0xC0, channel), program],
        MidiValue::Clock => seq![0xF8u8],
        MidiValue::Start => seq![0xFAu8],
        MidiValue::Continue => seq![0xFBu8],
        MidiValue::Stop => seq![0xFCu8],
        MidiValue::SysEx { data } => if data.len() <= 6 {
            seq![0xF0u8] + data + seq![0xF7u8]
        } else {
            seq![0xF0u8] + data.subrange(0, 7)
        },
    }
}

/// The channel of a channel message.
pub open spec fn spec_channel(m: MidiValue) -> Option<u8> {
    match m {
        MidiValue::NoteOn { channel, .. } => Some(channel),
        MidiValue::NoteOff { channel, .. } => Some(channel),
        MidiValue::ControlChange { channel, .. } => Some(channel),
        MidiValue::ProgramChange { channel, .. } => Some(channel),
        _ => None,
    }
}

/// The number of input bytes a parsed message accounts for.
pub open spec fn spec_message_length(m: MidiValue) -> nat {
    match m {
        MidiValue::NoteOn { .. } => 3,
        MidiValue::NoteOff { .. } => 3,
        MidiValue::ControlChange { .. } => 3,
        MidiValue::ProgramChange { .. } => 2,
        MidiValue::SysEx { data } => data.len() + 2,
        _ => 1,
    }
}

proof fn lemma_find_eox<T>(bytes: Seq<u8>, i: int)
    requires
        0 <= i,
    ensures
        spec_find_eox(bytes, i) matches Some(e) ==> i <= e < bytes.len() && bytes[e] == 0xF7u8
            && forall|k: int| i <= k < e ==> bytes[k] != 0xF7u8,
        spec_find_eox(bytes, i) is None ==> forall|k: int| i <= k < bytes.len() ==> bytes[k] != 0xF7u8,
    decreases bytes.len() - i,
{
    if i < bytes.len() && bytes[i] != 0xF7u8 {
        lemma_find_eox::<T>(bytes, i + 1);
    }
}

/// A parsed message never accounts for more bytes than were available, and
/// always for at least one.
pub proof fn lemma_message_length_fits(bytes: Seq<u8>)
    ensures
        spec_from_bytes(bytes) matches Some(m) ==> 1 <= spec_message_length(m) <= bytes.len(),
{
    if bytes.len() > 0 && bytes[0] == 0xF0u8 {
        lemma_find_eox::<u8>(bytes, 0);
    }
}

proof fn lemma_status_bits(status: u8)
    ensures
        status & 0x0F == status % 16,
{
    assert(status & 0x0F == status % 16) by (bit_vector);
}

/// Serialising and parsing back gives the same message, for every channel
/// message on channels 1-16, every real-time message, and every System
/// Exclusive message whose data (at most six bytes) holds no 0xF7.
pub proof fn lemma_to_bytes_round_trip(m: MidiValue)
    requires
        spec_channel(m) matches Some(c) ==> 1 <= c <= 16,
        m matches MidiValue::SysEx { data } ==> data.len() <= 6 && forall|k: int| 0 <= k < data.len() ==> data[k] != 0xF7u8,
    ensures
        spec_from_bytes(spec_to_bytes(m)) == Some(m),
{
    match m {
        MidiValue::NoteOff { channel, .. } => {
            lemma_channel_status(0x80, channel);
        },
        MidiValue::NoteOn { channel, .. } => {
            lemma_channel_status(0x90, channel);
        },
        MidiValue::ControlChange { channel, .. } => {
            lemma_channel_status(0xB0, channel);
        },
        MidiValue::ProgramChange { channel, .. } => {
            lemma_channel_status(0xC0, channel);
        },
        MidiValue::SysEx { data } => {
            let b = spec_to_bytes(m);
            assert(b[0] == 0xF0u8);
            assert forall|k: int| 0 <= k < data.len() + 1 implies b[k] != 0xF7u8 by {
                if k > 0 {
                    assert(b[k] == data[k - 1]);
                }
            }
            lemma_find_eox::<u8>(b, 0);
            let e = data.len() as int + 1;
            assert(b[e] == 0xF7u8);
            assert(spec_find_eox(b, 0) == Some(e)) by {
                lemma_find_eox_first(b, 0, e);
            }
            assert(b.subrange(1, e) =~= data);
        },
        _ => {},
    }
}

/// Parsing and serialising back reproduces the bytes the message was read
/// from, for every message other than System Exclusive.
pub proof fn lemma_from_bytes_round_trip(bytes: Seq<u8>)
    requires
        spec_from_bytes(bytes) matches Some(m) && !(m is SysEx),
    ensures
        spec_from_bytes(bytes) matches Some(m) && spec_to_bytes(m) == bytes.subrange(0, spec_message_length(m) as int),
{
    let status = bytes[0];
    let m = spec_from_bytes(bytes)->0;
    if 0x80 <= status <= 0x8F {
        lemma_status_of_channel(0x80, status);
    } else if 0x90 <= status <= 0x9F {
        lemma_status_of_channel(0x90, status);
    } else if 0xB0 <= status <= 0xBF {
        lemma_status_of_channel(0xB0, status);
    } else if 0xC0 <= status <= 0xCF {
        lemma_status_of_channel(0xC0, status);
    }
    assert(spec_to_bytes(m) =~= bytes.subrange(0, spec_message_length(m) as int));
}

proof fn lemma_status_of_channel(base: u8, status: u8)
    requires
        base == 0x80 || base == 0x90 || base == 0xB0 || base == 0xC0,
        base <= status <= base + 15,
    ensures
        spec_status(base, spec_status_channel(status)) == status,
{
    let c = (status - base) as u8;
    assert(status % 16 == c as int);
    assert((base | c) == base + c) by (bit_vector)
        requires
            base == 0x80 || base == 0x90 || base == 0xB0 || base == 0xC0,
            c < 16;
}

/// The channel filter: in OMNI mode every message passes, system messages
/// (which carry no channel) pass on any setting, and on a set channel a
/// channel message passes exactly when its channel is that one.
pub proof fn lemma_channel_filter(settings: MidiSettings, m: MidiValue)
    ensures
        settings.midi_channel == MidiChannel::Omni ==> spec_accepts(settings, m),
        spec_channel(m) is None ==> spec_accepts(settings, m),
        settings.midi_channel is Channel && spec_channel(m) is Some
            ==> (spec_accepts(settings, m) <==> settings.midi_channel->0 == spec_channel(m)->0),
{
}

/// The input scan keeps every message that the filter cannot refuse: in
/// OMNI mode any message, on any setting a system message.  While fewer
/// than 16 are collected, such a message parsed at the scan position is
/// collected, and the scan goes on right after it.
pub proof fn lemma_scan_keeps_unfiltered(settings: MidiSettings, buf: Seq<u8>, pos: int, out: Seq<MidiValue>, m: MidiValue)
    requires
        0 <= pos < buf.len(),
        out.len() < MAX_MESSAGES_PER_INPUT,
        spec_from_bytes(buf.skip(pos)) == Some(m),
        settings.midi_channel == MidiChannel::Omni || spec_channel(m) is None,
    ensures
        spec_scan(settings, buf, pos, out) == spec_scan(settings, buf, pos + spec_message_length(m), out.push(m)),
{
    lemma_channel_filter(settings, m);
}

/// Every message the input scan collects passes the channel filter, at
/// most 16 are collected, and the scan never stops past the buffer end.
pub proof fn lemma_scan_accepts(settings: MidiSettings, buf: Seq<u8>, pos: int, out: Seq<MidiValue>)
    requires
        0 <= pos,
        out.len() <= MAX_MESSAGES_PER_INPUT,
        forall|i: int| 0 <= i < out.len() ==> spec_accepts(settings, #[trigger] out[i]),
    ensures
        ({
            let (res, stop) = spec_scan(settings, buf, pos, out);
            &&& res.len() <= MAX_MESSAGES_PER_INPUT
            &&& forall|i: int| 0 <= i < res.len() ==> spec_accepts(settings, #[trigger] res[i])
            &&& stop <= if pos < buf.len() { buf.len() as int } else { pos }
            &&& out.len() <= res.len()
        }),
    decreases buf.len() - pos,
{
    if pos < buf.len() {
        lemma_message_length_fits(buf.skip(pos));
        match spec_from_bytes(buf.skip(pos)) {
            Some(m) => {
                if spec_accepts(settings, m) {
                    if out.len() < MAX_MESSAGES_PER_INPUT {
                        lemma_scan_accepts(settings, buf, pos + spec_message_length(m), out.push(m));
                    }
                } else {
                    lemma_scan_accepts(settings, buf, pos + spec_message_length(m), out);
                }
            },
            None => {
                lemma_scan_accepts(settings, buf, pos + 1, out);
            },
        }
    }
}

proof fn lemma_find_eox_first(bytes: Seq<u8>, i: int, e: int)
    requires
        0 <= i <= e < bytes.len(),
        bytes[e] == 0xF7u8,
        forall|k: int| i <= k < e ==> bytes[k] != 0xF7u8,
    ensures
        spec_find_eox(bytes, i) == Some(e),
    decreases e - i,
{
    if i < e {
        lemma_find_eox_first(bytes, i + 1, e);
    }
}

proof fn lemma_channel_status(base: u8, channel: u8)
    requires
        base == 0x80 || base == 0x90 || base == 0xB0 || base == 0xC0,
        1 <= channel <= 16,
    ensures
        base <= spec_status(base, channel) <= base + 15,
        spec_status_channel(spec_status(base, channel)) == channel,
{
    let c = (channel - 1) as u8;
    assert(c < 16);
    assert((base | c) == base + c) by (bit_vector)
        requires
            base == 0x80 || base == 0x90 || base == 0xB0 || base == 0xC0,
            c < 16;
    assert((base + c) % 16 == c as int);
}

/// Parse a message starting at `bytes[start]`.
fn parse_at(bytes: &[u8], start: usize) -> (r: Option<MidiMessage>)
    requires
        start <= bytes@.len(),
    ensures
        r matches Some(m) ==> spec_from_bytes(bytes@.skip(start as int)) == Some(m@),
        r is None ==> spec_from_bytes(bytes@.skip(start as int)) is None,
{
    let ghost rest = bytes@.skip(start as int);
    let len = bytes.len();
    if start >= len {
        return None;
    }
    let status = bytes[start];
    let remaining = len - start;
    proof {
        lemma_status_bits(status);
        assert(rest[0] == status);
    }
    if status >= 0x80 && status <= 0x8F {
        if remaining >= 3 {
            Some(MidiMessage::NoteOff { channel: (status & 0x0F) + 1, note: bytes[start + 1], velocity: bytes[start + 2] })
        } else {
            None
        }
    } else if status >= 0x90 && status <= 0x9F {
        if remaining >= 3 {
            Some(MidiMessage::NoteOn { channel: (status & 0x0F) + 1, note: bytes[start + 1], velocity: bytes[start + 2] })
        } else {
            None
        }
    } else if status >= 0xB0 && status <= 0xBF {
        if remaining >= 3 {
            Some(MidiMessage::ControlChange { channel: (status & 0x0F) + 1, controller: bytes[start + 1], value: bytes[start + 2] })
        } else {
            None
        }
    } else if status >= 0xC0 && status <= 0xCF {
        if remaining >= 2 {
            Some(MidiMessage::ProgramChange { channel: (status & 0x0F) + 1, program: bytes[start + 1] })
        } else {
            None
        }
    } else if status == 0xF8 {
        Some(MidiMessage::Clock)
    } else if status == 0xFA {
        Some(MidiMessage::Start)
    } else if status == 0xFB {
        Some(MidiMessage::Continue)
    } else if status == 0xFC {
        Some(MidiMessage::Stop)
    } else if status == 0xF0 {
        // Find the end of the exclusive message.
        let mut j: usize = start;
        let mut found = false;
        while j < len
            invariant_except_break
                !found,
            invariant
                start <= j <= len,
                len == bytes@.len(),
                rest == bytes@.skip(start as int),
                forall|k: int| start <= k < j ==> bytes@[k] != 0xF7u8,
            ensures
                found ==> j < len && bytes@[j as int] == 0xF7u8,
                !found ==> j == len,
                forall|k: int| start <= k < j ==> bytes@[k] != 0xF7u8,
            decreases len - j,
        {
            if bytes[j] == 0xF7 {
                found = true;
                break;
            }
            j = j + 1;
        }
        proof {
            lemma_find_eox::<u8>(rest, 0);
        }
        if !found {
            proof {
                if let Some(e) = spec_find_eox(rest, 0) {
                    assert(rest[e] == bytes@[start + e]);
                }
            }
            return None;
        }
        proof {
            lemma_find_eox_first(rest, 0, (j - start) as int);
        }
        let mut data = vec64_new();
        let mut k: usize = start + 1;
        while k < j
            invariant
                start < k <= j,
                j < len,
                len == bytes@.len(),
                k - (start + 1) <= 64,
                bytes64(data) == bytes@.subrange(start + 1, k as int),
            ensures
                bytes64(data) == bytes@.subrange(start + 1, k as int),
                k == j || k - (start + 1) == 64,
                k <= j,
            decreases j - k,
        {
            let pushed = vec64_push(&mut data, bytes[k]);
            if pushed.is_err() {
                break;
            }
            proof {
                assert(bytes@.subrange(start + 1, k + 1) =~= bytes@.subrange(start + 1, k as int).push(bytes@[k as int]));
            }
            k = k + 1;
        }
        proof {
            let e = (j - start) as int;
            if e - 1 <= 64 {
                assert(bytes64(data) =~= rest.subrange(1, e));
            } else {
                assert(bytes64(data) =~= rest.subrange(1, 65));
            }
        }
        Some(MidiMessage::SysEx { data })
    } else {
        None
    }
}

impl MidiMessage {
    /// Parse a MIDI message from the front of `bytes`.
    pub fn from_bytes(bytes: &[u8]) -> (r: Option<Self>)
        ensures
            r matches Some(m) ==> spec_from_bytes(bytes@) == Some(m@),
            r is None ==> spec_from_bytes(bytes@) is None,
    {
        proof {
            assert(bytes@.skip(0) =~= bytes@);
        }
        parse_at(bytes, 0)
    }

    /// Serialise the message to bytes.  Channel messages must name a channel
    /// from 1 upwards.
    pub fn to_bytes(&self) -> (r: heapless::Vec<u8, 8>)
        requires
            spec_has_valid_channel(self@),
        ensures
            bytes8(r) == spec_to_bytes(self@),
    {
        let mut bytes = vec8_new();
        match self {
            MidiMessage::NoteOff { channel, note, velocity } => {
                let _ = vec8_push(&mut bytes, 0x80 | (*channel - 1));
                let _ = vec8_push(&mut bytes, *note);
                let _ = vec8_push(&mut bytes, *velocity);
            },
            MidiMessage::NoteOn { channel, note, velocity } => {
                let _ = vec8_push(&mut bytes, 0x90 | (*channel - 1));
                let _ = vec8_push(&mut bytes, *note);
                let _ = vec8_push(&mut bytes, *velocity);
            },
            MidiMessage::ControlChange { channel, controller, value } => {
                let _ = vec8_push(&mut bytes, 0xB0 | (*channel - 1));
                let _ = vec8_push(&mut bytes, *controller);
                let _ = vec8_push(&mut bytes, *value);
            },
            MidiMessage::ProgramChange { channel, program } => {
                let _ = vec8_push(&mut bytes, 0xC0 | (*channel - 1));
                let _ = vec8_push(&mut bytes, *program);
            },
            MidiMessage::Clock => {
                let _ = vec8_push(&mut bytes, 0xF8);
            },
            MidiMessage::Start => {
                let _ = vec8_push(&mut bytes, 0xFA);
            },
            MidiMessage::Continue => {
                let _ = vec8_push(&mut bytes, 0xFB);
            },
            MidiMessage::Stop => {
                let _ = vec8_push(&mut bytes, 0xFC);
            },
            MidiMessage::SysEx { data } => {
                let _ = vec8_push(&mut bytes, 0xF0);
                let src = vec64_as_slice(data);
                let ghost d = bytes64(*data);
                let mut i: usize = 0;
                while i < src.len()
                    invariant
                        0 <= i <= src@.len(),
                        src@ == d,
                        i <= 7,
                        bytes8(bytes) == seq![0xF0u8] + d.subrange(0, i as int),
                    ensures
                        bytes8(bytes) == seq![0xF0u8] + d.subrange(0, i as int),
                        i == d.len() || i == 7,
                    decreases src.len() - i,
                {
                    let pushed = vec8_push(&mut bytes, src[i]);
                    if pushed.is_err() {
                        break;
                    }
                    proof {
                        assert(seq![0xF0u8] + d.subrange(0, i + 1) =~= (seq![0xF0u8] + d.subrange(0, i as int)).push(d[i as int]));
                    }
                    i = i + 1;
                }
                let _ = vec8_push(&mut bytes, 0xF7);
                proof {
                    if d.len() <= 6 {
                        assert(d.subrange(0, d.len() as int) =~= d);
                    }
                }
            },
        }
        bytes
    }

    /// The MIDI channel of this message, for channel messages.
    pub fn channel(&self) -> (r: Option<u8>)
        ensures
            r == spec_channel(self@),
    {
        match self {
            MidiMessage::NoteOn { channel, .. } | MidiMessage::NoteOff { channel, .. } | MidiMessage::ControlChange {
                channel,
                ..
            } | MidiMessage::ProgramChange { channel, .. } => Some(*channel),
            _ => None,
        }
    }
}

/// MIDI settings of the handler.
#[derive(Debug, Clone, Copy, PartialEq, Eq, Structural)]
pub struct MidiSettings {
    pub midi_channel: MidiChannel,
    /// Local control enabled (disable for DAW controller use).
    pub local_control: bool,
    /// Send Program Change messages on memory slot changes.
    pub pc_out: bool,
    /// Enable Control Change transmission and reception.
    pub cc_tx_rx: bool,
    /// MIDI clock sync enabled.
    pub clock_sync: bool,
}

impl Default for MidiSettings {
    fn default() -> (r: Self)
        ensures
            r == (MidiSettings {
                midi_channel: MidiChannel::Channel(1),
                local_control: true,
                pc_out: false,
                cc_tx_rx: true,
                clock_sync: false,
            }),
    {
        MidiSettings {
            midi_channel: MidiChannel::default(),
            local_control: true,
            pc_out: false,
            cc_tx_rx: true,
            clock_sync: false,
        }
    }
}

/// True when a message passes the channel filter: everything in OMNI mode,
/// system messages always, and channel messages on the selected channel.
pub open spec fn spec_accepts(settings: MidiSettings, m: MidiValue) -> bool {
    match (settings.midi_channel, spec_channel(m)) {
        (MidiChannel::Omni, _) => true,
        (MidiChannel::Channel(ch), Some(c)) => ch == c,
        (MidiChannel::Channel(_), None) => true,
    }
}

/// The input buffer after appending `data`: when the buffer is full it is
/// emptied and refilled from the byte that did not fit.
pub open spec fn spec_fill(buf: Seq<u8>, data: Seq<u8>) -> Seq<u8>
    decreases data.len(),
{
    if data.len() == 0 {
        buf
    } else {
        let next = if buf.len() < MIDI_BUFFER_CAPACITY { buf.push(data[0]) } else { seq![data[0]] };
        spec_fill(next, data.drop_first())
    }
}

/// Scanning the input buffer from `pos`: each parsed message advances by its
/// length and is collected when it passes the channel filter; a byte that
/// starts no message is skipped.  Scanning stops at the end of the buffer,
/// or at an accepted message once 16 have been collected (that message stays
/// in the buffer).  Gives the collected messages and the stop position.
pub open spec fn spec_scan(settings: MidiSettings, buf: Seq<u8>, pos: int, out: Seq<MidiValue>) -> (Seq<MidiValue>, int)
    decreases buf.len() - pos,
{
    if pos < 0 || pos >= buf.len() {
        (out, pos)
    } else {
        match spec_from_bytes(buf.skip(pos)) {
            Some(m) => {
                proof {
                    lemma_message_length_fits(buf.skip(pos));
                }
                if spec_accepts(settings, m) {
                    if out.len() < MAX_MESSAGES_PER_INPUT {
                        spec_scan(settings, buf, pos + spec_message_length(m), out.push(m))
                    } else {
                        (out, pos)
                    }
                } else {
                    spec_scan(settings, buf, pos + spec_message_length(m), out)
                }
            },
            None => spec_scan(settings, buf, pos + 1, out),
        }
    }
}

/// The output buffer after sending `bytes`, and whether all of them fitted.
pub open spec fn spec_send(out: Seq<u8>, bytes: Seq<u8>) -> (Seq<u8>, bool) {
    if out.len() + bytes.len() <= MIDI_BUFFER_CAPACITY {
        (out + bytes, true)
    } else {
        (out + bytes.subrange(0, MIDI_BUFFER_CAPACITY - out.len()), false)
    }
}

/// The channel used for output: the selected one, or channel 1 in OMNI mode.
pub open spec fn spec_output_channel(settings: MidiSettings) -> u8 {
    match settings.midi_channel {
        MidiChannel::Channel(ch) => ch,
        MidiChannel::Omni => 1,
    }
}

/// MIDI handler for input/output processing.
#[derive(Debug, Clone, PartialEq)]
pub struct MidiHandler {
    pub settings: MidiSettings,
    /// Input buffer for incoming MIDI bytes.
    pub input_buffer: heapless::Vec<u8, 256>,
    /// Output buffer for outgoing MIDI bytes.
    pub output_buffer: heapless::Vec<u8, 256>,
    /// MIDI clock tempo in whole BPM.
    pub clock_tempo: u32,
    /// MIDI clock pulse counter.
    pub clock_counter: u32,
}

impl MidiHandler {
    /// Create a new MIDI handler.
    pub fn new() -> (r: Self)
        ensures
            r.settings == (MidiSettings {
                midi_channel: MidiChannel::Channel(1),
                local_control: true,
                pc_out: false,
                cc_tx_rx: true,
                clock_sync: false,
            }),
            bytes256(r.input_buffer) == Seq::<u8>::empty(),
            bytes256(r.output_buffer) == Seq::<u8>::empty(),
            r.clock_tempo == 120,
            r.clock_counter == 0,
    {
        MidiHandler {
            settings: MidiSettings::default(),
            input_buffer: vec256_new(),
            output_buffer: vec256_new(),
            clock_tempo: 120,
            clock_counter: 0,
        }
    }

    /// Append incoming MIDI bytes, then parse every complete message from the
    /// buffered bytes.  Returns the messages that pass the channel filter (at
    /// most 16); the bytes scanned are removed from the input buffer.
    pub fn process_input(&mut self, data: &[u8]) -> (r: heapless::Vec<MidiMessage, 16>)
        ensures
            ({
                let buf = spec_fill(bytes256(old(self).input_buffer), data@);
                let (out, pos) = spec_scan(old(self).settings, buf, 0, Seq::empty());
                &&& midi_messages16(r).len() == out.len()
                &&& forall|i: int| 0 <= i < midi_messages16(r).len() ==> (#[trigger] midi_messages16(r)[i])@ == out[i]
                &&& bytes256(final(self).input_buffer) == buf.skip(if pos < buf.len() { pos } else { buf.len() as int })
            }),
            midi_messages16(r).len() <= MAX_MESSAGES_PER_INPUT,
            *final(self) == (MidiHandler { input_buffer: final(self).input_buffer, ..*old(self) }),
    {
        let ghost b0 = bytes256(self.input_buffer);
        let mut i: usize = 0;
        proof {
            assert(data@.skip(0) =~= data@);
        }
        while i < data.len()
            invariant
                0 <= i <= data@.len(),
                spec_fill(b0, data@) == spec_fill(bytes256(self.input_buffer), data@.skip(i as int)),
                b0 == bytes256(old(self).input_buffer),
                self.settings == old(self).settings,
                self.output_buffer == old(self).output_buffer,
                self.clock_tempo == old(self).clock_tempo,
                self.clock_counter == old(self).clock_counter,
            ensures
                spec_fill(b0, data@) == bytes256(self.input_buffer),
            decreases data.len() - i,
        {
            let byte = data[i];
            let ghost cur = bytes256(self.input_buffer);
            proof {
                assert(data@.skip(i as int).drop_first() =~= data@.skip(i + 1));
            }
            if vec256_push(&mut self.input_buffer, byte).is_err() {
                vec256_clear(&mut self.input_buffer);
                let _ = vec256_push(&mut self.input_buffer, byte);
                proof {
                    assert(Seq::<u8>::empty().push(byte) =~= seq![byte]);
                }
            }
            i = i + 1;
        }
        let ghost buf = bytes256(self.input_buffer);
        let mut messages = midi16_new();
        let mut parse_pos: usize = 0;
        proof {
            assert(midi_messages16(messages).map_values(|m: MidiMessage| m@) =~= Seq::<MidiValue>::empty());
        }
        let buf_len = vec256_as_slice(&self.input_buffer).len();
        while parse_pos < buf_len
            invariant
                buf == bytes256(self.input_buffer),
                self.settings == old(self).settings,
                self.output_buffer == old(self).output_buffer,
                self.clock_tempo == old(self).clock_tempo,
                self.clock_counter == old(self).clock_counter,
                buf_len == buf.len(),
                buf_len <= 256,
                parse_pos <= buf_len,
                midi_messages16(messages).len() <= MAX_MESSAGES_PER_INPUT,
                spec_scan(self.settings, buf, 0, Seq::empty())
                    == spec_scan(self.settings, buf, parse_pos as int, midi_messages16(messages).map_values(|m: MidiMessage| m@)),
            ensures
                spec_scan(self.settings, buf, 0, Seq::empty())
                    == (midi_messages16(messages).map_values(|m: MidiMessage| m@), parse_pos as int),
                parse_pos <= buf_len,
                midi_messages16(messages).len() <= MAX_MESSAGES_PER_INPUT,
            decreases buf_len - parse_pos,
        {
            let slice = vec256_as_slice(&self.input_buffer);
            match parse_at(slice, parse_pos) {
                Some(message) => {
                    let message_length = Self::message_length(&message);
                    proof {
                        lemma_message_length_fits(buf.skip(parse_pos as int));
                    }
                    if self.should_process_message(&message) {
                        let ghost before = midi_messages16(messages);
                        let ghost mv = message@;
                        match midi16_push(&mut messages, message) {
                            Ok(()) => {
                                proof {
                                    assert(midi_messages16(messages).map_values(|m: MidiMessage| m@)
                                        =~= before.map_values(|m: MidiMessage| m@).push(mv));
                                }
                            },
                            Err(_) => {
                                break;
                            },
                        }
                    }
                    parse_pos = parse_pos + message_length;
                },
                None => {
                    parse_pos = parse_pos + 1;
                },
            }
        }
        if parse_pos > 0 {
            let end_pos = if parse_pos < buf_len { parse_pos } else { buf_len };
            let mut removed: usize = 0;
            while removed < end_pos
                invariant
                    removed <= end_pos,
                    end_pos <= buf.len(),
                    bytes256(self.input_buffer) == buf.skip(removed as int),
                    self.settings == old(self).settings,
                    self.output_buffer == old(self).output_buffer,
                    self.clock_tempo == old(self).clock_tempo,
                    self.clock_counter == old(self).clock_counter,
                decreases end_pos - removed,
            {
                let _ = vec256_remove(&mut self.input_buffer, 0);
                proof {
                    assert(buf.skip(removed as int).remove(0) =~= buf.skip(removed + 1));
                }
                removed = removed + 1;
            }
        } else {
            proof {
                assert(buf.skip(0) =~= buf);
            }
        }
        proof {
            let out = midi_messages16(messages).map_values(|m: MidiMessage| m@);
            assert forall|i: int| 0 <= i < midi_messages16(messages).len() implies (#[trigger] midi_messages16(messages)[i])@ == out[i] by {}
        }
        messages
    }

    /// The byte length of a MIDI message.
    fn message_length(message: &MidiMessage) -> (r: usize)
        ensures
            r == spec_message_length(message@),
    {
        match message {
            MidiMessage::NoteOn { .. } | MidiMessage::NoteOff { .. } | MidiMessage::ControlChange { .. } => 3,
            MidiMessage::ProgramChange { .. } => 2,
            MidiMessage::Clock | MidiMessage::Start | MidiMessage::Stop | MidiMessage::Continue => 1,
            MidiMessage::SysEx { data } => vec64_as_slice(data).len() + 2,
        }
    }

    /// Whether a message passes the channel filter.
    fn should_process_message(&self, message: &MidiMessage) -> (r: bool)
        ensures
            r == spec_accepts(self.settings, message@),
    {
        match (self.settings.midi_channel, message.channel()) {
            (MidiChannel::Omni, _) => true,
            (MidiChannel::Channel(ch), Some(msg_ch)) => ch == msg_ch,
            (MidiChannel::Channel(_), None) => true,
        }
    }

    /// Queue a MIDI message for output.  Nothing is queued while local
    /// control is off.  When the output buffer cannot take every byte, the
    /// bytes that fit are queued and `Err` is returned.
    pub fn send_message(&mut self, message: MidiMessage) -> (r: Result<(), ()>)
        requires
            old(self).settings.local_control ==> spec_has_valid_channel(message@),
        ensures
            !old(self).settings.local_control ==> r is Ok && *final(self) == *old(self),
            old(self).settings.local_control ==> {
                let (out, fits) = spec_send(bytes256(old(self).output_buffer), spec_to_bytes(message@));
                &&& bytes256(final(self).output_buffer) == out
                &&& (r is Ok <==> fits)
            },
            *final(self) == (MidiHandler { output_buffer: final(self).output_buffer, ..*old(self) }),
    {
        if !self.settings.local_control {
            return Ok(());
        }
        let bytes = message.to_bytes();
        let src = crate::bounded::vec8_as_slice(&bytes);
        let ghost b = spec_to_bytes(message@);
        let ghost o = bytes256(self.output_buffer);
        let _ = vec256_as_slice(&self.output_buffer);
        let mut i: usize = 0;
        while i < src.len()
            invariant
                0 <= i <= src@.len(),
                src@ == b,
                b == spec_to_bytes(message@),
                o.len() <= 256,
                o.len() + i <= 256,
                bytes256(self.output_buffer) == o + b.subrange(0, i as int),
                self.settings == old(self).settings,
                self.settings.local_control,
                self.input_buffer == old(self).input_buffer,
                self.clock_tempo == old(self).clock_tempo,
                self.clock_counter == old(self).clock_counter,
                o == bytes256(old(self).output_buffer),
            decreases src.len() - i,
        {
            if vec256_push(&mut self.output_buffer, src[i]).is_err() {
                proof {
                    assert(o.len() + i == 256);
                    assert(o.len() + b.len() > 256);
                    assert(bytes256(self.output_buffer) == o + b.subrange(0, (256 - o.len()) as int));
                    assert(spec_send(o, b) == (o + b.subrange(0, (256 - o.len()) as int), false));
                }
                return Err(());
            }
            proof {
                assert(o + b.subrange(0, i + 1) =~= (o + b.subrange(0, i as int)).push(b[i as int]));
            }
            i = i + 1;
        }
        proof {
            assert(b.subrange(0, b.len() as int) =~= b);
        }
        Ok(())
    }

    /// Send a Program Change for a memory slot (memory 1 = program 0), when
    /// Program Change output is enabled.
    pub fn send_program_change(&mut self, memory_slot: u8) -> (r: Result<(), ()>)
        requires
            old(self).settings.pc_out && old(self).settings.local_control
                ==> old(self).settings.midi_channel != MidiChannel::Channel(0),
        ensures
            !old(self).settings.pc_out ==> r is Ok && *final(self) == *old(self),
            old(self).settings.pc_out && !old(self).settings.local_control ==> r is Ok && *final(self) == *old(self),
            old(self).settings.pc_out && old(self).settings.local_control ==> {
                let m = MidiValue::ProgramChange {
                    channel: spec_output_channel(old(self).settings),
                    program: if memory_slot >= 1 { (memory_slot - 1) as u8 } else { 0 },
                };
                let (out, fits) = spec_send(bytes256(old(self).output_buffer), spec_to_bytes(m));
                &&& bytes256(final(self).output_buffer) == out
                &&& (r is Ok <==> fits)
            },
            *final(self) == (MidiHandler { output_buffer: final(self).output_buffer, ..*old(self) }),
    {
        if !self.settings.pc_out {
            return Ok(());
        }
        let channel = match self.settings.midi_channel {
            MidiChannel::Channel(ch) => ch,
            MidiChannel::Omni => 1,
        };
        let message = MidiMessage::ProgramChange { channel, program: memory_slot.saturating_sub(1) };
        self.send_message(message)
    }

    /// Send a Control Change, when Control Change transmission is enabled.
    pub fn send_control_change(&mut self, controller: u8, value: u8) -> (r: Result<(), ()>)
        requires
            old(self).settings.cc_tx_rx && old(self).settings.local_control
                ==> old(self).settings.midi_channel != MidiChannel::Channel(0),
        ensures
            !old(self).settings.cc_tx_rx ==> r is Ok && *final(self) == *old(self),
            old(self).settings.cc_tx_rx && !old(self).settings.local_control ==> r is Ok && *final(self) == *old(self),
            old(self).settings.cc_tx_rx && old(self).settings.local_control ==> {
                let m = MidiValue::ControlChange { channel: spec_output_channel(old(self).settings), controller, value };
                let (out, fits) = spec_send(bytes256(old(self).output_buffer), spec_to_bytes(m));
                &&& bytes256(final(self).output_buffer) == out
                &&& (r is Ok <==> fits)
            },
            *final(self) == (MidiHandler { output_buffer: final(self).output_buffer, ..*old(self) }),
    {
        if !self.settings.cc_tx_rx {
            return Ok(());
        }
        let channel = match self.settings.midi_channel {
            MidiChannel::Channel(ch) => ch,
            MidiChannel::Omni => 1,
        };
        let message = MidiMessage::ControlChange { channel, controller, value };
        self.send_message(message)
    }

    /// Count one MIDI clock pulse (24 per quarter note).
    pub fn process_clock(&mut self)
        requires
            old(self).clock_counter < u32::MAX,
        ensures
            *final(self) == (MidiHandler { clock_counter: (old(self).clock_counter + 1) as u32, ..*old(self) }),
    {
        self.clock_counter = self.clock_counter + 1;
    }

    /// The bytes waiting to be sent.
    pub fn get_output_data(&mut self) -> (r: &[u8])
        ensures
            r@ == bytes256(old(self).output_buffer),
            *final(self) == *old(self),
    {
        vec256_as_slice(&self.output_buffer)
    }

    /// Clear the output buffer after sending.
    pub fn clear_output_buffer(&mut self)
        ensures
            bytes256(final(self).output_buffer) == Seq::<u8>::empty(),
            *final(self) == (MidiHandler { output_buffer: final(self).output_buffer, ..*old(self) }),
    {
        vec256_clear(&mut self.output_buffer);
    }

    /// Replace the MIDI settings.
    pub fn set_settings(&mut self, settings: MidiSettings)
        ensures
            *final(self) == (MidiHandler { settings, ..*old(self) }),
    {
        self.settings = settings;
    }

    /// The current MIDI settings.
    pub fn get_settings(&self) -> (r: &MidiSettings)
        ensures
            *r == self.settings,
    {
        &self.settings
    }
}

impl Default for MidiHandler {
    fn default() -> (r: Self)
        ensures
            r.settings == (MidiSettings {
                midi_channel: MidiChannel::Channel(1),
                local_control: true,
                pc_out: false,
                cc_tx_rx: true,
                clock_sync: false,
            }),
            bytes256(r.input_buffer) == Seq::<u8>::empty(),
            bytes256(r.output_buffer) == Seq::<u8>::empty(),
            r.clock_tempo == 120,
            r.clock_counter == 0,
    {
        Self::new()
    }
}

} // verus!
