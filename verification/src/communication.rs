//! The link to the display module: newline-framed messages over a UART.
//!
//! The manager collects received bytes into frames, numbers outgoing
//! messages, frames outgoing bytes, and keeps the heartbeat and health
//! bookkeeping.  Turning a frame into a command, and a response into bytes,
//! is the message format's business and happens outside this module.

use vstd::prelude::*;
use vstd::string::StringSliceAdditionalSpecFns;
use crate::bounded::{bytes512, vec512_new, vec512_push, vec512_as_slice, vec512_clear};
use crate::hal::{HalError, TrackStateComm};

verus! {

/// Messages are separated by a newline.
pub const FRAME_DELIMITER: u8 = 10;

/// Capacity of the receive and transmit buffers.
pub const FRAME_CAPACITY: usize = 512;

/// Default heartbeat interval in ms.
pub const HEARTBEAT_INTERVAL_MS: u32 = 5000;

/// The link counts as healthy while the last traffic is younger than this (ms).
pub const HEALTH_TIMEOUT_MS: u32 = 10000;

/// Track state enumeration of the message format.
#[derive(Debug, Clone, Copy, PartialEq, Eq, Structural)]
pub enum TrackStateEnum {
    Stopped,
    Recording,
    Playing,
    Overdubbing,
    Muted,
}

/// The message-format state of each track state.
pub open spec fn spec_track_state_enum(s: TrackStateComm) -> TrackStateEnum {
    match s {
        TrackStateComm::Stopped => TrackStateEnum::Stopped,
        TrackStateComm::Recording => TrackStateEnum::Recording,
        TrackStateComm::Playing => TrackStateEnum::Playing,
        TrackStateComm::Overdubbing => TrackStateEnum::Overdubbing,
        TrackStateComm::Muted => TrackStateEnum::Muted,
    }
}

/// Convert a track state to its message-format name.
pub fn track_state_enum(s: TrackStateComm) -> (r: TrackStateEnum)
    ensures
        r == spec_track_state_enum(s),
{
    match s {
        TrackStateComm::Stopped => TrackStateEnum::Stopped,
        TrackStateComm::Recording => TrackStateEnum::Recording,
        TrackStateComm::Playing => TrackStateEnum::Playing,
        TrackStateComm::Overdubbing => TrackStateEnum::Overdubbing,
        TrackStateComm::Muted => TrackStateEnum::Muted,
    }
}

/// What receiving one byte did.
#[derive(Debug, Clone, Copy, PartialEq, Eq, Structural)]
pub enum RxStep {
    /// The byte was stored; the frame is not complete yet.
    Pending,
    /// The byte was a newline: the receive buffer holds a complete frame.
    FrameReady,
    /// The buffer was full: it was emptied and an error counted.
    Overflow,
}

/// `a - b`, or 0 when `b` is later than `a`.
pub open spec fn spec_since(a: u32, b: u32) -> u32 {
    if a >= b { (a - b) as u32 } else { 0 }
}

/// Communication manager for the display-module UART.
pub struct Esp32CommunicationManager {
    /// Message buffer for incoming data.
    pub rx_buffer: heapless::Vec<u8, 512>,
    /// Message buffer for outgoing data.
    pub tx_buffer: heapless::Vec<u8, 512>,
    /// Last message ID received.
    pub last_message_id: u32,
    /// Message ID counter for outgoing messages.
    pub message_id_counter: u32,
    /// Last communication timestamp.
    pub last_communication: u32,
    /// Communication error count.
    pub error_count: u32,
    /// Interface enabled flag.
    pub enabled: bool,
    /// Heartbeat interval in milliseconds.
    pub heartbeat_interval: u32,
    /// Last heartbeat sent timestamp.
    pub last_heartbeat_sent: u32,
}

impl Esp32CommunicationManager {
    /// An enabled manager with empty buffers, zero counters and a five
    /// second heartbeat.
    pub fn new() -> (r: Self)
        ensures
            bytes512(r.rx_buffer) == Seq::<u8>::empty(),
            bytes512(r.tx_buffer) == Seq::<u8>::empty(),
            r.last_message_id == 0 && r.message_id_counter == 0,
            r.last_communication == 0 && r.error_count == 0,
            r.enabled,
            r.heartbeat_interval == HEARTBEAT_INTERVAL_MS,
            r.last_heartbeat_sent == 0,
    {
        Esp32CommunicationManager {
            rx_buffer: vec512_new(),
            tx_buffer: vec512_new(),
            last_message_id: 0,
            message_id_counter: 0,
            last_communication: 0,
            error_count: 0,
            enabled: true,
            heartbeat_interval: HEARTBEAT_INTERVAL_MS,
            last_heartbeat_sent: 0,
        }
    }

    /// Receive one byte.  It is appended to the frame; a newline completes
    /// the frame.  When the buffer is already full the byte is lost, the
    /// buffer is emptied and the error counted.
    pub fn receive_byte(&mut self, byte: u8) -> (r: RxStep)
        requires
            bytes512(old(self).rx_buffer).len() >= FRAME_CAPACITY ==> old(self).error_count < u32::MAX,
        ensures
            bytes512(old(self).rx_buffer).len() < FRAME_CAPACITY ==> {
                &&& bytes512(final(self).rx_buffer) == bytes512(old(self).rx_buffer).push(byte)
                &&& final(self).error_count == old(self).error_count
                &&& r == if byte == FRAME_DELIMITER { RxStep::FrameReady } else { RxStep::Pending }
            },
            bytes512(old(self).rx_buffer).len() >= FRAME_CAPACITY ==> {
                &&& bytes512(final(self).rx_buffer) == Seq::<u8>::empty()
                &&& final(self).error_count == old(self).error_count + 1
                &&& r == RxStep::Overflow
            },
            *final(self) == (Esp32CommunicationManager {
                rx_buffer: final(self).rx_buffer,
                error_count: final(self).error_count,
                ..*old(self)
            }),
    {
        match vec512_push(&mut self.rx_buffer, byte) {
            Ok(()) => {
                if byte == FRAME_DELIMITER {
                    RxStep::FrameReady
                } else {
                    RxStep::Pending
                }
            },
            Err(_) => {
                vec512_clear(&mut self.rx_buffer);
                self.error_count = self.error_count + 1;
                RxStep::Overflow
            },
        }
    }

    /// Receive one byte as `receive_byte` does, unless the buffer is full
    /// and the error count is already at its largest value, where counting
    /// the overflow is impossible: then nothing changes and `None` is
    /// returned.
    pub fn receive_byte_checked(&mut self, byte: u8) -> (r: Option<RxStep>)
        ensures
            bytes512(old(self).rx_buffer).len() >= FRAME_CAPACITY && old(self).error_count == u32::MAX
                ==> r is None && *final(self) == *old(self),
            !(bytes512(old(self).rx_buffer).len() >= FRAME_CAPACITY && old(self).error_count == u32::MAX) ==> {
                &&& bytes512(old(self).rx_buffer).len() < FRAME_CAPACITY ==> {
                    &&& bytes512(final(self).rx_buffer) == bytes512(old(self).rx_buffer).push(byte)
                    &&& final(self).error_count == old(self).error_count
                    &&& r == Some(if byte == FRAME_DELIMITER { RxStep::FrameReady } else { RxStep::Pending })
                }
                &&& bytes512(old(self).rx_buffer).len() >= FRAME_CAPACITY ==> {
                    &&& bytes512(final(self).rx_buffer) == Seq::<u8>::empty()
                    &&& final(self).error_count == old(self).error_count + 1
                    &&& r == Some(RxStep::Overflow)
                }
                &&& *final(self) == (Esp32CommunicationManager {
                    rx_buffer: final(self).rx_buffer,
                    error_count: final(self).error_count,
                    ..*old(self)
                })
            },
    {
        if vec512_as_slice(&self.rx_buffer).len() >= FRAME_CAPACITY && self.error_count == u32::MAX {
            return None;
        }
        Some(self.receive_byte(byte))
    }

    /// The bytes received so far for the current frame.
    pub fn rx_frame(&self) -> (r: &[u8])
        ensures
            r@ == bytes512(self.rx_buffer),
    {
        vec512_as_slice(&self.rx_buffer)
    }

    /// Drop the current frame once it has been handled.
    pub fn clear_rx(&mut self)
        ensures
            bytes512(final(self).rx_buffer) == Seq::<u8>::empty(),
            *final(self) == (Esp32CommunicationManager { rx_buffer: final(self).rx_buffer, ..*old(self) }),
    {
        vec512_clear(&mut self.rx_buffer);
    }

    /// Remember the ID of a received message.
    pub fn record_message_id(&mut self, id: u32)
        ensures
            *final(self) == (Esp32CommunicationManager { last_message_id: id, ..*old(self) }),
    {
        self.last_message_id = id;
    }

    /// Remember when data was last received.
    pub fn record_communication(&mut self, timestamp: u32)
        ensures
            *final(self) == (Esp32CommunicationManager { last_communication: timestamp, ..*old(self) }),
    {
        self.last_communication = timestamp;
    }

    /// The ID of the next outgoing message: IDs count up from 1.
    pub fn next_message_id(&mut self) -> (r: u32)
        requires
            old(self).message_id_counter < u32::MAX,
        ensures
            r == old(self).message_id_counter + 1,
            *final(self) == (Esp32CommunicationManager { message_id_counter: r, ..*old(self) }),
    {
        self.message_id_counter = self.message_id_counter + 1;
        self.message_id_counter
    }

    /// Frame an encoded message for sending: its bytes followed by a
    /// newline, which must fit in 512 bytes.
    pub fn frame_output(encoded: &[u8]) -> (r: Result<heapless::Vec<u8, 512>, HalError>)
        ensures
            encoded@.len() < FRAME_CAPACITY ==> (r matches Ok(v) && bytes512(v) == encoded@.push(FRAME_DELIMITER)),
            encoded@.len() >= FRAME_CAPACITY ==> r == Err::<heapless::Vec<u8, 512>, HalError>(HalError::BufferFull),
    {
        if encoded.len() >= FRAME_CAPACITY {
            return Err(HalError::BufferFull);
        }
        let mut output = vec512_new();
        let mut i: usize = 0;
        while i < encoded.len()
            invariant
                i <= encoded@.len() < FRAME_CAPACITY,
                bytes512(output) == encoded@.take(i as int),
            decreases encoded@.len() - i,
        {
            let _ = vec512_push(&mut output, encoded[i]);
            proof {
                assert(encoded@.take(i + 1) =~= encoded@.take(i as int).push(encoded@[i as int]));
            }
            i = i + 1;
        }
        let _ = vec512_push(&mut output, FRAME_DELIMITER);
        proof {
            assert(encoded@.take(i as int) =~= encoded@);
        }
        Ok(output)
    }

    /// Whether a heartbeat is due at `timestamp`.
    pub fn should_send_heartbeat(&self, timestamp: u32) -> (r: bool)
        ensures
            r == (spec_since(timestamp, self.last_heartbeat_sent) >= self.heartbeat_interval),
    {
        timestamp.saturating_sub(self.last_heartbeat_sent) >= self.heartbeat_interval
    }

    /// Record that a heartbeat was sent at `timestamp`.
    pub fn update_heartbeat_sent(&mut self, timestamp: u32)
        ensures
            *final(self) == (Esp32CommunicationManager { last_heartbeat_sent: timestamp, ..*old(self) }),
    {
        self.last_heartbeat_sent = timestamp;
    }

    /// Communication statistics: error count, last communication, enabled.
    pub fn get_stats(&self) -> (r: (u32, u32, bool))
        ensures
            r == (self.error_count, self.last_communication, self.enabled),
    {
        (self.error_count, self.last_communication, self.enabled)
    }

    /// Reset the error count.
    pub fn reset_error_count(&mut self)
        ensures
            *final(self) == (Esp32CommunicationManager { error_count: 0, ..*old(self) }),
    {
        self.error_count = 0;
    }

    /// Enable or disable communication.
    pub fn set_enabled(&mut self, enabled: bool)
        ensures
            *final(self) == (Esp32CommunicationManager { enabled, ..*old(self) }),
    {
        self.enabled = enabled;
    }

    /// The link is healthy while enabled and heard from in the last ten
    /// seconds.
    pub fn is_communication_healthy(&self, timestamp: u32) -> (r: bool)
        ensures
            r == (self.enabled && spec_since(timestamp, self.last_communication) < HEALTH_TIMEOUT_MS),
    {
        self.enabled && timestamp.saturating_sub(self.last_communication) < HEALTH_TIMEOUT_MS
    }
}

impl Default for Esp32CommunicationManager {
    fn default() -> (r: Self)
        ensures
            bytes512(r.rx_buffer) == Seq::<u8>::empty(),
            r.error_count == 0,
            r.enabled,
            r.heartbeat_interval == HEARTBEAT_INTERVAL_MS,
    {
        Self::new()
    }
}

/// A heartbeat is due again exactly one interval after it was sent, and is
/// not due before.
pub proof fn lemma_heartbeat_period(sent: u32, interval: u32, t: u32)
    requires
        sent <= t,
    ensures
        spec_since(t, sent) >= interval <==> t - sent >= interval,
        spec_since(sent, sent) >= interval <==> interval == 0,
{
}

/// How a track volume is written in a status message: full (1.0 or more),
/// silent (0.0 or less) or anything between.
#[derive(Debug, Clone, Copy, PartialEq, Eq, Structural)]
pub enum VolumeLevel {
    Silent,
    Partial,
    Full,
}

/// A message to the display module, as far as its text depends on it.
#[derive(Debug, Clone, Copy, PartialEq, Eq)]
pub enum DisplayMessage {
    /// Periodic status: each track's state and volume.
    StatusUpdate { states: [TrackStateComm; 6], volumes: [VolumeLevel; 6] },
    /// Reply to a command.
    Response { success: bool },
    /// Keep-alive.
    Heartbeat,
    /// Any other message (parameter changes, commands).
    Other,
}

/// The digit of each track state.
pub open spec fn spec_state_digit(s: TrackStateComm) -> Seq<u8> {
    match s {
        TrackStateComm::Stopped => "0".spec_bytes(),
        TrackStateComm::Recording => "1".spec_bytes(),
        TrackStateComm::Playing => "2".spec_bytes(),
        TrackStateComm::Overdubbing => "3".spec_bytes(),
        TrackStateComm::Muted => "4".spec_bytes(),
    }
}

/// The text of each volume level.
pub open spec fn spec_volume_text(v: VolumeLevel) -> Seq<u8> {
    match v {
        VolumeLevel::Full => "1.0".spec_bytes(),
        VolumeLevel::Silent => "0.0".spec_bytes(),
        VolumeLevel::Partial => "0.5".spec_bytes(),
    }
}

/// One track object: `{"state":S,"volume":V}`.
pub open spec fn spec_track_json(s: TrackStateComm, v: VolumeLevel) -> Seq<u8> {
    "{\"state\":".spec_bytes() + spec_state_digit(s) + ",\"volume\":".spec_bytes() + spec_volume_text(v)
        + "}".spec_bytes()
}

/// The first `n` track objects, separated by commas.
pub open spec fn spec_tracks_json(states: Seq<TrackStateComm>, volumes: Seq<VolumeLevel>, n: int) -> Seq<u8>
    decreases n,
{
    if n <= 0 {
        Seq::empty()
    } else if n == 1 {
        spec_track_json(states[0], volumes[0])
    } else {
        spec_tracks_json(states, volumes, n - 1) + ",".spec_bytes() + spec_track_json(states[n - 1], volumes[n - 1])
    }
}

/// The JSON text of a display message.
pub open spec fn spec_display_json(m: DisplayMessage) -> Seq<u8> {
    match m {
        DisplayMessage::StatusUpdate { states, volumes } =>
            "{\"type\":\"status\",\"tracks\":[".spec_bytes() + spec_tracks_json(states@, volumes@, 6)
                + "],\"tempo\":".spec_bytes() + "120.0".spec_bytes() + "}".spec_bytes(),
        DisplayMessage::Heartbeat => "{\"type\":\"heartbeat\"}".spec_bytes(),
        DisplayMessage::Response { success } =>
            "{\"type\":\"response\",\"success\":".spec_bytes() + (if success { "true".spec_bytes() } else { "false".spec_bytes() })
                + "}".spec_bytes(),
        DisplayMessage::Other => "{\"type\":\"unknown\"}".spec_bytes(),
    }
}

fn push_text(out: &mut Vec<u8>, text: &str)
    ensures
        final(out)@ == old(out)@ + text.spec_bytes(),
{
    let bytes = text.as_bytes();
    let mut i: usize = 0;
    while i < bytes.len()
        invariant
            i <= bytes@.len(),
            bytes@ == text.spec_bytes(),
            out@ == old(out)@ + bytes@.take(i as int),
        decreases bytes@.len() - i,
    {
        out.push(bytes[i]);
        proof {
            assert(bytes@.take(i + 1) =~= bytes@.take(i as int).push(bytes@[i as int]));
        }
        i = i + 1;
    }
    proof {
        assert(bytes@.take(i as int) =~= bytes@);
    }
}

fn state_digit(s: TrackStateComm) -> (r: &'static str)
    ensures
        r.spec_bytes() == spec_state_digit(s),
{
    match s {
        TrackStateComm::Stopped => "0",
        TrackStateComm::Recording => "1",
        TrackStateComm::Playing => "2",
        TrackStateComm::Overdubbing => "3",
        TrackStateComm::Muted => "4",
    }
}

fn volume_text(v: VolumeLevel) -> (r: &'static str)
    ensures
        r.spec_bytes() == spec_volume_text(v),
{
    match v {
        VolumeLevel::Full => "1.0",
        VolumeLevel::Silent => "0.0",
        VolumeLevel::Partial => "0.5",
    }
}

/// Encode a display message as JSON text.
pub fn encode_display_message(m: &DisplayMessage) -> (r: Vec<u8>)
    ensures
        r@ == spec_display_json(*m),
{
    let mut out: Vec<u8> = Vec::new();
    match m {
        DisplayMessage::StatusUpdate { states, volumes } => {
            push_text(&mut out, "{\"type\":\"status\",\"tracks\":[");
            let ghost prefix = out@;
            let mut i: usize = 0;
            while i < 6
                invariant
                    i <= 6,
                    out@ == prefix + spec_tracks_json(states@, volumes@, i as int),
                decreases 6 - i,
            {
                if i > 0 {
                    push_text(&mut out, ",");
                }
                push_text(&mut out, "{\"state\":");
                push_text(&mut out, state_digit(states[i]));
                push_text(&mut out, ",\"volume\":");
                push_text(&mut out, volume_text(volumes[i]));
                push_text(&mut out, "}");
                proof {
                    let t = spec_track_json(states@[i as int], volumes@[i as int]);
                    if i == 0 {
                        assert(spec_tracks_json(states@, volumes@, 1) == t);
                        assert(out@ =~= prefix + t);
                    } else {
                        assert(out@ =~= prefix + spec_tracks_json(states@, volumes@, i as int) + ",".spec_bytes() + t);
                    }
                }
                i = i + 1;
            }
            push_text(&mut out, "],\"tempo\":");
            push_text(&mut out, "120.0");
            push_text(&mut out, "}");
            proof {
                assert(out@ =~= spec_display_json(*m));
            }
        },
        DisplayMessage::Heartbeat => {
            push_text(&mut out, "{\"type\":\"heartbeat\"}");
            proof {
                assert(out@ =~= spec_display_json(*m));
            }
        },
        DisplayMessage::Response { success } => {
            push_text(&mut out, "{\"type\":\"response\",\"success\":");
            if *success {
                push_text(&mut out, "true");
            } else {
                push_text(&mut out, "false");
            }
            push_text(&mut out, "}");
            proof {
                assert(out@ =~= spec_display_json(*m));
            }
        },
        DisplayMessage::Other => {
            push_text(&mut out, "{\"type\":\"unknown\"}");
            proof {
                assert(out@ =~= spec_display_json(*m));
            }
        },
    }
    out
}

/// A response's text carries its success flag: responses with different
/// flags never encode alike, and the text of a success is exactly
/// `{"type":"response","success":true}`, which no failure produces.
pub proof fn lemma_response_carries_success(a: bool, b: bool)
    ensures
        a != b ==> spec_display_json(DisplayMessage::Response { success: a })
            != spec_display_json(DisplayMessage::Response { success: b }),
        spec_display_json(DisplayMessage::Response { success: a })
            == "{\"type\":\"response\",\"success\":true}".spec_bytes() <==> a,
{
    reveal_strlit("{\"type\":\"response\",\"success\":");
    reveal_strlit("true");
    reveal_strlit("false");
    reveal_strlit("}");
    reveal_strlit("{\"type\":\"response\",\"success\":true}");
    vstd::string::is_ascii_spec_bytes("{\"type\":\"response\",\"success\":");
    vstd::string::is_ascii_spec_bytes("true");
    vstd::string::is_ascii_spec_bytes("false");
    vstd::string::is_ascii_spec_bytes("}");
    vstd::string::is_ascii_spec_bytes("{\"type\":\"response\",\"success\":true}");
    let head = "{\"type\":\"response\",\"success\":".spec_bytes();
    let t = "true".spec_bytes();
    let f = "false".spec_bytes();
    let close = "}".spec_bytes();
    let full = "{\"type\":\"response\",\"success\":true}".spec_bytes();
    assert(t.len() == 4);
    assert(f.len() == 5);
    assert((head + t + close).len() != (head + f + close).len());
    assert(full =~= head + t + close);
}

/// Heartbeats, responses and unknown messages are told apart by their
/// text: two different such messages never encode alike.
pub proof fn lemma_display_kinds_distinct(m1: DisplayMessage, m2: DisplayMessage)
    requires
        !(m1 is StatusUpdate),
        !(m2 is StatusUpdate),
        m1 != m2,
    ensures
        spec_display_json(m1) != spec_display_json(m2),
{
    reveal_strlit("{\"type\":\"response\",\"success\":");
    reveal_strlit("true");
    reveal_strlit("false");
    reveal_strlit("}");
    reveal_strlit("{\"type\":\"heartbeat\"}");
    reveal_strlit("{\"type\":\"unknown\"}");
    vstd::string::is_ascii_spec_bytes("{\"type\":\"response\",\"success\":");
    vstd::string::is_ascii_spec_bytes("true");
    vstd::string::is_ascii_spec_bytes("false");
    vstd::string::is_ascii_spec_bytes("}");
    vstd::string::is_ascii_spec_bytes("{\"type\":\"heartbeat\"}");
    vstd::string::is_ascii_spec_bytes("{\"type\":\"unknown\"}");
    assert("{\"type\":\"response\",\"success\":".spec_bytes().len() == 29);
    assert("true".spec_bytes().len() == 4);
    assert("false".spec_bytes().len() == 5);
    assert("}".spec_bytes().len() == 1);
    assert("{\"type\":\"heartbeat\"}".spec_bytes().len() == 20);
    assert("{\"type\":\"unknown\"}".spec_bytes().len() == 18);
    assert(spec_display_json(m1).len() != spec_display_json(m2).len()) by {
        match m1 {
            DisplayMessage::Response { success } => {
                assert(spec_display_json(m1).len() == if success { 34int } else { 35int });
            },
            _ => {},
        }
        match m2 {
            DisplayMessage::Response { success } => {
                assert(spec_display_json(m2).len() == if success { 34int } else { 35int });
            },
            _ => {},
        }
    }
}

} // verus!
