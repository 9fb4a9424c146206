//! Track transport state machine and the FIFO sample buffer.

use vstd::prelude::*;

verus! {

/// Maximum audio buffer size per track (1.5 hours at 44.1kHz stereo):
/// 1.5 h * 60 min/h * 60 s/min * 44100 samples/s * 2 channels.
pub const MAX_TRACK_SAMPLES: usize = 476_280_000;

/// Track states for the loopstation.
#[derive(Debug, Clone, Copy, PartialEq, Eq, Structural)]
pub enum TrackState {
    /// No playback or recording.
    Stopped,
    /// Actively recording new audio.
    Recording,
    /// Playing back recorded audio.
    Playing,
    /// Recording over existing audio.
    Overdubbing,
    /// Has audio but is not playing.
    Muted,
}

/// The state a track moves to when `action` is applied in state `s`.
pub open spec fn spec_transition(s: TrackState, action: TrackAction) -> TrackState {
    match action {
        TrackAction::Clear => TrackState::Stopped,
        TrackAction::Stop => TrackState::Stopped,
        TrackAction::RecordPlay => match s {
            TrackState::Stopped => TrackState::Recording,
            TrackState::Recording => TrackState::Playing,
            TrackState::Playing => TrackState::Overdubbing,
            TrackState::Overdubbing => TrackState::Playing,
            TrackState::Muted => TrackState::Playing,
        },
        TrackAction::Mute => match s {
            TrackState::Stopped => TrackState::Stopped,
            TrackState::Recording => TrackState::Muted,
            TrackState::Playing => TrackState::Muted,
            TrackState::Overdubbing => TrackState::Muted,
            TrackState::Muted => TrackState::Playing,
        },
    }
}

impl TrackState {
    /// Recording, playing or overdubbing.
    pub open spec fn spec_is_active(self) -> bool {
        self is Recording || self is Playing || self is Overdubbing
    }

    /// Recording or overdubbing.
    pub open spec fn spec_is_recording(self) -> bool {
        self is Recording || self is Overdubbing
    }

    /// Playing or overdubbing.
    pub open spec fn spec_is_playing(self) -> bool {
        self is Playing || self is Overdubbing
    }

    /// Check if the track is actively processing audio.
    pub fn is_active(&self) -> (r: bool)
        ensures
            r == self.spec_is_active(),
    {
        match self {
            TrackState::Recording | TrackState::Playing | TrackState::Overdubbing => true,
            _ => false,
        }
    }

    /// Check if the track is recording (including overdubbing).
    pub fn is_recording(&self) -> (r: bool)
        ensures
            r == self.spec_is_recording(),
    {
        match self {
            TrackState::Recording | TrackState::Overdubbing => true,
            _ => false,
        }
    }

    /// Check if the track is playing back audio.
    pub fn is_playing(&self) -> (r: bool)
        ensures
            r == self.spec_is_playing(),
    {
        match self {
            TrackState::Playing | TrackState::Overdubbing => true,
            _ => false,
        }
    }

    /// Transition to the next logical state based on the current state and input.
    pub fn transition(&mut self, action: TrackAction)
        ensures
            *final(self) == spec_transition(*old(self), action),
    {
        *self = match (*self, action) {
            (TrackState::Stopped, TrackAction::RecordPlay) => TrackState::Recording,
            (TrackState::Stopped, TrackAction::Stop) => TrackState::Stopped,
            (TrackState::Stopped, TrackAction::Mute) => TrackState::Stopped,
            (TrackState::Recording, TrackAction::RecordPlay) => TrackState::Playing,
            (TrackState::Recording, TrackAction::Stop) => TrackState::Stopped,
            (TrackState::Recording, TrackAction::Mute) => TrackState::Muted,
            (TrackState::Playing, TrackAction::RecordPlay) => TrackState::Overdubbing,
            (TrackState::Playing, TrackAction::Stop) => TrackState::Stopped,
            (TrackState::Playing, TrackAction::Mute) => TrackState::Muted,
            (TrackState::Overdubbing, TrackAction::RecordPlay) => TrackState::Playing,
            (TrackState::Overdubbing, TrackAction::Stop) => TrackState::Stopped,
            (TrackState::Overdubbing, TrackAction::Mute) => TrackState::Muted,
            (TrackState::Muted, TrackAction::RecordPlay) => TrackState::Playing,
            (TrackState::Muted, TrackAction::Stop) => TrackState::Stopped,
            (TrackState::Muted, TrackAction::Mute) => TrackState::Playing,
            (_, TrackAction::Clear) => TrackState::Stopped,
        };
    }
}

/// Laws of the track state machine:
/// - Stop and Clear always lead to Stopped;
/// - after Record/Play a track is always active;
/// - Record/Play twice from Playing returns to Playing (overdub on, then off);
/// - Mute twice from Playing returns to Playing, and Mute on a stopped track does nothing;
/// - a recording state is always active, and a track is both recording and
///   playing exactly when it is overdubbing.
pub proof fn lemma_transition_laws(s: TrackState, a: TrackAction)
    ensures
        spec_transition(s, TrackAction::Stop) == TrackState::Stopped,
        spec_transition(s, TrackAction::Clear) == TrackState::Stopped,
        spec_transition(s, TrackAction::RecordPlay).spec_is_active(),
        spec_transition(spec_transition(TrackState::Playing, TrackAction::RecordPlay), TrackAction::RecordPlay)
            == TrackState::Playing,
        spec_transition(spec_transition(TrackState::Playing, TrackAction::Mute), TrackAction::Mute)
            == TrackState::Playing,
        spec_transition(TrackState::Stopped, TrackAction::Mute) == TrackState::Stopped,
        s.spec_is_recording() ==> s.spec_is_active(),
        (s.spec_is_recording() && s.spec_is_playing()) <==> s == TrackState::Overdubbing,
        spec_transition(s, a) != TrackState::Recording ==> !(s == TrackState::Stopped && a == TrackAction::RecordPlay),
{
}

/// Record/Play starts recording only on a stopped track (a new recording)
/// or a playing one (an overdub).  On a recording, overdubbing or muted
/// track it goes to plain playback: a muted loop is unmuted, never
/// recorded over.
pub proof fn lemma_record_play_recording_entry(s: TrackState)
    ensures
        spec_transition(s, TrackAction::RecordPlay).spec_is_recording()
            ==> (s == TrackState::Stopped || s == TrackState::Playing),
        !(s == TrackState::Stopped || s == TrackState::Playing)
            ==> spec_transition(s, TrackAction::RecordPlay) == TrackState::Playing,
        spec_transition(s, TrackAction::RecordPlay) != s,
{
}

/// Actions that can be performed on a track.
#[derive(Debug, Clone, Copy, PartialEq, Eq, Structural)]
pub enum TrackAction {
    /// Record/Play button press (context-dependent).
    RecordPlay,
    /// Stop button press.
    Stop,
    /// Mute/unmute toggle.
    Mute,
    /// Clear track content.
    Clear,
}

/// Input source routing for tracks.
#[derive(Debug, Clone, Copy, PartialEq, Eq, Structural)]
pub enum InputSource {
    /// Microphone input (XLR), 1-4.
    Mic(u8),
    /// Instrument input, 1-4.
    Inst(u8),
    /// USB audio interface input channel.
    USB(u8),
}

impl Default for InputSource {
    fn default() -> (r: Self)
        ensures
            r == InputSource::Mic(1),
    {
        InputSource::Mic(1)
    }
}

/// Audio processing errors.
#[derive(Debug, Clone, Copy, PartialEq, Eq, Structural)]
pub enum AudioError {
    InvalidTrack,
    BufferFull,
    BufferEmpty,
    InvalidSampleRate,
    CallbackNotActive,
}

/// Number of tracks of the engine.
pub const TRACK_COUNT: usize = 6;

/// The array slot of a track addressed by its 1-based id: tracks 1-6 live in
/// slots 0-5, any other id addresses no track.
pub fn track_slot(track_id: u8) -> (r: Option<usize>)
    ensures
        r == (if 1 <= track_id <= 6 { Some((track_id - 1) as usize) } else { None::<usize> }),
{
    if track_id >= 1 && track_id <= 6 {
        Some((track_id - 1) as usize)
    } else {
        None
    }
}

/// The transport part of a track: its state, loop length and the record
/// and play positions (in samples).
#[derive(Debug, Clone, Copy, PartialEq, Eq, Structural)]
pub struct TrackTransport {
    pub state: TrackState,
    pub loop_length: u32,
    pub play_position: u32,
    pub record_position: u32,
}

impl TrackTransport {
    /// Press record/play to record: the state moves on, and a recording that
    /// starts here starts at position 0.
    pub fn start_recording(&mut self)
        ensures
            final(self).state == spec_transition(old(self).state, TrackAction::RecordPlay),
            final(self).record_position == if final(self).state == TrackState::Recording {
                0
            } else {
                old(self).record_position
            },
            final(self).play_position == old(self).play_position,
            final(self).loop_length == old(self).loop_length,
    {
        self.state.transition(TrackAction::RecordPlay);
        if self.state == TrackState::Recording {
            self.record_position = 0;
        }
    }

    /// Press record/play to play: only a track with a loop reacts; when it
    /// moves to playing, playback starts at position 0.
    pub fn start_playback(&mut self)
        ensures
            old(self).loop_length == 0 ==> *final(self) == *old(self),
            old(self).loop_length > 0 ==> {
                &&& final(self).state == spec_transition(old(self).state, TrackAction::RecordPlay)
                &&& final(self).play_position == if final(self).state == TrackState::Playing {
                    0
                } else {
                    old(self).play_position
                }
                &&& final(self).record_position == old(self).record_position
                &&& final(self).loop_length == old(self).loop_length
            },
    {
        if self.loop_length > 0 {
            self.state.transition(TrackAction::RecordPlay);
            if self.state == TrackState::Playing {
                self.play_position = 0;
            }
        }
    }

    /// Stop: the track is stopped and playback rewinds to position 0.
    pub fn stop(&mut self)
        ensures
            *final(self) == (TrackTransport { state: TrackState::Stopped, play_position: 0, ..*old(self) }),
    {
        self.state.transition(TrackAction::Stop);
        self.play_position = 0;
    }
}

/// Capacity of a circular buffer.
pub open spec fn circular_capacity() -> nat {
    MAX_TRACK_SAMPLES as nat
}

/// The last `circular_capacity()` items of `s` (all of `s` when it is no
/// longer than that).
pub open spec fn spec_keep_last<T>(s: Seq<T>) -> Seq<T> {
    if s.len() <= circular_capacity() {
        s
    } else {
        s.skip(s.len() - circular_capacity())
    }
}

/// The unread items after writing `data` behind the unread items `q`: the
/// items queue up in the order written, and once the capacity is reached
/// each new item pushes out the oldest one.
pub open spec fn spec_write<T>(q: Seq<T>, data: Seq<T>) -> Seq<T> {
    spec_keep_last(q + data)
}

/// How many items a read into `n` slots takes from the unread items `q`.
pub open spec fn spec_read_count<T>(q: Seq<T>, n: nat) -> nat {
    if n < q.len() {
        n
    } else {
        q.len()
    }
}

/// `p` taken round the ring once: positions past the end start again at 0.
pub open spec fn ring_wrap(p: int) -> int {
    if p < circular_capacity() {
        p
    } else {
        p - circular_capacity()
    }
}

/// The `size` items of the ring starting at `read_pos`.
pub open spec fn ring_items<T>(items: Seq<T>, read_pos: int, size: nat) -> Seq<T> {
    Seq::new(size, |j: int| items[ring_wrap(read_pos + j)])
}

/// Ring layout: storage grows up to the capacity, the write cursor sits
/// `size` places after the read cursor, and until the storage is full the
/// unread items are its tail.
pub open spec fn ring_wf<T>(items: Seq<T>, read_pos: int, write_pos: int, size: nat) -> bool {
    &&& items.len() <= circular_capacity()
    &&& size <= items.len()
    &&& 0 <= read_pos < circular_capacity()
    &&& 0 <= write_pos < circular_capacity()
    &&& write_pos == ring_wrap(read_pos + size)
    &&& items.len() < circular_capacity() ==> read_pos + size == items.len()
}

proof fn lemma_ring_push<T>(items: Seq<T>, read_pos: int, write_pos: int, size: nat, x: T)
    requires
        ring_wf(items, read_pos, write_pos, size),
        size < circular_capacity(),
    ensures
        ({
            let next = if items.len() < circular_capacity() { items.push(x) } else { items.update(write_pos, x) };
            &&& items.len() < circular_capacity() ==> write_pos == items.len()
            &&& ring_wf(next, read_pos, ring_wrap(write_pos + 1), size + 1)
            &&& ring_items(next, read_pos, size + 1) == ring_items(items, read_pos, size).push(x)
        }),
{
    let next = if items.len() < circular_capacity() { items.push(x) } else { items.update(write_pos, x) };
    assert(ring_items(next, read_pos, size + 1) =~= ring_items(items, read_pos, size).push(x));
}

proof fn lemma_ring_overwrite<T>(items: Seq<T>, read_pos: int, write_pos: int, size: nat, x: T)
    requires
        ring_wf(items, read_pos, write_pos, size),
        size == circular_capacity(),
    ensures
        ring_wf(items.update(write_pos, x), ring_wrap(read_pos + 1), ring_wrap(write_pos + 1), size),
        ring_items(items.update(write_pos, x), ring_wrap(read_pos + 1), size)
            == ring_items(items, read_pos, size).drop_first().push(x),
{
    let next = items.update(write_pos, x);
    assert(ring_items(next, ring_wrap(read_pos + 1), size) =~= ring_items(items, read_pos, size).drop_first().push(x));
}

proof fn lemma_ring_pop<T>(items: Seq<T>, read_pos: int, write_pos: int, size: nat)
    requires
        ring_wf(items, read_pos, write_pos, size),
        size > 0,
    ensures
        read_pos < items.len(),
        items[read_pos] == ring_items(items, read_pos, size)[0],
        ring_wf(items, ring_wrap(read_pos + 1), write_pos, (size - 1) as nat),
        ring_items(items, ring_wrap(read_pos + 1), (size - 1) as nat) == ring_items(items, read_pos, size).drop_first(),
{
    assert(ring_items(items, ring_wrap(read_pos + 1), (size - 1) as nat) =~= ring_items(items, read_pos, size).drop_first());
}

proof fn lemma_keep_last_push<T>(s: Seq<T>, x: T)
    ensures
        spec_keep_last(s.push(x)) == if spec_keep_last(s).len() < circular_capacity() {
            spec_keep_last(s).push(x)
        } else {
            spec_keep_last(s).drop_first().push(x)
        },
{
    let k = spec_keep_last(s);
    if s.len() < circular_capacity() {
    } else if s.len() == circular_capacity() {
        assert(spec_keep_last(s.push(x)) =~= k.drop_first().push(x));
    } else {
        assert(spec_keep_last(s.push(x)) =~= k.drop_first().push(x));
    }
}

/// Circular buffer for audio processing: a first-in first-out queue of at
/// most `MAX_TRACK_SAMPLES` items, whose storage grows as items arrive.
pub struct CircularBuffer<T> {
    buffer: Vec<T>,
    read_pos: usize,
    write_pos: usize,
    size: usize,
}

impl<T> View for CircularBuffer<T> {
    type V = Seq<T>;

    /// The unread items, oldest first.
    closed spec fn view(&self) -> Seq<T> {
        ring_items(self.buffer@, self.read_pos as int, self.size as nat)
    }
}

/// Writing keeps first-in first-out order: while everything fits, the
/// unread items become the old unread items followed by `data`, and reading
/// them all back returns exactly that sequence and leaves nothing unread.
/// Once the capacity is exceeded, only the oldest items are lost.
pub proof fn lemma_write_then_read_fifo<T>(q: Seq<T>, data: Seq<T>)
    requires
        q.len() <= circular_capacity(),
    ensures
        q.len() + data.len() <= circular_capacity() ==> spec_write(q, data) == q + data,
        q.len() + data.len() <= circular_capacity() ==> ({
            let w = spec_write(q, data);
            let k = spec_read_count(w, (q.len() + data.len()) as nat);
            &&& w.take(k as int) == q + data
            &&& w.skip(k as int).len() == 0
        }),
        spec_write(q, data).len() <= circular_capacity(),
        q.len() + data.len() > circular_capacity() ==> spec_write(q, data) == (q + data).skip(
            q.len() + data.len() - circular_capacity(),
        ),
{
    let w = spec_write(q, data);
    if q.len() + data.len() <= circular_capacity() {
        assert(w.take(w.len() as int) =~= w);
    }
}

impl<T: Copy + Default> CircularBuffer<T> {
    /// Well-formedness: the ring layout holds.
    pub closed spec fn wf(&self) -> bool {
        &&& ring_wf(self.buffer@, self.read_pos as int, self.write_pos as int, self.size as nat)
        &&& self.buffer.len() <= MAX_TRACK_SAMPLES
    }

    /// Create a new, empty circular buffer.
    pub fn new() -> (r: Self)
        ensures
            r.wf(),
            r@ == Seq::<T>::empty(),
    {
        let r = CircularBuffer { buffer: Vec::new(), read_pos: 0, write_pos: 0, size: 0 };
        assert(r@ =~= Seq::<T>::empty());
        r
    }

    /// Write every item of `data` behind the unread items; when the buffer
    /// is full each new item replaces the oldest unread one.  Returns the
    /// number of items written, which is all of them.
    pub fn write(&mut self, data: &[T]) -> (written: usize)
        requires
            old(self).wf(),
        ensures
            final(self).wf(),
            final(self)@ == spec_write(old(self)@, data@),
            written == data@.len(),
    {
        let ghost q0 = self@;
        let mut i: usize = 0;
        proof {
            assert(q0 + data@.take(0) =~= q0);
        }
        while i < data.len()
            invariant
                0 <= i <= data.len(),
                self.wf(),
                q0.len() <= circular_capacity(),
                self@ == spec_keep_last(q0 + data@.take(i as int)),
                self@.len() == self.size,
            decreases data.len() - i,
        {
            let item = data[i];
            let ghost before = self@;
            let ghost items = self.buffer@;
            proof {
                assert(q0 + data@.take(i + 1) =~= (q0 + data@.take(i as int)).push(item));
                lemma_keep_last_push(q0 + data@.take(i as int), item);
            }
            if self.size < MAX_TRACK_SAMPLES {
                proof {
                    lemma_ring_push(items, self.read_pos as int, self.write_pos as int, self.size as nat, item);
                }
                if self.buffer.len() < MAX_TRACK_SAMPLES {
                    self.buffer.push(item);
                } else {
                    let wp = self.write_pos;
                    self.buffer.set(wp, item);
                }
                self.write_pos = if self.write_pos + 1 == MAX_TRACK_SAMPLES { 0 } else { self.write_pos + 1 };
                self.size = self.size + 1;
            } else {
                proof {
                    lemma_ring_overwrite(items, self.read_pos as int, self.write_pos as int, self.size as nat, item);
                }
                let wp = self.write_pos;
                self.buffer.set(wp, item);
                self.write_pos = if self.write_pos + 1 == MAX_TRACK_SAMPLES { 0 } else { self.write_pos + 1 };
                self.read_pos = if self.read_pos + 1 == MAX_TRACK_SAMPLES { 0 } else { self.read_pos + 1 };
            }
            i = i + 1;
        }
        proof {
            assert(data@.take(i as int) =~= data@);
        }
        i
    }

    /// Read the oldest unread items into `data`, as many as fit; returns
    /// the number read.  Slots beyond them receive `T::default()`.
    pub fn read(&mut self, data: &mut [T]) -> (read: usize)
        requires
            old(self).wf(),
        ensures
            final(self).wf(),
            read == spec_read_count(old(self)@, old(data)@.len()),
            final(data)@.len() == old(data)@.len(),
            final(data)@.take(read as int) == old(self)@.take(read as int),
            final(self)@ == old(self)@.skip(read as int),
            forall|k: int| read <= k < final(data)@.len() ==> call_ensures(T::default, (), #[trigger] final(data)@[k]),
    {
        let ghost q0 = self@;
        let ghost n0 = data@.len();
        let mut read: usize = 0;
        let mut i: usize = 0;
        while i < data.len()
            invariant
                0 <= i <= data.len(),
                data@.len() == n0,
                self.wf(),
                read <= i,
                read == (if (i as int) < q0.len() { i as int } else { q0.len() as int }),
                self@ == q0.skip(read as int),
                data@.take(read as int) == q0.take(read as int),
                forall|k: int| read <= k < i ==> call_ensures(T::default, (), #[trigger] data@[k]),
            decreases data.len() - i,
        {
            if self.size > 0 {
                let rp = self.read_pos;
                proof {
                    lemma_ring_pop(self.buffer@, rp as int, self.write_pos as int, self.size as nat);
                }
                let item = self.buffer[rp];
                data[i] = item;
                self.read_pos = if rp + 1 == MAX_TRACK_SAMPLES { 0 } else { rp + 1 };
                self.size = self.size - 1;
                read = read + 1;
                proof {
                    assert(self@ =~= q0.skip(read as int));
                    assert(data@.take(read as int) =~= q0.take(read as int));
                }
            } else {
                let d = T::default();
                data[i] = d;
            }
            i = i + 1;
        }
        read
    }

    /// Free space for writing.
    pub fn available_write(&self) -> (r: usize)
        requires
            self.wf(),
        ensures
            r == circular_capacity() - self@.len(),
    {
        MAX_TRACK_SAMPLES - self.size
    }

    /// Items available for reading.
    pub fn available_read(&self) -> (r: usize)
        ensures
            r == self@.len(),
    {
        self.size
    }

    /// Number of unread items.
    pub fn len(&self) -> (r: usize)
        ensures
            r == self@.len(),
    {
        self.size
    }

    /// True when nothing is waiting to be read.
    pub fn is_empty(&self) -> (r: bool)
        ensures
            r == (self@.len() == 0),
    {
        self.size == 0
    }

    /// The fixed capacity of the buffer.
    pub fn capacity(&self) -> (r: usize)
        ensures
            r == MAX_TRACK_SAMPLES,
    {
        MAX_TRACK_SAMPLES
    }

    /// Clear the buffer.
    pub fn clear(&mut self)
        ensures
            final(self).wf(),
            final(self)@ == Seq::<T>::empty(),
    {
        self.buffer.clear();
        self.read_pos = 0;
        self.write_pos = 0;
        self.size = 0;
        assert(self@ =~= Seq::<T>::empty());
    }
}

} // verus!
