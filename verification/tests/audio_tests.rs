use loopstation_core_stm32::audio::{
    track_slot, CircularBuffer, TrackAction, TrackState, TrackTransport, MAX_TRACK_SAMPLES,
};

#[test]
fn simple_tests_test_track_state_queries() {
    let mut state = TrackState::Stopped;
    assert!(!state.is_active());
    assert!(!state.is_recording());
    assert!(!state.is_playing());

    state = TrackState::Recording;
    assert!(state.is_active());
    assert!(state.is_recording());
    assert!(!state.is_playing());

    state = TrackState::Playing;
    assert!(state.is_active());
    assert!(!state.is_recording());
    assert!(state.is_playing());

    state = TrackState::Overdubbing;
    assert!(state.is_active());
    assert!(state.is_recording());
    assert!(state.is_playing());
}

#[test]
fn track_tests_test_track_state_queries() {
    let mut state = TrackState::Stopped;
    assert!(!state.is_active());
    assert!(!state.is_recording());
    assert!(!state.is_playing());

    state = TrackState::Recording;
    assert!(state.is_active());
    assert!(state.is_recording());
    assert!(!state.is_playing());

    state = TrackState::Playing;
    assert!(state.is_active());
    assert!(!state.is_recording());
    assert!(state.is_playing());

    state = TrackState::Overdubbing;
    assert!(state.is_active());
    assert!(state.is_recording());
    assert!(state.is_playing());

    state = TrackState::Muted;
    assert!(!state.is_active());
    assert!(!state.is_recording());
    assert!(!state.is_playing());
}

#[test]
fn test_circular_buffer() {
    let mut buffer: CircularBuffer<f32> = CircularBuffer::new();

    assert!(buffer.is_empty());
    assert_eq!(buffer.len(), 0);

    let data = [0.1, 0.2, 0.3];
    buffer.write(&data);
    assert_eq!(buffer.len(), 3);

    let mut output = [0.0; 3];
    let read_count = buffer.read(&mut output);
    assert_eq!(read_count, 3);
    assert_eq!(output, [0.1, 0.2, 0.3]);
}

#[test]
fn test_circular_buffer_operations() {
    let mut buffer: CircularBuffer<f32> = CircularBuffer::new();

    assert!(buffer.is_empty());
    assert_eq!(buffer.len(), 0);

    let data = [0.1, 0.2, 0.3];
    buffer.write(&data);
    assert_eq!(buffer.len(), 3);
    assert!(!buffer.is_empty());

    let mut output = [0.0; 3];
    let read_count = buffer.read(&mut output);
    assert_eq!(read_count, 3);
    assert_eq!(output, [0.1, 0.2, 0.3]);

    buffer.clear();
    assert!(buffer.is_empty());
    assert_eq!(buffer.len(), 0);
}

#[test]
fn test_circular_buffer_capacity() {
    let buffer: CircularBuffer<f32> = CircularBuffer::new();
    assert_eq!(buffer.capacity(), MAX_TRACK_SAMPLES);
}

#[test]
fn circular_buffer_reads_oldest_first_and_pads_with_default() {
    let mut buffer: CircularBuffer<i32> = CircularBuffer::new();
    assert_eq!(buffer.write(&[1, 2, 3, 4]), 4);
    let mut two = [0; 2];
    assert_eq!(buffer.read(&mut two), 2);
    assert_eq!(two, [1, 2]);
    assert_eq!(buffer.available_read(), 2);
    let mut five = [9; 5];
    assert_eq!(buffer.read(&mut five), 2);
    assert_eq!(five, [3, 4, 0, 0, 0]);
    assert!(buffer.is_empty());
    assert_eq!(buffer.available_write(), MAX_TRACK_SAMPLES);
}

#[test]
fn track_state_transitions_follow_the_transport() {
    let mut s = TrackState::Stopped;
    s.transition(TrackAction::RecordPlay);
    assert_eq!(s, TrackState::Recording);
    s.transition(TrackAction::RecordPlay);
    assert_eq!(s, TrackState::Playing);
    s.transition(TrackAction::RecordPlay);
    assert_eq!(s, TrackState::Overdubbing);
    s.transition(TrackAction::RecordPlay);
    assert_eq!(s, TrackState::Playing);
    s.transition(TrackAction::Mute);
    assert_eq!(s, TrackState::Muted);
    s.transition(TrackAction::Mute);
    assert_eq!(s, TrackState::Playing);
    s.transition(TrackAction::Stop);
    assert_eq!(s, TrackState::Stopped);
    s.transition(TrackAction::Clear);
    assert_eq!(s, TrackState::Stopped);
}

#[test]
fn track_slots_cover_tracks_one_to_six() {
    assert_eq!(track_slot(0), None);
    assert_eq!(track_slot(1), Some(0));
    assert_eq!(track_slot(6), Some(5));
    assert_eq!(track_slot(7), None);
}

#[test]
fn circular_buffer_keeps_order_after_draining() {
    let mut b: CircularBuffer<f32> = CircularBuffer::new();
    assert_eq!(b.write(&[0.1, 0.2, 0.3]), 3);
    let mut three = [0.0f32; 3];
    assert_eq!(b.read(&mut three), 3);
    assert_eq!(three, [0.1, 0.2, 0.3]);
    assert_eq!(b.write(&[0.4, 0.5]), 2);
    let mut out = [0.0f32; 2];
    assert_eq!(b.read(&mut out), 2);
    assert_eq!(out, [0.4, 0.5]);
    assert!(b.is_empty());
}

#[test]
fn circular_buffer_interleaved_reads_and_writes() {
    let mut b: CircularBuffer<i32> = CircularBuffer::new();
    assert_eq!(b.write(&[1, 2]), 2);
    let mut one = [0; 1];
    assert_eq!(b.read(&mut one), 1);
    assert_eq!(one, [1]);
    assert_eq!(b.write(&[3, 4]), 2);
    assert_eq!(b.len(), 3);
    let mut four = [0; 4];
    assert_eq!(b.read(&mut four), 3);
    assert_eq!(four, [2, 3, 4, 0]);
    b.clear();
    assert_eq!(b.write(&[5]), 1);
    assert_eq!(b.read(&mut one), 1);
    assert_eq!(one, [5]);
}

#[test]
fn track_transport_resets_positions() {
    let mut t = TrackTransport { state: TrackState::Stopped, loop_length: 0, play_position: 7, record_position: 9 };
    t.start_playback();
    assert_eq!(t, TrackTransport { state: TrackState::Stopped, loop_length: 0, play_position: 7, record_position: 9 });
    t.start_recording();
    assert_eq!(t.state, TrackState::Recording);
    assert_eq!(t.record_position, 0);
    t.record_position = 500;
    t.loop_length = 500;
    t.start_recording();
    assert_eq!(t.state, TrackState::Playing);
    assert_eq!(t.record_position, 500);
    t.play_position = 42;
    t.start_playback();
    assert_eq!(t.state, TrackState::Overdubbing);
    assert_eq!(t.play_position, 42);
    t.start_playback();
    assert_eq!(t.state, TrackState::Playing);
    assert_eq!(t.play_position, 0);
    t.play_position = 10;
    t.stop();
    assert_eq!(t, TrackTransport { state: TrackState::Stopped, loop_length: 500, play_position: 0, record_position: 500 });
}
