use loopstation_core_stm32::communication::{
    encode_display_message, track_state_enum, DisplayMessage, Esp32CommunicationManager, RxStep,
    TrackStateEnum, VolumeLevel,
};
use loopstation_core_stm32::hal::{HalError, TrackStateComm};

#[test]
fn frames_end_at_newline() {
    let mut m = Esp32CommunicationManager::new();
    assert_eq!(m.receive_byte(b'{'), RxStep::Pending);
    assert_eq!(m.receive_byte(b'}'), RxStep::Pending);
    assert_eq!(m.receive_byte(b'\n'), RxStep::FrameReady);
    assert_eq!(m.rx_frame(), b"{}\n");
    m.clear_rx();
    assert_eq!(m.rx_frame(), b"");
}

#[test]
fn overflow_clears_and_counts() {
    let mut m = Esp32CommunicationManager::new();
    for _ in 0..512 {
        assert_eq!(m.receive_byte(b'a'), RxStep::Pending);
    }
    assert_eq!(m.receive_byte(b'a'), RxStep::Overflow);
    assert_eq!(m.rx_frame().len(), 0);
    assert_eq!(m.get_stats().0, 1);
    m.reset_error_count();
    assert_eq!(m.get_stats().0, 0);
}

#[test]
fn outgoing_frames_and_ids() {
    let mut m = Esp32CommunicationManager::new();
    assert_eq!(m.next_message_id(), 1);
    assert_eq!(m.next_message_id(), 2);
    let framed = Esp32CommunicationManager::frame_output(b"{\"a\":1}").unwrap();
    assert_eq!(framed.as_slice(), b"{\"a\":1}\n");
    let big = vec![b'x'; 512];
    assert_eq!(Esp32CommunicationManager::frame_output(&big), Err(HalError::BufferFull));
    let fits = vec![b'x'; 511];
    assert_eq!(Esp32CommunicationManager::frame_output(&fits).unwrap().len(), 512);
}

#[test]
fn heartbeat_and_health() {
    let mut m = Esp32CommunicationManager::new();
    assert!(!m.should_send_heartbeat(4999));
    assert!(m.should_send_heartbeat(5000));
    m.update_heartbeat_sent(5000);
    assert!(!m.should_send_heartbeat(9999));
    assert!(m.should_send_heartbeat(10000));
    m.record_communication(1000);
    assert!(m.is_communication_healthy(10999));
    assert!(!m.is_communication_healthy(11000));
    m.set_enabled(false);
    assert!(!m.is_communication_healthy(1000));
}

#[test]
fn track_states_convert() {
    assert_eq!(track_state_enum(TrackStateComm::Overdubbing), TrackStateEnum::Overdubbing);
    assert_eq!(track_state_enum(TrackStateComm::Muted), TrackStateEnum::Muted);
}

#[test]
fn display_messages_encode_as_json() {
    assert_eq!(
        encode_display_message(&DisplayMessage::Heartbeat),
        br#"{"type":"heartbeat"}"#.to_vec()
    );
    assert_eq!(
        encode_display_message(&DisplayMessage::Response { success: false }),
        br#"{"type":"response","success":false}"#.to_vec()
    );
    assert_eq!(
        encode_display_message(&DisplayMessage::Other),
        br#"{"type":"unknown"}"#.to_vec()
    );
    let m = DisplayMessage::StatusUpdate {
        states: [
            TrackStateComm::Recording,
            TrackStateComm::Playing,
            TrackStateComm::Stopped,
            TrackStateComm::Overdubbing,
            TrackStateComm::Muted,
            TrackStateComm::Stopped,
        ],
        volumes: [
            VolumeLevel::Full,
            VolumeLevel::Partial,
            VolumeLevel::Silent,
            VolumeLevel::Full,
            VolumeLevel::Full,
            VolumeLevel::Full,
        ],
    };
    let expected = [
        r#"{"type":"status","tracks":["#,
        r#"{"state":1,"volume":1.0},{"state":2,"volume":0.5},{"state":0,"volume":0.0},"#,
        r#"{"state":3,"volume":1.0},{"state":4,"volume":1.0},{"state":0,"volume":1.0}"#,
        r#"],"tempo":120.0}"#,
    ]
    .concat();
    assert_eq!(encode_display_message(&m), expected.as_bytes().to_vec());
}

#[test]
fn checked_receive_refuses_uncountable_overflow() {
    let mut m = Esp32CommunicationManager::new();
    for _ in 0..512 {
        assert_eq!(m.receive_byte_checked(b'a'), Some(RxStep::Pending));
    }
    m.error_count = u32::MAX;
    assert_eq!(m.receive_byte_checked(b'a'), None);
    assert_eq!(m.rx_frame().len(), 512);
    m.error_count = 7;
    assert_eq!(m.receive_byte_checked(b'a'), Some(RxStep::Overflow));
    assert_eq!(m.error_count, 8);
    assert_eq!(m.rx_frame().len(), 0);
}
