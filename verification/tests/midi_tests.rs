use loopstation_core_stm32::midi::{MidiChannel, MidiHandler, MidiMessage, MidiSettings};

#[test]
fn midi_note_on_round_trip() {
    let msg = MidiMessage::NoteOn { channel: 3, note: 60, velocity: 100 };
    let bytes = msg.to_bytes();
    assert_eq!(bytes.as_slice(), &[0x92, 60, 100]);
    assert_eq!(MidiMessage::from_bytes(bytes.as_slice()), Some(msg));
}

#[test]
fn midi_parse_each_kind() {
    assert_eq!(
        MidiMessage::from_bytes(&[0x80, 1, 2]),
        Some(MidiMessage::NoteOff { channel: 1, note: 1, velocity: 2 })
    );
    assert_eq!(
        MidiMessage::from_bytes(&[0xBF, 7, 127]),
        Some(MidiMessage::ControlChange { channel: 16, controller: 7, value: 127 })
    );
    assert_eq!(
        MidiMessage::from_bytes(&[0xC4, 9]),
        Some(MidiMessage::ProgramChange { channel: 5, program: 9 })
    );
    assert_eq!(MidiMessage::from_bytes(&[0xF8]), Some(MidiMessage::Clock));
    assert_eq!(MidiMessage::from_bytes(&[0xFA]), Some(MidiMessage::Start));
    assert_eq!(MidiMessage::from_bytes(&[0xFB]), Some(MidiMessage::Continue));
    assert_eq!(MidiMessage::from_bytes(&[0xFC]), Some(MidiMessage::Stop));
    assert_eq!(MidiMessage::from_bytes(&[]), None);
    assert_eq!(MidiMessage::from_bytes(&[0x90, 60]), None);
    assert_eq!(MidiMessage::from_bytes(&[0x42]), None);
}

#[test]
fn midi_sysex_parse_and_bytes() {
    let parsed = MidiMessage::from_bytes(&[0xF0, 1, 2, 3, 0xF7]);
    match parsed {
        Some(MidiMessage::SysEx { data }) => assert_eq!(data.as_slice(), &[1, 2, 3]),
        other => panic!("unexpected {:?}", other),
    }
    assert_eq!(MidiMessage::from_bytes(&[0xF0, 1, 2]), None);
}

#[test]
fn midi_message_channel() {
    assert_eq!(MidiMessage::ProgramChange { channel: 4, program: 0 }.channel(), Some(4));
    assert_eq!(MidiMessage::Clock.channel(), None);
}

#[test]
fn midi_handler_filters_by_channel() {
    let mut handler = MidiHandler::new();
    let msgs = handler.process_input(&[0x90, 60, 100, 0x91, 61, 100, 0xF8]);
    assert_eq!(msgs.len(), 2);
    assert_eq!(msgs[0], MidiMessage::NoteOn { channel: 1, note: 60, velocity: 100 });
    assert_eq!(msgs[1], MidiMessage::Clock);
}

#[test]
fn midi_handler_omni_accepts_all() {
    let mut handler = MidiHandler::new();
    let mut settings = MidiSettings::default();
    settings.midi_channel = MidiChannel::Omni;
    handler.set_settings(settings);
    let msgs = handler.process_input(&[0x91, 61, 100, 0xC5, 3]);
    assert_eq!(msgs.len(), 2);
    assert_eq!(msgs[1], MidiMessage::ProgramChange { channel: 6, program: 3 });
}

#[test]
fn midi_handler_program_change_output() {
    let mut handler = MidiHandler::new();
    assert_eq!(handler.send_program_change(5), Ok(()));
    assert_eq!(handler.get_output_data(), &[] as &[u8]);
    let mut settings = MidiSettings::default();
    settings.pc_out = true;
    handler.set_settings(settings);
    assert_eq!(handler.send_program_change(5), Ok(()));
    assert_eq!(handler.get_output_data(), &[0xC0, 4]);
    handler.clear_output_buffer();
    assert_eq!(handler.get_output_data(), &[] as &[u8]);
}

#[test]
fn midi_handler_control_change_output() {
    let mut handler = MidiHandler::new();
    assert_eq!(handler.send_control_change(7, 64), Ok(()));
    assert_eq!(handler.get_output_data(), &[0xB0, 7, 64]);
}

#[test]
fn midi_handler_clock_counts() {
    let mut handler = MidiHandler::new();
    handler.process_clock();
    handler.process_clock();
    assert_eq!(handler.clock_counter, 2);
}
