use loopstation_core_stm32::settings::{
    BackupResult, BackupSettings, ClockSource, InitializeAction, InitializeMode, MidiChannel,
    MidiSettings, QuantizeMode, SyncOut, SystemSettings, UndoMode, UtilitySettings,
};

#[test]
fn test_system_settings_default() {
    let settings = SystemSettings::new();

    assert_eq!(settings.general.tempo_memory, false);
    assert_eq!(settings.general.quantize_mode, QuantizeMode::Full);
    assert_eq!(settings.general.undo_mode, UndoMode::RecordOnly);

    assert_eq!(settings.clock.clock_source, ClockSource::Internal);
    assert_eq!(settings.clock.sync_out, SyncOut::Off);

    assert_eq!(settings.midi.midi_channel, MidiChannel::Omni);
    assert_eq!(settings.midi.local_control, true);
    assert_eq!(settings.midi.pc_out, true);
    assert_eq!(settings.midi.cc_tx_rx, true);
}

#[test]
fn test_factory_reset() {
    let mut settings = SystemSettings::new();

    settings.general.tempo_memory = true;
    settings.midi.local_control = false;

    settings.factory_reset();

    assert_eq!(settings.general.tempo_memory, false);
    assert_eq!(settings.midi.local_control, true);
}

#[test]
fn test_midi_channel_validation() {
    let mut settings = MidiSettings::default();

    settings.midi_channel = MidiChannel::Channel(17);
    settings.validate_and_fix();
    assert_eq!(settings.midi_channel, MidiChannel::Omni);

    settings.midi_channel = MidiChannel::Channel(5);
    settings.validate_and_fix();
    assert_eq!(settings.midi_channel, MidiChannel::Channel(5));
}

#[test]
fn test_backup_due_check() {
    let mut backup = BackupSettings::default();
    backup.auto_backup_enabled = true;
    backup.backup_interval_minutes = 30;
    backup.last_backup_time = 0;

    assert!(backup.is_backup_due(1800000));
    assert!(!backup.is_backup_due(1000000));

    backup.auto_backup_enabled = false;
    assert!(!backup.is_backup_due(1800000));
}

#[test]
fn test_initialize_actions() {
    let utility = UtilitySettings::default();

    assert_eq!(utility.initialize(InitializeMode::All), InitializeAction::ClearAll);
    assert_eq!(utility.initialize(InitializeMode::Settings), InitializeAction::ClearSettings);
    assert_eq!(utility.initialize(InitializeMode::Loops), InitializeAction::ClearLoops);
    assert_eq!(utility.initialize(InitializeMode::Memory), InitializeAction::ClearMemory);
}

#[test]
fn midi_channel_fix_keeps_every_valid_channel_and_zero_becomes_omni() {
    for ch in 1u8..=16 {
        let mut settings = MidiSettings::default();
        settings.midi_channel = MidiChannel::Channel(ch);
        settings.validate_and_fix();
        assert_eq!(settings.midi_channel, MidiChannel::Channel(ch));
    }
    let mut settings = MidiSettings::default();
    settings.midi_channel = MidiChannel::Channel(0);
    settings.validate_and_fix();
    assert_eq!(settings.midi_channel, MidiChannel::Omni);
}

#[test]
fn backup_not_due_right_after_update() {
    let mut backup = BackupSettings::default();
    backup.auto_backup_enabled = true;
    backup.backup_interval_minutes = 1;
    backup.update_backup_time(5000);
    assert_eq!(backup.last_backup_time, 5000);
    assert!(!backup.is_backup_due(5000));
    assert!(!backup.is_backup_due(64_999));
    assert!(backup.is_backup_due(65_000));
}

#[test]
fn backup_operations_report_success() {
    let backup = BackupSettings::default();
    assert_eq!(backup.save_to_usb(), BackupResult::Success);
    assert_eq!(backup.load_from_usb(), BackupResult::Success);
    assert_eq!(backup.export_via_manager(), BackupResult::Success);
    assert_eq!(backup.import_via_manager(), BackupResult::Success);
}
