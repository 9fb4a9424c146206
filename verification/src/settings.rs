//! System settings, organised in six pages: GENERAL, CLOCK, MIDI, CONTROL,
//! UTILITY and BACKUP.

use vstd::prelude::*;
use crate::bounded::{chars16, all_ascii, string16_new, string16_is_empty, string16_push_str};

verus! {

/// Maximum length for the firmware version string.
pub const MAX_FIRMWARE_VERSION_LEN: usize = 16;

/// Longest backup interval accepted by the BACKUP page (24 hours).
pub const MAX_BACKUP_INTERVAL_MINUTES: u16 = 1440;

/// Interval restored when the stored one is zero.
pub const DEFAULT_BACKUP_INTERVAL_MINUTES: u16 = 30;

/// System settings organised in six configuration pages.
#[derive(Debug, Clone)]
pub struct SystemSettings {
    pub general: GeneralSettings,
    pub clock: ClockSettings,
    pub midi: MidiSettings,
    pub control: ControlSettings,
    pub utility: UtilitySettings,
    pub backup: BackupSettings,
}

impl SystemSettings {
    /// Create new system settings with default values.
    pub fn new() -> (r: Self)
        ensures
            r.general == GeneralSettings::spec_default(),
            r.clock == ClockSettings::spec_default(),
            r.midi == MidiSettings::spec_default(),
            r.control == ControlSettings::spec_default(),
            chars16(r.utility.firmware_version) == "1.0.0"@,
            r.utility.initialize_mode == InitializeMode::All,
            r.backup == BackupSettings::spec_default(),
    {
        SystemSettings {
            general: GeneralSettings::default(),
            clock: ClockSettings::default(),
            midi: MidiSettings::default(),
            control: ControlSettings::default(),
            utility: UtilitySettings::default(),
            backup: BackupSettings::default(),
        }
    }

    /// Reset all settings to factory defaults.
    pub fn factory_reset(&mut self)
        ensures
            final(self).general == GeneralSettings::spec_default(),
            final(self).clock == ClockSettings::spec_default(),
            final(self).midi == MidiSettings::spec_default(),
            final(self).control == ControlSettings::spec_default(),
            chars16(final(self).utility.firmware_version) == "1.0.0"@,
            final(self).utility.initialize_mode == InitializeMode::All,
            final(self).backup == BackupSettings::spec_default(),
    {
        *self = Self::new();
    }

    /// Validate all settings and fix any invalid values.
    pub fn validate_and_fix(&mut self)
        ensures
            final(self).general == old(self).general,
            final(self).clock == old(self).clock,
            final(self).midi == old(self).midi.spec_fixed(),
            final(self).control == old(self).control,
            final(self).utility.initialize_mode == old(self).utility.initialize_mode,
            chars16(final(self).utility.firmware_version)
                == UtilitySettings::spec_fixed_version(chars16(old(self).utility.firmware_version)),
            final(self).backup == old(self).backup.spec_fixed(),
    {
        self.general.validate_and_fix();
        self.clock.validate_and_fix();
        self.midi.validate_and_fix();
        self.control.validate_and_fix();
        self.utility.validate_and_fix();
        self.backup.validate_and_fix();
    }
}

impl Default for SystemSettings {
    fn default() -> (r: Self)
        ensures
            r.general == GeneralSettings::spec_default(),
            r.clock == ClockSettings::spec_default(),
            r.midi == MidiSettings::spec_default(),
            r.control == ControlSettings::spec_default(),
            chars16(r.utility.firmware_version) == "1.0.0"@,
            r.utility.initialize_mode == InitializeMode::All,
            r.backup == BackupSettings::spec_default(),
    {
        Self::new()
    }
}

/// GENERAL settings page - basic device behaviour configuration.
#[derive(Debug, Clone, Copy, PartialEq, Eq, Structural)]
pub struct GeneralSettings {
    /// Preserve individual bank tempos when loading slots.
    pub tempo_memory: bool,
    pub quantize_mode: QuantizeMode,
    pub undo_mode: UndoMode,
    pub startup_screen: StartupScreen,
    pub auto_off: AutoOffTime,
    pub phones_mode: PhonesMode,
    pub store_mode: StoreMode,
}

impl GeneralSettings {
    pub open spec fn spec_default() -> GeneralSettings {
        GeneralSettings {
            tempo_memory: false,
            quantize_mode: QuantizeMode::Full,
            undo_mode: UndoMode::RecordOnly,
            startup_screen: StartupScreen::Memory,
            auto_off: AutoOffTime::Off,
            phones_mode: PhonesMode::Stereo,
            store_mode: StoreMode::LoopAndSetting,
        }
    }

    /// Every value of this page is a valid choice, so nothing changes.
    pub fn validate_and_fix(&mut self)
        ensures
            *final(self) == *old(self),
    {
    }
}

impl Default for GeneralSettings {
    fn default() -> (r: Self)
        ensures
            r == GeneralSettings::spec_default(),
    {
        GeneralSettings {
            tempo_memory: false,
            quantize_mode: QuantizeMode::Full,
            undo_mode: UndoMode::RecordOnly,
            startup_screen: StartupScreen::Memory,
            auto_off: AutoOffTime::Off,
            phones_mode: PhonesMode::Stereo,
            store_mode: StoreMode::LoopAndSetting,
        }
    }
}

/// Quantize Mode options for timing quantization.
#[derive(Debug, Clone, Copy, PartialEq, Eq, Structural)]
pub enum QuantizeMode {
    Full,
    Record,
    Off,
}

/// Scope of undo operations.
#[derive(Debug, Clone, Copy, PartialEq, Eq, Structural)]
pub enum UndoMode {
    RecordOnly,
    RecordAndPlay,
    All,
}

/// What the display shows on start-up.
#[derive(Debug, Clone, Copy, PartialEq, Eq, Structural)]
pub enum StartupScreen {
    Off,
    Memory,
    Name,
}

/// Automatic power-off timer.
#[derive(Debug, Clone, Copy, PartialEq, Eq, Structural)]
pub enum AutoOffTime {
    FiveMinutes,
    ThirtyMinutes,
    Off,
}

/// Headphone output mode.
#[derive(Debug, Clone, Copy, PartialEq, Eq, Structural)]
pub enum PhonesMode {
    Stereo,
    Mono,
}

/// What a memory slot store keeps.
#[derive(Debug, Clone, Copy, PartialEq, Eq, Structural)]
pub enum StoreMode {
    LoopAndSetting,
    SettingOnly,
}

/// CLOCK settings page - timing and synchronisation control.
#[derive(Debug, Clone, Copy, PartialEq, Eq, Structural)]
pub struct ClockSettings {
    pub clock_source: ClockSource,
    pub sync_out: SyncOut,
    pub rec_quantize: RecQuantize,
}

impl ClockSettings {
    pub open spec fn spec_default() -> ClockSettings {
        ClockSettings { clock_source: ClockSource::Internal, sync_out: SyncOut::Off, rec_quantize: RecQuantize::Quarter }
    }

    /// Every value of this page is a valid choice, so nothing changes.
    pub fn validate_and_fix(&mut self)
        ensures
            *final(self) == *old(self),
    {
    }
}

impl Default for ClockSettings {
    fn default() -> (r: Self)
        ensures
            r == ClockSettings::spec_default(),
    {
        ClockSettings { clock_source: ClockSource::Internal, sync_out: SyncOut::Off, rec_quantize: RecQuantize::Quarter }
    }
}

/// Where the timing reference comes from.
#[derive(Debug, Clone, Copy, PartialEq, Eq, Structural)]
pub enum ClockSource {
    Internal,
    Usb,
    Midi,
}

/// Where clock sync is sent.
#[derive(Debug, Clone, Copy, PartialEq, Eq, Structural)]
pub enum SyncOut {
    Off,
    Usb,
    Midi,
}

/// Recording quantization resolution.
#[derive(Debug, Clone, Copy, PartialEq, Eq, Structural)]
pub enum RecQuantize {
    Whole,
    Half,
    Quarter,
    Eighth,
    Sixteenth,
    ThirtySecond,
}

/// MIDI settings page - MIDI integration configuration.
#[derive(Debug, Clone, Copy, PartialEq, Eq, Structural)]
pub struct MidiSettings {
    /// 1-16 or OMNI.
    pub midi_channel: MidiChannel,
    pub local_control: bool,
    pub pc_out: bool,
    pub cc_tx_rx: bool,
}

impl MidiSettings {
    pub open spec fn spec_default() -> MidiSettings {
        MidiSettings { midi_channel: MidiChannel::Omni, local_control: true, pc_out: true, cc_tx_rx: true }
    }

    /// A page is valid when a numbered channel lies in 1..=16.
    pub open spec fn spec_valid(self) -> bool {
        self.midi_channel matches MidiChannel::Channel(ch) ==> 1 <= ch <= 16
    }

    /// The page after `validate_and_fix`: an out-of-range channel becomes OMNI.
    pub open spec fn spec_fixed(self) -> MidiSettings {
        match self.midi_channel {
            MidiChannel::Channel(ch) => if 1 <= ch <= 16 {
                self
            } else {
                MidiSettings { midi_channel: MidiChannel::Omni, ..self }
            },
            MidiChannel::Omni => self,
        }
    }

    /// Validate and fix any invalid values.
    pub fn validate_and_fix(&mut self)
        ensures
            *final(self) == old(self).spec_fixed(),
    {
        if let MidiChannel::Channel(ch) = self.midi_channel {
            if ch < 1 || ch > 16 {
                self.midi_channel = MidiChannel::Omni;
            }
        }
    }
}

impl Default for MidiSettings {
    fn default() -> (r: Self)
        ensures
            r == MidiSettings::spec_default(),
    {
        MidiSettings { midi_channel: MidiChannel::Omni, local_control: true, pc_out: true, cc_tx_rx: true }
    }
}

/// MIDI channel configuration.
#[derive(Debug, Clone, Copy, PartialEq, Eq, Structural)]
pub enum MidiChannel {
    /// Specific MIDI channel (1-16).
    Channel(u8),
    /// Respond to all channels.
    Omni,
}

/// CONTROL settings page - hardware customisation.
#[derive(Debug, Clone, Copy, PartialEq, Eq)]
pub struct ControlSettings {
    pub ctl_func_assign: CtlFuncAssign,
    /// Two footswitch inputs.
    pub foot_sw_assign: [Option<FootSwitchFunction>; 2],
    pub exp_pedal_mode: ExpPedalMode,
}

impl ControlSettings {
    pub open spec fn spec_default() -> ControlSettings {
        ControlSettings {
            ctl_func_assign: CtlFuncAssign::Panel,
            foot_sw_assign: [Some(FootSwitchFunction::RecPlay), Some(FootSwitchFunction::UndoRedo)],
            exp_pedal_mode: ExpPedalMode::Continuous,
        }
    }

    /// Every value of this page is a valid choice, so nothing changes.
    pub fn validate_and_fix(&mut self)
        ensures
            *final(self) == *old(self),
    {
    }
}

impl Default for ControlSettings {
    fn default() -> (r: Self)
        ensures
            r == ControlSettings::spec_default(),
    {
        ControlSettings {
            ctl_func_assign: CtlFuncAssign::Panel,
            foot_sw_assign: [Some(FootSwitchFunction::RecPlay), Some(FootSwitchFunction::UndoRedo)],
            exp_pedal_mode: ExpPedalMode::Continuous,
        }
    }
}

/// Control function assignment mode.
#[derive(Debug, Clone, Copy, PartialEq, Eq, Structural)]
pub enum CtlFuncAssign {
    Panel,
    Undo,
    Off,
}

/// Footswitch function assignments.
#[derive(Debug, Clone, Copy, PartialEq, Eq, Structural)]
pub enum FootSwitchFunction {
    RecPlay,
    MemoryInc,
    MemoryDec,
    UndoRedo,
    TapTempo,
    AllStart,
    AllStop,
    Track1,
    Track2,
    Track3,
    Track4,
    Track5,
    Track6,
}

/// Expression pedal mode.
#[derive(Debug, Clone, Copy, PartialEq, Eq, Structural)]
pub enum ExpPedalMode {
    Continuous,
    Toggle,
}

/// UTILITY settings page - system maintenance functions.
#[derive(Debug, Clone)]
pub struct UtilitySettings {
    /// Firmware version (read-only).
    pub firmware_version: heapless::String<16>,
    /// Initialize option for selective data clearing.
    pub initialize_mode: InitializeMode,
}

impl UtilitySettings {
    /// The firmware text after `validate_and_fix`: an empty one becomes "1.0.0".
    pub open spec fn spec_fixed_version(v: Seq<char>) -> Seq<char> {
        if v.len() == 0 { "1.0.0"@ } else { v }
    }

    /// Perform factory reset: every field returns to its default except the
    /// firmware version, which is kept.
    pub fn factory_reset(&mut self)
        ensures
            final(self).firmware_version == old(self).firmware_version,
            final(self).initialize_mode == InitializeMode::All,
    {
        self.initialize_mode = InitializeMode::All;
    }

    /// The clearing action that an initialize request performs.
    pub fn initialize(&self, mode: InitializeMode) -> (r: InitializeAction)
        ensures
            r == spec_initialize_action(mode),
    {
        match mode {
            InitializeMode::All => InitializeAction::ClearAll,
            InitializeMode::Settings => InitializeAction::ClearSettings,
            InitializeMode::Loops => InitializeAction::ClearLoops,
            InitializeMode::Memory => InitializeAction::ClearMemory,
        }
    }

    /// Formatting the memory storage always proceeds.
    pub fn format_memory(&self) -> (r: bool)
        ensures
            r,
    {
        true
    }

    /// Ensure the firmware version is not empty.
    pub fn validate_and_fix(&mut self)
        ensures
            chars16(final(self).firmware_version)
                == Self::spec_fixed_version(chars16(old(self).firmware_version)),
            final(self).initialize_mode == old(self).initialize_mode,
    {
        if string16_is_empty(&self.firmware_version) {
            proof {
                reveal_strlit("1.0.0");
                assert(all_ascii("1.0.0"@));
                assert(all_ascii(chars16(self.firmware_version)));
            }
            let _ = string16_push_str(&mut self.firmware_version, "1.0.0");
            proof {
                assert(Seq::<char>::empty() + "1.0.0"@ =~= "1.0.0"@);
            }
        }
    }
}

/// The clearing action for each initialize mode.
pub open spec fn spec_initialize_action(mode: InitializeMode) -> InitializeAction {
    match mode {
        InitializeMode::All => InitializeAction::ClearAll,
        InitializeMode::Settings => InitializeAction::ClearSettings,
        InitializeMode::Loops => InitializeAction::ClearLoops,
        InitializeMode::Memory => InitializeAction::ClearMemory,
    }
}

impl Default for UtilitySettings {
    fn default() -> (r: Self)
        ensures
            chars16(r.firmware_version) == "1.0.0"@,
            r.initialize_mode == InitializeMode::All,
    {
        let mut firmware_version = string16_new();
        proof {
            reveal_strlit("1.0.0");
            assert(all_ascii("1.0.0"@));
            assert(all_ascii(Seq::<char>::empty()));
        }
        let _ = string16_push_str(&mut firmware_version, "1.0.0");
        proof {
            assert(Seq::<char>::empty() + "1.0.0"@ =~= "1.0.0"@);
        }
        UtilitySettings { firmware_version, initialize_mode: InitializeMode::All }
    }
}

/// Initialize mode options for selective data clearing.
#[derive(Debug, Clone, Copy, PartialEq, Eq, Structural)]
pub enum InitializeMode {
    All,
    Settings,
    Loops,
    Memory,
}

/// Initialize action to be performed.
#[derive(Debug, Clone, Copy, PartialEq, Eq, Structural)]
pub enum InitializeAction {
    ClearAll,
    ClearSettings,
    ClearLoops,
    ClearMemory,
}

/// BACKUP settings page - data management and backup/restore.
#[derive(Debug, Clone, Copy, PartialEq, Eq, Structural)]
pub struct BackupSettings {
    pub auto_backup_enabled: bool,
    /// Backup interval in minutes.
    pub backup_interval_minutes: u16,
    /// Last backup timestamp in milliseconds.
    pub last_backup_time: u32,
    /// USB backup format version.
    pub backup_format_version: u8,
}

impl BackupSettings {
    pub open spec fn spec_default() -> BackupSettings {
        BackupSettings { auto_backup_enabled: true, backup_interval_minutes: 30, last_backup_time: 0, backup_format_version: 1 }
    }

    /// Milliseconds since the last backup, zero when the clock reads earlier.
    pub open spec fn spec_elapsed(self, current_time: u32) -> int {
        if current_time >= self.last_backup_time { current_time - self.last_backup_time } else { 0 }
    }

    /// A backup is due when auto backup is on and at least the interval has
    /// passed since the last one.
    pub open spec fn spec_backup_due(self, current_time: u32) -> bool {
        self.auto_backup_enabled
            && self.spec_elapsed(current_time) >= self.backup_interval_minutes * 60000
    }

    /// Valid pages have an interval in 1..=1440 minutes and a non-zero format.
    pub open spec fn spec_valid(self) -> bool {
        &&& 1 <= self.backup_interval_minutes <= MAX_BACKUP_INTERVAL_MINUTES
        &&& self.backup_format_version != 0
    }

    /// The page after `validate_and_fix`.
    pub open spec fn spec_fixed(self) -> BackupSettings {
        BackupSettings {
            backup_interval_minutes: if self.backup_interval_minutes < 1 {
                DEFAULT_BACKUP_INTERVAL_MINUTES
            } else if self.backup_interval_minutes > MAX_BACKUP_INTERVAL_MINUTES {
                MAX_BACKUP_INTERVAL_MINUTES
            } else {
                self.backup_interval_minutes
            },
            backup_format_version: if self.backup_format_version == 0 { 1 } else { self.backup_format_version },
            ..self
        }
    }

    /// Check if backup is due based on interval.
    pub fn is_backup_due(&self, current_time: u32) -> (r: bool)
        ensures
            r == self.spec_backup_due(current_time),
    {
        if !self.auto_backup_enabled {
            return false;
        }
        assert(self.backup_interval_minutes * 60000 <= 65535 * 60000);
        let interval_ms = self.backup_interval_minutes as u32 * 60 * 1000;
        current_time.saturating_sub(self.last_backup_time) >= interval_ms
    }

    /// Update last backup time.
    pub fn update_backup_time(&mut self, current_time: u32)
        ensures
            *final(self) == (BackupSettings { last_backup_time: current_time, ..*old(self) }),
    {
        self.last_backup_time = current_time;
    }

    /// Save all memory slots and settings to USB drive.
    pub fn save_to_usb(&self) -> (r: BackupResult)
        ensures
            r == BackupResult::Success,
    {
        BackupResult::Success
    }

    /// Load all memory slots and settings from USB drive.
    pub fn load_from_usb(&self) -> (r: BackupResult)
        ensures
            r == BackupResult::Success,
    {
        BackupResult::Success
    }

    /// Export projects via the manager software.
    pub fn export_via_manager(&self) -> (r: BackupResult)
        ensures
            r == BackupResult::Success,
    {
        BackupResult::Success
    }

    /// Import projects via the manager software.
    pub fn import_via_manager(&self) -> (r: BackupResult)
        ensures
            r == BackupResult::Success,
    {
        BackupResult::Success
    }

    /// Validate and fix any invalid values.
    pub fn validate_and_fix(&mut self)
        ensures
            *final(self) == old(self).spec_fixed(),
    {
        if self.backup_interval_minutes < 1 {
            self.backup_interval_minutes = 30;
        } else if self.backup_interval_minutes > 1440 {
            self.backup_interval_minutes = 1440;
        }
        if self.backup_format_version == 0 {
            self.backup_format_version = 1;
        }
    }
}

impl Default for BackupSettings {
    fn default() -> (r: Self)
        ensures
            r == BackupSettings::spec_default(),
    {
        BackupSettings { auto_backup_enabled: true, backup_interval_minutes: 30, last_backup_time: 0, backup_format_version: 1 }
    }
}

/// Backup operation result.
#[derive(Debug, Clone, Copy, PartialEq, Eq, Structural)]
pub enum BackupResult {
    Success,
    UsbNotFound,
    InsufficientSpace,
    FormatError,
    IoError,
    Cancelled,
}

/// System settings error types.
#[derive(Debug, Clone, Copy, PartialEq, Eq, Structural)]
pub enum SettingsError {
    InvalidValue,
    NotFound,
    SerializationError,
    StorageError,
    ValidationError,
}

/// Fixing a MIDI page yields a valid page, fixing twice changes nothing
/// more, and a valid page is left as it is.
pub proof fn lemma_midi_fix_laws(s: MidiSettings)
    ensures
        s.spec_fixed().spec_valid(),
        s.spec_fixed().spec_fixed() == s.spec_fixed(),
        s.spec_valid() ==> s.spec_fixed() == s,
{
}

/// Fixing a BACKUP page yields a valid page, fixing twice changes nothing
/// more, a valid page is left as it is, and the last backup time and the
/// auto-backup switch are never touched.
pub proof fn lemma_backup_fix_laws(s: BackupSettings)
    ensures
        s.spec_fixed().spec_valid(),
        s.spec_fixed().spec_fixed() == s.spec_fixed(),
        s.spec_valid() ==> s.spec_fixed() == s,
        s.spec_fixed().last_backup_time == s.last_backup_time,
        s.spec_fixed().auto_backup_enabled == s.auto_backup_enabled,
{
}

/// Right after a backup is recorded at time `t`, a backup is due at `t`
/// only when the interval is zero minutes; once the page has been fixed it
/// is never due at the same instant.
pub proof fn lemma_backup_not_due_right_after(s: BackupSettings, t: u32)
    ensures
        (BackupSettings { last_backup_time: t, ..s }).spec_backup_due(t)
            <==> (s.auto_backup_enabled && s.backup_interval_minutes == 0),
        !(BackupSettings { last_backup_time: t, ..s.spec_fixed() }).spec_backup_due(t),
{
}

} // verus!
