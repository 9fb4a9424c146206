//! Project memory: the 255 numbered memory slots, the store modes, the
//! rhythm pattern header and the control-assignment tables saved with a
//! project.
//!
//! A slot holds a project value of any type `P`; the slot bank decides which
//! slot numbers are valid, which slots are occupied and which one is current.

use vstd::prelude::*;
use crate::bounded::{chars16, all_ascii, string16_new, string16_push_str, bytes64, vec64_new, bytes255, vec255_new, vec255_push, midi_assignments32, midi_assignments32_new};
use crate::effects::EffectChainType;

verus! {

/// Maximum number of memory slots for project storage.
pub const MAX_MEMORY_SLOTS: usize = 255;

/// Maximum project name length.
pub const MAX_PROJECT_NAME_LEN: usize = 32;

/// Store mode for the memory system.
#[derive(Debug, Clone, Copy, PartialEq, Eq, Structural)]
pub enum StoreMode {
    /// Save loops + settings (full project).
    Full,
    /// Save only settings (no audio loops).
    SettingOnly,
}

impl Default for StoreMode {
    fn default() -> (r: Self)
        ensures
            r == StoreMode::Full,
    {
        StoreMode::Full
    }
}

/// Rhythm pattern header for the drum machine.
#[derive(Debug, Clone)]
pub struct RhythmPattern {
    /// Pattern name.
    pub name: heapless::String<16>,
    /// Beats per measure.
    pub beats_per_measure: u8,
    /// Pattern data.
    pub pattern_data: heapless::Vec<u8, 64>,
    /// Pattern enabled.
    pub enabled: bool,
}

impl Default for RhythmPattern {
    /// The pattern "DEFAULT": four beats, no data, disabled.
    fn default() -> (r: Self)
        ensures
            chars16(r.name) == "DEFAULT"@,
            r.beats_per_measure == 4,
            bytes64(r.pattern_data) == Seq::<u8>::empty(),
            !r.enabled,
    {
        let mut name = string16_new();
        proof {
            reveal_strlit("DEFAULT");
            assert(all_ascii("DEFAULT"@));
            assert(all_ascii(Seq::<char>::empty()));
        }
        let _ = string16_push_str(&mut name, "DEFAULT");
        proof {
            assert(Seq::<char>::empty() + "DEFAULT"@ =~= "DEFAULT"@);
        }
        RhythmPattern { name, beats_per_measure: 4, pattern_data: vec64_new(), enabled: false }
    }
}

/// FX button assignment: which effect slot an FX button drives.
#[derive(Debug, Clone, Copy, PartialEq, Eq, Structural)]
pub struct FXButtonAssignment {
    /// Target effect chain type.
    pub chain_type: EffectChainType,
    /// Effect slot index (0-3).
    pub slot_index: u8,
    /// Target track (for Track FX only).
    pub target_track: Option<u8>,
    /// Momentary or toggle mode.
    pub momentary: bool,
}

/// MIDI assignment targets.
#[derive(Debug, Clone, Copy, PartialEq, Eq, Structural)]
pub enum MidiTarget {
    /// Track volume.
    TrackVolume(u8),
    /// Track pan.
    TrackPan(u8),
    /// Effect parameter.
    EffectParameter { chain_type: EffectChainType, slot_index: u8, parameter_index: u8, track_id: Option<u8> },
    /// Master volume.
    MasterVolume,
    /// Tempo.
    Tempo,
}

/// MIDI CC assignment.
#[derive(Debug, Clone, Copy, PartialEq, Eq, Structural)]
pub struct MidiAssignment {
    /// MIDI CC number.
    pub cc_number: u8,
    /// Target parameter.
    pub target: MidiTarget,
}

/// Expression pedal assignment.  The range ends are the IEEE-754 bit
/// patterns of the `f32` values (`f32::to_bits`).
#[derive(Debug, Clone, Copy, PartialEq, Eq, Structural)]
pub struct ExpressionAssignment {
    /// Target parameter.
    pub target: MidiTarget,
    /// Minimum value, as `f32` bits.
    pub min_value_bits: u32,
    /// Maximum value, as `f32` bits.
    pub max_value_bits: u32,
}

/// Footswitch assignment.
#[derive(Debug, Clone, Copy, PartialEq, Eq, Structural)]
pub enum FootswitchAssignment {
    /// Record/Play function for a track.
    RecPlay(u8),
    MemoryInc,
    MemoryDec,
    UndoRedo,
    TapTempo,
    AllStart,
    AllStop,
}

/// Maximum number of MIDI CC assignments.
pub const MAX_MIDI_ASSIGNMENTS: usize = 32;

/// Control assignments for buttons, MIDI and expression pedals.
#[derive(Debug, Clone)]
pub struct ControlAssignments {
    /// FX button assignments (FX1-5 to effect slots).
    pub fx_button_assignments: [Option<FXButtonAssignment>; 5],
    /// MIDI CC assignments (at most `MAX_MIDI_ASSIGNMENTS`).
    pub midi_assignments: heapless::Vec<MidiAssignment, 32>,
    /// Expression pedal assignments (CTL1,2/EXP1 + CTL3,4/EXP2).
    pub expression_assignments: [Option<ExpressionAssignment>; 4],
    /// Footswitch assignments.
    pub footswitch_assignments: [Option<FootswitchAssignment>; 2],
}

impl ControlAssignments {
    /// The MIDI table never holds more than `MAX_MIDI_ASSIGNMENTS` entries.
    pub open spec fn wf(&self) -> bool {
        midi_assignments32(self.midi_assignments).len() <= MAX_MIDI_ASSIGNMENTS
    }

    /// No assignment anywhere.
    pub open spec fn spec_is_empty(&self) -> bool {
        &&& forall|i: int| 0 <= i < 5 ==> self.fx_button_assignments[i] is None
        &&& midi_assignments32(self.midi_assignments).len() == 0
        &&& forall|i: int| 0 <= i < 4 ==> self.expression_assignments[i] is None
        &&& forall|i: int| 0 <= i < 2 ==> self.footswitch_assignments[i] is None
    }

    /// Create empty control assignments.
    pub fn new() -> (r: Self)
        ensures
            r.wf(),
            r.spec_is_empty(),
    {
        ControlAssignments {
            fx_button_assignments: [None, None, None, None, None],
            midi_assignments: midi_assignments32_new(),
            expression_assignments: [None, None, None, None],
            footswitch_assignments: [None, None],
        }
    }
}

impl Default for ControlAssignments {
    fn default() -> (r: Self)
        ensures
            r.wf(),
            r.spec_is_empty(),
    {
        Self::new()
    }
}

/// Memory system errors.
#[derive(Debug, Clone, Copy, PartialEq, Eq, Structural)]
pub enum MemoryError {
    /// Invalid memory slot number.
    InvalidSlot,
    /// Memory slot is empty.
    EmptySlot,
    /// Memory is full.
    MemoryFull,
    /// Serialization error.
    SerializationError,
    /// Storage hardware error.
    StorageError,
}

/// Slot numbers run from 1 to `MAX_MEMORY_SLOTS`.
pub open spec fn spec_valid_slot(slot: u8) -> bool {
    1 <= slot <= MAX_MEMORY_SLOTS
}

/// Whether a name may be cut before byte `e`: at either end, or where the
/// byte does not continue a UTF-8 character (`10xxxxxx`).
pub open spec fn spec_name_cut_point(name: Seq<u8>, e: int) -> bool {
    e == 0 || e == name.len() || (0 <= e < name.len() && (name[e] & 0xC0) != 0x80)
}

/// The length a project name is cut to: the longest prefix of at most
/// `MAX_PROJECT_NAME_LEN - 1` bytes that ends on a character boundary.
pub fn name_cut_length(name: &[u8]) -> (r: usize)
    ensures
        r <= name@.len(),
        r <= MAX_PROJECT_NAME_LEN - 1,
        spec_name_cut_point(name@, r as int),
        forall|e: int| r < e <= name@.len() && e <= MAX_PROJECT_NAME_LEN - 1 ==> !spec_name_cut_point(name@, e),
{
    let limit = MAX_PROJECT_NAME_LEN - 1;
    let mut end: usize = if name.len() < limit { name.len() } else { limit };
    while end > 0 && end < name.len() && (name[end] & 0xC0) == 0x80
        invariant
            end <= name@.len(),
            end <= MAX_PROJECT_NAME_LEN - 1,
            forall|e: int| end < e <= name@.len() && e <= MAX_PROJECT_NAME_LEN - 1 ==> !spec_name_cut_point(name@, e),
        decreases end,
    {
        end = end - 1;
    }
    end
}

/// The array index of a slot number: slot 1 is index 0.
pub fn slot_index(slot: u8) -> (r: Result<usize, MemoryError>)
    ensures
        spec_valid_slot(slot) ==> r == Ok::<usize, MemoryError>((slot - 1) as usize),
        !spec_valid_slot(slot) ==> r == Err::<usize, MemoryError>(MemoryError::InvalidSlot),
{
    if slot == 0 || slot as usize > MAX_MEMORY_SLOTS {
        return Err(MemoryError::InvalidSlot);
    }
    Ok((slot - 1) as usize)
}

/// Memory system managing the project slots.
#[derive(Debug, Clone)]
pub struct MemorySystem<P> {
    /// Memory slots; slot `n` is at index `n - 1`.
    pub memory_slots: Vec<Option<P>>,
    /// Currently selected memory slot (1-255).
    pub current_memory: u8,
    /// Tempo memory enabled (prevent tempo changes on load).
    pub tempo_memory_enabled: bool,
    /// Store mode (full or settings only).
    pub store_mode: StoreMode,
}

/// The slot numbers of the occupied slots among the first `n`, ascending.
pub open spec fn spec_used_slots<P>(slots: Seq<Option<P>>, n: int) -> Seq<u8>
    decreases n,
{
    if n <= 0 {
        Seq::empty()
    } else if slots[n - 1] is Some {
        spec_used_slots(slots, n - 1).push(n as u8)
    } else {
        spec_used_slots(slots, n - 1)
    }
}

impl<P> MemorySystem<P> {
    /// There is one entry per slot.
    pub open spec fn wf(&self) -> bool {
        self.memory_slots@.len() == MAX_MEMORY_SLOTS
    }

    /// The project held in slot `slot` (valid slots only).
    pub open spec fn spec_slot(&self, slot: u8) -> Option<P> {
        self.memory_slots@[slot - 1]
    }

    /// A memory system whose slot 1 holds `first_project` and is current;
    /// every other slot is empty.
    pub fn new(first_project: P) -> (r: Self)
        ensures
            r.wf(),
            r.spec_slot(1) == Some(first_project),
            forall|s: u8| 2 <= s <= MAX_MEMORY_SLOTS ==> #[trigger] r.spec_slot(s) is None,
            r.current_memory == 1,
            !r.tempo_memory_enabled,
            r.store_mode == StoreMode::Full,
    {
        let mut memory_slots: Vec<Option<P>> = Vec::new();
        memory_slots.push(Some(first_project));
        while memory_slots.len() < MAX_MEMORY_SLOTS
            invariant
                1 <= memory_slots.len() <= MAX_MEMORY_SLOTS,
                memory_slots@[0] == Some(first_project),
                forall|i: int| 1 <= i < memory_slots.len() ==> memory_slots@[i] is None,
            decreases MAX_MEMORY_SLOTS - memory_slots.len(),
        {
            memory_slots.push(None);
        }
        let r = MemorySystem {
            memory_slots,
            current_memory: 1,
            tempo_memory_enabled: false,
            store_mode: StoreMode::Full,
        };
        assert forall|s: u8| 2 <= s <= MAX_MEMORY_SLOTS implies #[trigger] r.spec_slot(s) is None by {
            assert(1 <= s - 1 < MAX_MEMORY_SLOTS);
        }
        r
    }

    /// Save a project to the given memory slot.
    pub fn save_project(&mut self, slot: u8, project: P) -> (r: Result<(), MemoryError>)
        requires
            old(self).wf(),
        ensures
            final(self).wf(),
            spec_valid_slot(slot) ==> r is Ok && final(self).memory_slots@
                == old(self).memory_slots@.update(slot - 1, Some(project)),
            !spec_valid_slot(slot) ==> r == Err::<(), MemoryError>(MemoryError::InvalidSlot)
                && *final(self) == *old(self),
            final(self).current_memory == old(self).current_memory,
            final(self).tempo_memory_enabled == old(self).tempo_memory_enabled,
            final(self).store_mode == old(self).store_mode,
    {
        let index = match slot_index(slot) {
            Ok(i) => i,
            Err(e) => return Err(e),
        };
        self.memory_slots.set(index, Some(project));
        Ok(())
    }

    /// Load the project held in the given memory slot.
    pub fn load_project(&self, slot: u8) -> (r: Result<&P, MemoryError>)
        requires
            self.wf(),
        ensures
            !spec_valid_slot(slot) ==> r == Err::<&P, MemoryError>(MemoryError::InvalidSlot),
            spec_valid_slot(slot) ==> match self.spec_slot(slot) {
                Some(p) => r == Ok::<&P, MemoryError>(&p),
                None => r == Err::<&P, MemoryError>(MemoryError::EmptySlot),
            },
    {
        let index = match slot_index(slot) {
            Ok(i) => i,
            Err(e) => return Err(e),
        };
        match &self.memory_slots[index] {
            Some(p) => Ok(p),
            None => Err(MemoryError::EmptySlot),
        }
    }

    /// The project in the current memory slot.
    pub fn current_project(&self) -> (r: Result<&P, MemoryError>)
        requires
            self.wf(),
        ensures
            !spec_valid_slot(self.current_memory) ==> r == Err::<&P, MemoryError>(MemoryError::InvalidSlot),
            spec_valid_slot(self.current_memory) ==> match self.spec_slot(self.current_memory) {
                Some(p) => r == Ok::<&P, MemoryError>(&p),
                None => r == Err::<&P, MemoryError>(MemoryError::EmptySlot),
            },
    {
        self.load_project(self.current_memory)
    }

    /// Switch to the given memory slot.
    pub fn switch_to_slot(&mut self, slot: u8) -> (r: Result<(), MemoryError>)
        ensures
            spec_valid_slot(slot) ==> r is Ok && *final(self) == (MemorySystem { current_memory: slot, ..*old(self) }),
            !spec_valid_slot(slot) ==> r == Err::<(), MemoryError>(MemoryError::InvalidSlot)
                && *final(self) == *old(self),
    {
        if slot == 0 || slot as usize > MAX_MEMORY_SLOTS {
            return Err(MemoryError::InvalidSlot);
        }
        self.current_memory = slot;
        Ok(())
    }

    /// Initialize (reset) the given memory slot with a fresh project.
    pub fn initialize_slot(&mut self, slot: u8, fresh_project: P) -> (r: Result<(), MemoryError>)
        requires
            old(self).wf(),
        ensures
            final(self).wf(),
            spec_valid_slot(slot) ==> r is Ok && final(self).memory_slots@
                == old(self).memory_slots@.update(slot - 1, Some(fresh_project)),
            !spec_valid_slot(slot) ==> r == Err::<(), MemoryError>(MemoryError::InvalidSlot)
                && *final(self) == *old(self),
            final(self).current_memory == old(self).current_memory,
            final(self).tempo_memory_enabled == old(self).tempo_memory_enabled,
            final(self).store_mode == old(self).store_mode,
    {
        self.save_project(slot, fresh_project)
    }

    /// Whether a memory slot is empty; invalid slot numbers read as empty.
    pub fn is_slot_empty(&self, slot: u8) -> (r: bool)
        requires
            self.wf(),
        ensures
            r == (!spec_valid_slot(slot) || self.spec_slot(slot) is None),
    {
        match slot_index(slot) {
            Ok(index) => self.memory_slots[index].is_none(),
            Err(_) => true,
        }
    }

    /// The numbers of the occupied slots, ascending.
    pub fn get_used_slots(&self) -> (r: heapless::Vec<u8, 255>)
        requires
            self.wf(),
        ensures
            bytes255(r) == spec_used_slots(self.memory_slots@, MAX_MEMORY_SLOTS as int),
            bytes255(r).len() <= MAX_MEMORY_SLOTS,
    {
        let mut used_slots = vec255_new();
        let mut i: usize = 0;
        while i < self.memory_slots.len()
            invariant
                self.wf(),
                i <= MAX_MEMORY_SLOTS,
                bytes255(used_slots) == spec_used_slots(self.memory_slots@, i as int),
                bytes255(used_slots).len() <= i,
            decreases MAX_MEMORY_SLOTS - i,
        {
            if self.memory_slots[i].is_some() {
                let _ = vec255_push(&mut used_slots, (i + 1) as u8);
            }
            i = i + 1;
        }
        used_slots
    }

    /// Set tempo memory mode.
    pub fn set_tempo_memory(&mut self, enabled: bool)
        ensures
            *final(self) == (MemorySystem { tempo_memory_enabled: enabled, ..*old(self) }),
    {
        self.tempo_memory_enabled = enabled;
    }

    /// Set store mode.
    pub fn set_store_mode(&mut self, mode: StoreMode)
        ensures
            *final(self) == (MemorySystem { store_mode: mode, ..*old(self) }),
    {
        self.store_mode = mode;
    }
}

/// Every number in the used-slot list is a valid slot that holds a project,
/// the list is strictly ascending, and every occupied slot is in it.
pub proof fn lemma_used_slots_exact<P>(slots: Seq<Option<P>>, n: int)
    requires
        0 <= n <= slots.len(),
        n <= MAX_MEMORY_SLOTS,
    ensures
        forall|k: int| 0 <= k < spec_used_slots(slots, n).len() ==> {
            let s = #[trigger] spec_used_slots(slots, n)[k];
            1 <= s <= n && slots[s - 1] is Some
        },
        forall|j: int, k: int| 0 <= j < k < spec_used_slots(slots, n).len()
            ==> spec_used_slots(slots, n)[j] < spec_used_slots(slots, n)[k],
        forall|i: int| 0 <= i < n && (#[trigger] slots[i]) is Some
            ==> spec_used_slots(slots, n).contains((i + 1) as u8),
    decreases n,
{
    if n > 0 {
        lemma_used_slots_exact(slots, n - 1);
        let prev = spec_used_slots(slots, n - 1);
        if slots[n - 1] is Some {
            assert(spec_used_slots(slots, n) == prev.push(n as u8));
            assert forall|i: int| 0 <= i < n && (#[trigger] slots[i]) is Some
                implies spec_used_slots(slots, n).contains((i + 1) as u8) by {
                if i == n - 1 {
                    assert(spec_used_slots(slots, n)[prev.len() as int] == n as u8);
                } else {
                    let k = choose|k: int| 0 <= k < prev.len() && prev[k] == (i + 1) as u8;
                    assert(spec_used_slots(slots, n)[k] == (i + 1) as u8);
                }
            }
        }
    }
}

/// What a save stores is what a load of the same slot gives back, and a save
/// leaves every other slot as it was.
pub proof fn lemma_save_then_load<P>(before: MemorySystem<P>, after: MemorySystem<P>, slot: u8, project: P, other: u8)
    requires
        before.wf(),
        spec_valid_slot(slot),
        after.memory_slots@ == before.memory_slots@.update(slot - 1, Some(project)),
    ensures
        after.wf(),
        after.spec_slot(slot) == Some(project),
        spec_valid_slot(other) && other != slot ==> after.spec_slot(other) == before.spec_slot(other),
{
}

} // verus!
