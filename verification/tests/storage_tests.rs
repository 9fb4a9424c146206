use loopstation_core_stm32::storage::{
    name_cut_length, slot_index, ControlAssignments, MemoryError, MemorySystem, RhythmPattern, StoreMode, MAX_MEMORY_SLOTS,
};

#[test]
fn memory_system_starts_with_slot_one() {
    let memory = MemorySystem::new("first");
    assert_eq!(memory.current_memory, 1);
    assert!(!memory.tempo_memory_enabled);
    assert_eq!(memory.store_mode, StoreMode::Full);
    assert_eq!(memory.load_project(1), Ok(&"first"));
    assert_eq!(memory.load_project(2), Err(MemoryError::EmptySlot));
    assert_eq!(memory.get_used_slots().as_slice(), &[1]);
    assert_eq!(memory.memory_slots.len(), MAX_MEMORY_SLOTS);
}

#[test]
fn memory_slot_zero_is_invalid() {
    let mut memory = MemorySystem::new(0u32);
    assert_eq!(memory.save_project(0, 7), Err(MemoryError::InvalidSlot));
    assert_eq!(memory.load_project(0), Err(MemoryError::InvalidSlot));
    assert_eq!(memory.switch_to_slot(0), Err(MemoryError::InvalidSlot));
    assert_eq!(memory.initialize_slot(0, 1), Err(MemoryError::InvalidSlot));
    assert!(memory.is_slot_empty(0));
    assert_eq!(slot_index(0), Err(MemoryError::InvalidSlot));
    assert_eq!(slot_index(255), Ok(254));
}

#[test]
fn memory_save_load_and_used_slots() {
    let mut memory = MemorySystem::new(10u32);
    assert_eq!(memory.save_project(255, 99), Ok(()));
    assert_eq!(memory.save_project(7, 70), Ok(()));
    assert_eq!(memory.load_project(255), Ok(&99));
    assert_eq!(memory.load_project(7), Ok(&70));
    assert!(!memory.is_slot_empty(7));
    assert!(memory.is_slot_empty(8));
    assert_eq!(memory.get_used_slots().as_slice(), &[1, 7, 255]);
    assert_eq!(memory.switch_to_slot(7), Ok(()));
    assert_eq!(memory.current_project(), Ok(&70));
    assert_eq!(memory.initialize_slot(7, 0), Ok(()));
    assert_eq!(memory.load_project(7), Ok(&0));
    memory.set_tempo_memory(true);
    memory.set_store_mode(StoreMode::SettingOnly);
    assert!(memory.tempo_memory_enabled);
    assert_eq!(memory.store_mode, StoreMode::SettingOnly);
}

#[test]
fn rhythm_pattern_default_header() {
    let p = RhythmPattern::default();
    assert_eq!(p.name.as_str(), "DEFAULT");
    assert_eq!(p.beats_per_measure, 4);
    assert!(p.pattern_data.is_empty());
    assert!(!p.enabled);
}

#[test]
fn control_assignments_start_empty() {
    let a = ControlAssignments::new();
    assert!(a.fx_button_assignments.iter().all(|x| x.is_none()));
    assert!(a.midi_assignments.is_empty());
    assert!(a.expression_assignments.iter().all(|x| x.is_none()));
    assert!(a.footswitch_assignments.iter().all(|x| x.is_none()));
}

// A stand-in for a project: its memory slot and its name.
fn new_project(slot: u8) -> (u8, &'static str) {
    (slot, "NEW PROJECT")
}

#[test]
fn test_memory_slot_validation() {
    let memory = MemorySystem::new(new_project(1));

    // Valid slots
    assert!(memory.load_project(1).is_ok());

    // Invalid slots
    assert!(matches!(memory.load_project(0), Err(MemoryError::InvalidSlot)));
}

#[test]
fn test_memory_slot_operations() {
    let mut memory = MemorySystem::new(new_project(1));

    // Test slot switching
    assert!(memory.switch_to_slot(5).is_ok());
    assert_eq!(memory.current_memory, 5);

    // Test invalid slot switching
    assert!(matches!(memory.switch_to_slot(0), Err(MemoryError::InvalidSlot)));
}

#[test]
fn test_memory_slot_initialization() {
    let mut memory = MemorySystem::new(new_project(1));

    // Initialize empty slot
    assert!(memory.is_slot_empty(10));
    assert!(memory.initialize_slot(10, new_project(10)).is_ok());
    assert!(!memory.is_slot_empty(10));

    // Check initialized project
    let project = memory.load_project(10).unwrap();
    assert_eq!(project.0, 10);
    assert_eq!(project.1, "NEW PROJECT");
}

#[test]
fn test_used_slots_tracking() {
    let mut memory = MemorySystem::new(new_project(1));

    // Initially only slot 1 is used
    let used_slots = memory.get_used_slots();
    assert_eq!(used_slots.len(), 1);
    assert!(used_slots.contains(&1));

    // Initialize more slots
    assert!(memory.initialize_slot(5, new_project(5)).is_ok());
    assert!(memory.initialize_slot(10, new_project(10)).is_ok());

    let used_slots = memory.get_used_slots();
    assert_eq!(used_slots.len(), 3);
    assert!(used_slots.contains(&1));
    assert!(used_slots.contains(&5));
    assert!(used_slots.contains(&10));
}

#[test]
fn test_tempo_memory_setting() {
    let mut memory = MemorySystem::new(new_project(1));

    // Initially disabled
    assert!(!memory.tempo_memory_enabled);

    // Enable tempo memory
    memory.set_tempo_memory(true);
    assert!(memory.tempo_memory_enabled);

    // Disable tempo memory
    memory.set_tempo_memory(false);
    assert!(!memory.tempo_memory_enabled);
}

#[test]
fn test_store_mode_setting() {
    let mut memory = MemorySystem::new(new_project(1));

    // Initially full mode
    assert_eq!(memory.store_mode, StoreMode::Full);

    // Change to settings only
    memory.set_store_mode(StoreMode::SettingOnly);
    assert_eq!(memory.store_mode, StoreMode::SettingOnly);

    // Change back to full
    memory.set_store_mode(StoreMode::Full);
    assert_eq!(memory.store_mode, StoreMode::Full);
}

#[test]
fn test_memory_error_handling() {
    let memory = MemorySystem::new(new_project(1));

    // Test invalid slot errors
    assert!(matches!(memory.load_project(0), Err(MemoryError::InvalidSlot)));

    // Test empty slot error
    assert!(matches!(memory.load_project(100), Err(MemoryError::EmptySlot)));
}

#[test]
fn project_names_are_cut_on_character_boundaries() {
    assert_eq!(name_cut_length(b"MY SONG"), 7);
    assert_eq!(name_cut_length(b""), 0);
    let long = [b'A'; 40];
    assert_eq!(name_cut_length(&long), 31);
    // 30 ASCII bytes then a two-byte character: cutting at 31 would split it.
    let mut name = "X".repeat(30);
    name.push('\u{e9}');
    assert_eq!(name_cut_length(name.as_bytes()), 30);
    name.push('Y');
    assert_eq!(name_cut_length(name.as_bytes()), 30);
    let accented = "\u{e9}\u{e9}";
    assert_eq!(name_cut_length(accented.as_bytes()), 4);
}
