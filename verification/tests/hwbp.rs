use textquest_dll::hooks::hwbp::{
    active_count, breakpoint_callbacks, get_address, get_callback, has_callback, is_active, register,
    register_available, remove_all, unregister, HwbpRegistry, HwbpSlot, StubPlatform, MAX_SLOTS, STATUS_SINGLE_STEP,
};

#[test]
fn slot_from_index_valid() {
    assert_eq!(HwbpSlot::from_index(0), Some(HwbpSlot::Dr0));
    assert_eq!(HwbpSlot::from_index(3), Some(HwbpSlot::Dr3));
    assert_eq!(HwbpSlot::from_index(4), None);
}

#[test]
fn slot_roundtrip() {
    for idx in 0..MAX_SLOTS {
        let slot = HwbpSlot::from_index(idx).unwrap();
        assert_eq!(slot.index(), idx);
    }
}

#[test]
fn max_slots_is_four() {
    assert_eq!(MAX_SLOTS, 4);
}

#[test]
fn register_unregister_stub() {
    let mut reg = HwbpRegistry::new();
    let mut platform = StubPlatform::new();
    assert!(register(&mut reg, &mut platform, HwbpSlot::Dr0, 0x12345, 0x777).is_ok());
    assert!(is_active(&reg, HwbpSlot::Dr0));
    assert_eq!(get_address(&reg, HwbpSlot::Dr0), 0x12345);
    assert!(unregister(&mut reg, &mut platform, HwbpSlot::Dr0).is_ok());
    assert!(!is_active(&reg, HwbpSlot::Dr0));
    assert_eq!(get_address(&reg, HwbpSlot::Dr0), 0);
}

#[test]
fn remove_all_is_safe_when_empty() {
    let mut reg = HwbpRegistry::new();
    let mut platform = StubPlatform::new();
    remove_all(&mut reg, &mut platform);
}

#[test]
fn remove_all_clears_inactive_slot_metadata() {
    let mut reg = HwbpRegistry::new();
    let mut platform = StubPlatform::new();
    reg.slots[0].address = 0x12345;
    reg.slots[0].callback = 0x999;
    reg.slots[0].active = false;
    remove_all(&mut reg, &mut platform);
    assert_eq!(get_address(&reg, HwbpSlot::Dr0), 0);
    assert_eq!(get_callback(&reg, HwbpSlot::Dr0), 0);
    assert!(!is_active(&reg, HwbpSlot::Dr0));
}

#[test]
fn register_available_takes_the_first_free_slot() {
    let mut reg = HwbpRegistry::new();
    let mut platform = StubPlatform::new();
    register(&mut reg, &mut platform, HwbpSlot::Dr0, 0x10, 1).unwrap();
    let slot = register_available(&mut reg, &mut platform, 0x20, 2).unwrap();
    assert_eq!(slot, HwbpSlot::Dr1);
    assert!(has_callback(&reg, HwbpSlot::Dr1));
    register_available(&mut reg, &mut platform, 0x30, 3).unwrap();
    register_available(&mut reg, &mut platform, 0x40, 4).unwrap();
    assert_eq!(active_count(&reg), 4);
    assert!(register_available(&mut reg, &mut platform, 0x50, 5).is_err());
}

#[test]
fn single_step_hits_list_matching_slots_in_order() {
    let mut reg = HwbpRegistry::new();
    let mut platform = StubPlatform::new();
    register(&mut reg, &mut platform, HwbpSlot::Dr2, 0x1000, 0x22).unwrap();
    register(&mut reg, &mut platform, HwbpSlot::Dr0, 0x1000, 0x11).unwrap();
    register(&mut reg, &mut platform, HwbpSlot::Dr1, 0x2000, 0x33).unwrap();
    assert_eq!(breakpoint_callbacks(&reg, STATUS_SINGLE_STEP, 0x1000), vec![(0, 0x11), (2, 0x22)]);
    assert_eq!(breakpoint_callbacks(&reg, STATUS_SINGLE_STEP, 0x3000), vec![]);
    assert_eq!(breakpoint_callbacks(&reg, 0x8000_0003, 0x1000), vec![]);
}

#[test]
fn registering_arms_the_debug_register_and_handler() {
    let mut reg = HwbpRegistry::new();
    let mut platform = StubPlatform::new();
    register(&mut reg, &mut platform, HwbpSlot::Dr2, 0x4242, 0x10).unwrap();
    assert!(platform.veh_installed);
    assert_eq!(platform.breakpoints, [None, None, Some(0x4242), None]);
    unregister(&mut reg, &mut platform, HwbpSlot::Dr2).unwrap();
    assert_eq!(platform.breakpoints, [None; 4]);
    register(&mut reg, &mut platform, HwbpSlot::Dr1, 0x5000, 0x11).unwrap();
    remove_all(&mut reg, &mut platform);
    assert!(!platform.veh_installed);
    assert_eq!(platform.breakpoints, [None; 4]);
}
