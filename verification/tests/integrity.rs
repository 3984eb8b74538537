use textquest_dll::hooks::hwbp::{self, HwbpRegistry, HwbpSlot, StubPlatform, MAX_SLOTS};
use textquest_dll::hooks::integrity::outbound_counter_hook;
use textquest_dll::hooks::integrity::{
    check_slot, is_safe_mode, last_outbound_counter, run_integrity_check, verify_hooks_or_safe_mode, IntegrityState,
};

fn setup() -> (HwbpRegistry, StubPlatform, IntegrityState) {
    let mut reg = HwbpRegistry::new();
    let mut platform = StubPlatform::new();
    hwbp::remove_all(&mut reg, &mut platform);
    (reg, platform, IntegrityState::new())
}

#[test]
fn integrity_passes_when_all_slots_empty() {
    let (reg, platform, _state) = setup();
    let report = run_integrity_check(&reg, &platform);
    assert!(report.passed, "empty registry should pass integrity check");
    assert_eq!(report.slots.len(), MAX_SLOTS);
}

#[test]
fn slot_check_fails_on_active_with_zero_address() {
    let (mut reg, _platform, _state) = setup();
    let idx = HwbpSlot::Dr0.index();
    reg.slots[idx].active = true;
    reg.slots[idx].address = 0;
    reg.slots[idx].callback = 0;
    let result = check_slot(&reg, idx);
    assert!(!result.ok);
    assert_eq!(result.reason, Some("slot active but address is zero"));
}

#[test]
fn slot_check_fails_on_active_with_null_callback() {
    let (mut reg, _platform, _state) = setup();
    let idx = HwbpSlot::Dr1.index();
    reg.slots[idx].active = true;
    reg.slots[idx].address = 0xDEAD_BEEF;
    reg.slots[idx].callback = 0;
    let result = check_slot(&reg, idx);
    assert!(!result.ok);
    assert_eq!(result.reason, Some("slot active but callback is null"));
}

#[test]
fn slot_check_fails_on_inactive_with_stale_address() {
    let (mut reg, _platform, _state) = setup();
    let idx = HwbpSlot::Dr2.index();
    reg.slots[idx].active = false;
    reg.slots[idx].address = 0xCAFE_BABE;
    reg.slots[idx].callback = 0;
    let result = check_slot(&reg, idx);
    assert!(!result.ok);
    assert_eq!(result.reason, Some("slot inactive but address is non-zero (stale entry)"));
}

#[test]
fn slot_check_fails_on_inactive_with_stale_callback() {
    let (mut reg, _platform, _state) = setup();
    let idx = HwbpSlot::Dr3.index();
    reg.slots[idx].active = false;
    reg.slots[idx].address = 0;
    reg.slots[idx].callback = 0x4242;
    let result = check_slot(&reg, idx);
    assert!(!result.ok);
    assert_eq!(result.reason, Some("slot inactive but callback is non-null (stale entry)"));
}

#[test]
fn verify_hooks_enters_safe_mode_on_corruption() {
    let (mut reg, platform, mut state) = setup();
    let idx = HwbpSlot::Dr0.index();
    reg.slots[idx].active = true;
    reg.slots[idx].address = 0x1234;
    reg.slots[idx].callback = 0;
    let result = verify_hooks_or_safe_mode(&mut state, &reg, &platform);
    assert!(result.is_err(), "should fail with corrupted slot");
    assert!(is_safe_mode(&state), "should be in safe mode after failure");
    assert_eq!(
        result,
        Err("Hook integrity check failed on slot 0: slot active but callback is null".to_string())
    );
}

#[test]
fn verify_hooks_ok_when_clean() {
    let (reg, platform, mut state) = setup();
    let result = verify_hooks_or_safe_mode(&mut state, &reg, &platform);
    assert!(result.is_ok(), "clean registry should pass");
    assert!(!is_safe_mode(&state), "should not be in safe mode after passing check");
}

#[test]
fn register_then_check_passes() {
    let (mut reg, mut platform, _state) = setup();
    hwbp::register(&mut reg, &mut platform, HwbpSlot::Dr0, 0x4000, 0x99).expect("register should succeed on non-windows stub");
    let report = run_integrity_check(&reg, &platform);
    assert!(report.passed, "registered valid slot should pass integrity check");
}

#[test]
fn counter_callback_snapshots_value() {
    let mut state = IntegrityState::new();
    let continued = outbound_counter_hook::callback(&mut state, Some(0x37));
    assert!(continued, "callback must return true (continue execution)");
    assert_eq!(last_outbound_counter(&state), 0x37, "snapshot should match the counter value written");
}

#[test]
fn counter_callback_null_pointer_is_safe() {
    let mut state = IntegrityState::new();
    state.last_outbound_counter = 0x55;
    let continued = outbound_counter_hook::callback(&mut state, None);
    assert!(continued, "null-pointer callback must still return true");
    assert_eq!(last_outbound_counter(&state), 0x55, "snapshot should be unchanged after null-pointer callback");
}

#[test]
fn counter_preserved_across_frame_boundaries() {
    let mut state = IntegrityState::new();
    outbound_counter_hook::callback(&mut state, Some(0x10));
    assert_eq!(last_outbound_counter(&state), 0x10, "after frame 1 write");
    outbound_counter_hook::callback(&mut state, Some(0x09));
    assert_eq!(last_outbound_counter(&state), 0x09, "after frame 2 write");
    outbound_counter_hook::callback(&mut state, Some(0x47));
    assert_eq!(last_outbound_counter(&state), 0x47, "after heartbeat refill");
}

#[test]
fn outbound_counter_hook_install_remove_stub() {
    let (mut reg, mut platform, _state) = setup();
    let fake_addr: usize = 0x0001_40F6_0FC8;
    outbound_counter_hook::install(&mut reg, &mut platform, fake_addr, 0x5).expect("stub install should succeed");
    outbound_counter_hook::remove(&mut reg, &mut platform, fake_addr);
    for idx in 0..MAX_SLOTS {
        if let Some(slot) = HwbpSlot::from_index(idx) {
            assert_ne!(hwbp::get_address(&reg, slot), fake_addr, "slot {idx} should not hold counter addr after remove");
        }
    }
}
