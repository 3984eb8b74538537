use textquest_dll::hooks::hwbp::{self, HwbpRegistry, HwbpSlot, StubPlatform};
use textquest_dll::hooks::set_game_state::{
    install, observe_game_state, remove, set_game_state_callback, GameStateTracker, SET_GAME_STATE_SLOT,
};

#[test]
fn set_game_state_slot_is_dr2() {
    assert_eq!(SET_GAME_STATE_SLOT, HwbpSlot::Dr2);
}

#[test]
fn callback_is_noop_on_stub_build() {
    assert!(set_game_state_callback());
}

#[test]
fn state_changes_are_reported_once() {
    let mut tracker = GameStateTracker::new();
    assert_eq!(observe_game_state(&mut tracker, 5), Some(5));
    assert_eq!(observe_game_state(&mut tracker, 5), None);
    assert_eq!(observe_game_state(&mut tracker, 1), Some(1));
    assert_eq!(tracker.last_game_state, 1);
}

#[test]
fn game_state_hook_arms_dr2() {
    let mut reg = HwbpRegistry::new();
    let mut platform = StubPlatform::new();
    assert!(install(&mut reg, &mut platform, 0x4000, 0x10).is_ok());
    assert!(hwbp::is_active(&reg, HwbpSlot::Dr2));
    remove(&mut reg, &mut platform);
    assert!(!hwbp::is_active(&reg, HwbpSlot::Dr2));
}
