use textquest_dll::hooks::detours::DetourManager;
use textquest_dll::hooks::hwbp::{self, HwbpRegistry, HwbpSlot, StubPlatform};
use textquest_dll::hooks::slot_manager::{HookGameState, HookKind, HookSlotManager};
use textquest_dll::hooks::{install_all, remove_all, set_game_state, HOOK_CATALOG};

#[test]
fn set_game_state_does_not_panic() {
    let mut manager = HookSlotManager::new();
    set_game_state(&mut manager, HookGameState::Login);
    set_game_state(&mut manager, HookGameState::InGame);
    set_game_state(&mut manager, HookGameState::ZoneLoading);
}

#[test]
fn set_game_state_idempotent() {
    let mut manager = HookSlotManager::new();
    set_game_state(&mut manager, HookGameState::InGame);
    set_game_state(&mut manager, HookGameState::InGame);
}

#[test]
fn install_all_returns_ok() {
    assert!(install_all().is_ok());
}

#[test]
fn remove_all_does_not_panic() {
    let mut detours = DetourManager::new();
    let mut reg = HwbpRegistry::new();
    let mut platform = StubPlatform::new();
    remove_all(&mut detours, &mut reg, &mut platform);
}

#[test]
fn set_game_state_updates_slot_plan() {
    let mut manager = HookSlotManager::new();
    set_game_state(&mut manager, HookGameState::InGame);
    assert_eq!(manager.state(), HookGameState::InGame);
    assert_eq!(manager.assignments()[0], Some(HookKind::ProcessGameEvents));
}

#[test]
fn hook_catalog_constant_is_set() {
    assert!(!HOOK_CATALOG.is_empty());
    assert!(HOOK_CATALOG.contains("hook-detection"));
}

#[test]
fn remove_all_clears_every_hook() {
    let mut detours = DetourManager::new();
    detours.install("x", 1, 2).unwrap();
    let mut reg = HwbpRegistry::new();
    let mut platform = StubPlatform::new();
    hwbp::register(&mut reg, &mut platform, HwbpSlot::Dr3, 0x500, 0x9).unwrap();
    remove_all(&mut detours, &mut reg, &mut platform);
    assert!(!detours.is_installed("x"));
    assert!(!hwbp::is_active(&reg, HwbpSlot::Dr3));
    assert_eq!(hwbp::active_count(&reg), 0);
}
