use textquest_dll::hooks::slot_manager::{HookGameState, HookKind, HookSlotManager};

#[test]
fn assigns_login_priority() {
    let mut mgr = HookSlotManager::new();
    let plan = mgr.rotate_hooks(HookGameState::Login);
    assert_eq!(mgr.state(), HookGameState::Login);
    assert_eq!(plan.assignments[0], Some(HookKind::GiveTime));
    assert_eq!(plan.assignments[1], None);
    assert!(plan.changed);
}

#[test]
fn assigns_ingame_priority() {
    let mut mgr = HookSlotManager::new();
    let plan = mgr.rotate_hooks(HookGameState::InGame);
    assert_eq!(mgr.state(), HookGameState::InGame);
    assert_eq!(plan.assignments[0], Some(HookKind::ProcessGameEvents));
    assert_eq!(plan.assignments[1], Some(HookKind::RealRenderWorld));
    assert_eq!(plan.assignments[2], Some(HookKind::DspChat));
    assert_eq!(plan.assignments[3], None);
}

#[test]
fn assigns_zoneloading_priority() {
    let mut mgr = HookSlotManager::new();
    let plan = mgr.rotate_hooks(HookGameState::ZoneLoading);
    assert_eq!(mgr.state(), HookGameState::ZoneLoading);
    assert_eq!(plan.assignments[0], Some(HookKind::ProcessGameEvents));
    assert_eq!(plan.assignments[1], Some(HookKind::SetGameState));
    assert_eq!(plan.assignments[2], None);
    assert_eq!(plan.assignments[3], None);
}

#[test]
fn rotate_reports_no_change_for_same_state() {
    let mut mgr = HookSlotManager::new();
    mgr.rotate_hooks(HookGameState::InGame);
    let second = mgr.rotate_hooks(HookGameState::InGame);
    assert!(!second.changed);
    assert_eq!(second.assignments, mgr.assignments);
}

#[test]
fn rotate_updates_state() {
    let mut mgr = HookSlotManager::new();
    assert_eq!(mgr.state(), HookGameState::Login);
    let _ = mgr.rotate_hooks(HookGameState::ZoneLoading);
    assert_eq!(mgr.state(), HookGameState::ZoneLoading);
    let second_plan = mgr.rotate_hooks(HookGameState::ZoneLoading);
    assert_eq!(*mgr.assignments(), second_plan.assignments);
}

#[test]
fn new_manager_has_login_state_and_all_none_assignments() {
    let mgr = HookSlotManager::new();
    assert_eq!(mgr.state(), HookGameState::Login);
    for slot in mgr.assignments().iter() {
        assert_eq!(*slot, None);
    }
}

#[test]
fn state_transition_between_different_states_reports_changed() {
    let mut mgr = HookSlotManager::new();
    mgr.rotate_hooks(HookGameState::Login);
    let plan = mgr.rotate_hooks(HookGameState::InGame);
    assert!(plan.changed, "transitioning from Login to InGame should report changed");
}

#[test]
fn game_state_display_formatting() {
    assert_eq!(HookGameState::Login.name(), "Login");
    assert_eq!(HookGameState::InGame.name(), "InGame");
    assert_eq!(HookGameState::ZoneLoading.name(), "ZoneLoading");
}

#[test]
fn slot_rotation_changed_flag_reflects_assignment_diff() {
    let mut mgr = HookSlotManager::new();
    let first = mgr.rotate_hooks(HookGameState::Login);
    assert!(first.changed);
    let second = mgr.rotate_hooks(HookGameState::Login);
    assert!(!second.changed);
    let third = mgr.rotate_hooks(HookGameState::ZoneLoading);
    assert!(third.changed);
}
