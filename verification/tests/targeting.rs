use textquest_dll::hooks::targeting::{SpawnNode, TargetError, TargetWrite, TargetingController};

#[test]
fn new_sets_eq_base() {
    let ctrl = TargetingController::new(0x1_4000_0000);
    assert_eq!(ctrl.eq_base, 0x1_4000_0000);
}

#[test]
fn set_eq_base_updates_value() {
    let mut ctrl = TargetingController::new(0x1_4000_0000);
    ctrl.set_eq_base(0x2_0000_0000);
    assert_eq!(ctrl.eq_base, 0x2_0000_0000);
}

#[test]
fn target_ptr_addr_errors_on_zero_base() {
    let ctrl = TargetingController::new(0);
    match ctrl.target_ptr_addr() {
        Err(TargetError::NoBaseAddress) => {}
        other => panic!("expected NoBaseAddress, got {other:?}"),
    }
}

#[test]
fn find_spawn_addr_errors_on_zero_base() {
    let ctrl = TargetingController::new(0);
    match ctrl.find_spawn_addr(1) {
        Err(TargetError::NoBaseAddress) => {}
        other => panic!("expected NoBaseAddress, got {other:?}"),
    }
}

#[test]
fn assist_errors_platform_stub_on_non_windows_any_base() {
    let ctrl = TargetingController::new(0);
    match ctrl.assist(42) {
        Err(TargetError::PlatformStub) => {}
        other => panic!("expected PlatformStub, got {other:?}"),
    }
}

#[test]
fn find_spawn_addr_returns_platform_stub_on_non_windows() {
    let ctrl = TargetingController::new(0x1_4000_0000);
    match ctrl.find_spawn_addr(99) {
        Err(TargetError::PlatformStub) => {}
        other => panic!("expected PlatformStub, got {other:?}"),
    }
}

#[test]
fn assist_returns_platform_stub_on_non_windows() {
    let ctrl = TargetingController::new(0x1_4000_0000);
    match ctrl.assist(1) {
        Err(TargetError::PlatformStub) => {}
        other => panic!("expected PlatformStub, got {other:?}"),
    }
}

#[test]
fn target_error_display_no_base() {
    let msg = TargetError::NoBaseAddress.message();
    assert!(msg.contains("base address"));
}

#[test]
fn target_error_display_spawn_not_found() {
    let msg = TargetError::SpawnNotFound(42).message();
    assert!(msg.contains("42"));
}

#[test]
fn target_error_display_platform_stub() {
    let msg = TargetError::PlatformStub.message();
    assert!(!msg.is_empty());
}

#[test]
fn target_error_display_invalid_assist_target() {
    let msg = TargetError::InvalidAssistTarget.message();
    assert!(msg.contains("assist"));
}

fn list() -> Vec<SpawnNode> {
    vec![
        SpawnNode { addr: 0x1000, spawn_id: 7 },
        SpawnNode { addr: 0x2000, spawn_id: 9 },
        SpawnNode { addr: 0x3000, spawn_id: 7 },
    ]
}

#[test]
fn spawn_list_search_finds_first_match() {
    let ctrl = TargetingController::new(1);
    assert_eq!(ctrl.find_spawn_addr_in(&list(), 7), Ok(0x1000));
    assert_eq!(ctrl.find_spawn_addr_in(&list(), 9), Ok(0x2000));
    assert_eq!(ctrl.find_spawn_addr_in(&list(), 5), Err(TargetError::SpawnNotFound(5)));
    assert_eq!(ctrl.find_spawn_id_by_addr_in(&list(), 0x3000), Ok(7));
    assert_eq!(ctrl.find_spawn_id_by_addr_in(&list(), 0x4000), Err(TargetError::InvalidAssistTarget));
}

#[test]
fn spawn_list_search_stops_after_five_thousand_nodes() {
    let ctrl = TargetingController::new(1);
    let mut nodes: Vec<SpawnNode> = (0..5000).map(|i| SpawnNode { addr: 0x10 + i, spawn_id: 1 }).collect();
    nodes.push(SpawnNode { addr: 0xFFFF, spawn_id: 2 });
    assert_eq!(ctrl.find_spawn_addr_in(&nodes, 2), Err(TargetError::SpawnNotFound(2)));
}

#[test]
fn target_writes_and_assist_decisions() {
    let ctrl = TargetingController::new(1);
    assert_eq!(ctrl.set_target_by_addr(0x1234), Ok(TargetWrite { value: 0x1234 }));
    assert_eq!(ctrl.clear_target(), Ok(TargetWrite { value: 0 }));
    assert_eq!(ctrl.get_current_target_id(), Ok(None));
    assert_eq!(ctrl.set_target(7), Err(TargetError::PlatformStub));
    assert_eq!(ctrl.assist_in(&list(), 0), Ok(TargetWrite { value: 0 }));
    assert_eq!(ctrl.assist_in(&list(), 0x2000), Ok(TargetWrite { value: 0x2000 }));
    assert_eq!(ctrl.assist_in(&list(), 0x9999), Err(TargetError::InvalidAssistTarget));
    let none = TargetingController::new(0);
    assert_eq!(none.set_target(7), Err(TargetError::NoBaseAddress));
    assert_eq!(none.assist_in(&list(), 0x2000), Err(TargetError::NoBaseAddress));
}

#[test]
fn set_target_in_writes_the_first_matching_spawn() {
    let ctrl = TargetingController::new(0x1_4000_0000);
    let list = [
        SpawnNode { addr: 0x1000, spawn_id: 7 },
        SpawnNode { addr: 0x2000, spawn_id: 9 },
        SpawnNode { addr: 0x3000, spawn_id: 9 },
    ];
    assert_eq!(ctrl.set_target_in(&list, 9), Ok(TargetWrite { value: 0x2000 }));
    assert_eq!(ctrl.set_target_in(&list, 4), Err(TargetError::SpawnNotFound(4)));
    assert_eq!(TargetingController::new(0).set_target_in(&list, 9), Err(TargetError::NoBaseAddress));
}
