use textquest_dll::hooks::movement::{ExecuteCmd, MovementController, CMD_BACK, CMD_FORWARD};

#[test]
fn controller_new_and_valid() {
    let ctrl = MovementController::new(0x1000);
    assert!(ctrl.is_valid());
    let ctrl_null = MovementController::new(0);
    assert!(!ctrl_null.is_valid());
}

#[test]
fn controller_set_player_base() {
    let mut ctrl = MovementController::new(0);
    assert!(!ctrl.is_valid());
    ctrl.set_player_base(0xDEAD);
    assert!(ctrl.is_valid());
}

#[test]
fn key_commands_map_to_executor_calls() {
    let ctrl = MovementController::new(0x1000);
    assert_eq!(ctrl.press_forward(), ExecuteCmd { command: CMD_FORWARD, key_down: 1, data: 0, target: 0 });
    assert_eq!(ctrl.stop_forward(), ExecuteCmd { command: CMD_FORWARD, key_down: 0, data: 0, target: 0 });
    assert_eq!(ctrl.press_back(), ExecuteCmd { command: CMD_BACK, key_down: 1, data: 0, target: 0 });
    assert_eq!(ctrl.stop_back(), ExecuteCmd { command: CMD_BACK, key_down: 0, data: 0, target: 0 });
}
