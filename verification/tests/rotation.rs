use textquest_dll::hooks::rotation::{
    next_rotation_count, rotation_cycle, rotation_sleep_ms, RotationStep, UNHOOK_PAUSE_MS,
};

#[test]
fn rotation_cycle_removes_then_restores_in_order() {
    assert_eq!(
        rotation_cycle(2),
        vec![
            RotationStep::Unhook(0),
            RotationStep::Unhook(1),
            RotationStep::Pause(UNHOOK_PAUSE_MS),
            RotationStep::Rehook(0),
            RotationStep::Rehook(1),
        ]
    );
}

#[test]
fn rotation_cycle_without_hooks_only_pauses() {
    assert_eq!(rotation_cycle(0), vec![RotationStep::Pause(50)]);
}

#[test]
fn rotation_sleep_covers_rest_of_interval() {
    assert_eq!(rotation_sleep_ms(0, 10), 0);
    assert_eq!(rotation_sleep_ms(1000, 120), 880);
    assert_eq!(rotation_sleep_ms(1000, 1000), 0);
    assert_eq!(rotation_sleep_ms(1000, 5000), 0);
}

#[test]
fn rotation_count_wraps_like_an_atomic_add() {
    assert_eq!(next_rotation_count(0), 1);
    assert_eq!(next_rotation_count(41), 42);
    assert_eq!(next_rotation_count(u64::MAX), 0);
}
