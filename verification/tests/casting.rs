use textquest_dll::hooks::casting::{CastError, CastingController, EqCall};

#[test]
fn cast_spell_rejects_slot_zero() {
    let ctrl = CastingController::new(0x1400_0000);
    let result = ctrl.cast_spell(0, 0);
    assert!(matches!(result, Err(CastError::InvalidSlot(0))));
}

#[test]
fn cast_spell_rejects_slot_fourteen() {
    let ctrl = CastingController::new(0x1400_0000);
    let result = ctrl.cast_spell(14, 0);
    assert!(matches!(result, Err(CastError::InvalidSlot(14))));
}

#[test]
fn cast_spell_accepts_slot_thirteen() {
    let ctrl = CastingController::new(0);
    let result = ctrl.cast_spell(13, 0);
    assert!(matches!(result, Err(CastError::NoBaseAddress)));
}

#[test]
fn use_ability_rejects_zero_base() {
    let ctrl = CastingController::new(0);
    let result = ctrl.use_ability(100);
    assert!(matches!(result, Err(CastError::NoBaseAddress)));
}

#[test]
fn use_item_rejects_zero_base() {
    let ctrl = CastingController::new(0);
    let result = ctrl.use_item(13);
    assert!(matches!(result, Err(CastError::NoBaseAddress)));
}

#[test]
fn use_item_by_name_rejects_empty_sanitized() {
    let ctrl = CastingController::new(0x1400_0000);
    let result = ctrl.use_item_by_name("\"\"");
    assert!(matches!(result, Err(CastError::InvalidItem(_))));
}

#[test]
fn use_item_by_name_rejects_zero_base_with_valid_name() {
    let ctrl = CastingController::new(0);
    let result = ctrl.use_item_by_name("Fungi Tunic");
    assert!(matches!(result, Err(CastError::NoBaseAddress)));
}

#[test]
fn cast_spell_hands_zero_based_gem_to_the_game() {
    let ctrl = CastingController::new(0x1400_0000);
    assert_eq!(ctrl.cast_spell(1, 7), Ok(EqCall::CastSpell { gem_id: 0, spell_id: 0 }));
    assert_eq!(ctrl.cast_spell(13, 7), Ok(EqCall::CastSpell { gem_id: 12, spell_id: 0 }));
}

#[test]
fn use_item_builds_useitem_command() {
    let ctrl = CastingController::new(0x1400_0000);
    assert_eq!(ctrl.use_item(13), Ok(EqCall::SlashCommand("/useitem 13".to_string())));
}

#[test]
fn use_item_by_name_strips_quotes_and_controls_then_trims() {
    let ctrl = CastingController::new(0x1400_0000);
    assert_eq!(
        ctrl.use_item_by_name("  Fungi\u{7}\"Tunic\"  "),
        Ok(EqCall::SlashCommand("/useitem \"FungiTunic\"".to_string()))
    );
    match ctrl.use_item_by_name(" \u{1b} ") {
        Err(CastError::InvalidItem(n)) => assert_eq!(n, " \u{1b} "),
        other => panic!("expected InvalidItem, got {other:?}"),
    }
}

#[test]
fn use_ability_passes_id_and_flag() {
    let ctrl = CastingController::new(1);
    assert_eq!(ctrl.use_ability(100), Ok(EqCall::CombatAbility { ability_id: 100, allow_while_moving: true }));
}

#[test]
fn interrupt_and_is_casting_stubs() {
    let ctrl = CastingController::new(0);
    assert_eq!(ctrl.interrupt_cast(), Err(CastError::NoBaseAddress));
    assert_eq!(ctrl.is_casting(), Err(CastError::NoBaseAddress));
    let mut ctrl = ctrl;
    ctrl.set_eq_base(0x1400_0000);
    assert_eq!(ctrl.interrupt_cast(), Err(CastError::PlatformStub));
    assert_eq!(ctrl.is_casting(), Ok(false));
}

#[test]
fn cast_error_messages() {
    assert_eq!(CastError::InvalidSlot(14).message(), "spell gem slot 14 is out of range (valid: 1-13)");
    assert_eq!(CastError::InvalidItem("x".to_string()).message(), "invalid item slot or name: x");
    assert_eq!(CastError::NoBaseAddress.message(), "EQ base address not set -- cannot resolve pointers");
}
