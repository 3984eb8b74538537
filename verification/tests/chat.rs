use textquest_dll::hooks::chat::{chat_callback, chat_text_len, install, remove, should_forward_to_combat, CHAT_HOOK_SLOT};
use textquest_dll::hooks::hwbp::{self, HwbpRegistry, HwbpSlot, StubPlatform};

#[test]
fn chat_callback_stub_returns_true() {
    assert!(chat_callback());
}

#[test]
fn chat_hook_slot_is_dr1() {
    assert_eq!(CHAT_HOOK_SLOT, HwbpSlot::Dr1);
}

#[test]
fn install_remove_roundtrip() {
    let mut reg = HwbpRegistry::new();
    let mut platform = StubPlatform::new();
    hwbp::remove_all(&mut reg, &mut platform);
    let dummy_addr = 0xDEAD_BEEF;
    assert!(install(&mut reg, &mut platform, dummy_addr, 0x1000).is_ok());
    assert!(hwbp::is_active(&reg, HwbpSlot::Dr1));
    remove(&mut reg, &mut platform);
    assert!(!hwbp::is_active(&reg, HwbpSlot::Dr1));
    hwbp::remove_all(&mut reg, &mut platform);
}

#[test]
fn only_unparsed_text_forwards_to_combat_parser() {
    let parsed: Option<&&str> = Some(&"say");
    assert!(!should_forward_to_combat(parsed));
    assert!(should_forward_to_combat::<&str>(None));
}

#[test]
fn chat_text_stops_at_nul_or_limit() {
    assert_eq!(chat_text_len(b"hello\0world"), 5);
    assert_eq!(chat_text_len(b"no terminator"), 13);
    assert_eq!(chat_text_len(b"\0"), 0);
    let long = vec![b'a'; 5000];
    assert_eq!(chat_text_len(&long), 4096);
}
