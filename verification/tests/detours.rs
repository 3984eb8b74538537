use textquest_dll::hooks::detours::{
    detour_candidate_names, hook_crender_reset_device, hook_sidl_screen_wnd_init, install_all, rebase, DetourCandidate,
    DetourManager,
};

fn hook_addr(f: fn()) -> usize {
    f as usize
}

#[test]
fn detour_install_uninstall_bookkeeping() {
    let mut manager = DetourManager::new();
    assert!(!manager.is_installed("ui_init"));
    manager
        .install("ui_init", 0x1111_2222, hook_addr(hook_sidl_screen_wnd_init))
        .expect("install should record detour");
    assert!(manager.is_installed("ui_init"));
    assert!(manager.install("ui_init", 0x3333_4444, hook_addr(hook_crender_reset_device)).is_err());
    manager.uninstall("ui_init").expect("uninstall should remove an installed detour");
    assert!(!manager.is_installed("ui_init"));
}

#[test]
fn uninstall_nonexistent_returns_error() {
    let mut manager = DetourManager::new();
    let result = manager.uninstall("does_not_exist");
    assert!(result.is_err());
}

#[test]
fn remove_all_clears_everything() {
    let mut manager = DetourManager::new();
    manager.install("a", 0x1000, hook_addr(hook_sidl_screen_wnd_init)).unwrap();
    manager.install("b", 0x2000, hook_addr(hook_crender_reset_device)).unwrap();
    assert!(manager.is_installed("a"));
    assert!(manager.is_installed("b"));
    manager.remove_all();
    assert!(!manager.is_installed("a"));
    assert!(!manager.is_installed("b"));
}

#[test]
fn remove_all_on_empty_is_noop() {
    let mut manager = DetourManager::new();
    manager.remove_all();
}

#[test]
fn install_after_uninstall_succeeds() {
    let mut manager = DetourManager::new();
    manager.install("hook", 0x1000, hook_addr(hook_sidl_screen_wnd_init)).unwrap();
    manager.uninstall("hook").unwrap();
    let result = manager.install("hook", 0x2000, hook_addr(hook_crender_reset_device));
    assert!(result.is_ok());
    assert!(manager.is_installed("hook"));
}

#[test]
fn multiple_detours_independent() {
    let mut manager = DetourManager::new();
    manager.install("first", 0x1000, hook_addr(hook_sidl_screen_wnd_init)).unwrap();
    manager.install("second", 0x2000, hook_addr(hook_crender_reset_device)).unwrap();
    manager.uninstall("first").unwrap();
    assert!(!manager.is_installed("first"));
    assert!(manager.is_installed("second"));
}

#[test]
fn default_creates_new_manager() {
    let manager = DetourManager::default();
    assert!(!manager.is_installed("anything"));
}

#[test]
fn detour_install_noop_when_offsets_are_placeholder() {
    let mut manager = DetourManager::new();
    let candidates: Vec<DetourCandidate> = detour_candidate_names()
        .into_iter()
        .map(|name| DetourCandidate { name, preferred_addr: 0, hook_fn: 0 })
        .collect();
    assert!(install_all(&mut manager, 0x1400_0000, &candidates).is_ok());
    assert!(!manager.is_installed("hook_sidl_screen_wnd_init"));
}

#[test]
fn detour_candidates_cover_parity_hooks() {
    let names = detour_candidate_names().into_iter().collect::<std::collections::BTreeSet<_>>();
    assert_eq!(names.len(), 6);
    assert!(names.contains("hook_sidl_screen_wnd_init"));
    assert!(names.contains("hook_cxwnd_manager_remove_wnd"));
    assert!(names.contains("hook_cmerchantwnd_purchasepagehandler_update_list"));
    assert!(names.contains("hook_process_mouse_events"));
    assert!(names.contains("hook_process_keyboard_events"));
    assert!(names.contains("hook_crender_reset_device"));
}

#[test]
fn rebase_moves_preferred_addresses_to_the_real_base() {
    assert_eq!(rebase(0x1_4000_1000, 0x2_0000_0000), Some(0x2_0000_1000));
    assert_eq!(rebase(0x1_4000_1000, 0), None);
    assert_eq!(rebase(0x1000, 0x2_0000_0000), None);
    assert_eq!(rebase(u64::MAX, u64::MAX), None);
}

#[test]
fn install_all_reports_taken_names() {
    let mut manager = DetourManager::new();
    manager.install("b", 0x10, 1).unwrap();
    let candidates = vec![
        DetourCandidate { name: "a", preferred_addr: 0x1_4000_0010, hook_fn: 2 },
        DetourCandidate { name: "b", preferred_addr: 0x1_4000_0020, hook_fn: 3 },
        DetourCandidate { name: "a", preferred_addr: 0x1_4000_0030, hook_fn: 4 },
        DetourCandidate { name: "c", preferred_addr: 0, hook_fn: 5 },
    ];
    let r = install_all(&mut manager, 0x2_0000_0000, &candidates);
    assert_eq!(
        r,
        Err("detour install failures: b: detour already installed, a: detour already installed".to_string())
    );
    assert!(manager.is_installed("a"));
    assert!(!manager.is_installed("c"));
}
