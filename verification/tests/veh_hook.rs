use textquest_dll::hooks::veh_hook::{
    hook_count, install, is_installed, page_base, record_step, remove, remove_all, veh_after_callback, veh_dispatch,
    PageProtection,
    ExceptionEvent, StubVehPlatform, VehHookKind, VehRegistry, VehStep, EXCEPTION_BREAKPOINT, EXCEPTION_SINGLE_STEP,
    STATUS_ACCESS_VIOLATION, STATUS_GUARD_PAGE_VIOLATION,
};

const NOOP_CALLBACK: usize = 0x4000;

#[test]
fn install_and_is_installed() {
    let mut reg = VehRegistry::new();
    let mut p = StubVehPlatform::new();
    remove_all(&mut reg, &mut p);
    assert!(install(&mut reg, &mut p, 0xDEAD_BEEF, VehHookKind::PageGuard, NOOP_CALLBACK).is_ok());
    assert!(is_installed(&reg, 0xDEAD_BEEF));
    assert_eq!(hook_count(&reg), 1);
    remove_all(&mut reg, &mut p);
}

#[test]
fn remove_clears_entry() {
    let mut reg = VehRegistry::new();
    let mut p = StubVehPlatform::new();
    install(&mut reg, &mut p, 0x1000, VehHookKind::PageGuard, NOOP_CALLBACK).unwrap();
    assert!(is_installed(&reg, 0x1000));
    remove(&mut reg, &mut p, 0x1000).unwrap();
    assert!(!is_installed(&reg, 0x1000));
    assert_eq!(hook_count(&reg), 0);
}

#[test]
fn remove_unknown_addr_is_noop() {
    let mut reg = VehRegistry::new();
    let mut p = StubVehPlatform::new();
    assert!(remove(&mut reg, &mut p, 0xFFFF_0000).is_ok());
}

#[test]
fn remove_all_is_idempotent() {
    let mut reg = VehRegistry::new();
    let mut p = StubVehPlatform::new();
    remove_all(&mut reg, &mut p);
    remove_all(&mut reg, &mut p);
    remove_all(&mut reg, &mut p);
    assert_eq!(hook_count(&reg), 0);
}

#[test]
fn multiple_hooks_tracked_independently() {
    let mut reg = VehRegistry::new();
    let mut p = StubVehPlatform::new();
    install(&mut reg, &mut p, 0x2000, VehHookKind::PageGuard, NOOP_CALLBACK).unwrap();
    install(&mut reg, &mut p, 0x3000, VehHookKind::PageNoAccess, NOOP_CALLBACK).unwrap();
    let addr: usize = 0x4000;
    install(&mut reg, &mut p, addr, VehHookKind::Int3, NOOP_CALLBACK).unwrap();
    assert_eq!(hook_count(&reg), 3);
    assert!(is_installed(&reg, 0x2000));
    assert!(is_installed(&reg, 0x3000));
    assert!(is_installed(&reg, addr));
    remove_all(&mut reg, &mut p);
    assert_eq!(hook_count(&reg), 0);
}

#[test]
fn hook_count_reflects_table_size() {
    let mut reg = VehRegistry::new();
    let mut p = StubVehPlatform::new();
    assert_eq!(hook_count(&reg), 0);
    install(&mut reg, &mut p, 0x5000, VehHookKind::PageGuard, NOOP_CALLBACK).unwrap();
    assert_eq!(hook_count(&reg), 1);
    install(&mut reg, &mut p, 0x6000, VehHookKind::PageGuard, NOOP_CALLBACK).unwrap();
    assert_eq!(hook_count(&reg), 2);
    remove(&mut reg, &mut p, 0x5000).unwrap();
    assert_eq!(hook_count(&reg), 1);
    remove_all(&mut reg, &mut p);
    assert_eq!(hook_count(&reg), 0);
}

#[test]
fn veh_hook_kind_debug_formatting() {
    assert_eq!(format!("{:?}", VehHookKind::PageGuard), "PageGuard");
    assert_eq!(format!("{:?}", VehHookKind::Int3), "Int3");
    assert_eq!(format!("{:?}", VehHookKind::PageNoAccess), "PageNoAccess");
}

fn ev(code: u32, rip: usize, n: u32, fault: usize) -> ExceptionEvent {
    ExceptionEvent { code, rip, number_parameters: n, fault_address: fault }
}

#[test]
fn exceptions_dispatch_to_the_matching_hook() {
    let mut reg = VehRegistry::new();
    let mut p = StubVehPlatform::new();
    install(&mut reg, &mut p, 0x7000, VehHookKind::Int3, 0x11).unwrap();
    install(&mut reg, &mut p, 0x8010, VehHookKind::PageGuard, 0x22).unwrap();
    install(&mut reg, &mut p, 0x9020, VehHookKind::PageNoAccess, 0x33).unwrap();
    assert_eq!(
        veh_dispatch(&reg, ev(EXCEPTION_BREAKPOINT, 0x7000, 0, 0)),
        VehStep::Callback { callback: 0x11, kind: VehHookKind::Int3, fault_addr: 0x7000 }
    );
    assert_eq!(veh_dispatch(&reg, ev(EXCEPTION_BREAKPOINT, 0x7001, 0, 0)), VehStep::ContinueSearch);
    assert_eq!(
        veh_dispatch(&reg, ev(STATUS_GUARD_PAGE_VIOLATION, 0, 2, 0x8010)),
        VehStep::Callback { callback: 0x22, kind: VehHookKind::PageGuard, fault_addr: 0x8010 }
    );
    assert_eq!(veh_dispatch(&reg, ev(STATUS_GUARD_PAGE_VIOLATION, 0, 2, 0x8FF0)), VehStep::SingleStepAndContinue);
    assert_eq!(veh_dispatch(&reg, ev(STATUS_GUARD_PAGE_VIOLATION, 0, 1, 0x8010)), VehStep::ContinueSearch);
    assert_eq!(veh_dispatch(&reg, ev(STATUS_GUARD_PAGE_VIOLATION, 0, 2, 0xA000)), VehStep::ContinueSearch);
    assert_eq!(
        veh_dispatch(&reg, ev(STATUS_ACCESS_VIOLATION, 0, 2, 0x9400)),
        VehStep::RestoreAndSingleStep { fault_addr: 0x9400 }
    );
    assert_eq!(veh_dispatch(&reg, ev(0xC000_0094, 0, 2, 0x9020)), VehStep::ContinueSearch);
    assert_eq!(veh_dispatch(&reg, ev(EXCEPTION_SINGLE_STEP, 0, 0, 0)), VehStep::ContinueSearch);
    record_step(&mut reg, &VehStep::SingleStepAndContinue);
    match veh_dispatch(&reg, ev(EXCEPTION_SINGLE_STEP, 0, 0, 0)) {
        VehStep::Rearm { guard_targets, noaccess_targets } => {
            assert_eq!(guard_targets, vec![0x8010]);
            assert_eq!(noaccess_targets, vec![0x9020]);
        }
        other => panic!("expected Rearm, got {other:?}"),
    }
}

#[test]
fn callback_outcomes_decide_the_next_step() {
    let mut reg = VehRegistry::new();
    let mut p = StubVehPlatform::new();
    install(&mut reg, &mut p, 0x8010, VehHookKind::PageGuard, 0x22).unwrap();
    assert_eq!(veh_after_callback(&reg, VehHookKind::Int3, 0x7000, true), VehStep::AdvanceRipAndContinue);
    assert_eq!(veh_after_callback(&reg, VehHookKind::Int3, 0x7000, false), VehStep::ContinueSearch);
    assert_eq!(veh_after_callback(&reg, VehHookKind::PageGuard, 0x8010, true), VehStep::SingleStepAndContinue);
    assert_eq!(veh_after_callback(&reg, VehHookKind::PageGuard, 0x8010, false), VehStep::SingleStepAndContinue);
    assert_eq!(
        veh_after_callback(&reg, VehHookKind::PageNoAccess, 0x9000, true),
        VehStep::RestoreAndSingleStep { fault_addr: 0x9000 }
    );
    assert_eq!(veh_after_callback(&reg, VehHookKind::PageNoAccess, 0x9000, false), VehStep::ContinueSearch);
}

#[test]
fn page_base_rounds_down_to_four_kib() {
    assert_eq!(page_base(0x1234_5678), 0x1234_5000);
    assert_eq!(page_base(0x1000), 0x1000);
    assert_eq!(page_base(0xFFF), 0);
}

#[test]
fn single_step_without_pending_trap_is_passed_on() {
    let mut reg = VehRegistry::new();
    let mut p = StubVehPlatform::new();
    install(&mut reg, &mut p, 0x8010, VehHookKind::PageGuard, 0x22).unwrap();
    let step = ev(EXCEPTION_SINGLE_STEP, 0x1234, 0, 0);
    assert_eq!(veh_dispatch(&reg, step), VehStep::ContinueSearch);
    record_step(&mut reg, &VehStep::RestoreAndSingleStep { fault_addr: 0x8010 });
    let rearm = veh_dispatch(&reg, step);
    assert!(matches!(rearm, VehStep::Rearm { .. }));
    record_step(&mut reg, &rearm);
    assert_eq!(veh_dispatch(&reg, step), VehStep::ContinueSearch);
}

#[test]
fn int3_hook_writes_and_restores_the_code_byte() {
    let mut reg = VehRegistry::new();
    let mut p = StubVehPlatform::new();
    p.code.insert(0x7000, 0x55);
    install(&mut reg, &mut p, 0x7000, VehHookKind::Int3, NOOP_CALLBACK).unwrap();
    assert!(p.veh_installed);
    assert_eq!(p.code.get(&0x7000), Some(&0xCC));
    remove(&mut reg, &mut p, 0x7000).unwrap();
    assert_eq!(p.code.get(&0x7000), Some(&0x55));
    assert!(!p.veh_installed);
}

#[test]
fn page_hooks_protect_and_restore_their_page() {
    let mut reg = VehRegistry::new();
    let mut p = StubVehPlatform::new();
    install(&mut reg, &mut p, 0x8010, VehHookKind::PageGuard, NOOP_CALLBACK).unwrap();
    install(&mut reg, &mut p, 0x9020, VehHookKind::PageNoAccess, NOOP_CALLBACK).unwrap();
    assert_eq!(p.pages.get(&0x8000), Some(&PageProtection::Guard));
    assert_eq!(p.pages.get(&0x9000), Some(&PageProtection::NoAccess));
    remove_all(&mut reg, &mut p);
    assert_eq!(p.pages.get(&0x8000), Some(&PageProtection::Restored(0x20)));
    assert_eq!(p.pages.get(&0x9000), Some(&PageProtection::Restored(0x20)));
    assert!(!p.veh_installed);
}
