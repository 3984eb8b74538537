//! Hook management: slot planning, registries, parsers and state machines.
use vstd::prelude::*;

pub mod casting;
pub mod chat;
pub mod detours;
pub mod dx11_null;
pub mod eqmain_hook;
pub mod file_integrity_dispatcher;
pub mod fingerprint;
pub mod game_loop;
pub mod hwbp;
pub mod inbound_counter;
pub mod integrity;
pub mod memcheck;
pub mod movement;
pub mod overlay;
pub mod packet_hook;
pub mod render;
pub mod rotation;
pub mod set_game_state;
pub mod slot_manager;
pub mod targeting;
pub mod timing;
pub mod veh_hook;
pub mod wmi;

use crate::hooks::detours::DetourManager;
use crate::hooks::hwbp::{all_empty, HwbpPlatform, HwbpRegistry, MAX_SLOTS};
use crate::hooks::slot_manager::{plan_for, HookGameState, HookSlotManager};

verus! {

/// Where the catalog of hooks and their detection surface is kept.
pub const HOOK_CATALOG: &'static str = "docs/research/hook-detection-surface.md";

/// Record the new game state: the slot plan rotates to the plan for that
/// state (the register writes happen on the game thread).
pub fn set_game_state(manager: &mut HookSlotManager, game_state: HookGameState)
    ensures
        final(manager).state == game_state,
        final(manager).assignments@ == plan_for(game_state),
{
    let _rotation = manager.rotate_hooks(game_state);
}

/// Install every hook that installs at startup (none do yet).
pub fn install_all() -> (r: Result<(), String>)
    ensures
        r is Ok,
{
    Ok(())
}

/// Remove every hook: all detours, and every debug-register slot.
pub fn remove_all<P: HwbpPlatform>(detours: &mut DetourManager, reg: &mut HwbpRegistry, platform: &mut P)
    ensures
        final(detours).wf(),
        final(detours)@ == Map::<Seq<char>, crate::hooks::detours::DetourRecord>::empty(),
        final(reg).slots@.len() == MAX_SLOTS,
        all_empty(final(reg).slots@),
        !final(platform).handler_installed(),
{
    detours.remove_all();
    hwbp::remove_all(reg, platform);
    fingerprint::remove();
    chat::remove(reg, platform);
    memcheck::remove(reg, platform);
    timing::remove();
    set_game_state::remove(reg, platform);
    wmi::remove();
}

} // verus!
