//! Game-loop logic: slash-command parsing and translation, the casting
//! loop, bandolier restore, the enter-world sequence and the per-tick
//! schedule. The loop itself is driven by a hardware breakpoint on the
//! game's main loop (slot DR0).
use vstd::prelude::*;
use crate::hooks::hwbp::{self, slot_index, HwbpPlatform, HwbpRegistry, HwbpSlot, SlotEntry};
use crate::hooks::game_loop::state::GameLoopState;

pub mod bandolier;
pub mod cast_loop;
pub mod casting_cmd;
pub mod intercept;
pub mod jitter;
pub mod nav_dest;
pub mod queue;
pub mod route;
pub mod slash;
pub mod spawns;
pub mod stick;
pub mod spell_sets;
pub mod state;
pub mod title;
pub mod tokenize;
pub mod waypoints;

pub use self::bandolier::{next_bandolier_restore_command, BandolierState, PendingBandolierRestore};
pub use self::cast_loop::{CastLoopMode, CastingLoop, GameObservation, TargetObservation};
pub use self::casting_cmd::{parse_casting_command, CastingAction, ParsedCastingCommand};
pub use self::intercept::{
    intercept_custom_slash_command, is_click_right_target_command, rewrite_door_command,
    should_preclear_target_for_slash, InterceptedSlashCommand,
};
pub use self::queue::CommandQueue;
pub use self::route::{plan_cast_spell, plan_casting, route_slash_command, SlashRoute};
pub use self::slash::{
    bandolier_activate_command, is_item_slot_selector, parse_bandolier_activate_command,
    parse_pipe_option, quote_for_eq, spell_name_indicates_invisibility,
};
pub use self::spell_sets::{
    delete_spell_set, handle_spell_set_command, parse_spell_set_command, remove_spell_set_entries,
    SpellSetCommand,
};
pub use self::state::{EnterWorldAction, TickSchedule};
pub use self::tokenize::tokenize_slash_command;
pub use self::waypoints::{parse_nav_waypoint_command, NavWaypointCommand};

verus! {

/// The debug-register slot of the game-loop hook.
pub const GAME_LOOP_SLOT: HwbpSlot = HwbpSlot::Dr0;

/// Hook the game's main loop: arm DR0 on `main_loop_addr` with `callback`.
pub fn install<P: HwbpPlatform>(
    reg: &mut HwbpRegistry,
    platform: &mut P,
    main_loop_addr: usize,
    callback: usize,
) -> (r: Result<(), String>)
    ensures
        r is Ok ==> final(reg).slots@ == old(reg).slots@.update(
            slot_index(GAME_LOOP_SLOT),
            SlotEntry { address: main_loop_addr, active: true, callback },
        ),
        old(platform).operations_succeed() ==> r is Ok,
{
    hwbp::register(reg, platform, GAME_LOOP_SLOT, main_loop_addr, callback)
}

/// Unhook the main loop: DR0 is disarmed and cleared when it was armed;
/// otherwise nothing changes.
pub fn remove<P: HwbpPlatform>(reg: &mut HwbpRegistry, platform: &mut P)
    ensures
        old(reg).slots@[slot_index(GAME_LOOP_SLOT)].active ==> final(reg).slots@
            == old(reg).slots@.update(slot_index(GAME_LOOP_SLOT), hwbp::empty_entry()),
        !old(reg).slots@[slot_index(GAME_LOOP_SLOT)].active ==> *final(reg) == *old(reg),
        final(platform).handler_installed() == old(platform).handler_installed(),
{
    if hwbp::is_active(reg, GAME_LOOP_SLOT) {
        let _ = hwbp::unregister(reg, platform, GAME_LOOP_SLOT);
    }
}

/// Queue a login-button click for the next tick.
pub fn queue_button_click(state: &mut GameLoopState, button_wnd: usize)
    ensures
        final(state).pending_button_click == button_wnd,
        final(state).enter_world_stage == old(state).enter_world_stage,
{
    state.pending_button_click = button_wnd;
}

/// Whether the game window is in the foreground.
pub fn is_foreground(state: &GameLoopState) -> (r: bool)
    ensures
        r == state.window_is_foreground,
{
    state.window_is_foreground
}

/// Find the character-list window again. Without the game's window
/// manager to walk, there is none to find.
pub fn rescan_char_list_wnd() -> (r: Option<usize>)
    ensures
        r is None,
{
    None
}

/// Press Enter in the game window. Without a game window this does
/// nothing.
pub fn send_enter_to_eq() {
}

} // verus!
