//! The game-state hook: a breakpoint on the game's state setter, reporting
//! each change of state once.
use vstd::prelude::*;
use crate::hooks::hwbp::{self, slot_index, HwbpPlatform, HwbpRegistry, HwbpSlot, SlotEntry};

verus! {

/// The debug-register slot of the game-state hook.
pub const SET_GAME_STATE_SLOT: HwbpSlot = HwbpSlot::Dr2;

/// The last state the game set (`u32::MAX` before the first).
#[derive(Debug, Clone, Copy, PartialEq, Eq, Structural)]
pub struct GameStateTracker {
    pub last_game_state: u32,
}

impl GameStateTracker {
    /// No state seen yet.
    pub fn new() -> (r: Self)
        ensures
            r.last_game_state == u32::MAX,
    {
        GameStateTracker { last_game_state: u32::MAX }
    }
}

/// Record the state the game just set; a state different from the last one
/// is returned as a change to report.
pub fn observe_game_state(tracker: &mut GameStateTracker, new_state: u32) -> (r: Option<u32>)
    ensures
        final(tracker).last_game_state == new_state,
        r == (if old(tracker).last_game_state != new_state {
            Some(new_state)
        } else {
            None
        }),
{
    let previous = tracker.last_game_state;
    tracker.last_game_state = new_state;
    if previous != new_state {
        Some(new_state)
    } else {
        None
    }
}

/// Breakpoint callback: execution always continues.
pub fn set_game_state_callback() -> (r: bool)
    ensures
        r,
{
    true
}

/// Arm DR2 on the state setter.
pub fn install<P: HwbpPlatform>(
    reg: &mut HwbpRegistry,
    platform: &mut P,
    set_game_state_addr: usize,
    callback: usize,
) -> (r: Result<(), String>)
    ensures
        r is Ok ==> final(reg).slots@ == old(reg).slots@.update(
            slot_index(SET_GAME_STATE_SLOT),
            SlotEntry { address: set_game_state_addr, active: true, callback },
        ),
        old(platform).operations_succeed() ==> r is Ok,
{
    hwbp::register(reg, platform, SET_GAME_STATE_SLOT, set_game_state_addr, callback)
}

/// Disarm the game-state hook when its slot is armed.
pub fn remove<P: HwbpPlatform>(reg: &mut HwbpRegistry, platform: &mut P)
    ensures
        old(reg).slots@[slot_index(SET_GAME_STATE_SLOT)].active ==> final(reg).slots@
            == old(reg).slots@.update(slot_index(SET_GAME_STATE_SLOT), hwbp::empty_entry()),
        !old(reg).slots@[slot_index(SET_GAME_STATE_SLOT)].active ==> *final(reg) == *old(reg),
        final(platform).handler_installed() == old(platform).handler_installed(),
{
    if hwbp::is_active(reg, SET_GAME_STATE_SLOT) {
        let _ = hwbp::unregister(reg, platform, SET_GAME_STATE_SLOT);
    }
}

} // verus!
