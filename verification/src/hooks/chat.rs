//! The chat hook: a breakpoint on the game's chat display function, the scan
//! of the text it is handed, and which lines go on to the combat parser.
use vstd::prelude::*;
use crate::hooks::hwbp::{self, slot_index, HwbpPlatform, HwbpRegistry, HwbpSlot, SlotEntry};

verus! {

/// The debug-register slot of the chat hook.
pub const CHAT_HOOK_SLOT: HwbpSlot = HwbpSlot::Dr1;

/// The longest chat text read from the game.
pub const MAX_CHAT_TEXT: usize = 4096;

/// Only text the chat parser did not recognize as player chat (system and
/// combat lines) goes to the combat parser: player chat is untrusted.
pub fn should_forward_to_combat<T>(parsed: Option<&T>) -> (r: bool)
    ensures
        r == parsed is None,
{
    parsed.is_none()
}

/// The length of the text at the start of `readable`, the bytes that could
/// be read at the text pointer: up to the first NUL, at most 4096 bytes.
pub fn chat_text_len(readable: &[u8]) -> (r: usize)
    ensures
        r <= readable@.len(),
        r <= MAX_CHAT_TEXT,
        forall|i: int| 0 <= i < r ==> readable@[i] != 0,
        r < readable@.len() && r < MAX_CHAT_TEXT ==> readable@[r as int] == 0,
{
    let mut len: usize = 0;
    while len < MAX_CHAT_TEXT && len < readable.len()
        invariant
            len <= readable@.len(),
            len <= MAX_CHAT_TEXT,
            forall|i: int| 0 <= i < len ==> readable@[i] != 0,
        decreases MAX_CHAT_TEXT - len,
    {
        if readable[len] == 0 {
            return len;
        }
        len = len + 1;
    }
    len
}

/// Breakpoint callback: execution always continues.
pub fn chat_callback() -> (r: bool)
    ensures
        r,
{
    true
}

/// Arm DR1 on the chat display function.
pub fn install<P: HwbpPlatform>(
    reg: &mut HwbpRegistry,
    platform: &mut P,
    dsp_chat_addr: usize,
    callback: usize,
) -> (r: Result<(), String>)
    ensures
        r is Ok ==> final(reg).slots@ == old(reg).slots@.update(
            slot_index(CHAT_HOOK_SLOT),
            SlotEntry { address: dsp_chat_addr, active: true, callback },
        ),
        old(platform).operations_succeed() ==> r is Ok,
{
    hwbp::register(reg, platform, CHAT_HOOK_SLOT, dsp_chat_addr, callback)
}

/// Disarm the chat hook when its slot is armed.
pub fn remove<P: HwbpPlatform>(reg: &mut HwbpRegistry, platform: &mut P)
    ensures
        old(reg).slots@[slot_index(CHAT_HOOK_SLOT)].active ==> final(reg).slots@
            == old(reg).slots@.update(slot_index(CHAT_HOOK_SLOT), hwbp::empty_entry()),
        !old(reg).slots@[slot_index(CHAT_HOOK_SLOT)].active ==> *final(reg) == *old(reg),
        final(platform).handler_installed() == old(platform).handler_installed(),
{
    if hwbp::is_active(reg, CHAT_HOOK_SLOT) {
        let _ = hwbp::unregister(reg, platform, CHAT_HOOK_SLOT);
    }
}

} // verus!
