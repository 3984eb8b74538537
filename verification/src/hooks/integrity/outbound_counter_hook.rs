//! Breakpoint on writes to the outbound message counter: the value written
//! is kept as the last outbound counter.
use vstd::prelude::*;
use crate::hooks::hwbp::{self, slot_index, HwbpPlatform, HwbpRegistry, HwbpSlot, SlotEntry, MAX_SLOTS};
use crate::hooks::integrity::IntegrityState;

verus! {

/// Breakpoint callback: keep the counter value read at the write (`None`
/// when there was nothing to read) and continue execution.
pub fn callback(state: &mut IntegrityState, observed: Option<i32>) -> (r: bool)
    ensures
        r,
        final(state).safe_mode == old(state).safe_mode,
        final(state).last_outbound_counter == (match observed {
            Some(v) => v,
            None => old(state).last_outbound_counter,
        }),
{
    match observed {
        Some(v) => {
            state.last_outbound_counter = v;
        },
        None => {},
    }
    true
}

/// Watch the counter at `counter_addr` in the first free slot.
pub fn install<P: HwbpPlatform>(
    reg: &mut HwbpRegistry,
    platform: &mut P,
    counter_addr: usize,
    callback: usize,
) -> (r: Result<(), String>)
    ensures
        (forall|i: int| 0 <= i < MAX_SLOTS ==> old(reg).slots@[i].active) ==> r is Err
            && final(reg).slots@ == old(reg).slots@,
        r is Ok ==> exists|i: int|
            0 <= i < MAX_SLOTS && !old(reg).slots@[i].active && final(reg).slots@
                == old(reg).slots@.update(i, SlotEntry { address: counter_addr, active: true, callback }),
        old(platform).operations_succeed() && (exists|i: int|
            0 <= i < MAX_SLOTS && !old(reg).slots@[i].active) ==> r is Ok,
{
    match hwbp::register_available(reg, platform, counter_addr, callback) {
        Ok(_) => Ok(()),
        Err(e) => Err(e),
    }
}

/// Stop watching the counter: the first slot recorded on `counter_addr`
/// is unregistered; nothing changes when no slot is.
pub fn remove<P: HwbpPlatform>(reg: &mut HwbpRegistry, platform: &mut P, counter_addr: usize)
    requires
        old(reg).slots@.len() == MAX_SLOTS,
    ensures
        (forall|i: int| 0 <= i < MAX_SLOTS ==> old(reg).slots@[i].address != counter_addr)
            ==> *final(reg) == *old(reg),
        forall|i: int|
            0 <= i < MAX_SLOTS && old(reg).slots@[i].address == counter_addr && (forall|k: int|
                0 <= k < i ==> old(reg).slots@[k].address != counter_addr) ==> final(reg).slots@
                == old(reg).slots@.update(i, hwbp::empty_entry()),
{
    let mut idx: usize = 0;
    while idx < MAX_SLOTS
        invariant
            0 <= idx <= MAX_SLOTS,
            reg.slots@ == old(reg).slots@,
            *reg == *old(reg),
            reg.slots@.len() == MAX_SLOTS,
            forall|k: int| 0 <= k < idx ==> reg.slots@[k].address != counter_addr,
        decreases MAX_SLOTS - idx,
    {
        match HwbpSlot::from_index(idx) {
            Some(slot) => {
                if hwbp::get_address(reg, slot) == counter_addr {
                    let _ = hwbp::unregister(reg, platform, slot);
                    return;
                }
            },
            None => {},
        }
        idx = idx + 1;
    }
}

} // verus!
