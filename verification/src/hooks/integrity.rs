//! Consistency check of the breakpoint registry: every armed slot has an
//! address and a callback, every unarmed slot has neither. A failed check
//! puts the hook layer into safe mode.
use vstd::prelude::*;
use crate::hooks::hwbp::{
    self, slot_consistent, slot_index, HwbpPlatform, HwbpRegistry, HwbpSlot, SlotEntry, MAX_SLOTS,
};
use crate::text::{dec, lit, push_decimal};

pub mod outbound_counter_hook;

verus! {

/// The outcome of checking one slot.
#[derive(Debug, Clone, Copy, PartialEq, Eq)]
pub struct SlotCheckResult {
    pub slot_index: usize,
    pub active: bool,
    pub address: usize,
    pub has_callback: bool,
    pub ok: bool,
    pub reason: Option<&'static str>,
}

/// The outcome of checking all slots.
#[derive(Debug, Clone)]
pub struct IntegrityReport {
    pub passed: bool,
    pub slots: Vec<SlotCheckResult>,
    pub veh_installed: bool,
}

/// Safe mode and the last outbound message counter observed.
pub struct IntegrityState {
    pub safe_mode: bool,
    pub last_outbound_counter: i32,
}

impl IntegrityState {
    /// Not in safe mode, counter 0.
    pub fn new() -> (r: Self)
        ensures
            !r.safe_mode,
            r.last_outbound_counter == 0,
    {
        IntegrityState { safe_mode: false, last_outbound_counter: 0 }
    }
}

/// Why a slot entry is inconsistent (`None` when it is consistent): an
/// armed slot needs an address and a callback, an unarmed one must hold
/// neither.
pub open spec fn slot_reason(e: SlotEntry) -> Option<Seq<char>> {
    if e.active {
        if e.address == 0 {
            Some("slot active but address is zero"@)
        } else if e.callback == 0 {
            Some("slot active but callback is null"@)
        } else {
            None
        }
    } else {
        if e.address != 0 {
            Some("slot inactive but address is non-zero (stale entry)"@)
        } else if e.callback != 0 {
            Some("slot inactive but callback is non-null (stale entry)"@)
        } else {
            None
        }
    }
}

/// The reason as characters.
pub open spec fn reason_view(r: Option<&'static str>) -> Option<Seq<char>> {
    match r {
        Some(s) => Some(s@),
        None => None,
    }
}

/// The check of slot `idx` against the registry.
pub open spec fn check_spec(reg: Seq<SlotEntry>, idx: usize, r: SlotCheckResult) -> bool {
    &&& r.slot_index == idx
    &&& if idx < MAX_SLOTS {
        let e = reg[idx as int];
        &&& r.active == e.active
        &&& r.address == e.address
        &&& r.has_callback == (e.callback != 0)
        &&& reason_view(r.reason) == slot_reason(e)
        &&& r.ok == (slot_reason(e) is None)
    } else {
        &&& !r.active && r.address == 0 && !r.has_callback && !r.ok
        &&& reason_view(r.reason) == Some("invalid slot index"@)
    }
}

/// A slot is consistent exactly when the check finds no reason.
pub proof fn lemma_reason_iff_inconsistent(e: SlotEntry)
    ensures
        (slot_reason(e) is None) == slot_consistent(e),
{
}

/// Check one slot.
pub fn check_slot(reg: &HwbpRegistry, idx: usize) -> (r: SlotCheckResult)
    requires
        reg.slots@.len() == MAX_SLOTS,
    ensures
        check_spec(reg.slots@, idx, r),
{
    let slot = match HwbpSlot::from_index(idx) {
        None => {
            return SlotCheckResult {
                slot_index: idx,
                active: false,
                address: 0,
                has_callback: false,
                ok: false,
                reason: Some("invalid slot index"),
            };
        },
        Some(s) => s,
    };
    let active = hwbp::is_active(reg, slot);
    let address = hwbp::get_address(reg, slot);
    let has_callback = hwbp::has_callback(reg, slot);
    let (ok, reason): (bool, Option<&'static str>) = if active {
        if address == 0 {
            (false, Some("slot active but address is zero"))
        } else if !has_callback {
            (false, Some("slot active but callback is null"))
        } else {
            (true, None)
        }
    } else {
        if address != 0 {
            (false, Some("slot inactive but address is non-zero (stale entry)"))
        } else if has_callback {
            (false, Some("slot inactive but callback is non-null (stale entry)"))
        } else {
            (true, None)
        }
    };
    SlotCheckResult { slot_index: idx, active, address, has_callback, ok, reason }
}

/// Check every slot, in slot order, and record whether the exception
/// handler is installed; the check passes when every slot is consistent.
pub fn run_integrity_check<P: HwbpPlatform>(reg: &HwbpRegistry, platform: &P) -> (r: IntegrityReport)
    requires
        reg.slots@.len() == MAX_SLOTS,
    ensures
        r.slots@.len() == MAX_SLOTS,
        forall|i: int| 0 <= i < MAX_SLOTS ==> check_spec(reg.slots@, i as usize, #[trigger] r.slots@[i]),
        r.passed == (forall|i: int| 0 <= i < MAX_SLOTS ==> slot_consistent(#[trigger] reg.slots@[i])),
        r.veh_installed == platform.handler_installed(),
{
    let veh_installed = platform.is_veh_installed();
    let mut slots: Vec<SlotCheckResult> = Vec::new();
    let mut passed = true;
    let mut i: usize = 0;
    while i < MAX_SLOTS
        invariant
            0 <= i <= MAX_SLOTS,
            reg.slots@.len() == MAX_SLOTS,
            slots@.len() == i,
            forall|j: int| 0 <= j < i ==> check_spec(reg.slots@, j as usize, #[trigger] slots@[j]),
            passed == (forall|j: int| 0 <= j < i ==> slot_consistent(#[trigger] reg.slots@[j])),
        decreases MAX_SLOTS - i,
    {
        let c = check_slot(reg, i);
        proof {
            lemma_reason_iff_inconsistent(reg.slots@[i as int]);
        }
        passed = passed && c.ok;
        slots.push(c);
        i = i + 1;
    }
    IntegrityReport { passed, slots, veh_installed }
}

/// The failed checks among the first `n`, in order.
pub open spec fn failing(s: Seq<SlotCheckResult>, n: int) -> Seq<SlotCheckResult>
    decreases n,
{
    if n <= 0 {
        seq![]
    } else if !s[n - 1].ok {
        failing(s, n - 1).push(s[n - 1])
    } else {
        failing(s, n - 1)
    }
}

impl IntegrityReport {
    /// The failed slot checks, in slot order.
    pub fn failures(&self) -> (r: Vec<SlotCheckResult>)
        ensures
            r@ == failing(self.slots@, self.slots@.len() as int),
    {
        let mut out: Vec<SlotCheckResult> = Vec::new();
        let mut i: usize = 0;
        while i < self.slots.len()
            invariant
                0 <= i <= self.slots@.len(),
                out@ == failing(self.slots@, i as int),
            decreases self.slots@.len() - i,
        {
            if !self.slots[i].ok {
                let c = self.slots[i];
                out.push(c);
            }
            i = i + 1;
        }
        out
    }
}

/// Run the check; on failure enter safe mode and report the first failed
/// slot: "Hook integrity check failed on slot N: reason".
pub fn verify_hooks_or_safe_mode<P: HwbpPlatform>(
    state: &mut IntegrityState,
    reg: &HwbpRegistry,
    platform: &P,
) -> (r: Result<(), String>)
    requires
        reg.slots@.len() == MAX_SLOTS,
    ensures
        (forall|i: int| 0 <= i < MAX_SLOTS ==> slot_consistent(#[trigger] reg.slots@[i])) ==> r is Ok
            && *final(state) == *old(state),
        !(forall|i: int| 0 <= i < MAX_SLOTS ==> slot_consistent(#[trigger] reg.slots@[i])) ==> {
            &&& final(state).safe_mode
            &&& final(state).last_outbound_counter == old(state).last_outbound_counter
            &&& exists|i: int|
                0 <= i < MAX_SLOTS && !slot_consistent(reg.slots@[i]) && (forall|k: int|
                    0 <= k < i ==> slot_consistent(reg.slots@[k])) && (r matches Err(e) && e@
                    == "Hook integrity check failed on slot "@ + dec(i as nat) + ": "@
                    + slot_reason(reg.slots@[i])->0)
        },
{
    let report = run_integrity_check(reg, platform);
    if report.passed {
        return Ok(());
    }
    state.safe_mode = true;
    let mut i: usize = 0;
    while i < MAX_SLOTS
        invariant
            0 <= i <= MAX_SLOTS,
            report.slots@.len() == MAX_SLOTS,
            reg.slots@.len() == MAX_SLOTS,
            !report.passed,
            report.passed == (forall|j: int| 0 <= j < MAX_SLOTS ==> slot_consistent(#[trigger] reg.slots@[j])),
            forall|j: int| 0 <= j < MAX_SLOTS ==> check_spec(reg.slots@, j as usize, #[trigger] report.slots@[j]),
            forall|k: int| 0 <= k < i ==> slot_consistent(#[trigger] reg.slots@[k]),
            state.safe_mode,
            state.last_outbound_counter == old(state).last_outbound_counter,
        decreases MAX_SLOTS - i,
    {
        proof {
            assert(check_spec(reg.slots@, i as usize, report.slots@[i as int]));
            lemma_reason_iff_inconsistent(reg.slots@[i as int]);
        }
        if !report.slots[i].ok {
            let mut msg = lit("Hook integrity check failed on slot ");
            push_decimal(&mut msg, report.slots[i].slot_index as u64);
            msg.append(": ");
            match report.slots[i].reason {
                Some(why) => msg.append(why),
                None => msg.append("unknown"),
            }
            proof {
                assert(!slot_consistent(reg.slots@[i as int]));
                assert(msg@ == "Hook integrity check failed on slot "@ + dec(i as nat) + ": "@
                    + slot_reason(reg.slots@[i as int])->0);
            }
            return Err(msg);
        }
        i = i + 1;
    }
    proof {
        assert(false);
    }
    Err(lit("unknown"))
}

/// Whether the hook layer is in safe mode.
pub fn is_safe_mode(state: &IntegrityState) -> (r: bool)
    ensures
        r == state.safe_mode,
{
    state.safe_mode
}

/// The last outbound message counter observed.
pub fn last_outbound_counter(state: &IntegrityState) -> (r: i32)
    ensures
        r == state.last_outbound_counter,
{
    state.last_outbound_counter
}

} // verus!
