//! Hardware breakpoint hook registry.
//!
//! Uses the x86_64 debug registers (DR0-DR3) to set execution breakpoints on
//! target functions. The registry records, per slot, the watched address, the
//! callback address and whether the slot is armed; the register writes
//! themselves go through a [`HwbpPlatform`].
use vstd::prelude::*;

verus! {

/// Number of hardware debug-register slots (DR0-DR3).
pub const MAX_SLOTS: usize = 4;

/// One of the four debug-register slots.
#[derive(Debug, Clone, Copy, PartialEq, Eq, Structural)]
pub enum HwbpSlot {
    Dr0,
    Dr1,
    Dr2,
    Dr3,
}

/// Index of a slot (0 for DR0 ... 3 for DR3).
pub open spec fn slot_index(s: HwbpSlot) -> int {
    match s {
        HwbpSlot::Dr0 => 0,
        HwbpSlot::Dr1 => 1,
        HwbpSlot::Dr2 => 2,
        HwbpSlot::Dr3 => 3,
    }
}

impl HwbpSlot {
    /// The slot with the given index, if the index is below [`MAX_SLOTS`].
    pub fn from_index(idx: usize) -> (r: Option<Self>)
        ensures
            idx < MAX_SLOTS <==> r is Some,
            r matches Some(s) ==> slot_index(s) == idx,
    {
        match idx {
            0 => Some(Self::Dr0),
            1 => Some(Self::Dr1),
            2 => Some(Self::Dr2),
            3 => Some(Self::Dr3),
            _ => None,
        }
    }

    /// The slot's index (0-3).
    pub fn index(&self) -> (r: usize)
        ensures
            r == slot_index(*self),
            r < MAX_SLOTS,
    {
        match self {
            Self::Dr0 => 0,
            Self::Dr1 => 1,
            Self::Dr2 => 2,
            Self::Dr3 => 3,
        }
    }
}

/// State of one debug-register slot: watched address, callback address and
/// armed flag.
#[derive(Debug, Clone, Copy, PartialEq, Eq, Structural)]
pub struct SlotEntry {
    pub address: usize,
    pub active: bool,
    pub callback: usize,
}

/// The cleared slot: no address, not armed, no callback.
pub open spec fn empty_entry() -> SlotEntry {
    SlotEntry { address: 0, active: false, callback: 0 }
}

/// A slot is consistent when an armed slot has both an address and a
/// callback, and an unarmed slot has neither.
pub open spec fn slot_consistent(e: SlotEntry) -> bool {
    if e.active {
        e.address != 0 && e.callback != 0
    } else {
        e.address == 0 && e.callback == 0
    }
}

impl SlotEntry {
    /// A cleared slot.
    pub fn new() -> (r: Self)
        ensures
            r == empty_entry(),
    {
        Self { address: 0, active: false, callback: 0 }
    }
}

/// Platform operations behind the registry, over the platform's state:
/// whether the exception handler is installed and the address each debug
/// register of the main thread is armed on. An operation fails (with a
/// message) only on a platform whose operations do not all succeed; none of
/// them changes that. Each operation changes only what it names.
pub trait HwbpPlatform {
    /// Whether every handler and register operation of the platform succeeds.
    spec fn operations_succeed(&self) -> bool;

    /// Whether the exception handler is installed.
    spec fn handler_installed(&self) -> bool;

    /// The address the debug register of `slot` is armed on, if it is armed.
    spec fn breakpoint(&self, slot: HwbpSlot) -> Option<usize>;

    /// Whether installing the handler succeeds in the platform's present
    /// state.
    spec fn handler_install_succeeds(&self) -> bool;

    /// Install the handler (already installed: nothing to do).
    fn install_veh(&mut self) -> (r: Result<(), String>)
        ensures
            final(self).operations_succeed() == old(self).operations_succeed(),
            old(self).operations_succeed() ==> r is Ok,
            old(self).handler_installed() ==> r is Ok,
            (r is Ok) == old(self).handler_install_succeeds(),
            r is Ok ==> final(self).handler_installed(),
            r is Err ==> final(self).handler_installed() == old(self).handler_installed(),
            forall|s: HwbpSlot| #[trigger] final(self).breakpoint(s) == old(self).breakpoint(s),
    ;

    /// Remove the handler.
    fn remove_veh(&mut self)
        ensures
            final(self).operations_succeed() == old(self).operations_succeed(),
            !final(self).handler_installed(),
            forall|s: HwbpSlot| #[trigger] final(self).breakpoint(s) == old(self).breakpoint(s),
    ;

    /// Arm the debug register of `slot` on `address`.
    fn set_breakpoint_on_main_thread(&mut self, slot: HwbpSlot, address: usize) -> (r: Result<
        (),
        String,
    >)
        ensures
            final(self).operations_succeed() == old(self).operations_succeed(),
            old(self).operations_succeed() ==> r is Ok,
            final(self).handler_installed() == old(self).handler_installed(),
            r is Ok ==> final(self).breakpoint(slot) == Some(address),
            r is Err ==> final(self).breakpoint(slot) == old(self).breakpoint(slot),
            forall|s: HwbpSlot| s != slot ==> #[trigger] final(self).breakpoint(s) == old(self).breakpoint(s),
    ;

    /// Disarm the debug register of `slot`.
    fn clear_breakpoint(&mut self, slot: HwbpSlot) -> (r: Result<(), String>)
        ensures
            final(self).operations_succeed() == old(self).operations_succeed(),
            old(self).operations_succeed() ==> r is Ok,
            final(self).handler_installed() == old(self).handler_installed(),
            r is Ok ==> final(self).breakpoint(slot) is None,
            r is Err ==> final(self).breakpoint(slot) == old(self).breakpoint(slot),
            forall|s: HwbpSlot| s != slot ==> #[trigger] final(self).breakpoint(s) == old(self).breakpoint(s),
    ;

    /// Whether the handler is installed.
    fn is_veh_installed(&self) -> (r: bool)
        ensures
            r == self.handler_installed(),
    ;
}

/// Set a breakpoint on the calling thread; without debug registers to write
/// this succeeds and does nothing.
pub fn set_breakpoint(slot: HwbpSlot, address: usize) -> (r: Result<(), String>)
    ensures
        r is Ok,
{
    Ok(())
}

/// Clear a breakpoint; without debug registers to write this succeeds and
/// does nothing.
pub fn clear_breakpoint(slot: HwbpSlot) -> (r: Result<(), String>)
    ensures
        r is Ok,
{
    Ok(())
}

/// Install the exception handler; without a handler to add this succeeds.
pub fn install_veh() -> (r: Result<(), String>)
    ensures
        r is Ok,
{
    Ok(())
}

/// Remove the exception handler; without a handler this does nothing.
pub fn remove_veh() {
}

/// Set a breakpoint on the main thread; without debug registers to write this
/// succeeds and does nothing.
pub fn set_breakpoint_on_main_thread(slot: HwbpSlot, address: usize) -> (r: Result<(), String>)
    ensures
        r is Ok,
{
    Ok(())
}

/// The platform used where no debug registers can be written: every
/// operation succeeds and is kept in memory (the handler flag and the
/// address each register is armed on).
pub struct StubPlatform {
    pub veh_installed: bool,
    pub breakpoints: [Option<usize>; MAX_SLOTS],
}

impl StubPlatform {
    /// No handler, no register armed.
    pub fn new() -> (r: Self)
        ensures
            !r.veh_installed,
            forall|i: int| 0 <= i < MAX_SLOTS ==> #[trigger] r.breakpoints@[i] is None,
    {
        StubPlatform { veh_installed: false, breakpoints: [None; MAX_SLOTS] }
    }
}

impl HwbpPlatform for StubPlatform {
    open spec fn operations_succeed(&self) -> bool {
        true
    }

    open spec fn handler_install_succeeds(&self) -> bool {
        true
    }

    open spec fn handler_installed(&self) -> bool {
        self.veh_installed
    }

    open spec fn breakpoint(&self, slot: HwbpSlot) -> Option<usize> {
        self.breakpoints@[slot_index(slot)]
    }

    fn install_veh(&mut self) -> Result<(), String> {
        let r = install_veh();
        self.veh_installed = true;
        r
    }

    fn remove_veh(&mut self) {
        remove_veh();
        self.veh_installed = false;
    }

    fn set_breakpoint_on_main_thread(&mut self, slot: HwbpSlot, address: usize) -> Result<
        (),
        String,
    > {
        self.breakpoints[slot.index()] = Some(address);
        set_breakpoint_on_main_thread(slot, address)
    }

    fn clear_breakpoint(&mut self, slot: HwbpSlot) -> Result<(), String> {
        self.breakpoints[slot.index()] = None;
        clear_breakpoint(slot)
    }

    fn is_veh_installed(&self) -> bool {
        self.veh_installed
    }
}

/// The four slot states.
pub struct HwbpRegistry {
    pub slots: [SlotEntry; MAX_SLOTS],
}

/// Number of armed slots among the first `n` entries.
pub open spec fn count_active(s: Seq<SlotEntry>, n: int) -> nat
    decreases n,
{
    if n <= 0 {
        0
    } else {
        count_active(s, n - 1) + if s[n - 1].active {
            1nat
        } else {
            0nat
        }
    }
}

/// All slots cleared.
pub open spec fn all_empty(s: Seq<SlotEntry>) -> bool {
    forall|i: int| 0 <= i < s.len() ==> s[i] == empty_entry()
}

/// Every slot consistent.
pub open spec fn registry_consistent(s: Seq<SlotEntry>) -> bool {
    forall|i: int| 0 <= i < s.len() ==> slot_consistent(#[trigger] s[i])
}

impl HwbpRegistry {
    /// A registry with every slot cleared.
    pub fn new() -> (r: Self)
        ensures
            r.slots@.len() == MAX_SLOTS,
            all_empty(r.slots@),
    {
        let e = SlotEntry::new();
        Self { slots: [e, e, e, e] }
    }
}

/// Arm `slot` on `address` with `callback`.
///
/// Installs the exception handler, records the address and callback, then
/// writes the debug register on the main thread. If the register write
/// fails the slot is cleared (and the handler removed when no slot is armed)
/// and the error is returned.
pub fn register<P: HwbpPlatform>(
    reg: &mut HwbpRegistry,
    platform: &mut P,
    slot: HwbpSlot,
    address: usize,
    callback: usize,
) -> (r: Result<(), String>)
    ensures
        r is Ok ==> final(reg).slots@ == old(reg).slots@.update(
            slot_index(slot),
            SlotEntry { address, active: true, callback },
        ),
        r is Ok ==> final(platform).handler_installed() && final(platform).breakpoint(slot) == Some(address),
        forall|s: HwbpSlot| s != slot ==> #[trigger] final(platform).breakpoint(s) == old(platform).breakpoint(s),
        r is Err ==> final(platform).breakpoint(slot) == old(platform).breakpoint(slot),
        r is Err && !old(platform).handler_install_succeeds() ==> final(reg).slots@ == old(reg).slots@
            && final(platform).handler_installed() == old(platform).handler_installed(),
        r is Err && old(platform).handler_install_succeeds() ==> {
            &&& final(reg).slots@ == old(reg).slots@.update(slot_index(slot), empty_entry())
            &&& count_active(final(reg).slots@, MAX_SLOTS as int) == 0 ==> !final(platform).handler_installed()
            &&& count_active(final(reg).slots@, MAX_SLOTS as int) != 0 ==> final(platform).handler_installed()
        },
        old(platform).operations_succeed() ==> r is Ok,
        final(platform).operations_succeed() == old(platform).operations_succeed(),
{
    let idx = slot.index();
    match platform.install_veh() {
        Ok(()) => {},
        Err(e) => {
            return Err(e);
        },
    }
    let mut entry = reg.slots[idx];
    entry.callback = callback;
    entry.address = address;
    reg.slots[idx] = entry;
    match platform.set_breakpoint_on_main_thread(slot, address) {
        Ok(()) => {},
        Err(e) => {
            clear_slot_state(reg, slot);
            if active_count(reg) == 0 {
                platform.remove_veh();
            }
            return Err(e);
        },
    }
    let mut entry = reg.slots[idx];
    entry.active = true;
    reg.slots[idx] = entry;
    proof {
        assert(reg.slots@ =~= old(reg).slots@.update(
            slot_index(slot),
            SlotEntry { address, active: true, callback },
        ));
    }
    Ok(())
}

/// Disarm `slot`: clear the debug register and the slot state. The slot is
/// cleared whether or not the register write succeeds; its error is returned.
pub fn unregister<P: HwbpPlatform>(reg: &mut HwbpRegistry, platform: &mut P, slot: HwbpSlot) -> (r:
    Result<(), String>)
    ensures
        final(reg).slots@ == old(reg).slots@.update(slot_index(slot), empty_entry()),
        r is Ok ==> final(platform).breakpoint(slot) is None,
        r is Err ==> final(platform).breakpoint(slot) == old(platform).breakpoint(slot),
        forall|s: HwbpSlot| s != slot ==> #[trigger] final(platform).breakpoint(s) == old(platform).breakpoint(s),
        final(platform).handler_installed() == old(platform).handler_installed(),
        old(platform).operations_succeed() ==> r is Ok,
        final(platform).operations_succeed() == old(platform).operations_succeed(),
{
    let idx = slot.index();
    let mut entry = reg.slots[idx];
    entry.active = false;
    reg.slots[idx] = entry;
    let clear_result = platform.clear_breakpoint(slot);
    clear_slot_state(reg, slot);
    proof {
        assert(reg.slots@ =~= old(reg).slots@.update(slot_index(slot), empty_entry()));
    }
    clear_result
}

/// Disarm every slot, clear all slot state and remove the exception handler.
pub fn remove_all<P: HwbpPlatform>(reg: &mut HwbpRegistry, platform: &mut P)
    ensures
        final(reg).slots@.len() == MAX_SLOTS,
        all_empty(final(reg).slots@),
        !final(platform).handler_installed(),
        final(platform).operations_succeed() == old(platform).operations_succeed(),
        forall|s: HwbpSlot| !old(reg).slots@[slot_index(s)].active ==> #[trigger] final(platform).breakpoint(s)
            == old(platform).breakpoint(s),
        old(platform).operations_succeed() ==> forall|s: HwbpSlot|
            old(reg).slots@[slot_index(s)].active ==> #[trigger] final(platform).breakpoint(s) is None,
{
    let mut i: usize = 0;
    while i < MAX_SLOTS
        invariant
            0 <= i <= MAX_SLOTS,
            reg.slots@.len() == MAX_SLOTS,
            forall|j: int| 0 <= j < i ==> reg.slots@[j] == empty_entry(),
            forall|j: int| i <= j < MAX_SLOTS ==> reg.slots@[j] == old(reg).slots@[j],
            platform.operations_succeed() == old(platform).operations_succeed(),
            forall|s: HwbpSlot| (slot_index(s) >= i || !old(reg).slots@[slot_index(s)].active) ==> #[trigger] platform.breakpoint(s)
                == old(platform).breakpoint(s),
            old(platform).operations_succeed() ==> forall|s: HwbpSlot|
                slot_index(s) < i && old(reg).slots@[slot_index(s)].active ==> #[trigger] platform.breakpoint(s) is None,
        decreases MAX_SLOTS - i,
    {
        if let Some(slot) = HwbpSlot::from_index(i) {
            if !reg.slots[i].active {
                clear_slot_state(reg, slot);
            } else {
                let _ = unregister(reg, platform, slot);
            }
        }
        i = i + 1;
    }
    platform.remove_veh();
}

/// Whether `slot` is armed.
pub fn is_active(reg: &HwbpRegistry, slot: HwbpSlot) -> (r: bool)
    ensures
        r == reg.slots@[slot_index(slot)].active,
{
    reg.slots[slot.index()].active
}

/// The address recorded for `slot` (0 when cleared).
pub fn get_address(reg: &HwbpRegistry, slot: HwbpSlot) -> (r: usize)
    ensures
        r == reg.slots@[slot_index(slot)].address,
{
    reg.slots[slot.index()].address
}

/// Whether `slot` has a callback recorded.
pub fn has_callback(reg: &HwbpRegistry, slot: HwbpSlot) -> (r: bool)
    ensures
        r == (reg.slots@[slot_index(slot)].callback != 0),
{
    reg.slots[slot.index()].callback != 0
}

/// The callback address recorded for `slot` (0 when cleared).
pub fn get_callback(reg: &HwbpRegistry, slot: HwbpSlot) -> (r: usize)
    ensures
        r == reg.slots@[slot_index(slot)].callback,
{
    reg.slots[slot.index()].callback
}

/// Number of armed slots.
pub fn active_count(reg: &HwbpRegistry) -> (r: usize)
    ensures
        r == count_active(reg.slots@, MAX_SLOTS as int),
        r <= MAX_SLOTS,
{
    let mut n: usize = 0;
    let mut i: usize = 0;
    while i < MAX_SLOTS
        invariant
            0 <= i <= MAX_SLOTS,
            reg.slots@.len() == MAX_SLOTS,
            n == count_active(reg.slots@, i as int),
            n <= i,
        decreases MAX_SLOTS - i,
    {
        if reg.slots[i].active {
            n = n + 1;
        }
        i = i + 1;
    }
    n
}

/// Clear the address, callback and armed flag of `slot`.
pub fn clear_slot_state(reg: &mut HwbpRegistry, slot: HwbpSlot)
    ensures
        final(reg).slots@ == old(reg).slots@.update(slot_index(slot), empty_entry()),
{
    let idx = slot.index();
    reg.slots[idx] = SlotEntry::new();
}

/// Register `address` in the first unarmed slot, returning that slot, or fail
/// when all four slots are armed.
pub fn register_available<P: HwbpPlatform>(
    reg: &mut HwbpRegistry,
    platform: &mut P,
    address: usize,
    callback: usize,
) -> (r: Result<HwbpSlot, String>)
    ensures
        (forall|i: int| 0 <= i < MAX_SLOTS ==> old(reg).slots@[i].active) ==> (r is Err
            && final(reg).slots@ == old(reg).slots@),
        r matches Ok(s) ==> !old(reg).slots@[slot_index(s)].active && (forall|i: int|
            0 <= i < slot_index(s) ==> old(reg).slots@[i].active) && final(reg).slots@
            == old(reg).slots@.update(slot_index(s), SlotEntry { address, active: true, callback }),
        r is Err ==> (final(reg).slots@ == old(reg).slots@ || exists|i: int|
            0 <= i < MAX_SLOTS && final(reg).slots@ == old(reg).slots@.update(i, empty_entry())),
        old(platform).operations_succeed() && (exists|i: int|
            0 <= i < MAX_SLOTS && !old(reg).slots@[i].active) ==> r is Ok,
        final(platform).operations_succeed() == old(platform).operations_succeed(),
{
    let mut i: usize = 0;
    while i < MAX_SLOTS
        invariant
            0 <= i <= MAX_SLOTS,
            reg.slots@.len() == MAX_SLOTS,
            reg.slots@ == old(reg).slots@,
            *platform == *old(platform),
            forall|j: int| 0 <= j < i ==> reg.slots@[j].active,
        decreases MAX_SLOTS - i,
    {
        if !reg.slots[i].active {
            if let Some(slot) = HwbpSlot::from_index(i) {
                return match register(reg, platform, slot, address, callback) {
                    Ok(()) => Ok(slot),
                    Err(e) => Err(e),
                };
            }
        }
        i = i + 1;
    }
    Err("no free HWBP slot available".to_string())
}

/// Registry operations keep every slot consistent: registering a non-zero
/// address with a non-zero callback, unregistering, clearing and removing
/// everything all map a consistent registry to a consistent one.
pub proof fn lemma_registry_ops_preserve_consistency(
    before: Seq<SlotEntry>,
    i: int,
    address: usize,
    callback: usize,
)
    requires
        registry_consistent(before),
        0 <= i < before.len(),
        address != 0,
        callback != 0,
    ensures
        registry_consistent(before.update(i, SlotEntry { address, active: true, callback })),
        registry_consistent(before.update(i, empty_entry())),
{
    let a = before.update(i, SlotEntry { address, active: true, callback });
    let b = before.update(i, empty_entry());
    assert forall|j: int| 0 <= j < a.len() implies slot_consistent(#[trigger] a[j]) by {
        if j != i {
            assert(a[j] == before[j]);
        }
    }
    assert forall|j: int| 0 <= j < b.len() implies slot_consistent(#[trigger] b[j]) by {
        if j != i {
            assert(b[j] == before[j]);
        }
    }
}

} // verus!

verus! {

/// Exception code of a single step (a debug-register hit).
pub const STATUS_SINGLE_STEP: u32 = 0x8000_0004;

/// The slots, among the first `n`, whose callback runs for a hit at `rip`:
/// armed, on that (non-null) address, with a callback; in slot order.
pub open spec fn hit_slots(s: Seq<SlotEntry>, rip: usize, n: int) -> Seq<(usize, usize)>
    decreases n,
{
    if n <= 0 {
        Seq::empty()
    } else {
        let p = hit_slots(s, rip, n - 1);
        let e = s[n - 1];
        if e.active && e.address != 0 && e.address == rip && e.callback != 0 {
            p.push(((n - 1) as usize, e.callback))
        } else {
            p
        }
    }
}

/// The callbacks the exception handler tries, in order, for an exception:
/// none unless it is a single step; otherwise each slot hit at `rip`, as
/// (slot index, callback). The handler stops at the first that handles it.
pub fn breakpoint_callbacks(reg: &HwbpRegistry, code: u32, rip: usize) -> (r: Vec<(usize, usize)>)
    requires
        reg.slots@.len() == MAX_SLOTS,
    ensures
        code != STATUS_SINGLE_STEP ==> r@.len() == 0,
        code == STATUS_SINGLE_STEP ==> r@ == hit_slots(reg.slots@, rip, MAX_SLOTS as int),
{
    let mut out: Vec<(usize, usize)> = Vec::new();
    if code != STATUS_SINGLE_STEP {
        return out;
    }
    let mut i: usize = 0;
    while i < MAX_SLOTS
        invariant
            0 <= i <= MAX_SLOTS,
            reg.slots@.len() == MAX_SLOTS,
            out@ == hit_slots(reg.slots@, rip, i as int),
        decreases MAX_SLOTS - i,
    {
        let e = reg.slots[i];
        if e.active && e.address != 0 && e.address == rip && e.callback != 0 {
            out.push((i, e.callback));
        }
        i = i + 1;
    }
    out
}

} // verus!
