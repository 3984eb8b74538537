//! General-purpose exception-handler hooks: a dispatch table from target
//! address to hook (page guard, INT3 byte, or no-access page), installed and
//! removed through the platform's memory-protection operations.
use vstd::prelude::*;
use std::collections::HashMap;
use vstd::std_specs::iter::IteratorSpec;

verus! {

broadcast use vstd::std_specs::hash::group_hash_axioms;

/// How a hook traps execution at its target.
#[derive(Debug, Clone, Copy, PartialEq, Eq, Structural)]
pub enum VehHookKind {
    PageGuard,
    Int3,
    PageNoAccess,
}

/// A hook in the dispatch table.
#[derive(Debug, Clone, Copy, PartialEq, Eq, Structural)]
pub struct DispatchEntry {
    pub kind: VehHookKind,
    pub callback: usize,
    pub original_byte: u8,
    pub active: bool,
}

/// The breakpoint instruction written by an INT3 hook.
pub const INT3_OPCODE: u8 = 0xCC;

/// Protection restored on a page hook's target (execute-read).
pub const PAGE_EXECUTE_READ: u32 = 0x20;

/// Start of the 4 KiB page holding an address.
pub open spec fn page_start(a: usize) -> usize {
    (a - a % 4096) as usize
}

/// The protection a page was last given through the platform.
#[derive(Debug, Clone, Copy, PartialEq, Eq, Structural)]
pub enum PageProtection {
    /// Guard page: the next access traps once.
    Guard,
    /// No access: every access traps.
    NoAccess,
    /// Set back to the given protection constant.
    Restored(u32),
}

/// Memory and exception-handler operations the hooks rely on, over the
/// platform's state: whether the handler is installed, the byte at each code
/// address and the protection last given to each page. An operation fails
/// (with a message) only on a platform whose operations do not all succeed;
/// none of them changes that. Each operation changes only what it names.
pub trait VehPlatform {
    /// Whether every handler, protection and code-write operation succeeds.
    spec fn operations_succeed(&self) -> bool;

    /// Whether the exception handler is installed.
    spec fn handler_installed(&self) -> bool;

    /// The byte at a code address.
    spec fn code_byte(&self, addr: usize) -> u8;

    /// The protection last given to the page starting at `page`, if any.
    spec fn page_protection(&self, page: usize) -> Option<PageProtection>;

    fn install_veh(&mut self) -> (r: Result<(), String>)
        ensures
            final(self).operations_succeed() == old(self).operations_succeed(),
            old(self).operations_succeed() ==> r is Ok,
            r is Ok ==> final(self).handler_installed(),
            r is Err ==> final(self).handler_installed() == old(self).handler_installed(),
            forall|a: usize| #[trigger] final(self).code_byte(a) == old(self).code_byte(a),
            forall|p: usize| #[trigger] final(self).page_protection(p) == old(self).page_protection(p),
    ;

    fn remove_veh(&mut self)
        ensures
            final(self).operations_succeed() == old(self).operations_succeed(),
            !final(self).handler_installed(),
            forall|a: usize| #[trigger] final(self).code_byte(a) == old(self).code_byte(a),
            forall|p: usize| #[trigger] final(self).page_protection(p) == old(self).page_protection(p),
    ;

    fn read_byte(&mut self, addr: usize) -> (r: u8)
        ensures
            final(self).operations_succeed() == old(self).operations_succeed(),
            r == old(self).code_byte(addr),
            final(self).handler_installed() == old(self).handler_installed(),
            forall|a: usize| #[trigger] final(self).code_byte(a) == old(self).code_byte(a),
            forall|p: usize| #[trigger] final(self).page_protection(p) == old(self).page_protection(p),
    ;

    fn write_byte(&mut self, addr: usize, byte: u8) -> (r: Result<(), String>)
        ensures
            final(self).operations_succeed() == old(self).operations_succeed(),
            old(self).operations_succeed() ==> r is Ok,
            final(self).handler_installed() == old(self).handler_installed(),
            r is Ok ==> final(self).code_byte(addr) == byte,
            r is Err ==> final(self).code_byte(addr) == old(self).code_byte(addr),
            forall|a: usize| a != addr ==> #[trigger] final(self).code_byte(a) == old(self).code_byte(a),
            forall|p: usize| #[trigger] final(self).page_protection(p) == old(self).page_protection(p),
    ;

    fn apply_page_guard(&mut self, addr: usize) -> (r: Result<u32, String>)
        ensures
            final(self).operations_succeed() == old(self).operations_succeed(),
            old(self).operations_succeed() ==> r is Ok,
            final(self).handler_installed() == old(self).handler_installed(),
            forall|a: usize| #[trigger] final(self).code_byte(a) == old(self).code_byte(a),
            r is Ok ==> final(self).page_protection(page_start(addr)) == Some(PageProtection::Guard),
            forall|p: usize| p != page_start(addr) ==> #[trigger] final(self).page_protection(p)
                == old(self).page_protection(p),
            r is Err ==> final(self).page_protection(page_start(addr)) == old(self).page_protection(page_start(addr)),
    ;

    fn apply_page_noaccess(&mut self, addr: usize) -> (r: Result<u32, String>)
        ensures
            final(self).operations_succeed() == old(self).operations_succeed(),
            old(self).operations_succeed() ==> r is Ok,
            final(self).handler_installed() == old(self).handler_installed(),
            forall|a: usize| #[trigger] final(self).code_byte(a) == old(self).code_byte(a),
            r is Ok ==> final(self).page_protection(page_start(addr)) == Some(PageProtection::NoAccess),
            forall|p: usize| p != page_start(addr) ==> #[trigger] final(self).page_protection(p)
                == old(self).page_protection(p),
            r is Err ==> final(self).page_protection(page_start(addr)) == old(self).page_protection(page_start(addr)),
    ;

    fn restore_page_protect(&mut self, addr: usize, protect: u32) -> (r: Result<(), String>)
        ensures
            final(self).operations_succeed() == old(self).operations_succeed(),
            old(self).operations_succeed() ==> r is Ok,
            final(self).handler_installed() == old(self).handler_installed(),
            forall|a: usize| #[trigger] final(self).code_byte(a) == old(self).code_byte(a),
            r is Ok ==> final(self).page_protection(page_start(addr)) == Some(PageProtection::Restored(protect)),
            forall|p: usize| p != page_start(addr) ==> #[trigger] final(self).page_protection(p)
                == old(self).page_protection(p),
            r is Err ==> final(self).page_protection(page_start(addr)) == old(self).page_protection(page_start(addr)),
    ;
}

/// Install the exception handler; where no handler can be added this
/// succeeds and does nothing.
pub fn install_veh() -> (r: Result<(), String>)
    ensures
        r is Ok,
{
    Ok(())
}

/// Remove the exception handler; where none was added this does nothing.
pub fn remove_veh() {
}

/// Write one code byte; where code cannot be patched this succeeds and does
/// nothing.
pub fn write_byte(addr: usize, byte: u8) -> (r: Result<(), String>)
    ensures
        r is Ok,
{
    Ok(())
}

/// Arm a guard page; where pages cannot be protected this succeeds and
/// reports protection 0.
pub fn apply_page_guard(addr: usize) -> (r: Result<u32, String>)
    ensures
        r == Ok::<u32, String>(0),
{
    Ok(0)
}

/// Make a page inaccessible; where pages cannot be protected this succeeds
/// and reports protection 0.
pub fn apply_page_noaccess(addr: usize) -> (r: Result<u32, String>)
    ensures
        r == Ok::<u32, String>(0),
{
    Ok(0)
}

/// Restore a page's protection; where pages cannot be protected this
/// succeeds and does nothing.
pub fn restore_page_protect(addr: usize, protect: u32) -> (r: Result<(), String>)
    ensures
        r is Ok,
{
    Ok(())
}

/// The platform used where memory cannot be protected or patched: every
/// operation succeeds and is kept in memory (the handler flag, the code
/// bytes written, the page protections given); code never written reads as
/// 0.
pub struct StubVehPlatform {
    pub veh_installed: bool,
    pub code: HashMap<usize, u8>,
    pub pages: HashMap<usize, PageProtection>,
}

impl StubVehPlatform {
    /// No handler, no code written, no page protected.
    pub fn new() -> (r: Self)
        ensures
            !r.veh_installed,
            r.code@ == Map::<usize, u8>::empty(),
            r.pages@ == Map::<usize, PageProtection>::empty(),
    {
        StubVehPlatform { veh_installed: false, code: HashMap::new(), pages: HashMap::new() }
    }
}

impl VehPlatform for StubVehPlatform {
    open spec fn operations_succeed(&self) -> bool {
        true
    }

    open spec fn handler_installed(&self) -> bool {
        self.veh_installed
    }

    open spec fn code_byte(&self, addr: usize) -> u8 {
        if self.code@.contains_key(addr) {
            self.code@[addr]
        } else {
            0
        }
    }

    open spec fn page_protection(&self, page: usize) -> Option<PageProtection> {
        if self.pages@.contains_key(page) {
            Some(self.pages@[page])
        } else {
            None
        }
    }

    fn install_veh(&mut self) -> Result<(), String> {
        let r = install_veh();
        self.veh_installed = true;
        r
    }

    fn remove_veh(&mut self) {
        remove_veh();
        self.veh_installed = false;
    }

    fn read_byte(&mut self, addr: usize) -> u8 {
        match self.code.get(&addr) {
            Some(b) => *b,
            None => 0,
        }
    }

    fn write_byte(&mut self, addr: usize, byte: u8) -> Result<(), String> {
        self.code.insert(addr, byte);
        write_byte(addr, byte)
    }

    fn apply_page_guard(&mut self, addr: usize) -> (r: Result<u32, String>)
        ensures
            r == Ok::<u32, String>(0),
    {
        self.pages.insert(page_base(addr), PageProtection::Guard);
        apply_page_guard(addr)
    }

    fn apply_page_noaccess(&mut self, addr: usize) -> (r: Result<u32, String>)
        ensures
            r == Ok::<u32, String>(0),
    {
        self.pages.insert(page_base(addr), PageProtection::NoAccess);
        apply_page_noaccess(addr)
    }

    fn restore_page_protect(&mut self, addr: usize, protect: u32) -> Result<(), String> {
        self.pages.insert(page_base(addr), PageProtection::Restored(protect));
        restore_page_protect(addr, protect)
    }
}

/// The hooks, by target address.
pub struct VehRegistry {
    pub table: HashMap<usize, DispatchEntry>,
    /// A page trap fired and was stepped over: its re-arm is due on the next
    /// single step.
    pub rearm_pending: bool,
}

impl VehRegistry {
    /// No hooks.
    pub fn new() -> (r: Self)
        ensures
            r.table@ == Map::<usize, DispatchEntry>::empty(),
            !r.rearm_pending,
    {
        VehRegistry { table: HashMap::new(), rearm_pending: false }
    }
}

/// Install a hook of `kind` on `target_addr`. The exception handler is
/// installed first; an INT3 hook saves the original byte and writes the
/// breakpoint; a page hook protects the page. On success the hook (active)
/// replaces any earlier one at that address; on failure the table is
/// unchanged (an INT3 byte already written is put back).
pub fn install<P: VehPlatform>(
    reg: &mut VehRegistry,
    platform: &mut P,
    target_addr: usize,
    kind: VehHookKind,
    callback: usize,
) -> (r: Result<(), String>)
    ensures
        r is Err ==> final(reg).table@ == old(reg).table@,
        r is Ok ==> {
            &&& final(reg).table@.contains_key(target_addr)
            &&& final(reg).table@.remove(target_addr) == old(reg).table@.remove(target_addr)
            &&& final(reg).table@[target_addr].kind == kind
            &&& final(reg).table@[target_addr].callback == callback
            &&& final(reg).table@[target_addr].active
            &&& kind != VehHookKind::Int3 ==> final(reg).table@[target_addr].original_byte == 0
            &&& kind == VehHookKind::Int3 ==> final(reg).table@[target_addr].original_byte
                == old(platform).code_byte(target_addr)
            &&& final(platform).handler_installed()
        },
        r is Ok && kind == VehHookKind::Int3 ==> {
            &&& final(platform).code_byte(target_addr) == INT3_OPCODE
            &&& forall|a: usize| a != target_addr ==> #[trigger] final(platform).code_byte(a)
                == old(platform).code_byte(a)
            &&& forall|p: usize| #[trigger] final(platform).page_protection(p) == old(platform).page_protection(p)
        },
        r is Ok && kind != VehHookKind::Int3 ==> {
            &&& final(platform).page_protection(page_start(target_addr)) == Some(
                if kind == VehHookKind::PageGuard {
                    PageProtection::Guard
                } else {
                    PageProtection::NoAccess
                },
            )
            &&& forall|p: usize| p != page_start(target_addr) ==> #[trigger] final(platform).page_protection(p)
                == old(platform).page_protection(p)
            &&& forall|a: usize| #[trigger] final(platform).code_byte(a) == old(platform).code_byte(a)
        },
        r is Err ==> forall|a: usize| #[trigger] final(platform).code_byte(a) == old(platform).code_byte(a),
        r is Err ==> forall|p: usize| #[trigger] final(platform).page_protection(p) == old(platform).page_protection(p),
        final(reg).rearm_pending == old(reg).rearm_pending,
        old(platform).operations_succeed() ==> r is Ok,
        final(platform).operations_succeed() == old(platform).operations_succeed(),
{
    match platform.install_veh() {
        Ok(()) => {},
        Err(e) => {
            return Err(e);
        },
    }
    let original_byte: u8 = if kind == VehHookKind::Int3 {
        let byte = platform.read_byte(target_addr);
        match platform.write_byte(target_addr, INT3_OPCODE) {
            Ok(()) => {},
            Err(e) => {
                return Err(e);
            },
        }
        byte
    } else {
        0
    };
    let protect_result: Result<u32, String> = match kind {
        VehHookKind::PageGuard => platform.apply_page_guard(target_addr),
        VehHookKind::PageNoAccess => platform.apply_page_noaccess(target_addr),
        VehHookKind::Int3 => Ok(0),
    };
    match protect_result {
        Ok(_) => {},
        Err(e) => {
            if kind == VehHookKind::Int3 {
                let _ = platform.write_byte(target_addr, original_byte);
            }
            return Err(e);
        },
    }
    reg.table.insert(target_addr, DispatchEntry { kind, callback, original_byte, active: true });
    proof {
        assert(reg.table@.remove(target_addr) =~= old(reg).table@.remove(target_addr));
    }
    Ok(())
}

/// Remove the hook at `target_addr` (nothing to do when there is none):
/// the entry leaves the table, then the original byte or page protection is
/// restored (its error is returned), and the exception handler is removed
/// once no hook is left.
pub fn remove<P: VehPlatform>(reg: &mut VehRegistry, platform: &mut P, target_addr: usize) -> (r:
    Result<(), String>)
    ensures
        !old(reg).table@.contains_key(target_addr) ==> r is Ok && final(reg).table@ == old(
            reg,
        ).table@,
        final(reg).table@ == old(reg).table@.remove(target_addr),
        final(reg).rearm_pending == old(reg).rearm_pending,
        !old(reg).table@.contains_key(target_addr) ==> *final(platform) == *old(platform),
        old(reg).table@.contains_key(target_addr) ==> {
            let e = old(reg).table@[target_addr];
            &&& e.kind == VehHookKind::Int3 && r is Ok ==> final(platform).code_byte(target_addr)
                == e.original_byte
            &&& e.kind != VehHookKind::Int3 && r is Ok ==> final(platform).page_protection(
                page_start(target_addr),
            ) == Some(PageProtection::Restored(PAGE_EXECUTE_READ))
            &&& r is Ok && final(reg).table@.len() == 0 ==> !final(platform).handler_installed()
            &&& forall|a: usize| a != target_addr ==> #[trigger] final(platform).code_byte(a)
                == old(platform).code_byte(a)
            &&& forall|p: usize| p != page_start(target_addr) ==> #[trigger] final(platform).page_protection(p)
                == old(platform).page_protection(p)
            &&& e.kind == VehHookKind::Int3 ==> forall|p: usize| #[trigger] final(platform).page_protection(p)
                == old(platform).page_protection(p)
            &&& e.kind != VehHookKind::Int3 ==> forall|a: usize| #[trigger] final(platform).code_byte(a)
                == old(platform).code_byte(a)
        },
        old(platform).operations_succeed() ==> r is Ok,
        final(platform).operations_succeed() == old(platform).operations_succeed(),
{
    let entry = match reg.table.remove(&target_addr) {
        None => {
            proof {
                assert(old(reg).table@.remove(target_addr) =~= old(reg).table@);
            }
            return Ok(());
        },
        Some(e) => e,
    };
    match entry.kind {
        VehHookKind::Int3 => {
            match platform.write_byte(target_addr, entry.original_byte) {
                Ok(()) => {},
                Err(e) => {
                    return Err(e);
                },
            }
        },
        VehHookKind::PageGuard | VehHookKind::PageNoAccess => {
            match platform.restore_page_protect(target_addr, PAGE_EXECUTE_READ) {
                Ok(()) => {},
                Err(e) => {
                    return Err(e);
                },
            }
        },
    }
    if reg.table.len() == 0 {
        platform.remove_veh();
    }
    Ok(())
}

/// Remove every hook (errors are ignored) and the exception handler.
pub fn remove_all<P: VehPlatform>(reg: &mut VehRegistry, platform: &mut P)
    ensures
        final(reg).table@ == Map::<usize, DispatchEntry>::empty(),
        final(reg).rearm_pending == old(reg).rearm_pending,
        !final(platform).handler_installed(),
        final(platform).operations_succeed() == old(platform).operations_succeed(),
        old(platform).operations_succeed() ==> forall|a: usize|
            #[trigger] old(reg).table@.contains_key(a) ==> restored(*final(platform), a, old(reg).table@[a]),
{
    let addresses = table_keys(reg);
    let mut i: usize = 0;
    while i < addresses.len()
        invariant
            0 <= i <= addresses@.len(),
            addresses@.to_set() == old(reg).table@.dom(),
            addresses@.no_duplicates(),
            reg.rearm_pending == old(reg).rearm_pending,
            platform.operations_succeed() == old(platform).operations_succeed(),
            forall|a: usize| #[trigger] reg.table@.contains_key(a) ==> old(reg).table@.contains_key(a)
                && reg.table@[a] == old(reg).table@[a],
            forall|j: int| i <= j < addresses@.len() ==> #[trigger] reg.table@.contains_key(addresses@[j]),
            forall|a: usize| #[trigger] reg.table@.contains_key(a) ==> exists|j: int|
                i <= j < addresses@.len() && addresses@[j] == a,
            old(platform).operations_succeed() ==> forall|j: int|
                0 <= j < i ==> restored(*platform, #[trigger] addresses@[j], old(reg).table@[addresses@[j]]),
        decreases addresses@.len() - i,
    {
        let a = addresses[i];
        let ghost before = *platform;
        let ghost before_table = reg.table@;
        proof {
            assert(addresses@.to_set().contains(a));
        }
        let _ = remove(reg, platform, a);
        proof {
            assert forall|b: usize| #[trigger] reg.table@.contains_key(b) implies exists|j: int|
                i + 1 <= j < addresses@.len() && addresses@[j] == b by {
                let j = choose|j: int| i <= j < addresses@.len() && addresses@[j] == b;
                assert(j != i);
            }
            assert forall|j: int| i + 1 <= j < addresses@.len() implies #[trigger] reg.table@.contains_key(addresses@[j]) by {
                assert(addresses@[j] != addresses@[i as int]);
                assert(before_table.contains_key(addresses@[j]));
            }
            if old(platform).operations_succeed() {
                let e = before_table[a];
                assert(e == old(reg).table@[a]);
                assert forall|j: int| 0 <= j < i + 1 implies restored(*platform, #[trigger] addresses@[j], old(reg).table@[addresses@[j]]) by {
                    if j < i {
                        let b = addresses@[j];
                        assert(b != a);
                        let eb = old(reg).table@[b];
                        assert(restored(before, b, eb));
                        if eb.kind == VehHookKind::Int3 {
                            assert(platform.code_byte(b) == before.code_byte(b));
                        } else {
                            if page_start(b) != page_start(a) {
                                assert(platform.page_protection(page_start(b)) == before.page_protection(page_start(b)));
                            } else if e.kind == VehHookKind::Int3 {
                                assert(platform.page_protection(page_start(b)) == before.page_protection(page_start(b)));
                            }
                        }
                    }
                }
            }
        }
        i = i + 1;
    }
    proof {
        assert(reg.table@ =~= Map::<usize, DispatchEntry>::empty());
    }
    platform.remove_veh();
}

/// What removing the hook at `a` leaves on the platform: the original byte
/// back for an INT3 hook, execute-read protection on the page otherwise.
pub open spec fn restored<P: VehPlatform>(p: P, a: usize, e: DispatchEntry) -> bool {
    if e.kind == VehHookKind::Int3 {
        p.code_byte(a) == e.original_byte
    } else {
        p.page_protection(page_start(a)) == Some(PageProtection::Restored(PAGE_EXECUTE_READ))
    }
}

/// Whether a hook is installed at `target_addr`.
pub fn is_installed(reg: &VehRegistry, target_addr: usize) -> (r: bool)
    ensures
        r == reg.table@.contains_key(target_addr),
{
    reg.table.contains_key(&target_addr)
}

/// Number of installed hooks.
pub fn hook_count(reg: &VehRegistry) -> (r: usize)
    ensures
        r == reg.table@.len(),
{
    reg.table.len()
}

} // verus!

verus! {

/// Exception code of an INT3 breakpoint.
pub const EXCEPTION_BREAKPOINT: u32 = 0x8000_0003;

/// Exception code of a single step.
pub const EXCEPTION_SINGLE_STEP: u32 = 0x8000_0004;

/// Exception code of a guard-page violation.
pub const STATUS_GUARD_PAGE_VIOLATION: u32 = 0x8000_0001;

/// Exception code of an access violation.
pub const STATUS_ACCESS_VIOLATION: u32 = 0xC000_0005;

/// Start of the 4 KiB page holding an address.
pub open spec fn page_of(a: usize) -> int {
    a - a % 4096
}

/// Start of the 4 KiB page holding an address.
pub fn page_base(addr: usize) -> (r: usize)
    ensures
        r == page_of(addr),
{
    let mask: usize = !0xfffusize;
    assert((addr & !0xfffusize) == addr - addr % 4096) by (bit_vector);
    addr & mask
}

/// The exception as the handler receives it: its code, the instruction
/// pointer, and the parameter count and second parameter (the faulting
/// address of an access fault).
#[derive(Debug, Clone, Copy, PartialEq, Eq, Structural)]
pub struct ExceptionEvent {
    pub code: u32,
    pub rip: usize,
    pub number_parameters: u32,
    pub fault_address: usize,
}

/// What the handler does next.
#[derive(Debug, Clone, PartialEq, Eq)]
pub enum VehStep {
    /// Run the hook's callback, then ask [`veh_after_callback`].
    Callback { callback: usize, kind: VehHookKind, fault_addr: usize },
    /// Not ours: let the next handler see it.
    ContinueSearch,
    /// Step past the INT3 byte and continue.
    AdvanceRipAndContinue,
    /// Set the trap flag and continue (the page trap is re-armed on the step).
    SingleStepAndContinue,
    /// Make the page executable again, set the trap flag and continue.
    RestoreAndSingleStep { fault_addr: usize },
    /// Re-apply these guard and no-access traps, then continue.
    Rearm { guard_targets: Vec<usize>, noaccess_targets: Vec<usize> },
}

/// An active hook of `kind` sits at `a`.
pub open spec fn active_at(t: Map<usize, DispatchEntry>, a: usize, kind: VehHookKind) -> bool {
    t.contains_key(a) && t[a].active && t[a].kind == kind
}

/// An active hook of `kind` sits on the page of `a`.
pub open spec fn active_on_page(t: Map<usize, DispatchEntry>, a: usize, kind: VehHookKind) -> bool {
    exists|k: usize| #[trigger] active_at(t, k, kind) && page_of(k) == page_of(a)
}

/// The addresses of the active hooks of `kind`.
pub open spec fn active_targets(t: Map<usize, DispatchEntry>, kind: VehHookKind) -> Set<usize> {
    Set::new(|k: usize| active_at(t, k, kind))
}

fn table_keys(reg: &VehRegistry) -> (r: Vec<usize>)
    ensures
        r@.to_set() == reg.table@.dom(),
        r@.no_duplicates(),
{
    let mut out: Vec<usize> = Vec::new();
    let keys = reg.table.keys();
    let ghost all = keys.remaining().map_values(|k: &usize| *k);
    proof {
        assert(keys.remaining().unref() =~= all);
    }
    for k in it: keys
        invariant
            it.seq().map_values(|k: &usize| *k) == all,
            out@ == all.subrange(0, it.index() as int),
    {
        proof {
            assert(all.subrange(0, it.index() + 1) =~= all.subrange(0, it.index() as int).push(*k));
        }
        out.push(*k);
    }
    proof {
        assert(out@ =~= all);
    }
    out
}

/// Whether an active hook of `kind` sits on the page of `addr`.
pub fn hook_on_same_page(reg: &VehRegistry, addr: usize, kind: VehHookKind) -> (r: bool)
    ensures
        r == active_on_page(reg.table@, addr, kind),
{
    let keys = table_keys(reg);
    let page = page_base(addr);
    let mut i: usize = 0;
    while i < keys.len()
        invariant
            0 <= i <= keys@.len(),
            keys@.to_set() == reg.table@.dom(),
            page == page_of(addr),
            forall|j: int| 0 <= j < i ==> !(active_at(reg.table@, #[trigger] keys@[j], kind) && page_of(keys@[j]) == page_of(addr)),
        decreases keys@.len() - i,
    {
        let k = keys[i];
        match reg.table.get(&k) {
            Some(e) => {
                if e.active && e.kind == kind && page_base(k) == page {
                    proof {
                        assert(active_at(reg.table@, k, kind));
                    }
                    return true;
                }
            },
            None => {},
        }
        proof {
            assert(keys@.to_set().contains(k));
        }
        i = i + 1;
    }
    proof {
        assert forall|k: usize| !(#[trigger] active_at(reg.table@, k, kind) && page_of(k) == page_of(addr)) by {
            if active_at(reg.table@, k, kind) {
                assert(reg.table@.dom().contains(k));
                assert(keys@.to_set().contains(k));
                let j = choose|j: int| 0 <= j < keys@.len() && keys@[j] == k;
            }
        }
    }
    false
}

/// The addresses of the active hooks of `kind`, in some order, each once.
pub fn active_hook_targets(reg: &VehRegistry, kind: VehHookKind) -> (r: Vec<usize>)
    ensures
        r@.to_set() == active_targets(reg.table@, kind),
        r@.no_duplicates(),
{
    let keys = table_keys(reg);
    let mut out: Vec<usize> = Vec::new();
    let mut i: usize = 0;
    while i < keys.len()
        invariant
            0 <= i <= keys@.len(),
            keys@.to_set() == reg.table@.dom(),
            keys@.no_duplicates(),
            forall|j: int| 0 <= j < out@.len() ==> active_at(reg.table@, #[trigger] out@[j], kind),
            forall|j: int| 0 <= j < out@.len() ==> exists|m: int| 0 <= m < i && keys@[m] == #[trigger] out@[j],
            forall|m: int| 0 <= m < i && active_at(reg.table@, #[trigger] keys@[m], kind) ==> out@.contains(keys@[m]),
            out@.no_duplicates(),
        decreases keys@.len() - i,
    {
        let k = keys[i];
        let mut add = false;
        match reg.table.get(&k) {
            Some(e) => {
                if e.active && e.kind == kind {
                    add = true;
                }
            },
            None => {},
        }
        proof {
            assert(keys@.to_set().contains(k));
        }
        if add {
            let ghost before = out@;
            proof {
                assert(!before.contains(k)) by {
                    if before.contains(k) {
                        let j = choose|j: int| 0 <= j < before.len() && before[j] == k;
                        let m = choose|m: int| 0 <= m < i && keys@[m] == before[j];
                        assert(keys@[m] == keys@[i as int]);
                    }
                }
            }
            out.push(k);
            proof {
                assert forall|j: int| 0 <= j < out@.len() implies exists|m: int| 0 <= m < i + 1 && keys@[m] == #[trigger] out@[j] by {
                    if j < before.len() {
                        assert(out@[j] == before[j]);
                        let m = choose|m: int| 0 <= m < i && keys@[m] == before[j];
                    } else {
                        assert(keys@[i as int] == out@[j]);
                    }
                }
                assert forall|m: int| 0 <= m < i + 1 && active_at(reg.table@, #[trigger] keys@[m], kind) implies out@.contains(keys@[m]) by {
                    if m < i {
                        assert(before.contains(keys@[m]));
                        let j = choose|j: int| 0 <= j < before.len() && before[j] == keys@[m];
                        assert(out@[j] == keys@[m]);
                    } else {
                        assert(out@[before.len() as int] == keys@[m]);
                    }
                }
            }
        } else {
            proof {
                assert forall|j: int| 0 <= j < out@.len() implies exists|m: int| 0 <= m < i + 1 && keys@[m] == #[trigger] out@[j] by {
                    let m = choose|m: int| 0 <= m < i && keys@[m] == out@[j];
                }
            }
        }
        i = i + 1;
    }
    proof {
        assert forall|a: usize| out@.to_set().contains(a) <==> active_targets(reg.table@, kind).contains(a) by {
            if out@.to_set().contains(a) {
                let j = choose|j: int| 0 <= j < out@.len() && out@[j] == a;
                assert(active_at(reg.table@, out@[j], kind));
            }
            if active_at(reg.table@, a, kind) {
                assert(keys@.to_set().contains(a));
                let m = choose|m: int| 0 <= m < keys@.len() && keys@[m] == a;
                assert(out@.contains(keys@[m]));
            }
        }
        assert(out@.to_set() =~= active_targets(reg.table@, kind));
    }
    out
}

/// The address a page fault refers to, when the exception carries one.
pub open spec fn fault_of(ev: ExceptionEvent) -> Option<usize> {
    if ev.number_parameters < 2 {
        None
    } else {
        Some(ev.fault_address)
    }
}

/// What the handler does with an exception, before any callback runs. A
/// single step is this module's only while one of its page traps waits to
/// be re-armed (`pending`); any other single step (a hardware breakpoint's)
/// is passed on.
pub open spec fn dispatch_spec(t: Map<usize, DispatchEntry>, pending: bool, ev: ExceptionEvent, r: VehStep) -> bool {
    if ev.code == EXCEPTION_BREAKPOINT {
        if active_at(t, ev.rip, VehHookKind::Int3) {
            r == VehStep::Callback { callback: t[ev.rip].callback, kind: VehHookKind::Int3, fault_addr: ev.rip }
        } else {
            r == VehStep::ContinueSearch
        }
    } else if ev.code == STATUS_GUARD_PAGE_VIOLATION || ev.code == STATUS_ACCESS_VIOLATION {
        let kind = if ev.code == STATUS_GUARD_PAGE_VIOLATION {
            VehHookKind::PageGuard
        } else {
            VehHookKind::PageNoAccess
        };
        match fault_of(ev) {
            None => r == VehStep::ContinueSearch,
            Some(f) => if active_at(t, f, kind) {
                r == VehStep::Callback { callback: t[f].callback, kind, fault_addr: f }
            } else {
                r == page_fallback(t, f, kind)
            },
        }
    } else if ev.code == EXCEPTION_SINGLE_STEP && !pending {
        r == VehStep::ContinueSearch
    } else if ev.code == EXCEPTION_SINGLE_STEP {
        r matches VehStep::Rearm { guard_targets, noaccess_targets } && guard_targets@.to_set() == active_targets(
            t,
            VehHookKind::PageGuard,
        ) && noaccess_targets@.to_set() == active_targets(t, VehHookKind::PageNoAccess)
    } else {
        r == VehStep::ContinueSearch
    }
}

/// A fault on a trapped page that no callback took: consumed (single-step,
/// restoring execute-read first for a no-access page) when a hook of that
/// kind sits on the page, otherwise passed on.
pub open spec fn page_fallback(t: Map<usize, DispatchEntry>, f: usize, kind: VehHookKind) -> VehStep {
    if !active_on_page(t, f, kind) {
        VehStep::ContinueSearch
    } else if kind == VehHookKind::PageGuard {
        VehStep::SingleStepAndContinue
    } else {
        VehStep::RestoreAndSingleStep { fault_addr: f }
    }
}

fn page_fallback_exec(reg: &VehRegistry, f: usize, kind: VehHookKind) -> (r: VehStep)
    requires
        kind != VehHookKind::Int3,
    ensures
        r == page_fallback(reg.table@, f, kind),
{
    if !hook_on_same_page(reg, f, kind) {
        VehStep::ContinueSearch
    } else if kind == VehHookKind::PageGuard {
        VehStep::SingleStepAndContinue
    } else {
        VehStep::RestoreAndSingleStep { fault_addr: f }
    }
}

/// Decide what to do with an exception: a breakpoint or page fault on an
/// active hook of the matching kind runs its callback; a page fault near one
/// is consumed; a single step re-arms every page trap when one waits to be
/// re-armed and is passed on otherwise; anything else is passed on.
pub fn veh_dispatch(reg: &VehRegistry, ev: ExceptionEvent) -> (r: VehStep)
    ensures
        dispatch_spec(reg.table@, reg.rearm_pending, ev, r),
{
    if ev.code == EXCEPTION_BREAKPOINT {
        match reg.table.get(&ev.rip) {
            Some(e) => {
                if e.active && e.kind == VehHookKind::Int3 {
                    return VehStep::Callback { callback: e.callback, kind: VehHookKind::Int3, fault_addr: ev.rip };
                }
            },
            None => {},
        }
        return VehStep::ContinueSearch;
    }
    if ev.code == STATUS_GUARD_PAGE_VIOLATION || ev.code == STATUS_ACCESS_VIOLATION {
        let kind = if ev.code == STATUS_GUARD_PAGE_VIOLATION {
            VehHookKind::PageGuard
        } else {
            VehHookKind::PageNoAccess
        };
        if ev.number_parameters < 2 {
            return VehStep::ContinueSearch;
        }
        let f = ev.fault_address;
        match reg.table.get(&f) {
            Some(e) => {
                if e.active && e.kind == kind {
                    return VehStep::Callback { callback: e.callback, kind, fault_addr: f };
                }
            },
            None => {},
        }
        return page_fallback_exec(reg, f, kind);
    }
    if ev.code == EXCEPTION_SINGLE_STEP {
        if !reg.rearm_pending {
            return VehStep::ContinueSearch;
        }
        let guard_targets = active_hook_targets(reg, VehHookKind::PageGuard);
        let noaccess_targets = active_hook_targets(reg, VehHookKind::PageNoAccess);
        return VehStep::Rearm { guard_targets, noaccess_targets };
    }
    VehStep::ContinueSearch
}

/// Record the step the handler took: stepping over a fired page trap
/// (`SingleStepAndContinue`, `RestoreAndSingleStep`) makes its re-arm due on
/// the next single step; re-arming (`Rearm`) settles it; other steps leave
/// it as it was. The hooks themselves do not change.
pub fn record_step(reg: &mut VehRegistry, step: &VehStep)
    ensures
        final(reg).table@ == old(reg).table@,
        final(reg).rearm_pending == match *step {
            VehStep::SingleStepAndContinue => true,
            VehStep::RestoreAndSingleStep { .. } => true,
            VehStep::Rearm { .. } => false,
            _ => old(reg).rearm_pending,
        },
{
    match step {
        VehStep::SingleStepAndContinue => {
            reg.rearm_pending = true;
        },
        VehStep::RestoreAndSingleStep { .. } => {
            reg.rearm_pending = true;
        },
        VehStep::Rearm { .. } => {
            reg.rearm_pending = false;
        },
        _ => {},
    }
}

/// Decide what to do after a hook's callback ran: a handled INT3 steps past
/// the byte; a handled page trap single-steps (restoring execute-read first
/// for a no-access page); an unhandled page trap falls back as if no
/// callback had matched; an unhandled INT3 is passed on.
pub fn veh_after_callback(reg: &VehRegistry, kind: VehHookKind, fault_addr: usize, handled: bool) -> (r: VehStep)
    ensures
        r == (if handled {
            match kind {
                VehHookKind::Int3 => VehStep::AdvanceRipAndContinue,
                VehHookKind::PageGuard => VehStep::SingleStepAndContinue,
                VehHookKind::PageNoAccess => VehStep::RestoreAndSingleStep { fault_addr },
            }
        } else {
            match kind {
                VehHookKind::Int3 => VehStep::ContinueSearch,
                _ => page_fallback(reg.table@, fault_addr, kind),
            }
        }),
{
    if handled {
        match kind {
            VehHookKind::Int3 => VehStep::AdvanceRipAndContinue,
            VehHookKind::PageGuard => VehStep::SingleStepAndContinue,
            VehHookKind::PageNoAccess => VehStep::RestoreAndSingleStep { fault_addr },
        }
    } else {
        match kind {
            VehHookKind::Int3 => VehStep::ContinueSearch,
            _ => page_fallback_exec(reg, fault_addr, kind),
        }
    }
}

} // verus!
