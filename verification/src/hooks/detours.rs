//! Byte-patch detours by name: the bookkeeping of which detours are
//! installed, and the installation of the candidate set against a module
//! base.
use vstd::prelude::*;
use crate::text::{chars_eq, chars_of, lit, push_chars, push_str, strings_view};

verus! {

/// The preferred load address of the game executable.
pub const EQ_PREFERRED_BASE: u64 = 0x1_4000_0000;

/// A preferred-base address moved to the module's real base: `None` when
/// the base is zero or the arithmetic leaves the address range.
pub open spec fn rebase_spec(preferred_addr: u64, eq_base: u64) -> Option<usize> {
    if eq_base == 0 || preferred_addr < EQ_PREFERRED_BASE || preferred_addr - EQ_PREFERRED_BASE + eq_base
        > u64::MAX || preferred_addr - EQ_PREFERRED_BASE + eq_base > usize::MAX {
        None
    } else {
        Some((preferred_addr - EQ_PREFERRED_BASE + eq_base) as usize)
    }
}

/// Move a preferred-base address to the module's real base.
pub fn rebase(preferred_addr: u64, eq_base: u64) -> (r: Option<usize>)
    ensures
        r == rebase_spec(preferred_addr, eq_base),
{
    if eq_base == 0 || preferred_addr < EQ_PREFERRED_BASE {
        return None;
    }
    let offset = preferred_addr - EQ_PREFERRED_BASE;
    if offset > u64::MAX - eq_base {
        return None;
    }
    let addr = offset + eq_base;
    if addr > usize::MAX as u64 {
        return None;
    }
    Some(addr as usize)
}

/// What an installed detour patched: its target and its hook.
#[derive(Debug, Clone, Copy, PartialEq, Eq, Structural)]
pub struct DetourRecord {
    pub target: usize,
    pub hook: usize,
}

/// A named detour.
#[derive(Debug, Clone)]
pub struct DetourEntry {
    pub name: Vec<char>,
    pub record: DetourRecord,
}

/// The installed detours as a map from name to record.
pub open spec fn entries_map(s: Seq<DetourEntry>) -> Map<Seq<char>, DetourRecord>
    decreases s.len(),
{
    if s.len() == 0 {
        Map::empty()
    } else {
        entries_map(s.drop_last()).insert(s.last().name@, s.last().record)
    }
}

/// No name occurs twice.
pub open spec fn names_distinct(s: Seq<DetourEntry>) -> bool {
    forall|i: int, j: int| 0 <= i < j < s.len() ==> #[trigger] s[i].name@ != #[trigger] s[j].name@
}

/// A name is in the map exactly when some entry carries it, with that
/// entry's record.
pub proof fn lemma_entries_map_dom(s: Seq<DetourEntry>)
    requires
        names_distinct(s),
    ensures
        forall|n: Seq<char>| entries_map(s).dom().contains(n) <==> exists|i: int| 0 <= i < s.len() && #[trigger] s[i].name@ == n,
        forall|i: int| 0 <= i < s.len() ==> entries_map(s)[#[trigger] s[i].name@] == s[i].record,
    decreases s.len(),
{
    if s.len() > 0 {
        let p = s.drop_last();
        assert(names_distinct(p));
        lemma_entries_map_dom(p);
        assert forall|n: Seq<char>| entries_map(s).dom().contains(n) implies exists|i: int| 0 <= i < s.len() && #[trigger] s[i].name@ == n by {
            if n == s.last().name@ {
                assert(s[s.len() - 1].name@ == n);
            } else {
                assert(entries_map(p).dom().contains(n));
                let i = choose|i: int| 0 <= i < p.len() && #[trigger] p[i].name@ == n;
                assert(p[i] == s[i]);
                assert(s[i].name@ == n);
            }
        }
        assert forall|n: Seq<char>| (exists|i: int| 0 <= i < s.len() && #[trigger] s[i].name@ == n) implies entries_map(s).dom().contains(n) by {
            let i = choose|i: int| 0 <= i < s.len() && #[trigger] s[i].name@ == n;
            if i < s.len() - 1 {
                assert(p[i].name@ == n);
            }
        }
        assert forall|i: int| 0 <= i < s.len() implies entries_map(s)[#[trigger] s[i].name@] == s[i].record by {
            if i < s.len() - 1 {
                assert(p[i] == s[i]);
                assert(s[i].name@ != s[s.len() - 1].name@);
            }
        }
    }
}

/// Removing the entry at `k` removes its name from the map.
pub proof fn lemma_entries_map_remove(s: Seq<DetourEntry>, k: int)
    requires
        names_distinct(s),
        0 <= k < s.len(),
    ensures
        names_distinct(s.remove(k)),
        entries_map(s.remove(k)) == entries_map(s).remove(s[k].name@),
{
    let t = s.remove(k);
    assert(names_distinct(t)) by {
        assert forall|i: int, j: int| 0 <= i < j < t.len() implies #[trigger] t[i].name@ != #[trigger] t[j].name@ by {
            let i2 = if i < k { i } else { i + 1 };
            let j2 = if j < k { j } else { j + 1 };
            assert(t[i] == s[i2]);
            assert(t[j] == s[j2]);
        }
    }
    lemma_entries_map_dom(s);
    lemma_entries_map_dom(t);
    let a = entries_map(t);
    let b = entries_map(s).remove(s[k].name@);
    assert forall|n: Seq<char>| a.dom().contains(n) <==> b.dom().contains(n) by {
        if a.dom().contains(n) {
            let i = choose|i: int| 0 <= i < t.len() && #[trigger] t[i].name@ == n;
            let i2 = if i < k { i } else { i + 1 };
            assert(t[i] == s[i2]);
            assert(s[i2].name@ == n);
        }
        if b.dom().contains(n) {
            let i = choose|i: int| 0 <= i < s.len() && #[trigger] s[i].name@ == n;
            assert(i != k);
            let i2 = if i < k { i } else { i - 1 };
            assert(t[i2] == s[i]);
            assert(t[i2].name@ == n);
        }
    }
    assert forall|n: Seq<char>| a.dom().contains(n) implies a[n] == b[n] by {
        let i = choose|i: int| 0 <= i < t.len() && #[trigger] t[i].name@ == n;
        let i2 = if i < k { i } else { i + 1 };
        assert(t[i] == s[i2]);
        assert(s[i2].name@ == n);
        assert(a[t[i].name@] == t[i].record);
        assert(entries_map(s)[s[i2].name@] == s[i2].record);
    }
    assert(a =~= b);
}

/// Installing a detour under a free name and uninstalling it again leaves
/// the installed set as it was; uninstalling after installing always frees
/// the name.
pub proof fn lemma_install_uninstall_round_trip(m: Map<Seq<char>, DetourRecord>, name: Seq<char>, rec: DetourRecord)
    ensures
        !m.dom().contains(name) ==> m.insert(name, rec).remove(name) == m,
        !m.insert(name, rec).remove(name).dom().contains(name),
{
    if !m.dom().contains(name) {
        assert(m.insert(name, rec).remove(name) =~= m);
    }
}

/// The installed detours, by name.
pub struct DetourManager {
    entries: Vec<DetourEntry>,
}

impl View for DetourManager {
    type V = Map<Seq<char>, DetourRecord>;

    open spec fn view(&self) -> Map<Seq<char>, DetourRecord> {
        entries_map(self.entries())
    }
}

impl DetourManager {
    /// The entries in installation order.
    pub closed spec fn entries(&self) -> Seq<DetourEntry> {
        self.entries@
    }

    /// Names are unique.
    pub open spec fn wf(&self) -> bool {
        names_distinct(self.entries())
    }

    /// No detour installed.
    pub fn new() -> (r: Self)
        ensures
            r.wf(),
            r@ == Map::<Seq<char>, DetourRecord>::empty(),
    {
        DetourManager { entries: Vec::new() }
    }

    /// The same as [`DetourManager::new`].
    pub fn default() -> (r: Self)
        ensures
            r.wf(),
            r@ == Map::<Seq<char>, DetourRecord>::empty(),
    {
        DetourManager::new()
    }

    fn find(&self, name: &[char]) -> (r: Option<usize>)
        requires
            self.wf(),
        ensures
            match r {
                Some(i) => i < self.entries().len() && self.entries()[i as int].name@ == name@,
                None => forall|i: int| 0 <= i < self.entries().len() ==> #[trigger] self.entries()[i].name@ != name@,
            },
    {
        let mut i: usize = 0;
        while i < self.entries.len()
            invariant
                0 <= i <= self.entries@.len(),
                forall|j: int| 0 <= j < i ==> #[trigger] self.entries@[j].name@ != name@,
            decreases self.entries@.len() - i,
        {
            if chars_eq(self.entries[i].name.as_slice(), name) {
                return Some(i);
            }
            i = i + 1;
        }
        None
    }

    /// Whether a detour of that name is installed.
    pub fn is_installed(&self, name: &str) -> (r: bool)
        requires
            self.wf(),
        ensures
            r == self@.dom().contains(name@),
    {
        proof {
            lemma_entries_map_dom(self.entries());
        }
        let n = chars_of(name);
        let found = self.find(n.as_slice());
        proof {
            if let Some(i) = found {
                assert(self.entries()[i as int].name@ == name@);
            }
        }
        found.is_some()
    }

    /// Record a detour of `hook_fn` on `target_addr` under `name`; a name
    /// already installed is refused.
    pub fn install(&mut self, name: &str, target_addr: usize, hook_fn: usize) -> (r: Result<(), String>)
        requires
            old(self).wf(),
        ensures
            final(self).wf(),
            old(self)@.dom().contains(name@) ==> (r matches Err(e) && e@ == "detour already installed"@)
                && final(self)@ == old(self)@,
            !old(self)@.dom().contains(name@) ==> r is Ok && final(self)@ == old(self)@.insert(
                name@,
                DetourRecord { target: target_addr, hook: hook_fn },
            ),
    {
        proof {
            lemma_entries_map_dom(self.entries());
        }
        let n = chars_of(name);
        match self.find(n.as_slice()) {
            Some(i) => {
                proof {
                    assert(self.entries()[i as int].name@ == name@);
                }
                Err(lit("detour already installed"))
            },
            None => {
                let ghost before = self.entries@;
                self.entries.push(DetourEntry { name: n, record: DetourRecord { target: target_addr, hook: hook_fn } });
                proof {
                    assert(self.entries@.drop_last() =~= before);
                    assert forall|i: int, j: int| 0 <= i < j < self.entries@.len() implies #[trigger] self.entries@[i].name@
                        != #[trigger] self.entries@[j].name@ by {
                        if j == self.entries@.len() - 1 {
                            assert(before[i] == self.entries@[i]);
                        } else {
                            assert(before[i] == self.entries@[i]);
                            assert(before[j] == self.entries@[j]);
                        }
                    }
                }
                Ok(())
            },
        }
    }

    /// Remove the detour of that name; a name not installed is refused.
    pub fn uninstall(&mut self, name: &str) -> (r: Result<(), String>)
        requires
            old(self).wf(),
        ensures
            final(self).wf(),
            !old(self)@.dom().contains(name@) ==> (r matches Err(e) && e@ == "detour not installed"@)
                && final(self)@ == old(self)@,
            old(self)@.dom().contains(name@) ==> r is Ok && final(self)@ == old(self)@.remove(name@),
    {
        proof {
            lemma_entries_map_dom(self.entries());
        }
        let n = chars_of(name);
        match self.find(n.as_slice()) {
            Some(i) => {
                proof {
                    lemma_entries_map_remove(self.entries@, i as int);
                }
                self.entries.remove(i);
                Ok(())
            },
            None => Err(lit("detour not installed")),
        }
    }

    /// Remove every detour.
    pub fn remove_all(&mut self)
        ensures
            final(self).wf(),
            final(self)@ == Map::<Seq<char>, DetourRecord>::empty(),
    {
        self.entries.clear();
    }
}

/// A detour to install: its name, its preferred-base target and its hook.
#[derive(Debug, Clone, Copy, PartialEq, Eq)]
pub struct DetourCandidate {
    pub name: &'static str,
    pub preferred_addr: u64,
    pub hook_fn: usize,
}

/// The names of the detours installed at startup.
pub fn detour_candidate_names() -> (r: Vec<&'static str>)
    ensures
        r@.len() == 6,
        r@[0]@ == "hook_sidl_screen_wnd_init"@,
        r@[1]@ == "hook_cxwnd_manager_remove_wnd"@,
        r@[2]@ == "hook_cmerchantwnd_purchasepagehandler_update_list"@,
        r@[3]@ == "hook_process_mouse_events"@,
        r@[4]@ == "hook_process_keyboard_events"@,
        r@[5]@ == "hook_crender_reset_device"@,
{
    let mut v: Vec<&'static str> = Vec::new();
    v.push("hook_sidl_screen_wnd_init");
    v.push("hook_cxwnd_manager_remove_wnd");
    v.push("hook_cmerchantwnd_purchasepagehandler_update_list");
    v.push("hook_process_mouse_events");
    v.push("hook_process_keyboard_events");
    v.push("hook_crender_reset_device");
    v
}

/// The failure line of one candidate: `name: error`.
pub open spec fn failure_line(name: Seq<char>, err: Seq<char>) -> Seq<char> {
    name + ": "@ + err
}

/// The lines joined with `", "`.
pub open spec fn join_lines(lines: Seq<Seq<char>>) -> Seq<char>
    decreases lines.len(),
{
    if lines.len() == 0 {
        Seq::empty()
    } else if lines.len() == 1 {
        lines[0]
    } else {
        join_lines(lines.drop_last()) + ", "@ + lines.last()
    }
}

/// Candidate `i` is installed: its target rebases.
pub open spec fn rebases(c: DetourCandidate, eq_base: u64) -> bool {
    rebase_spec(c.preferred_addr, eq_base) is Some
}

/// Candidate `i` fails: it rebases but its name is taken, already before
/// the run or by an earlier candidate.
pub open spec fn candidate_fails(dom: Set<Seq<char>>, cands: Seq<DetourCandidate>, eq_base: u64, i: int) -> bool {
    rebases(cands[i], eq_base) && (dom.contains(cands[i].name@) || exists|j: int|
        0 <= j < i && rebases(#[trigger] cands[j], eq_base) && cands[j].name@ == cands[i].name@)
}

/// The failure lines of the first `k` candidates, in order.
pub open spec fn fail_lines(dom: Set<Seq<char>>, cands: Seq<DetourCandidate>, eq_base: u64, k: int) -> Seq<Seq<char>>
    decreases k,
{
    if k <= 0 {
        Seq::empty()
    } else if candidate_fails(dom, cands, eq_base, k - 1) {
        fail_lines(dom, cands, eq_base, k - 1).push(failure_line(cands[k - 1].name@, "detour already installed"@))
    } else {
        fail_lines(dom, cands, eq_base, k - 1)
    }
}

/// Install every candidate whose target rebases, in order. Candidates that
/// do not rebase are skipped; those whose name is taken fail, and the
/// failures are reported together as
/// `detour install failures: a: detour already installed, ...`.
pub fn install_all(manager: &mut DetourManager, eq_base: u64, candidates: &[DetourCandidate]) -> (r: Result<(), String>)
    requires
        old(manager).wf(),
    ensures
        final(manager).wf(),
        forall|n: Seq<char>| old(manager)@.dom().contains(n) ==> #[trigger] final(manager)@.dom().contains(n)
            && final(manager)@[n] == old(manager)@[n],
        forall|n: Seq<char>| #[trigger] final(manager)@.dom().contains(n) <==> old(manager)@.dom().contains(n)
            || exists|i: int| 0 <= i < candidates@.len() && rebases(candidates@[i], eq_base) && candidates@[i].name@ == n,
        forall|n: Seq<char>| #[trigger] final(manager)@.dom().contains(n) && !old(manager)@.dom().contains(n)
            ==> exists|i: int|
            0 <= i < candidates@.len() && candidates@[i].name@ == n && rebase_spec(candidates@[i].preferred_addr, eq_base)
                == Some(final(manager)@[n].target) && final(manager)@[n].hook == candidates@[i].hook_fn,
        fail_lines(old(manager)@.dom(), candidates@, eq_base, candidates@.len() as int).len() == 0 ==> r is Ok,
        fail_lines(old(manager)@.dom(), candidates@, eq_base, candidates@.len() as int).len() > 0 ==> (r matches Err(
            e,
        ) && e@ == "detour install failures: "@ + join_lines(
            fail_lines(old(manager)@.dom(), candidates@, eq_base, candidates@.len() as int),
        )),
{
    let ghost dom0 = manager@.dom();
    let mut failures: Vec<String> = Vec::new();
    let mut k: usize = 0;
    while k < candidates.len()
        invariant
            0 <= k <= candidates@.len(),
            dom0 == old(manager)@.dom(),
            manager.wf(),
            forall|n: Seq<char>| old(manager)@.dom().contains(n) ==> #[trigger] manager@.dom().contains(n)
                && manager@[n] == old(manager)@[n],
            forall|n: Seq<char>| #[trigger] manager@.dom().contains(n) <==> old(manager)@.dom().contains(n)
                || exists|i: int| 0 <= i < k && rebases(candidates@[i], eq_base) && candidates@[i].name@ == n,
            forall|n: Seq<char>| #[trigger] manager@.dom().contains(n) && !old(manager)@.dom().contains(n)
                ==> exists|i: int|
                0 <= i < k && candidates@[i].name@ == n && rebase_spec(candidates@[i].preferred_addr, eq_base)
                    == Some(manager@[n].target) && manager@[n].hook == candidates@[i].hook_fn,
            strings_view(failures@) == fail_lines(dom0, candidates@, eq_base, k as int),
        decreases candidates@.len() - k,
    {
        let c = candidates[k];
        let ghost before = manager@;
        let ghost fails_k = candidate_fails(dom0, candidates@, eq_base, k as int);
        proof {
            assert(c == candidates@[k as int]);
            if rebases(c, eq_base) {
                assert(fails_k <==> before.dom().contains(c.name@)) by {
                    if before.dom().contains(c.name@) && !dom0.contains(c.name@) {
                        let i = choose|i: int| 0 <= i < k && rebases(candidates@[i], eq_base) && candidates@[i].name@ == c.name@;
                        assert(rebases(candidates@[i], eq_base));
                    }
                    if fails_k && !dom0.contains(c.name@) {
                        let j = choose|j: int| 0 <= j < k && rebases(#[trigger] candidates@[j], eq_base) && candidates@[j].name@ == c.name@;
                        assert(0 <= j < k && rebases(candidates@[j], eq_base) && candidates@[j].name@ == c.name@);
                    }
                }
            } else {
                assert(!fails_k);
            }
        }
        match rebase(c.preferred_addr, eq_base) {
            None => {},
            Some(target) => {
                match manager.install(c.name, target, c.hook_fn) {
                    Ok(()) => {},
                    Err(e) => {
                        let mut line = lit(c.name);
                        push_str(&mut line, ": ");
                        let ec = chars_of(e.as_str());
                        push_chars(&mut line, ec.as_slice());
                        let ghost fl = failures@;
                        failures.push(line);
                        proof {
                            assert(strings_view(failures@) =~= strings_view(fl).push(
                                failure_line(candidates@[k as int].name@, "detour already installed"@),
                            ));
                        }
                    },
                }
            },
        }
        proof {
            assert forall|n: Seq<char>| old(manager)@.dom().contains(n) implies #[trigger] manager@.dom().contains(n)
                && manager@[n] == old(manager)@[n] by {
                assert(before.dom().contains(n));
                assert(before[n] == old(manager)@[n]);
            }
            assert forall|n: Seq<char>| #[trigger] manager@.dom().contains(n) <==> old(manager)@.dom().contains(n)
                || exists|i: int| 0 <= i < k + 1 && rebases(candidates@[i], eq_base) && candidates@[i].name@ == n by {
                if exists|i: int| 0 <= i < k + 1 && rebases(candidates@[i], eq_base) && candidates@[i].name@ == n {
                    let i = choose|i: int| 0 <= i < k + 1 && rebases(candidates@[i], eq_base) && candidates@[i].name@ == n;
                    if i < k {
                        assert(before.dom().contains(n));
                    }
                }
                if before.dom().contains(n) && !old(manager)@.dom().contains(n) {
                    let i = choose|i: int| 0 <= i < k && rebases(candidates@[i], eq_base) && candidates@[i].name@ == n;
                    assert(0 <= i < k + 1 && rebases(candidates@[i], eq_base) && candidates@[i].name@ == n);
                }
            }
            assert forall|n: Seq<char>| #[trigger] manager@.dom().contains(n) && !old(manager)@.dom().contains(n)
                implies exists|i: int|
                0 <= i < k + 1 && candidates@[i].name@ == n && rebase_spec(candidates@[i].preferred_addr, eq_base)
                    == Some(manager@[n].target) && manager@[n].hook == candidates@[i].hook_fn by {
                if n != c.name@ || before.dom().contains(n) {
                    assert(before.dom().contains(n));
                    assert(manager@[n] == before[n]);
                } else {
                    assert(candidates@[k as int].name@ == n);
                }
            }
        }
        k = k + 1;
    }
    proof {
        assert(candidates@.len() == k);
    }
    if failures.len() == 0 {
        Ok(())
    } else {
        let ghost lines = strings_view(failures@);
        let mut msg = lit("detour install failures: ");
        let mut j: usize = 0;
        while j < failures.len()
            invariant
                0 <= j <= failures@.len(),
                failures@.len() > 0,
                lines == strings_view(failures@),
                msg@ == "detour install failures: "@ + join_lines(lines.take(j as int)),
            decreases failures@.len() - j,
        {
            let ghost m0 = msg@;
            if j > 0 {
                push_str(&mut msg, ", ");
            }
            let fc = chars_of(failures[j].as_str());
            push_chars(&mut msg, fc.as_slice());
            proof {
                let t = lines.take(j + 1);
                assert(t.drop_last() =~= lines.take(j as int));
                assert(t.last() == failures@[j as int]@);
                if j == 0 {
                    assert(join_lines(t) == t[0]);
                    assert(msg@ =~= "detour install failures: "@ + join_lines(t));
                } else {
                    assert(msg@ =~= "detour install failures: "@ + join_lines(t));
                }
            }
            j = j + 1;
        }
        proof {
            assert(lines.take(failures@.len() as int) =~= lines);
        }
        Err(msg)
    }
}

/// Detour body for the screen-window initializer (logs only).
pub fn hook_sidl_screen_wnd_init() {
}

/// Detour body for the window manager's remove-window (logs only).
pub fn hook_cxwnd_manager_remove_wnd() {
}

/// Detour body for the merchant purchase-page update (logs only).
pub fn hook_cmerchantwnd_purchasepagehandler_update_list() {
}

/// Detour body for mouse event processing (logs only).
pub fn hook_process_mouse_events() {
}

/// Detour body for keyboard event processing (logs only).
pub fn hook_process_keyboard_events() {
}

/// Detour body for the renderer's device reset (logs only).
pub fn hook_crender_reset_device() {
}

} // verus!
