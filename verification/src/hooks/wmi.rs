//! WMI query policy: hardware-fingerprinting queries are blocked, process
//! inventory queries are narrowed to hide the tool's own processes, and
//! everything else passes through.
use vstd::prelude::*;
use crate::text::{occurs_at,
    chars_of, contains, contains_str, eq_ic, eq_ignore_case_str, lower_chars, lower_seq, push_char,
    push_chars, split_whitespace, split_ws, string_of, trim, trim_chars, trim_end, trim_end_index,
    chars_view, lit,
};

verus! {

/// The condition that hides the tool's processes from a process query.
pub const TEXTQUEST_PROCESS_FILTER: &'static str = "(Name <> 'textquest.exe' AND Name <> 'textquest-web.exe' AND Name <> 'textquest-soul.exe' AND Name <> 'llm-client.exe' AND Name <> 'eqdiff.exe')";

/// What happens to a WMI query.
#[derive(Debug, Clone, Copy, PartialEq, Eq, Structural)]
pub enum WmiQueryPolicy {
    PassThrough,
    RewriteProcessInventory,
    BlockFingerprintingQuery,
}

/// Words joined with single spaces.
pub open spec fn join_spaces(t: Seq<Seq<char>>) -> Seq<char>
    decreases t.len(),
{
    if t.len() == 0 {
        seq![]
    } else if t.len() == 1 {
        t[0]
    } else {
        join_spaces(t.drop_last()) + seq![' '] + t.last()
    }
}

/// ASCII lower-case, whitespace runs collapsed to single spaces, no
/// leading or trailing whitespace.
pub open spec fn normalize_spec(q: Seq<char>) -> Seq<char> {
    join_spaces(split_ws(lower_seq(q)))
}

/// A process-inventory class.
pub open spec fn names_process_class(n: Seq<char>) -> bool {
    contains(n, "win32_process"@) || contains(n, "win32_perfrawdata_perfproc_process"@) || contains(
        n,
        "win32_perfformatteddata_perfproc_process"@,
    )
}

/// A hardware-fingerprinting class.
pub open spec fn names_fingerprint_class(n: Seq<char>) -> bool {
    contains(n, "cim_diskdrive"@) || contains(n, "cim_networkadapter"@) || contains(
        n,
        "cim_processor"@,
    ) || contains(n, "cim_videocontroller"@) || contains(n, "win32_baseboard"@) || contains(
        n,
        "win32_bios"@,
    ) || contains(n, "win32_computersystem"@) || contains(n, "win32_computersystemproduct"@)
        || contains(n, "win32_desktopmonitor"@) || contains(n, "win32_diskdrive"@) || contains(
        n,
        "win32_logicaldisk"@,
    ) || contains(n, "win32_networkadapter"@) || contains(n, "win32_networkadapterconfiguration"@)
        || contains(n, "win32_physicalmedia"@) || contains(n, "win32_pnpentity"@) || contains(
        n,
        "win32_portconnector"@,
    ) || contains(n, "win32_processor"@) || contains(n, "win32_systemenclosure"@) || contains(
        n,
        "win32_videocontroller"@,
    )
}

/// The policy of a query: fingerprinting classes are blocked first, then
/// process classes are rewritten, anything else passes.
pub open spec fn classify_spec(q: Seq<char>) -> WmiQueryPolicy {
    let n = normalize_spec(q);
    if names_fingerprint_class(n) {
        WmiQueryPolicy::BlockFingerprintingQuery
    } else if names_process_class(n) {
        WmiQueryPolicy::RewriteProcessInventory
    } else {
        WmiQueryPolicy::PassThrough
    }
}

/// A query that names a fingerprinting class is blocked, whatever else it
/// names: it is never rewritten as a process-inventory query nor passed.
pub proof fn lemma_fingerprinting_queries_are_blocked(q: Seq<char>)
    requires
        names_fingerprint_class(normalize_spec(q)),
    ensures
        classify_spec(q) == WmiQueryPolicy::BlockFingerprintingQuery,
{
}

/// A processor query is blocked although its class name also contains the
/// process class name `win32_process`: the fingerprinting check comes first.
pub proof fn lemma_processor_queries_are_blocked(q: Seq<char>)
    requires
        contains(normalize_spec(q), "win32_processor"@),
    ensures
        names_process_class(normalize_spec(q)),
        classify_spec(q) == WmiQueryPolicy::BlockFingerprintingQuery,
{
    reveal_strlit("win32_processor");
    reveal_strlit("win32_process");
    let n = normalize_spec(q);
    let i = choose|i: int| occurs_at(n, "win32_processor"@, i);
    assert(n.subrange(i, i + 13) =~= "win32_processor"@.subrange(0, 13));
    assert("win32_processor"@.subrange(0, 13) =~= "win32_process"@);
    assert(occurs_at(n, "win32_process"@, i));
}

/// Join words with single spaces.
fn join_with_spaces(t: &Vec<Vec<char>>) -> (r: Vec<char>)
    ensures
        r@ == join_spaces(chars_view(t@)),
{
    let mut out: Vec<char> = Vec::new();
    let mut i: usize = 0;
    while i < t.len()
        invariant
            0 <= i <= t@.len(),
            out@ == join_spaces(chars_view(t@).subrange(0, i as int)),
        decreases t@.len() - i,
    {
        let ghost before = out@;
        if i > 0 {
            out.push(' ');
        }
        let w = t[i].as_slice();
        let mut j: usize = 0;
        let ghost mid = out@;
        while j < w.len()
            invariant
                0 <= j <= w@.len(),
                out@ == mid + w@.subrange(0, j as int),
            decreases w@.len() - j,
        {
            out.push(w[j]);
            proof {
                assert(out@ =~= mid + w@.subrange(0, j + 1));
            }
            j = j + 1;
        }
        proof {
            let p = chars_view(t@).subrange(0, i + 1);
            assert(p.drop_last() =~= chars_view(t@).subrange(0, i as int));
            assert(w@.subrange(0, w@.len() as int) =~= w@);
            if i == 0 {
                assert(out@ =~= join_spaces(p));
            } else {
                assert(out@ =~= join_spaces(p));
            }
        }
        i = i + 1;
    }
    proof {
        assert(chars_view(t@).subrange(0, t@.len() as int) =~= chars_view(t@));
    }
    out
}

/// Normalize a query for class matching.
pub fn normalize_wql(query: &str) -> (r: String)
    ensures
        r@ == normalize_spec(query@),
{
    let q = chars_of(query);
    let l = lower_chars(q.as_slice());
    let words = split_whitespace(l.as_slice());
    proof {
        assert(chars_view(words@) =~= split_ws(lower_seq(query@)));
    }
    let j = join_with_spaces(&words);
    string_of(j.as_slice())
}

fn names_process_class_exec(n: &[char]) -> (r: bool)
    ensures
        r == names_process_class(n@),
{
    contains_str(n, "win32_process") || contains_str(n, "win32_perfrawdata_perfproc_process")
        || contains_str(n, "win32_perfformatteddata_perfproc_process")
}

fn names_fingerprint_class_exec(n: &[char]) -> (r: bool)
    ensures
        r == names_fingerprint_class(n@),
{
    contains_str(n, "cim_diskdrive") || contains_str(n, "cim_networkadapter") || contains_str(
        n,
        "cim_processor",
    ) || contains_str(n, "cim_videocontroller") || contains_str(n, "win32_baseboard")
        || contains_str(n, "win32_bios") || contains_str(n, "win32_computersystem")
        || contains_str(n, "win32_computersystemproduct") || contains_str(n, "win32_desktopmonitor")
        || contains_str(n, "win32_diskdrive") || contains_str(n, "win32_logicaldisk")
        || contains_str(n, "win32_networkadapter") || contains_str(
        n,
        "win32_networkadapterconfiguration",
    ) || contains_str(n, "win32_physicalmedia") || contains_str(n, "win32_pnpentity")
        || contains_str(n, "win32_portconnector") || contains_str(n, "win32_processor")
        || contains_str(n, "win32_systemenclosure") || contains_str(n, "win32_videocontroller")
}

/// Decide what happens to a WMI query.
pub fn classify_wmi_query(query: &str) -> (r: WmiQueryPolicy)
    ensures
        r == classify_spec(query@),
{
    let n = normalize_wql(query);
    let nv = chars_of(n.as_str());
    if names_fingerprint_class_exec(nv.as_slice()) {
        return WmiQueryPolicy::BlockFingerprintingQuery;
    }
    if names_process_class_exec(nv.as_slice()) {
        return WmiQueryPolicy::RewriteProcessInventory;
    }
    WmiQueryPolicy::PassThrough
}

/// Some whitespace-separated word is `where` (ASCII case ignored).
pub open spec fn has_where_spec(q: Seq<char>) -> bool {
    exists|i: int| 0 <= i < split_ws(q).len() && eq_ic(#[trigger] split_ws(q)[i], "where"@)
}

/// Whether a query already has a `WHERE` clause.
pub fn has_where_clause(query: &str) -> (r: bool)
    ensures
        r == has_where_spec(query@),
{
    let q = chars_of(query);
    let words = split_whitespace(q.as_slice());
    let mut i: usize = 0;
    while i < words.len()
        invariant
            0 <= i <= words@.len(),
            q@ == query@,
            words@.len() == split_ws(query@).len(),
            forall|k: int| 0 <= k < words@.len() ==> #[trigger] words@[k]@ == split_ws(query@)[k],
            forall|k: int| 0 <= k < i ==> !eq_ic(#[trigger] split_ws(query@)[k], "where"@),
        decreases words@.len() - i,
    {
        if eq_ignore_case_str(words[i].as_slice(), "where") {
            return true;
        }
        i = i + 1;
    }
    false
}

/// Trailing semicolons removed.
pub open spec fn strip_semicolons(s: Seq<char>) -> Seq<char>
    decreases s.len(),
{
    if s.len() > 0 && s.last() == ';' {
        strip_semicolons(s.drop_last())
    } else {
        s
    }
}

/// The query body the filter is appended to: trimmed, trailing semicolons
/// and then trailing whitespace removed.
pub open spec fn query_body(q: Seq<char>) -> Seq<char> {
    trim_end(strip_semicolons(trim(q)))
}

/// The narrowed process query: `None` unless the normalized query names
/// `win32_process` and holds `select `, or when the body is empty;
/// otherwise the body with the filter added by `AND` (when it has a
/// `WHERE`) or `WHERE`.
pub open spec fn rewrite_spec(q: Seq<char>) -> Option<Seq<char>> {
    let n = normalize_spec(q);
    let body = query_body(q);
    if !contains(n, "win32_process"@) || !contains(n, "select "@) {
        None
    } else if body.len() == 0 {
        None
    } else if has_where_spec(body) {
        Some(body + " AND "@ + TEXTQUEST_PROCESS_FILTER@)
    } else {
        Some(body + " WHERE "@ + TEXTQUEST_PROCESS_FILTER@)
    }
}

/// Narrow a process-inventory query so the tool's processes are not listed.
pub fn rewrite_process_inventory_query(query: &str) -> (r: Option<String>)
    ensures
        r is None ==> rewrite_spec(query@) is None,
        r matches Some(s) ==> rewrite_spec(query@) == Some(s@),
{
    let n = normalize_wql(query);
    let nv = chars_of(n.as_str());
    if !contains_str(nv.as_slice(), "win32_process") || !contains_str(nv.as_slice(), "select ") {
        return None;
    }
    let q = chars_of(query);
    let t = trim_chars(q.as_slice());
    let mut e: usize = t.len();
    proof {
        assert(t@.subrange(0, t@.len() as int) =~= t@);
    }
    while e > 0 && t[e - 1] == ';'
        invariant
            0 <= e <= t@.len(),
            strip_semicolons(t@) == strip_semicolons(t@.subrange(0, e as int)),
        decreases e,
    {
        proof {
            let p = t@.subrange(0, e as int);
            assert(p.drop_last() =~= t@.subrange(0, e - 1));
        }
        e = e - 1;
    }
    proof {
        let p = t@.subrange(0, e as int);
        if p.len() > 0 {
            assert(p.last() == t@[e - 1]);
        }
    }
    let stripped = crate::text::sub_chars(t.as_slice(), 0, e);
    let end = trim_end_index(stripped.as_slice(), 0);
    let body = crate::text::sub_chars(stripped.as_slice(), 0, end);
    proof {
        assert(stripped@.subrange(0, stripped@.len() as int) =~= stripped@);
    }
    if body.len() == 0 {
        return None;
    }
    let body_s = string_of(body.as_slice());
    let mut out = string_of(body.as_slice());
    if has_where_clause(body_s.as_str()) {
        out.append(" AND ");
    } else {
        out.append(" WHERE ");
    }
    out.append(TEXTQUEST_PROCESS_FILTER);
    Some(out)
}

/// What the `ExecQuery` hook does with a query.
#[derive(Debug, PartialEq, Eq)]
pub enum ExecQueryAction {
    /// Run the query as it is.
    Original,
    /// Run this narrowed query instead.
    Rewritten(String),
    /// Refuse the query with access denied and no results.
    Block,
}

/// Decide an `ExecQuery` call: other languages and unreadable queries run
/// as they are; otherwise by policy, a process query that cannot be
/// narrowed being refused.
pub fn exec_query_action(language: &str, query: Option<String>) -> (r: ExecQueryAction)
    ensures
        !(language@.len() == 0 || eq_ic(language@, "WQL"@)) ==> r == ExecQueryAction::Original,
        (language@.len() == 0 || eq_ic(language@, "WQL"@)) ==> match query {
            None => r == ExecQueryAction::Original,
            Some(q) => match classify_spec(q@) {
                WmiQueryPolicy::PassThrough => r == ExecQueryAction::Original,
                WmiQueryPolicy::BlockFingerprintingQuery => r == ExecQueryAction::Block,
                WmiQueryPolicy::RewriteProcessInventory => match rewrite_spec(q@) {
                    Some(s) => r matches ExecQueryAction::Rewritten(t) && t@ == s,
                    None => r == ExecQueryAction::Block,
                },
            },
        },
{
    let lang = chars_of(language);
    if !(lang.len() == 0 || eq_ignore_case_str(lang.as_slice(), "WQL")) {
        return ExecQueryAction::Original;
    }
    let q = match query {
        None => {
            return ExecQueryAction::Original;
        },
        Some(q) => q,
    };
    match classify_wmi_query(q.as_str()) {
        WmiQueryPolicy::PassThrough => ExecQueryAction::Original,
        WmiQueryPolicy::BlockFingerprintingQuery => ExecQueryAction::Block,
        WmiQueryPolicy::RewriteProcessInventory => match rewrite_process_inventory_query(q.as_str()) {
            Some(s) => ExecQueryAction::Rewritten(s),
            None => ExecQueryAction::Block,
        },
    }
}

/// Install the WMI hooks. Without COM to hook this succeeds and does
/// nothing.
pub fn install() -> (r: Result<(), String>)
    ensures
        r is Ok,
{
    Ok(())
}

/// Remove the WMI hooks. Without hooks in place this does nothing.
pub fn remove() {
}

} // verus!
