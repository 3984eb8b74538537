//! Spell-set shortcuts (`/sss`, `/ssl`, `/ssm`, `/ssd`, `/deletespellset`)
//! and removal of a named loadout from a character's spell-set file.
use vstd::prelude::*;
use crate::text::{
    chars_eq, chars_view, chars_of, ends_with, ends_with_str, eq_ic, eq_ignore_case, eq_str, lit, lit_then,
    lower_chars, lower_seq, push_chars, split_at_ws, split_at_ws_exec, split_once_char,
    split_once_exec, starts_with, starts_with_str, string_of, sub_chars, trim, trim_chars,
    trim_start, trim_start_index,
};

verus! {

/// A spell-set shortcut.
#[derive(Debug, Clone, PartialEq, Eq)]
pub enum SpellSetCommand {
    Save(String),
    Load(String),
    Delete(String),
}

/// [`SpellSetCommand`] with the set name as characters.
pub enum SpellSetModel {
    Save(Seq<char>),
    Load(Seq<char>),
    Delete(Seq<char>),
}

impl View for SpellSetCommand {
    type V = SpellSetModel;

    open spec fn view(&self) -> SpellSetModel {
        match self {
            SpellSetCommand::Save(s) => SpellSetModel::Save(s@),
            SpellSetCommand::Load(s) => SpellSetModel::Load(s@),
            SpellSetCommand::Delete(s) => SpellSetModel::Delete(s@),
        }
    }
}

/// `/verb name`: after trimming, a leading `/`, the verb up to the first
/// whitespace, and a non-blank trimmed name. `sss` saves, `ssl` and `ssm`
/// load, `ssd` and `deletespellset` delete (verbs ignore ASCII case).
pub open spec fn spell_set_spec(c: Seq<char>) -> Option<SpellSetModel> {
    let t = trim(c);
    if !(t.len() > 0 && t[0] == '/') {
        None
    } else {
        let body = trim_start(t.drop_first());
        let (verb, rest) = split_at_ws(body);
        match rest {
            None => None,
            Some(r) => {
                let name = trim(r);
                let v = lower_seq(verb);
                if name.len() == 0 {
                    None
                } else if v == "sss"@ {
                    Some(SpellSetModel::Save(name))
                } else if v == "ssl"@ || v == "ssm"@ {
                    Some(SpellSetModel::Load(name))
                } else if v == "ssd"@ || v == "deletespellset"@ {
                    Some(SpellSetModel::Delete(name))
                } else {
                    None
                }
            },
        }
    }
}

/// Parse a spell-set shortcut command.
pub fn parse_spell_set_command(command: &str) -> (r: Option<SpellSetCommand>)
    ensures
        r is None ==> spell_set_spec(command@) is None,
        r matches Some(s) ==> spell_set_spec(command@) == Some(s@),
{
    let c = chars_of(command);
    let t = trim_chars(c.as_slice());
    if !(t.len() > 0 && t[0] == '/') {
        return None;
    }
    let after = sub_chars(t.as_slice(), 1, t.len());
    proof {
        assert(after@ =~= t@.drop_first());
    }
    let start = trim_start_index(after.as_slice());
    let body = sub_chars(after.as_slice(), start, after.len());
    let (verb, rest) = split_at_ws_exec(body.as_slice());
    let r = match rest {
        None => {
            return None;
        },
        Some(r) => r,
    };
    let name = trim_chars(r.as_slice());
    if name.len() == 0 {
        return None;
    }
    let v = lower_chars(verb.as_slice());
    let vs = v.as_slice();
    if eq_str(vs, "sss") {
        Some(SpellSetCommand::Save(string_of(name.as_slice())))
    } else if eq_str(vs, "ssl") || eq_str(vs, "ssm") {
        Some(SpellSetCommand::Load(string_of(name.as_slice())))
    } else if eq_str(vs, "ssd") || eq_str(vs, "deletespellset") {
        Some(SpellSetCommand::Delete(string_of(name.as_slice())))
    } else {
        None
    }
}

/// Delete a spell set from the character's files. Where the game's files
/// cannot be reached from this build, deletion is refused with a message.
pub fn delete_spell_set(name: &str) -> (r: Result<usize, String>)
    ensures
        r matches Err(e) && e@ == "Spell-set deletion is only available on Windows builds"@,
{
    Err(lit("Spell-set deletion is only available on Windows builds"))
}

/// Translate a spell-set shortcut: save and load become the game's
/// `/savespellset` and `/memspellset` commands; delete is carried out here
/// and yields no command.
pub fn handle_spell_set_command(command: SpellSetCommand) -> (r: Result<Option<String>, String>)
    ensures
        command matches SpellSetCommand::Save(n) ==> (r matches Ok(Some(s)) && s@
            == "/savespellset "@ + n@),
        command matches SpellSetCommand::Load(n) ==> (r matches Ok(Some(s)) && s@
            == "/memspellset "@ + n@),
        command is Delete ==> (r matches Err(e) && e@
            == "Spell-set deletion is only available on Windows builds"@),
{
    match command {
        SpellSetCommand::Save(name) => {
            let mut s = lit("/savespellset ");
            s.append(name.as_str());
            Ok(Some(s))
        },
        SpellSetCommand::Load(name) => {
            let mut s = lit("/memspellset ");
            s.append(name.as_str());
            Ok(Some(s))
        },
        SpellSetCommand::Delete(name) => match delete_spell_set(name.as_str()) {
            Ok(_) => Ok(None),
            Err(e) => Err(e),
        },
    }
}

/// A file `<character>_<anything>.ini` (prefix and extension compared
/// ignoring ASCII case), longer than the prefix plus the extension.
pub open spec fn spell_set_file_spec(file_name: Seq<char>, character_name: Seq<char>) -> bool {
    let prefix = character_name.push('_');
    file_name.len() > prefix.len() + 4 && eq_ic(file_name.subrange(0, prefix.len() as int), prefix)
        && eq_ic(file_name.subrange(file_name.len() - 4, file_name.len() as int), ".ini"@)
}

/// Whether a file name is one of the character's spell-set files.
pub fn spell_set_file_matches(file_name: &str, character_name: &str) -> (r: bool)
    ensures
        r == spell_set_file_spec(file_name@, character_name@),
{
    let f = chars_of(file_name);
    let mut prefix = chars_of(character_name);
    prefix.push('_');
    if f.len() < 5 || f.len() - 4 <= prefix.len() {
        return false;
    }
    let head = sub_chars(f.as_slice(), 0, prefix.len());
    let tail = sub_chars(f.as_slice(), f.len() - 4, f.len());
    let ext = chars_of(".ini");
    eq_ignore_case(head.as_slice(), prefix.as_slice()) && eq_ignore_case(
        tail.as_slice(),
        ext.as_slice(),
    )
}

/// The outcome of deleting a spell set given how many files were updated.
pub fn spell_set_deletion_result(name: &str, character_name: &str, updated_files: usize) -> (r:
    Result<usize, String>)
    ensures
        updated_files > 0 ==> r == Ok::<usize, String>(updated_files),
        updated_files == 0 ==> (r matches Err(e) && e@ == "Spell set '"@ + name@
            + "' was not found in any "@ + character_name@ + "_*.ini file"@),
{
    if updated_files == 0 {
        let mut e = lit("Spell set '");
        e.append(name);
        e.append("' was not found in any ");
        e.append(character_name);
        e.append("_*.ini file");
        Err(e)
    } else {
        Ok(updated_files)
    }
}

// ─── Removing a loadout from a spell-set file ────────────────────────────────

/// Lines of `s`, each keeping its terminating `\n` (`split_inclusive('\n')`):
/// the lines finished so far and the unfinished one.
pub open spec fn lines_run(s: Seq<char>) -> (Seq<Seq<char>>, Seq<char>)
    decreases s.len(),
{
    if s.len() == 0 {
        (seq![], seq![])
    } else {
        let (done, cur) = lines_run(s.drop_last());
        let c = s.last();
        if c == '\n' {
            (done.push(cur.push(c)), seq![])
        } else {
            (done, cur.push(c))
        }
    }
}

/// `split_inclusive('\n')`.
pub open spec fn lines_inclusive(s: Seq<char>) -> Seq<Seq<char>> {
    let (done, cur) = lines_run(s);
    if cur.len() > 0 {
        done.push(cur)
    } else {
        done
    }
}

/// Trailing `\r` and `\n` characters removed.
pub open spec fn strip_crlf(s: Seq<char>) -> Seq<char>
    decreases s.len(),
{
    if s.len() > 0 && (s.last() == '\r' || s.last() == '\n') {
        strip_crlf(s.drop_last())
    } else {
        s
    }
}

/// Every trailing copy of `p` removed (`trim_end_matches`).
pub open spec fn strip_suffix_all(s: Seq<char>, p: Seq<char>) -> Seq<char>
    decreases s.len(),
{
    if p.len() > 0 && ends_with(s, p) {
        strip_suffix_all(s.subrange(0, s.len() - p.len()), p)
    } else {
        s
    }
}

/// A line `SpellLoadoutN.name = <target>` declares the loadout prefix
/// `spellloadoutn` (lower-cased key without `.name`).
pub open spec fn declared_prefix(line: Seq<char>, target: Seq<char>) -> Option<Seq<char>> {
    match split_once_char(strip_crlf(line), '=') {
        None => None,
        Some((k, v)) => {
            let key = trim(k);
            if starts_with(key, "SpellLoadout"@) && ends_with(key, ".name"@) && eq_ic(
                trim(v),
                target,
            ) {
                Some(lower_seq(strip_suffix_all(key, ".name"@)))
            } else {
                None
            }
        },
    }
}

/// Some line declares `p` for the target set.
pub open spec fn prefix_declared(lines: Seq<Seq<char>>, target: Seq<char>, p: Seq<char>) -> bool {
    exists|j: int| 0 <= j < lines.len() && declared_prefix(lines[j], target) == Some(p)
}

/// The lower-cased part of a line's key before its first `.`.
pub open spec fn line_prefix(line: Seq<char>) -> Option<Seq<char>> {
    let l = strip_crlf(line);
    let key = match split_once_char(l, '=') {
        Some((k, _)) => trim(k),
        None => trim(l),
    };
    match split_once_char(key, '.') {
        Some((p, _)) => Some(lower_seq(p)),
        None => None,
    }
}

/// A line belongs to one of the loadouts being removed.
pub open spec fn line_removed(line: Seq<char>, lines: Seq<Seq<char>>, target: Seq<char>) -> bool {
    match line_prefix(line) {
        Some(p) => prefix_declared(lines, target, p),
        None => false,
    }
}

/// The first `n` lines, without the removed ones, joined back together.
pub open spec fn kept_text(lines: Seq<Seq<char>>, target: Seq<char>, n: int) -> Seq<char>
    decreases n,
{
    if n <= 0 {
        seq![]
    } else {
        kept_text(lines, target, n - 1) + if line_removed(lines[n - 1], lines, target) {
            seq![]
        } else {
            lines[n - 1]
        }
    }
}

/// Removing a set: `None` when the trimmed name is blank or no loadout of
/// that name exists; otherwise the file without every line of each loadout
/// named so.
pub open spec fn remove_entries_spec(content: Seq<char>, set_name: Seq<char>) -> Option<Seq<char>> {
    let target = trim(set_name);
    let lines = lines_inclusive(content);
    if target.len() == 0 || !(exists|p: Seq<char>| prefix_declared(lines, target, p)) {
        None
    } else {
        Some(kept_text(lines, target, lines.len() as int))
    }
}

/// A name line declares a loadout for the set only when its whole value
/// names the set: a line whose trimmed value is longer or shorter than the
/// trimmed set name (a longer name that merely starts with the set name,
/// say) declares nothing for it.
pub proof fn lemma_name_line_must_match_whole_name(line: Seq<char>, set_name: Seq<char>, k: Seq<char>, v: Seq<char>)
    requires
        split_once_char(strip_crlf(line), '=') == Some((k, v)),
        trim(v).len() != trim(set_name).len(),
    ensures
        declared_prefix(line, trim(set_name)) is None,
{
    if eq_ic(trim(v), trim(set_name)) {
        assert(lower_seq(trim(v)).len() == lower_seq(trim(set_name)).len());
    }
}

/// A file in which no `key=value` line has a value as long as the set name
/// (both trimmed) holds no loadout of that set: nothing is removed and the
/// result is `None`.
pub proof fn lemma_no_whole_name_no_removal(content: Seq<char>, set_name: Seq<char>)
    requires
        forall|j: int|
            0 <= j < lines_inclusive(content).len() ==> match split_once_char(
                strip_crlf(#[trigger] lines_inclusive(content)[j]),
                '=',
            ) {
                Some((k, v)) => trim(v).len() != trim(set_name).len(),
                None => true,
            },
    ensures
        remove_entries_spec(content, set_name) is None,
{
    let lines = lines_inclusive(content);
    let target = trim(set_name);
    assert forall|p: Seq<char>| !prefix_declared(lines, target, p) by {
        assert forall|j: int| 0 <= j < lines.len() implies declared_prefix(lines[j], target) != Some(p) by {
            match split_once_char(strip_crlf(lines[j]), '=') {
                None => {},
                Some((k, v)) => {
                    lemma_name_line_must_match_whole_name(lines[j], set_name, k, v);
                },
            }
        }
    }
}

/// Split into lines that keep their `\n`.
fn split_lines(s: &[char]) -> (r: Vec<Vec<char>>)
    ensures
        r@.len() == lines_inclusive(s@).len(),
        forall|i: int| 0 <= i < r@.len() ==> #[trigger] r@[i]@ == lines_inclusive(s@)[i],
{
    let mut done: Vec<Vec<char>> = Vec::new();
    let mut cur: Vec<char> = Vec::new();
    let mut i: usize = 0;
    proof {
        assert(s@.subrange(0, 0) =~= seq![]);
        assert(cur@ =~= seq![]);
    }
    while i < s.len()
        invariant
            0 <= i <= s@.len(),
            lines_run(s@.subrange(0, i as int)).1 == cur@,
            lines_run(s@.subrange(0, i as int)).0.len() == done@.len(),
            forall|k: int|
                0 <= k < done@.len() ==> #[trigger] done@[k]@ == lines_run(
                    s@.subrange(0, i as int),
                ).0[k],
        decreases s@.len() - i,
    {
        let c = s[i];
        proof {
            let p = s@.subrange(0, i + 1);
            assert(p.drop_last() =~= s@.subrange(0, i as int));
            assert(p.last() == c);
        }
        cur.push(c);
        if c == '\n' {
            done.push(cur);
            cur = Vec::new();
            proof {
                assert(cur@ =~= seq![]);
            }
        }
        i = i + 1;
    }
    proof {
        assert(s@.subrange(0, s@.len() as int) =~= s@);
    }
    if cur.len() > 0 {
        done.push(cur);
    }
    done
}

/// Trailing `\r` / `\n` removed.
fn strip_crlf_exec(s: &[char]) -> (r: Vec<char>)
    ensures
        r@ == strip_crlf(s@),
{
    let mut e: usize = s.len();
    proof {
        assert(s@.subrange(0, s@.len() as int) =~= s@);
    }
    while e > 0 && (s[e - 1] == '\r' || s[e - 1] == '\n')
        invariant
            0 <= e <= s@.len(),
            strip_crlf(s@) == strip_crlf(s@.subrange(0, e as int)),
        decreases e,
    {
        proof {
            let t = s@.subrange(0, e as int);
            assert(t.drop_last() =~= s@.subrange(0, e - 1));
        }
        e = e - 1;
    }
    proof {
        let t = s@.subrange(0, e as int);
        if t.len() > 0 {
            assert(t.last() == s@[e - 1]);
        }
    }
    sub_chars(s, 0, e)
}

/// Every trailing copy of `.name` removed.
fn strip_name_suffix(s: &[char]) -> (r: Vec<char>)
    ensures
        r@ == strip_suffix_all(s@, ".name"@),
{
    let p = chars_of(".name");
    proof {
        reveal_strlit(".name");
    }
    let mut e: usize = s.len();
    proof {
        assert(s@.subrange(0, s@.len() as int) =~= s@);
    }
    loop
        invariant
            0 <= e <= s@.len(),
            p@ == ".name"@,
            p@.len() == 5,
            strip_suffix_all(s@, ".name"@) == strip_suffix_all(s@.subrange(0, e as int), ".name"@),
        decreases e,
    {
        let cur = sub_chars(s, 0, e);
        if !ends_with_str(cur.as_slice(), ".name") {
            proof {
                assert(cur@ == s@.subrange(0, e as int));
            }
            return cur;
        }
        proof {
            let t = s@.subrange(0, e as int);
            assert(t.subrange(0, t.len() - 5) =~= s@.subrange(0, e - 5));
        }
        e = e - 5;
    }
}

/// The loadout prefix a line declares for the target set.
fn declared_prefix_exec(line: &[char], target: &[char]) -> (r: Option<Vec<char>>)
    ensures
        r is None ==> declared_prefix(line@, target@) is None,
        r matches Some(p) ==> declared_prefix(line@, target@) == Some(p@),
{
    let l = strip_crlf_exec(line);
    match split_once_exec(l.as_slice(), '=') {
        None => None,
        Some((k, v)) => {
            let key = trim_chars(k.as_slice());
            let val = trim_chars(v.as_slice());
            if starts_with_str(key.as_slice(), "SpellLoadout") && ends_with_str(
                key.as_slice(),
                ".name",
            ) && eq_ignore_case(val.as_slice(), target) {
                let stripped = strip_name_suffix(key.as_slice());
                Some(lower_chars(stripped.as_slice()))
            } else {
                None
            }
        },
    }
}

/// The lower-cased key prefix of a line.
fn line_prefix_exec(line: &[char]) -> (r: Option<Vec<char>>)
    ensures
        r is None ==> line_prefix(line@) is None,
        r matches Some(p) ==> line_prefix(line@) == Some(p@),
{
    let l = strip_crlf_exec(line);
    let key = match split_once_exec(l.as_slice(), '=') {
        Some((k, _)) => trim_chars(k.as_slice()),
        None => trim_chars(l.as_slice()),
    };
    match split_once_exec(key.as_slice(), '.') {
        Some((p, _)) => Some(lower_chars(p.as_slice())),
        None => None,
    }
}

/// Some of the first `n` lines declares `p` for the target set.
pub open spec fn declared_upto(lines: Seq<Seq<char>>, target: Seq<char>, n: int, p: Seq<char>) -> bool {
    exists|j: int| 0 <= j < n && declared_prefix(lines[j], target) == Some(p)
}

/// Whether `p` is one of the collected prefixes.
fn prefix_listed(prefixes: &Vec<Vec<char>>, p: &[char]) -> (r: bool)
    ensures
        r == chars_view(prefixes@).contains(p@),
{
    let mut k: usize = 0;
    while k < prefixes.len()
        invariant
            0 <= k <= prefixes@.len(),
            forall|j: int| 0 <= j < k ==> prefixes@[j]@ != p@,
        decreases prefixes@.len() - k,
    {
        if chars_eq(prefixes[k].as_slice(), p) {
            proof {
                assert(chars_view(prefixes@)[k as int] == p@);
            }
            return true;
        }
        k = k + 1;
    }
    proof {
        if chars_view(prefixes@).contains(p@) {
            let j = choose|j: int| 0 <= j < chars_view(prefixes@).len() && chars_view(prefixes@)[j] == p@;
            assert(prefixes@[j]@ == p@);
        }
    }
    false
}

/// Remove from a spell-set file every line of each loadout whose name is
/// `set_name` (trimmed, ASCII case ignored). A loadout is the set of keys
/// sharing the prefix before the first `.` of its `SpellLoadoutN.name` key.
/// `None` when the name is blank or no such loadout exists.
pub fn remove_spell_set_entries(content: &str, set_name: &str) -> (r: Option<String>)
    ensures
        r is None ==> remove_entries_spec(content@, set_name@) is None,
        r matches Some(s) ==> remove_entries_spec(content@, set_name@) == Some(s@),
{
    let name_chars = chars_of(set_name);
    let target = trim_chars(name_chars.as_slice());
    let content_chars = chars_of(content);
    let lines = split_lines(content_chars.as_slice());
    let ghost glines = lines_inclusive(content@);
    if target.len() == 0 {
        return None;
    }
    let mut prefixes: Vec<Vec<char>> = Vec::new();
    let mut i: usize = 0;
    proof {
        assert forall|p: Seq<char>|
            #![trigger declared_upto(glines, target@, 0, p)]
            #![trigger chars_view(prefixes@).contains(p)]
            chars_view(prefixes@).contains(p) <==> declared_upto(glines, target@, 0, p) by {}
    }
    while i < lines.len()
        invariant
            0 <= i <= lines@.len(),
            lines@.len() == glines.len(),
            forall|k: int| 0 <= k < lines@.len() ==> #[trigger] lines@[k]@ == glines[k],
            forall|p: Seq<char>|
                #![trigger declared_upto(glines, target@, i as int, p)]
                #![trigger chars_view(prefixes@).contains(p)]
                chars_view(prefixes@).contains(p) <==> declared_upto(glines, target@, i as int, p),
        decreases lines@.len() - i,
    {
        let ghost before = prefixes@;
        let d = declared_prefix_exec(lines[i].as_slice(), target.as_slice());
        match d {
            Some(p) => {
                prefixes.push(p);
            },
            None => {},
        }
        proof {
            assert forall|q: Seq<char>|
                #![trigger declared_upto(glines, target@, i + 1, q)]
                #![trigger chars_view(prefixes@).contains(q)]
                chars_view(prefixes@).contains(q) <==> declared_upto(glines, target@, i + 1, q) by {
                if chars_view(prefixes@).contains(q) {
                    let k = choose|k: int| 0 <= k < chars_view(prefixes@).len() && chars_view(prefixes@)[k] == q;
                    if k < before.len() {
                        assert(chars_view(before)[k] == q);
                        assert(chars_view(before).contains(q));
                        assert(declared_upto(glines, target@, i as int, q));
                        let j = choose|j: int| 0 <= j < i && declared_prefix(glines[j], target@) == Some(q);
                        assert(0 <= j < i + 1 && declared_prefix(glines[j], target@) == Some(q));
                    } else {
                        assert(declared_prefix(glines[i as int], target@) == Some(q));
                    }
                }
                if declared_upto(glines, target@, i + 1, q) {
                    let j = choose|j: int| 0 <= j < i + 1 && declared_prefix(glines[j], target@) == Some(q);
                    if j < i {
                        assert(declared_upto(glines, target@, i as int, q));
                        assert(chars_view(before).contains(q));
                        let k = choose|k: int| 0 <= k < chars_view(before).len() && chars_view(before)[k] == q;
                        assert(chars_view(prefixes@)[k] == q);
                    } else {
                        assert(chars_view(prefixes@)[before.len() as int] == q);
                    }
                }
            }
        }
        i = i + 1;
    }
    if prefixes.len() == 0 {
        proof {
            assert forall|p: Seq<char>| !prefix_declared(glines, target@, p) by {
                if prefix_declared(glines, target@, p) {
                    let j = choose|j: int|
                        0 <= j < glines.len() && declared_prefix(glines[j], target@) == Some(p);
                    assert(declared_upto(glines, target@, i as int, p));
                    assert(chars_view(prefixes@).contains(p));
                }
            }
        }
        return None;
    }
    proof {
        let p0 = prefixes@[0]@;
        assert(chars_view(prefixes@)[0] == p0);
        assert(chars_view(prefixes@).contains(p0));
        assert(declared_upto(glines, target@, i as int, p0));
        let j = choose|j: int| 0 <= j < i && declared_prefix(glines[j], target@) == Some(p0);
        assert(prefix_declared(glines, target@, p0));
    }
    let mut out = String::new();
    let mut i: usize = 0;
    while i < lines.len()
        invariant
            0 <= i <= lines@.len(),
            lines@.len() == glines.len(),
            forall|k: int| 0 <= k < lines@.len() ==> #[trigger] lines@[k]@ == glines[k],
            forall|p: Seq<char>|
                #![trigger declared_upto(glines, target@, glines.len() as int, p)]
                #![trigger chars_view(prefixes@).contains(p)]
                chars_view(prefixes@).contains(p) <==> declared_upto(glines, target@, glines.len() as int, p),
            out@ == kept_text(glines, target@, i as int),
        decreases lines@.len() - i,
    {
        let remove = match line_prefix_exec(lines[i].as_slice()) {
            Some(p) => prefix_listed(&prefixes, p.as_slice()),
            None => false,
        };
        proof {
            match line_prefix(glines[i as int]) {
                Some(q) => {
                    assert(declared_upto(glines, target@, glines.len() as int, q) == prefix_declared(glines, target@, q));
                },
                None => {},
            }
            assert(remove == line_removed(glines[i as int], glines, target@));
        }
        if !remove {
            push_chars(&mut out, lines[i].as_slice());
        }
        proof {
            assert(out@ =~= kept_text(glines, target@, i + 1));
        }
        i = i + 1;
    }
    Some(out)
}

} // verus!
