//! Small slash-command parsers and rewriters: pipe options, quoting for the
//! game's command line, bandolier selectors, item-slot selectors,
//! invisibility spell names, intercepted and rewritten commands, spell-set
//! shortcuts and waypoint commands.
use vstd::prelude::*;
use crate::text::{
    all_digits, all_digits_exec, chars_of, contains, contains_str, eq_ic, eq_ignore_case_str, eq_str,
    lit, lower_chars, lower_seq, push_char, push_chars, split_once_char, split_once_exec,
    starts_with, starts_with_str, string_of, trim, trim_chars,
};
use crate::hooks::game_loop::tokenize::{tokenize_chars, tokenize_spec};

verus! {

// ─── Pipe options and quoting ────────────────────────────────────────────────

/// `name|value` where `name` equals `option` ignoring ASCII case: the value.
pub open spec fn pipe_option_spec(token: Seq<char>, option: Seq<char>) -> Option<Seq<char>> {
    match split_once_char(token, '|') {
        Some((name, value)) => if eq_ic(name, option) {
            Some(value)
        } else {
            None
        },
        None => None,
    }
}

/// The value of a `name|value` option token whose name is `option`.
pub fn pipe_option_chars(token: &[char], option: &str) -> (r: Option<Vec<char>>)
    ensures
        r is None ==> pipe_option_spec(token@, option@) is None,
        r matches Some(v) ==> pipe_option_spec(token@, option@) == Some(v@),
{
    match split_once_exec(token, '|') {
        None => None,
        Some((name, value)) => {
            if eq_ignore_case_str(name.as_slice(), option) {
                Some(value)
            } else {
                None
            }
        },
    }
}

/// The value of a `name|value` option token whose name is `option`, ignoring
/// ASCII case in the name.
pub fn parse_pipe_option(token: &str, option: &str) -> (r: Option<String>)
    ensures
        r is None ==> pipe_option_spec(token@, option@) is None,
        r matches Some(v) ==> pipe_option_spec(token@, option@) == Some(v@),
{
    let t = chars_of(token);
    match pipe_option_chars(t.as_slice(), option) {
        None => None,
        Some(v) => Some(string_of(v.as_slice())),
    }
}

/// Backslashes doubled and double quotes escaped with a backslash.
pub open spec fn escape_eq(s: Seq<char>) -> Seq<char>
    decreases s.len(),
{
    if s.len() == 0 {
        seq![]
    } else {
        let c = s.last();
        escape_eq(s.drop_last()) + if c == '\\' {
            seq!['\\', '\\']
        } else if c == '"' {
            seq!['\\', '"']
        } else {
            seq![c]
        }
    }
}

/// A value in double quotes, escaped for the game's command line.
pub open spec fn quote_spec(s: Seq<char>) -> Seq<char> {
    seq!['"'] + escape_eq(s) + seq!['"']
}

/// Quote and escape a value for the game's command line.
pub fn quote_chars(value: &[char]) -> (r: String)
    ensures
        r@ == quote_spec(value@),
{
    let mut out = String::new();
    push_char(&mut out, '"');
    let mut i: usize = 0;
    while i < value.len()
        invariant
            0 <= i <= value@.len(),
            out@ == seq!['"'] + escape_eq(value@.subrange(0, i as int)),
        decreases value@.len() - i,
    {
        let c = value[i];
        proof {
            let p = value@.subrange(0, i + 1);
            assert(p.drop_last() =~= value@.subrange(0, i as int));
            assert(p.last() == c);
        }
        if c == '\\' {
            push_char(&mut out, '\\');
            push_char(&mut out, '\\');
        } else if c == '"' {
            push_char(&mut out, '\\');
            push_char(&mut out, '"');
        } else {
            push_char(&mut out, c);
        }
        proof {
            let p = value@.subrange(0, i + 1);
            assert(out@ =~= seq!['"'] + escape_eq(p));
        }
        i = i + 1;
    }
    proof {
        assert(value@.subrange(0, value@.len() as int) =~= value@);
    }
    push_char(&mut out, '"');
    proof {
        assert(out@ =~= quote_spec(value@));
    }
    out
}

/// Quote and escape a value for the game's command line: backslashes are
/// doubled, double quotes escaped, and the result wrapped in double quotes.
pub fn quote_for_eq(value: &str) -> (r: String)
    ensures
        r@ == quote_spec(value@),
{
    let v = chars_of(value);
    quote_chars(v.as_slice())
}

// ─── Bandolier ───────────────────────────────────────────────────────────────

/// `/bandolier activate <selector>`: a numeric selector as it is, a named set
/// quoted.
pub open spec fn bandolier_activate_spec(set_name: Seq<char>) -> Seq<char> {
    "/bandolier activate "@ + if all_digits(set_name) {
        set_name
    } else {
        quote_spec(set_name)
    }
}

/// The command that activates a bandolier set.
pub fn bandolier_activate_chars(set_name: &[char]) -> (r: String)
    ensures
        r@ == bandolier_activate_spec(set_name@),
{
    let mut out = lit("/bandolier activate ");
    if all_digits_exec(set_name) {
        push_chars(&mut out, set_name);
    } else {
        let q = quote_chars(set_name);
        out.append(q.as_str());
    }
    out
}

/// The command that activates a bandolier set: `/bandolier activate N` for a
/// numeric set, `/bandolier activate "Name"` for a named one.
pub fn bandolier_activate_command(set_name: &str) -> (r: String)
    ensures
        r@ == bandolier_activate_spec(set_name@),
{
    let v = chars_of(set_name);
    bandolier_activate_chars(v.as_slice())
}

/// The set a `/bandolier activate <set> ...` command selects.
pub open spec fn bandolier_selector_spec(command: Seq<char>) -> Option<Seq<char>> {
    match tokenize_spec(command) {
        None => None,
        Some(t) => if t.len() >= 3 && eq_ic(t[0], "/bandolier"@) && eq_ic(t[1], "activate"@)
            && trim(t[2]).len() > 0 {
            Some(trim(t[2]))
        } else {
            None
        },
    }
}

/// The set selected by a `/bandolier activate` command, trimmed; `None` for
/// any other command.
pub fn parse_bandolier_activate_command(command: &str) -> (r: Option<String>)
    ensures
        r is None ==> bandolier_selector_spec(command@) is None,
        r matches Some(s) ==> bandolier_selector_spec(command@) == Some(s@),
{
    let c = chars_of(command);
    let tokens = match tokenize_chars(c.as_slice()) {
        None => {
            return None;
        },
        Some(t) => t,
    };
    if tokens.len() < 3 {
        return None;
    }
    if !eq_ignore_case_str(tokens[0].as_slice(), "/bandolier") || !eq_ignore_case_str(
        tokens[1].as_slice(),
        "activate",
    ) {
        return None;
    }
    let sel = trim_chars(tokens[2].as_slice());
    if sel.len() == 0 {
        return None;
    }
    Some(string_of(sel.as_slice()))
}

// ─── Selectors and spell names ───────────────────────────────────────────────

/// The named equipment slots `/useitem` accepts.
pub open spec fn is_named_item_slot(s: Seq<char>) -> bool {
    s == "charm"@ || s == "leftear"@ || s == "rightear"@ || s == "head"@ || s == "face"@ || s
        == "neck"@ || s == "shoulders"@ || s == "arms"@ || s == "back"@ || s == "leftwrist"@
        || s == "rightwrist"@ || s == "range"@ || s == "hands"@ || s == "primary"@ || s
        == "secondary"@ || s == "offhand"@ || s == "mainhand"@ || s == "leftfinger"@ || s
        == "rightfinger"@ || s == "chest"@ || s == "legs"@ || s == "feet"@ || s == "waist"@ || s
        == "ammo"@ || s == "powersource"@
}

/// An inventory slot number (all digits) or a named equipment slot.
pub open spec fn item_slot_selector_spec(s: Seq<char>) -> bool {
    all_digits(s) || is_named_item_slot(s)
}

/// Whether a selector names an item slot.
pub fn item_slot_selector_chars(s: &[char]) -> (r: bool)
    ensures
        r == item_slot_selector_spec(s@),
{
    all_digits_exec(s) || eq_str(s, "charm") || eq_str(s, "leftear") || eq_str(s, "rightear")
        || eq_str(s, "head") || eq_str(s, "face") || eq_str(s, "neck") || eq_str(s, "shoulders")
        || eq_str(s, "arms") || eq_str(s, "back") || eq_str(s, "leftwrist") || eq_str(
        s,
        "rightwrist",
    ) || eq_str(s, "range") || eq_str(s, "hands") || eq_str(s, "primary") || eq_str(
        s,
        "secondary",
    ) || eq_str(s, "offhand") || eq_str(s, "mainhand") || eq_str(s, "leftfinger") || eq_str(
        s,
        "rightfinger",
    ) || eq_str(s, "chest") || eq_str(s, "legs") || eq_str(s, "feet") || eq_str(s, "waist")
        || eq_str(s, "ammo") || eq_str(s, "powersource")
}

/// Whether a (lower-case) selector names an item slot: all digits, or one of
/// the named equipment slots.
pub fn is_item_slot_selector(selector: &str) -> (r: bool)
    ensures
        r == item_slot_selector_spec(selector@),
{
    let s = chars_of(selector);
    item_slot_selector_chars(s.as_slice())
}

/// A spell name that makes the caster invisible: after trimming and ASCII
/// lower-casing, not a see-invisible spell nor "invisibility to animals",
/// and starting with "invis" or holding " invisibility", "camouflage" or
/// "shroud of stealth".
pub open spec fn invisibility_spec(name: Seq<char>) -> bool {
    let lower = lower_seq(trim(name));
    if lower.len() == 0 || contains(lower, "see invis"@) || contains(lower, "see invisible"@) {
        false
    } else if lower == "invisibility to animals"@ {
        false
    } else {
        starts_with(lower, "invis"@) || contains(lower, " invisibility"@) || contains(
            lower,
            "camouflage"@,
        ) || contains(lower, "shroud of stealth"@)
    }
}

/// Whether a buff's spell name marks the player invisible.
pub fn spell_name_indicates_invisibility(name: &str) -> (r: bool)
    ensures
        r == invisibility_spec(name@),
{
    let n = chars_of(name);
    let t = trim_chars(n.as_slice());
    let lower = lower_chars(t.as_slice());
    let l = lower.as_slice();
    if l.len() == 0 || contains_str(l, "see invis") || contains_str(l, "see invisible") {
        return false;
    }
    if eq_str(l, "invisibility to animals") {
        return false;
    }
    starts_with_str(l, "invis") || contains_str(l, " invisibility") || contains_str(
        l,
        "camouflage",
    ) || contains_str(l, "shroud of stealth")
}

} // verus!
