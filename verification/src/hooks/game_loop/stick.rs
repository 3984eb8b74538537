//! The `/stick` command: its keywords, flags and spawn id, with the
//! distance, arc and `mod` values kept as the number text given (checked to
//! be a number `str::parse::<f32>` accepts, converted by the caller).
use vstd::prelude::*;
use crate::hooks::game_loop::spawns::{follow_spec, parse_follow_slash_command, FollowSlashCommand};
use crate::hooks::game_loop::tokenize::{tokenize_slash_command, tokenize_spec};
use crate::text::{
    chars_of, eq_ic, eq_ignore_case_str, lower_seq, is_digit, is_digit_char, lit, lit_then, parse_unsigned, parse_unsigned_exec,
    string_of, strings_view, sub_chars,
};

verus! {

// ─── Float text ──────────────────────────────────────────────────────────────

/// An exponent marker.
pub open spec fn is_exp_char(c: char) -> bool {
    c == 'e' || c == 'E'
}

/// A mantissa: digits with at most one `.`, and at least one digit.
pub open spec fn mantissa_ok(s: Seq<char>) -> bool {
    &&& forall|i: int| 0 <= i < s.len() ==> is_digit_char(#[trigger] s[i]) || s[i] == '.'
    &&& forall|i: int, j: int| 0 <= i < j < s.len() ==> !(#[trigger] s[i] == '.' && #[trigger] s[j] == '.')
    &&& exists|i: int| 0 <= i < s.len() && is_digit_char(#[trigger] s[i])
}

/// `s` with one leading sign removed, if it has one.
pub open spec fn unsigned_part(s: Seq<char>) -> Seq<char> {
    if s.len() > 0 && (s[0] == '+' || s[0] == '-') {
        s.drop_first()
    } else {
        s
    }
}

/// An exponent after the marker: an optional sign, then one or more digits.
pub open spec fn exponent_ok(s: Seq<char>) -> bool {
    let d = unsigned_part(s);
    d.len() > 0 && forall|i: int| 0 <= i < d.len() ==> is_digit_char(#[trigger] d[i])
}

/// A number: a mantissa, optionally followed by an exponent.
pub open spec fn number_ok(s: Seq<char>) -> bool {
    mantissa_ok(s) || exists|k: int|
        0 <= k < s.len() && is_exp_char(#[trigger] s[k]) && mantissa_ok(s.subrange(0, k)) && exponent_ok(
            s.subrange(k + 1, s.len() as int),
        )
}

/// The text `str::parse::<f32>` accepts, as its documentation gives the
/// grammar: an optional sign, then `inf`, `infinity` or `nan` (any case), or
/// a number (`Digit+`, `Digit+ '.' Digit*` or `Digit* '.' Digit+`, with an
/// optional `e`/`E` exponent); no whitespace. Every such text parses (a value
/// too large becomes infinite).
pub open spec fn is_float_text(s: Seq<char>) -> bool {
    let b = unsigned_part(s);
    eq_ic(b, "inf"@) || eq_ic(b, "infinity"@) || eq_ic(b, "nan"@) || number_ok(b)
}

fn mantissa_check(s: &[char]) -> (r: bool)
    ensures
        r == mantissa_ok(s@),
{
    let mut dot_at: Option<usize> = None;
    let mut digit_at: Option<usize> = None;
    let mut i: usize = 0;
    while i < s.len()
        invariant
            0 <= i <= s@.len(),
            forall|j: int| 0 <= j < i ==> is_digit_char(#[trigger] s@[j]) || s@[j] == '.',
            match dot_at {
                None => forall|j: int| 0 <= j < i ==> #[trigger] s@[j] != '.',
                Some(d) => d < i && s@[d as int] == '.' && forall|j: int| 0 <= j < i && j != d ==> #[trigger] s@[j]
                    != '.',
            },
            match digit_at {
                None => forall|j: int| 0 <= j < i ==> !is_digit_char(#[trigger] s@[j]),
                Some(d) => d < i && is_digit_char(s@[d as int]),
            },
        decreases s@.len() - i,
    {
        let c = s[i];
        if c == '.' {
            if let Some(d) = dot_at {
                proof {
                    assert(s@[d as int] == '.' && s@[i as int] == '.');
                }
                return false;
            }
            dot_at = Some(i);
        } else if is_digit(c) {
            if digit_at.is_none() {
                digit_at = Some(i);
            }
        } else {
            return false;
        }
        i = i + 1;
    }
    match digit_at {
        None => false,
        Some(d) => {
            proof {
                assert(is_digit_char(s@[d as int]));
                assert forall|a: int, b: int| 0 <= a < b < s@.len() implies !(#[trigger] s@[a] == '.'
                    && #[trigger] s@[b] == '.') by {}
            }
            true
        },
    }
}

fn exponent_check(s: &[char]) -> (r: bool)
    ensures
        r == exponent_ok(s@),
{
    let start: usize = if s.len() > 0 && (s[0] == '+' || s[0] == '-') {
        1
    } else {
        0
    };
    proof {
        assert(unsigned_part(s@) =~= s@.subrange(start as int, s@.len() as int));
    }
    if start >= s.len() {
        return false;
    }
    let mut i: usize = start;
    while i < s.len()
        invariant
            start <= i <= s@.len(),
            start <= 1,
            unsigned_part(s@) == s@.subrange(start as int, s@.len() as int),
            forall|j: int| start <= j < i ==> is_digit_char(#[trigger] s@[j]),
        decreases s@.len() - i,
    {
        if !is_digit(s[i]) {
            proof {
                assert(unsigned_part(s@)[i - start] == s@[i as int]);
            }
            return false;
        }
        i = i + 1;
    }
    proof {
        let d = unsigned_part(s@);
        assert forall|j: int| 0 <= j < d.len() implies is_digit_char(#[trigger] d[j]) by {
            assert(d[j] == s@[j + start]);
        }
    }
    true
}

fn number_check(s: &[char]) -> (r: bool)
    ensures
        r == number_ok(s@),
{
    let mut k: usize = 0;
    while k < s.len() && !(s[k] == 'e' || s[k] == 'E')
        invariant
            0 <= k <= s@.len(),
            forall|j: int| 0 <= j < k ==> !is_exp_char(#[trigger] s@[j]),
        decreases s@.len() - k,
    {
        k = k + 1;
    }
    if k == s.len() {
        let r = mantissa_check(s);
        proof {
            if !r {
                assert forall|k2: int| !(0 <= k2 < s@.len() && is_exp_char(#[trigger] s@[k2])) by {}
            }
        }
        return r;
    }
    let head = sub_chars(s, 0, k);
    let tail = sub_chars(s, k + 1, s.len());
    let m = mantissa_check(head.as_slice());
    let e = exponent_check(tail.as_slice());
    proof {
        assert(is_exp_char(s@[k as int]));
        // The whole text has an exponent marker, so it is no bare mantissa.
        assert(!mantissa_ok(s@)) by {
            if mantissa_ok(s@) {
                assert(is_digit_char(s@[k as int]) || s@[k as int] == '.');
            }
        }
        if !(m && e) {
            assert forall|k2: int|
                !(0 <= k2 < s@.len() && is_exp_char(#[trigger] s@[k2]) && mantissa_ok(s@.subrange(0, k2))
                    && exponent_ok(s@.subrange(k2 + 1, s@.len() as int))) by {
                if 0 <= k2 < s@.len() && is_exp_char(s@[k2]) && mantissa_ok(s@.subrange(0, k2))
                    && exponent_ok(s@.subrange(k2 + 1, s@.len() as int)) {
                    if k2 > k {
                        assert(s@.subrange(0, k2)[k as int] == s@[k as int]);
                    } else if k2 < k {
                        assert(!is_exp_char(s@[k2]));
                    }
                }
            }
        }
    }
    m && e
}

/// Whether `str::parse::<f32>` accepts the text.
pub fn float_text_check(s: &[char]) -> (r: bool)
    ensures
        r == is_float_text(s@),
{
    let start: usize = if s.len() > 0 && (s[0] == '+' || s[0] == '-') {
        1
    } else {
        0
    };
    let body = sub_chars(s, start, s.len());
    proof {
        assert(body@ =~= unsigned_part(s@));
    }
    let b = body.as_slice();
    eq_ignore_case_str(b, "inf") || eq_ignore_case_str(b, "infinity") || eq_ignore_case_str(b, "nan")
        || number_check(b)
}


// ─── /stick ──────────────────────────────────────────────────────────────────

/// How `/stick` places the player relative to the target.
#[derive(Debug, Clone, Copy, PartialEq, Eq, Structural)]
pub enum StickMode {
    Behind,
    NotFront,
    Pin,
    Front,
    SnapRoll,
}

/// The distance `/stick` keeps, as number text: a percentage of the melee
/// range, or game units.
#[derive(Debug, Clone, PartialEq, Eq)]
pub enum StickDistance {
    Percent(String),
    Absolute(String),
}

/// [`StickDistance`] with the text as characters.
pub enum StickDistanceModel {
    Percent(Seq<char>),
    Absolute(Seq<char>),
}

/// The options given to `/stick`; what was not given is `None` (or `false`)
/// and takes the navigation engine's default. Arc and distance values are
/// number text.
#[derive(Debug, Clone, PartialEq, Eq)]
pub struct StickOptions {
    pub hold: bool,
    pub always: bool,
    pub moveback: bool,
    pub healer: bool,
    pub autopause: bool,
    pub mode: Option<StickMode>,
    pub id: Option<u32>,
    pub behind_arc: Option<String>,
    pub not_front_arc: Option<String>,
    pub backup_dist: Option<String>,
    pub distance: Option<StickDistance>,
}

/// [`StickOptions`] with the texts as characters.
pub struct StickOptionsModel {
    pub hold: bool,
    pub always: bool,
    pub moveback: bool,
    pub healer: bool,
    pub autopause: bool,
    pub mode: Option<StickMode>,
    pub id: Option<u32>,
    pub behind_arc: Option<Seq<char>>,
    pub not_front_arc: Option<Seq<char>>,
    pub backup_dist: Option<Seq<char>>,
    pub distance: Option<StickDistanceModel>,
}

/// A string option by view.
pub open spec fn text_view(o: Option<String>) -> Option<Seq<char>> {
    match o {
        Some(t) => Some(t@),
        None => None,
    }
}

impl View for StickOptions {
    type V = StickOptionsModel;

    open spec fn view(&self) -> StickOptionsModel {
        StickOptionsModel {
            hold: self.hold,
            always: self.always,
            moveback: self.moveback,
            healer: self.healer,
            autopause: self.autopause,
            mode: self.mode,
            id: self.id,
            behind_arc: text_view(self.behind_arc),
            not_front_arc: text_view(self.not_front_arc),
            backup_dist: text_view(self.backup_dist),
            distance: match self.distance {
                Some(StickDistance::Percent(t)) => Some(StickDistanceModel::Percent(t@)),
                Some(StickDistance::Absolute(t)) => Some(StickDistanceModel::Absolute(t@)),
                None => None,
            },
        }
    }
}

/// A parsed `/stick` command.
#[derive(Debug, Clone, PartialEq, Eq)]
pub enum StickCommand {
    /// Start sticking with these options.
    Start(StickOptions),
    /// Stop sticking.
    Off,
    /// Change the distance by this number text.
    Mod(String),
}

/// [`StickCommand`] with the texts as characters.
pub enum StickCommandModel {
    Start(StickOptionsModel),
    Off,
    Mod(Seq<char>),
}

impl View for StickCommand {
    type V = StickCommandModel;

    open spec fn view(&self) -> StickCommandModel {
        match self {
            StickCommand::Start(o) => StickCommandModel::Start(o@),
            StickCommand::Off => StickCommandModel::Off,
            StickCommand::Mod(t) => StickCommandModel::Mod(t@),
        }
    }
}

/// No option given.
pub open spec fn no_options() -> StickOptionsModel {
    StickOptionsModel {
        hold: false,
        always: false,
        moveback: false,
        healer: false,
        autopause: false,
        mode: None,
        id: None,
        behind_arc: None,
        not_front_arc: None,
        backup_dist: None,
        distance: None,
    }
}

/// The options after reading the tokens from `idx` on, starting from `o`,
/// or the first error.
pub open spec fn stick_options_from(args: Seq<Seq<char>>, idx: nat, o: StickOptionsModel) -> Result<
    StickOptionsModel,
    Seq<char>,
>
    decreases args.len() - idx,
{
    if idx >= args.len() {
        Ok(o)
    } else {
        let t = args[idx as int];
        let has_next = idx + 1 < args.len();
        let next = if has_next {
            args[idx + 1 as int]
        } else {
            seq![]
        };
        if eq_ic(t, "hold"@) {
            stick_options_from(args, idx + 1, StickOptionsModel { hold: true, ..o })
        } else if eq_ic(t, "always"@) {
            stick_options_from(args, idx + 1, StickOptionsModel { always: true, ..o })
        } else if eq_ic(t, "moveback"@) {
            stick_options_from(args, idx + 1, StickOptionsModel { moveback: true, ..o })
        } else if eq_ic(t, "healer"@) {
            stick_options_from(args, idx + 1, StickOptionsModel { healer: true, ..o })
        } else if eq_ic(t, "autopause"@) {
            stick_options_from(args, idx + 1, StickOptionsModel { autopause: true, ..o })
        } else if eq_ic(t, "behind"@) {
            stick_options_from(args, idx + 1, StickOptionsModel { mode: Some(StickMode::Behind), ..o })
        } else if eq_ic(t, "!front"@) || eq_ic(t, "notfront"@) {
            stick_options_from(args, idx + 1, StickOptionsModel { mode: Some(StickMode::NotFront), ..o })
        } else if eq_ic(t, "pin"@) {
            stick_options_from(args, idx + 1, StickOptionsModel { mode: Some(StickMode::Pin), ..o })
        } else if eq_ic(t, "front"@) {
            stick_options_from(args, idx + 1, StickOptionsModel { mode: Some(StickMode::Front), ..o })
        } else if eq_ic(t, "snaproll"@) {
            stick_options_from(args, idx + 1, StickOptionsModel { mode: Some(StickMode::SnapRoll), ..o })
        } else if eq_ic(t, "id"@) {
            if !has_next {
                Err("missing spawn id for /stick id"@)
            } else {
                match parse_unsigned(next, 4294967295) {
                    None => Err("invalid /stick id value: "@ + next),
                    Some(v) => stick_options_from(args, idx + 2, StickOptionsModel { id: Some(v as u32), ..o }),
                }
            }
        } else if eq_ic(t, "behindarc"@) {
            if !has_next {
                Err("missing arc value for /stick behindarc"@)
            } else if !is_float_text(next) {
                Err("invalid /stick behindarc value: "@ + next)
            } else {
                stick_options_from(args, idx + 2, StickOptionsModel { behind_arc: Some(next), ..o })
            }
        } else if eq_ic(t, "!frontarc"@) || eq_ic(t, "notfrontarc"@) {
            if !has_next {
                Err("missing arc value for /stick !frontarc"@)
            } else if !is_float_text(next) {
                Err("invalid /stick !frontarc value: "@ + next)
            } else {
                stick_options_from(args, idx + 2, StickOptionsModel { not_front_arc: Some(next), ..o })
            }
        } else if eq_ic(t, "backupdist"@) {
            if !has_next {
                Err("missing distance for /stick backupdist"@)
            } else if !is_float_text(next) {
                Err("invalid /stick backupdist value: "@ + next)
            } else {
                stick_options_from(args, idx + 2, StickOptionsModel { backup_dist: Some(next), ..o })
            }
        } else if t.len() > 0 && t.last() == '%' {
            if is_float_text(t.drop_last()) {
                stick_options_from(
                    args,
                    idx + 1,
                    StickOptionsModel { distance: Some(StickDistanceModel::Percent(t.drop_last())), ..o },
                )
            } else {
                Err("invalid /stick distance percentage: "@ + t)
            }
        } else if is_float_text(t) {
            stick_options_from(args, idx + 1, StickOptionsModel { distance: Some(StickDistanceModel::Absolute(t)), ..o })
        } else {
            Err("unsupported /stick token: "@ + t)
        }
    }
}

/// The meaning of the arguments of `/stick`: none starts with no options;
/// a lone `off` stops; `mod` changes the distance by the next argument;
/// anything else is read as options.
pub open spec fn stick_spec(args: Seq<Seq<char>>) -> Result<StickCommandModel, Seq<char>> {
    if args.len() == 0 {
        Ok(StickCommandModel::Start(no_options()))
    } else if args.len() == 1 && eq_ic(args[0], "off"@) {
        Ok(StickCommandModel::Off)
    } else if eq_ic(args[0], "mod"@) {
        if args.len() < 2 {
            Err("missing distance delta for /stick mod"@)
        } else if !is_float_text(args[1]) {
            Err("invalid /stick mod value: "@ + args[1])
        } else {
            Ok(StickCommandModel::Mod(args[1]))
        }
    } else {
        match stick_options_from(args, 0, no_options()) {
            Ok(o) => Ok(StickCommandModel::Start(o)),
            Err(e) => Err(e),
        }
    }
}

/// A parse result by view.
pub open spec fn stick_result_view(r: Result<StickCommand, String>) -> Result<StickCommandModel, Seq<char>> {
    match r {
        Ok(c) => Ok(c@),
        Err(e) => Err(e@),
    }
}

fn none_given() -> (r: StickOptions)
    ensures
        r@ == no_options(),
{
    StickOptions {
        hold: false,
        always: false,
        moveback: false,
        healer: false,
        autopause: false,
        mode: None,
        id: None,
        behind_arc: None,
        not_front_arc: None,
        backup_dist: None,
        distance: None,
    }
}

/// Parse the arguments of `/stick` (the tokens after the verb).
#[verifier::rlimit(40)]
pub fn parse_stick_slash_command(args: &[String]) -> (r: Result<StickCommand, String>)
    ensures
        stick_result_view(r) == stick_spec(strings_view(args@)),
{
    let ghost a = strings_view(args@);
    if args.len() == 0 {
        return Ok(StickCommand::Start(none_given()));
    }
    let first = chars_of(args[0].as_str());
    if args.len() == 1 && eq_ignore_case_str(first.as_slice(), "off") {
        return Ok(StickCommand::Off);
    }
    if eq_ignore_case_str(first.as_slice(), "mod") {
        if args.len() < 2 {
            return Err(lit("missing distance delta for /stick mod"));
        }
        let delta = chars_of(args[1].as_str());
        if !float_text_check(delta.as_slice()) {
            return Err(lit_then("invalid /stick mod value: ", delta.as_slice()));
        }
        return Ok(StickCommand::Mod(args[1].clone()));
    }
    let mut opts = none_given();
    let mut idx: usize = 0;
    while idx < args.len()
        invariant
            0 <= idx <= args@.len(),
            a == strings_view(args@),
            a.len() == args@.len(),
            a.len() > 0,
            !(a.len() == 1 && eq_ic(a[0], "off"@)),
            !eq_ic(a[0], "mod"@),
            stick_options_from(a, idx as nat, opts@) == stick_options_from(a, 0, no_options()),
        decreases args@.len() - idx,
    {
        let t = chars_of(args[idx].as_str());
        let ts = t.as_slice();
        assert(ts@ == a[idx as int]);
        let has_next = idx + 1 < args.len();
        let next: Vec<char> = if has_next {
            chars_of(args[idx + 1].as_str())
        } else {
            Vec::new()
        };
        proof {
            if has_next {
                assert(next@ == a[idx + 1]);
            } else {
                assert(next@ =~= seq![]);
            }
        }
        let mut step: usize = 1;
        if eq_ignore_case_str(ts, "hold") {
            opts.hold = true;
        } else if eq_ignore_case_str(ts, "always") {
            opts.always = true;
        } else if eq_ignore_case_str(ts, "moveback") {
            opts.moveback = true;
        } else if eq_ignore_case_str(ts, "healer") {
            opts.healer = true;
        } else if eq_ignore_case_str(ts, "autopause") {
            opts.autopause = true;
        } else if eq_ignore_case_str(ts, "behind") {
            opts.mode = Some(StickMode::Behind);
        } else if eq_ignore_case_str(ts, "!front") || eq_ignore_case_str(ts, "notfront") {
            opts.mode = Some(StickMode::NotFront);
        } else if eq_ignore_case_str(ts, "pin") {
            opts.mode = Some(StickMode::Pin);
        } else if eq_ignore_case_str(ts, "front") {
            opts.mode = Some(StickMode::Front);
        } else if eq_ignore_case_str(ts, "snaproll") {
            opts.mode = Some(StickMode::SnapRoll);
        } else if eq_ignore_case_str(ts, "id") {
            if !has_next {
                return Err(lit("missing spawn id for /stick id"));
            }
            match parse_unsigned_exec(next.as_slice(), 4294967295) {
                None => {
                    return Err(lit_then("invalid /stick id value: ", next.as_slice()));
                },
                Some(v) => {
                    opts.id = Some(v as u32);
                },
            }
            step = 2;
        } else if eq_ignore_case_str(ts, "behindarc") {
            if !has_next {
                return Err(lit("missing arc value for /stick behindarc"));
            }
            if !float_text_check(next.as_slice()) {
                return Err(lit_then("invalid /stick behindarc value: ", next.as_slice()));
            }
            opts.behind_arc = Some(string_of(next.as_slice()));
            step = 2;
        } else if eq_ignore_case_str(ts, "!frontarc") || eq_ignore_case_str(ts, "notfrontarc") {
            if !has_next {
                return Err(lit("missing arc value for /stick !frontarc"));
            }
            if !float_text_check(next.as_slice()) {
                return Err(lit_then("invalid /stick !frontarc value: ", next.as_slice()));
            }
            opts.not_front_arc = Some(string_of(next.as_slice()));
            step = 2;
        } else if eq_ignore_case_str(ts, "backupdist") {
            if !has_next {
                return Err(lit("missing distance for /stick backupdist"));
            }
            if !float_text_check(next.as_slice()) {
                return Err(lit_then("invalid /stick backupdist value: ", next.as_slice()));
            }
            opts.backup_dist = Some(string_of(next.as_slice()));
            step = 2;
        } else if ts.len() > 0 && ts[ts.len() - 1] == '%' {
            let number = sub_chars(ts, 0, ts.len() - 1);
            proof {
                assert(number@ =~= ts@.drop_last());
            }
            if !float_text_check(number.as_slice()) {
                return Err(lit_then("invalid /stick distance percentage: ", ts));
            }
            opts.distance = Some(StickDistance::Percent(string_of(number.as_slice())));
        } else if float_text_check(ts) {
            opts.distance = Some(StickDistance::Absolute(string_of(ts)));
        } else {
            return Err(lit_then("unsupported /stick token: ", ts));
        }
        idx = idx + step;
    }
    Ok(StickCommand::Start(opts))
}

/// The result of `/stick` with a single mode word: sticking starts in that
/// mode, with no other option set.
pub open spec fn started_in_mode(m: StickMode) -> Result<StickCommandModel, Seq<char>> {
    Ok(StickCommandModel::Start(StickOptionsModel { mode: Some(m), ..no_options() }))
}

/// Each mode word, in any letter case, selects its own mode: `/stick pin`
/// starts in pin mode, `/stick behind` behind the target, `/stick front` in
/// front of it, `/stick snaproll` in snap-roll mode, and `/stick !front` or
/// `/stick notfront` anywhere but in front, with no other option set.
pub proof fn lemma_single_mode_word(t: Seq<char>)
    ensures
        eq_ic(t, "pin"@) ==> stick_spec(seq![t]) == started_in_mode(StickMode::Pin),
        eq_ic(t, "behind"@) ==> stick_spec(seq![t]) == started_in_mode(StickMode::Behind),
        eq_ic(t, "front"@) ==> stick_spec(seq![t]) == started_in_mode(StickMode::Front),
        eq_ic(t, "snaproll"@) ==> stick_spec(seq![t]) == started_in_mode(StickMode::SnapRoll),
        eq_ic(t, "!front"@) || eq_ic(t, "notfront"@) ==> stick_spec(seq![t]) == started_in_mode(StickMode::NotFront),
{
    reveal_strlit("off");
    reveal_strlit("mod");
    reveal_strlit("hold");
    reveal_strlit("always");
    reveal_strlit("moveback");
    reveal_strlit("healer");
    reveal_strlit("autopause");
    reveal_strlit("behind");
    reveal_strlit("!front");
    reveal_strlit("notfront");
    reveal_strlit("pin");
    reveal_strlit("front");
    reveal_strlit("snaproll");
    reveal_with_fuel(stick_options_from, 2);
    let a = seq![t];
    assert(a[0] == t);
    let words = seq!["off"@, "mod"@, "hold"@, "always"@, "moveback"@, "healer"@, "autopause"@, "behind"@, "!front"@,
        "notfront"@, "pin"@, "front"@, "snaproll"@];
    assert forall|i: int, j: int| 0 <= i < j < words.len() implies lower_seq(#[trigger] words[i]) != lower_seq(
        #[trigger] words[j],
    ) by {
        if lower_seq(words[i]).len() == lower_seq(words[j]).len() {
            assert(lower_seq(words[i])[0] != lower_seq(words[j])[0] || lower_seq(words[i])[1] != lower_seq(words[j])[1]);
        }
    }
    assert(words[0] == "off"@);
    assert(words[1] == "mod"@);
    assert(words[2] == "hold"@);
    assert(words[3] == "always"@);
    assert(words[4] == "moveback"@);
    assert(words[5] == "healer"@);
    assert(words[6] == "autopause"@);
    assert(words[7] == "behind"@);
    assert(words[8] == "!front"@);
    assert(words[9] == "notfront"@);
    assert(words[10] == "pin"@);
    assert(words[11] == "front"@);
    assert(words[12] == "snaproll"@);
}

/// Each flag word, in any letter case, sets its own flag and nothing else:
/// `/stick hold`, `/stick always`, `/stick moveback`, `/stick healer` and
/// `/stick autopause` start sticking with just that flag set.
pub proof fn lemma_single_flag_word(t: Seq<char>)
    ensures
        eq_ic(t, "hold"@) ==> stick_spec(seq![t]) == Ok::<StickCommandModel, Seq<char>>(
            StickCommandModel::Start(StickOptionsModel { hold: true, ..no_options() }),
        ),
        eq_ic(t, "always"@) ==> stick_spec(seq![t]) == Ok::<StickCommandModel, Seq<char>>(
            StickCommandModel::Start(StickOptionsModel { always: true, ..no_options() }),
        ),
        eq_ic(t, "moveback"@) ==> stick_spec(seq![t]) == Ok::<StickCommandModel, Seq<char>>(
            StickCommandModel::Start(StickOptionsModel { moveback: true, ..no_options() }),
        ),
        eq_ic(t, "healer"@) ==> stick_spec(seq![t]) == Ok::<StickCommandModel, Seq<char>>(
            StickCommandModel::Start(StickOptionsModel { healer: true, ..no_options() }),
        ),
        eq_ic(t, "autopause"@) ==> stick_spec(seq![t]) == Ok::<StickCommandModel, Seq<char>>(
            StickCommandModel::Start(StickOptionsModel { autopause: true, ..no_options() }),
        ),
{
    reveal_strlit("off");
    reveal_strlit("mod");
    reveal_strlit("hold");
    reveal_strlit("always");
    reveal_strlit("moveback");
    reveal_strlit("healer");
    reveal_strlit("autopause");
    reveal_with_fuel(stick_options_from, 2);
    let a = seq![t];
    assert(a[0] == t);
    let words = seq!["off"@, "mod"@, "hold"@, "always"@, "moveback"@, "healer"@, "autopause"@];
    assert forall|i: int, j: int| 0 <= i < j < words.len() implies lower_seq(#[trigger] words[i]) != lower_seq(
        #[trigger] words[j],
    ) by {
        if lower_seq(words[i]).len() == lower_seq(words[j]).len() {
            assert(lower_seq(words[i])[0] != lower_seq(words[j])[0]);
        }
    }
    assert(words[0] == "off"@);
    assert(words[1] == "mod"@);
    assert(words[2] == "hold"@);
    assert(words[3] == "always"@);
    assert(words[4] == "moveback"@);
    assert(words[5] == "healer"@);
    assert(words[6] == "autopause"@);
}

// ─── Movement slash commands ─────────────────────────────────────────────────

/// A parsed movement slash command.
#[derive(Debug, Clone, PartialEq, Eq)]
pub enum MovementSlashCommand {
    Stick(StickCommand),
    Follow(FollowSlashCommand),
}

/// What a command gives as a movement slash command, for a result `r`:
/// `None` unless it is `/stick` or `/follow` (any case); an error when it
/// cannot be tokenized; otherwise the verb's arguments parsed.
pub open spec fn movement_spec(c: Seq<char>, r: Option<Result<MovementSlashCommand, String>>) -> bool {
    match tokenize_spec(c) {
        None => r matches Some(Err(e)) && e@ == "unterminated quote in slash command"@,
        Some(t) => if t.len() > 0 && eq_ic(t[0], "/stick"@) {
            match r {
                Some(Ok(MovementSlashCommand::Stick(sc))) => stick_spec(t.drop_first()) == Ok::<
                    StickCommandModel,
                    Seq<char>,
                >(sc@),
                Some(Err(e)) => stick_spec(t.drop_first()) == Err::<StickCommandModel, Seq<char>>(e@),
                _ => false,
            }
        } else if t.len() > 0 && eq_ic(t[0], "/follow"@) {
            match r {
                Some(Ok(MovementSlashCommand::Follow(f))) => follow_spec(
                    t.drop_first(),
                    Ok::<FollowSlashCommand, String>(f),
                ),
                Some(Err(e)) => follow_spec(t.drop_first(), Err::<FollowSlashCommand, String>(e)),
                _ => false,
            }
        } else {
            r is None
        },
    }
}

/// Parse `/stick ...` and `/follow ...`; `None` for any other command.
pub fn parse_movement_slash_command(command: &str) -> (r: Option<Result<MovementSlashCommand, String>>)
    ensures
        movement_spec(command@, r),
{
    let tokens = match tokenize_slash_command(command) {
        Ok(t) => t,
        Err(e) => {
            return Some(Err(lit(e)));
        },
    };
    if tokens.len() == 0 {
        return None;
    }
    let ghost t = strings_view(tokens@);
    let verb = chars_of(tokens[0].as_str());
    let args = tokens.as_slice().split_at(1).1;
    proof {
        assert(strings_view(args@) =~= t.drop_first());
    }
    if eq_ignore_case_str(verb.as_slice(), "/stick") {
        return Some(
            match parse_stick_slash_command(args) {
                Ok(c) => Ok(MovementSlashCommand::Stick(c)),
                Err(e) => Err(e),
            },
        );
    }
    if eq_ignore_case_str(verb.as_slice(), "/follow") {
        return Some(
            match parse_follow_slash_command(args) {
                Ok(f) => Ok(MovementSlashCommand::Follow(f)),
                Err(e) => Err(e),
            },
        );
    }
    None
}

} // verus!
