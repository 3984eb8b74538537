//! The `/casting` command: `/casting <spell|item> <gemN|item|slot>
//! [-targetid|ID] [-invis] [-bandolier|SET]`, translated to `/cast` or
//! `/useitem`.
use vstd::prelude::*;
use crate::text::{
    chars_of, dec, eq_ic, eq_ignore_case_str, eq_str, lit, lit_then, lower_chars, lower_seq, parse_unsigned,
    parse_unsigned_exec, push_decimal, starts_with, starts_with_str, string_of, sub_chars, trim,
    trim_chars, chars_view,
};
use crate::hooks::game_loop::tokenize::{tokenize_chars, tokenize_spec};
use crate::hooks::game_loop::slash::{
    item_slot_selector_chars, item_slot_selector_spec, pipe_option_chars, pipe_option_spec,
    quote_chars, quote_spec,
};

verus! {

/// What a `/casting` command does.
#[derive(Debug, PartialEq, Eq)]
pub enum CastingAction {
    CastGem(u8),
    UseItem(String),
}

/// A parsed `/casting` command.
#[derive(Debug, PartialEq, Eq)]
pub struct ParsedCastingCommand {
    pub action: CastingAction,
    pub target_id: Option<u32>,
    pub require_not_invisible: bool,
    pub bandolier_set: Option<String>,
}

/// [`CastingAction`] with the selector as characters.
pub enum CastingActionModel {
    CastGem(u8),
    UseItem(Seq<char>),
}

/// [`ParsedCastingCommand`] with its strings as characters.
pub struct ParsedCastingModel {
    pub action: CastingActionModel,
    pub target_id: Option<u32>,
    pub require_not_invisible: bool,
    pub bandolier_set: Option<Seq<char>>,
}

impl View for CastingAction {
    type V = CastingActionModel;

    open spec fn view(&self) -> CastingActionModel {
        match self {
            CastingAction::CastGem(n) => CastingActionModel::CastGem(*n),
            CastingAction::UseItem(s) => CastingActionModel::UseItem(s@),
        }
    }
}

impl View for ParsedCastingCommand {
    type V = ParsedCastingModel;

    open spec fn view(&self) -> ParsedCastingModel {
        ParsedCastingModel {
            action: self.action@,
            target_id: self.target_id,
            require_not_invisible: self.require_not_invisible,
            bandolier_set: match self.bandolier_set {
                Some(s) => Some(s@),
                None => None,
            },
        }
    }
}

/// The game command for an action: `/cast N` or `/useitem SELECTOR`.
pub open spec fn action_command_spec(a: CastingActionModel) -> Seq<char> {
    match a {
        CastingActionModel::CastGem(n) => "/cast "@ + dec(n as nat),
        CastingActionModel::UseItem(s) => "/useitem "@ + s,
    }
}

impl CastingAction {
    /// The game command that carries out the action.
    pub fn slash_command(&self) -> (r: String)
        ensures
            r@ == action_command_spec(self@),
    {
        match self {
            CastingAction::CastGem(n) => {
                let mut s = lit("/cast ");
                push_decimal(&mut s, *n as u64);
                s
            },
            CastingAction::UseItem(sel) => {
                let mut s = lit("/useitem ");
                s.append(sel.as_str());
                s
            },
        }
    }
}

/// Options gathered while reading the tokens after the subject.
pub struct CastScan {
    pub cast_type: Option<Seq<char>>,
    pub target_id: Option<u32>,
    pub invis: bool,
    pub bandolier: Option<Seq<char>>,
}

/// Nothing gathered yet.
pub open spec fn scan_init() -> CastScan {
    CastScan { cast_type: None, target_id: None, invis: false, bandolier: None }
}

/// Reading one option token.
pub open spec fn cast_step(st: CastScan, tok: Seq<char>) -> Result<CastScan, Seq<char>> {
    if eq_ic(tok, "-invis"@) {
        Ok(CastScan { invis: true, ..st })
    } else {
        match pipe_option_spec(tok, "-targetid"@) {
            Some(v) => match parse_unsigned(v, 4294967295) {
                Some(n) => Ok(CastScan { target_id: Some(n as u32), ..st }),
                None => Err("invalid -targetid value: "@ + v),
            },
            None => match pipe_option_spec(tok, "-bandolier"@) {
                Some(v) => if trim(v).len() == 0 {
                    Err("missing -bandolier value"@)
                } else if st.bandolier is Some {
                    Err("multiple -bandolier options specified"@)
                } else {
                    Ok(CastScan { bandolier: Some(trim(v)), ..st })
                },
                None => if st.cast_type is Some {
                    Err("multiple cast types specified: "@ + tok)
                } else {
                    Ok(CastScan { cast_type: Some(tok), ..st })
                },
            },
        }
    }
}

/// Reading the option tokens `args[1..n)`; the first error stops.
pub open spec fn cast_scan(args: Seq<Seq<char>>, n: int) -> Result<CastScan, Seq<char>>
    decreases n,
{
    if n <= 1 {
        Ok(scan_init())
    } else {
        match cast_scan(args, n - 1) {
            Err(e) => Err(e),
            Ok(st) => cast_step(st, args[n - 1]),
        }
    }
}

/// The action a cast type selects: `gemN` (1 to 13) casts a gem, `item`
/// uses the quoted subject, an item slot uses that slot.
pub open spec fn cast_action_spec(ct: Seq<char>, subject: Seq<char>) -> Result<CastingActionModel, Seq<char>> {
    let l = lower_seq(ct);
    if starts_with(l, "gem"@) {
        match parse_unsigned(l.subrange(3, l.len() as int), 255) {
            None => Err("invalid gem selector: "@ + ct),
            Some(n) => if 1 <= n <= 13 {
                Ok(CastingActionModel::CastGem(n as u8))
            } else {
                Err("gem slot out of range: "@ + dec(n))
            },
        }
    } else if l == "item"@ {
        Ok(CastingActionModel::UseItem(quote_spec(subject)))
    } else if item_slot_selector_spec(l) {
        Ok(CastingActionModel::UseItem(l))
    } else {
        Err("unsupported /casting type: "@ + ct)
    }
}

/// The meaning of the arguments after `/casting`.
pub open spec fn casting_args_spec(args: Seq<Seq<char>>) -> Result<ParsedCastingModel, Seq<char>> {
    if args.len() == 0 {
        Err("missing spell or item selector"@)
    } else {
        match cast_scan(args, args.len() as int) {
            Err(e) => Err(e),
            Ok(st) => match st.cast_type {
                None => Err("missing cast type (expected gem#, item, or an item slot)"@),
                Some(ct) => match cast_action_spec(ct, args[0]) {
                    Err(e) => Err(e),
                    Ok(a) => Ok(
                        ParsedCastingModel {
                            action: a,
                            target_id: st.target_id,
                            require_not_invisible: st.invis,
                            bandolier_set: st.bandolier,
                        },
                    ),
                },
            },
        }
    }
}

/// The meaning of a command as `/casting` (`None` for other commands).
pub open spec fn casting_spec(c: Seq<char>) -> Option<Result<ParsedCastingModel, Seq<char>>> {
    match tokenize_spec(c) {
        None => Some(Err("unterminated quote in slash command"@)),
        Some(t) => if t.len() == 0 || !eq_ic(t[0], "/casting"@) {
            None
        } else {
            Some(casting_args_spec(t.drop_first()))
        },
    }
}

/// Once reading the options fails, reading more of them fails the same way.
proof fn lemma_scan_error_sticks(args: Seq<Seq<char>>, n: int, m: int)
    requires
        n <= m,
        cast_scan(args, n) is Err,
    ensures
        cast_scan(args, m) == cast_scan(args, n),
    decreases m - n,
{
    if n < m {
        lemma_scan_error_sticks(args, n, m - 1);
    }
}

/// The action for cast type `ct` on subject `subject`.
fn cast_action(ct: &[char], subject: &[char]) -> (r: Result<CastingAction, String>)
    ensures
        r matches Ok(a) ==> cast_action_spec(ct@, subject@) == Ok::<CastingActionModel, Seq<char>>(a@),
        r matches Err(e) ==> cast_action_spec(ct@, subject@) == Err::<CastingActionModel, Seq<char>>(e@),
{
    let l = lower_chars(ct);
    if starts_with_str(l.as_slice(), "gem") {
        proof {
            reveal_strlit("gem");
        }
        let rest = sub_chars(l.as_slice(), 3, l.len());
        match parse_unsigned_exec(rest.as_slice(), 255) {
            None => Err(lit_then("invalid gem selector: ", ct)),
            Some(n) => {
                if 1 <= n && n <= 13 {
                    Ok(CastingAction::CastGem(n as u8))
                } else {
                    let mut e = lit("gem slot out of range: ");
                    push_decimal(&mut e, n);
                    Err(e)
                }
            },
        }
    } else if eq_str(l.as_slice(), "item") {
        Ok(CastingAction::UseItem(quote_chars(subject)))
    } else if item_slot_selector_chars(l.as_slice()) {
        Ok(CastingAction::UseItem(string_of(l.as_slice())))
    } else {
        Err(lit_then("unsupported /casting type: ", ct))
    }
}

/// Parse a `/casting` command. `None` when the command is not `/casting`;
/// otherwise the translated action with its options, or the reason it was
/// refused.
pub fn parse_casting_command(command: &str) -> (r: Option<Result<ParsedCastingCommand, String>>)
    ensures
        r is None ==> casting_spec(command@) is None,
        r matches Some(Ok(p)) ==> casting_spec(command@) == Some(Ok::<ParsedCastingModel, Seq<char>>(p@)),
        r matches Some(Err(e)) ==> casting_spec(command@) == Some(Err::<ParsedCastingModel, Seq<char>>(e@)),
{
    let c = chars_of(command);
    let tokens = match tokenize_chars(c.as_slice()) {
        None => {
            return Some(Err(lit("unterminated quote in slash command")));
        },
        Some(t) => t,
    };
    let ghost t = chars_view(tokens@);
    if tokens.len() == 0 || !eq_ignore_case_str(tokens[0].as_slice(), "/casting") {
        return None;
    }
    let ghost a = t.drop_first();
    if tokens.len() < 2 {
        return Some(Err(lit("missing spell or item selector")));
    }
    let mut cast_type: Option<usize> = None;
    let mut target_id: Option<u32> = None;
    let mut invis = false;
    let mut bandolier: Option<Vec<char>> = None;
    let mut k: usize = 2;
    while k < tokens.len()
        invariant
            2 <= k <= tokens@.len(),
            t == chars_view(tokens@),
            a == t.drop_first(),
            tokenize_spec(command@) == Some(t),
            t.len() > 0 && eq_ic(t[0], "/casting"@),
            cast_scan(a, (k - 1) as int) == Ok::<CastScan, Seq<char>>(
                CastScan {
                    cast_type: match cast_type {
                        Some(j) => Some(t[j as int]),
                        None => None,
                    },
                    target_id,
                    invis,
                    bandolier: match bandolier {
                        Some(b) => Some(b@),
                        None => None,
                    },
                },
            ),
            cast_type matches Some(j) ==> 2 <= j < k,
        decreases tokens@.len() - k,
    {
        let tok = tokens[k].as_slice();
        proof {
            assert(a[k - 1] == t[k as int]);
        }
        if eq_ignore_case_str(tok, "-invis") {
            invis = true;
        } else {
            match pipe_option_chars(tok, "-targetid") {
                Some(v) => {
                    match parse_unsigned_exec(v.as_slice(), 4294967295) {
                        Some(n) => {
                            target_id = Some(n as u32);
                        },
                        None => {
                            proof {
                                lemma_scan_error_sticks(a, k as int, a.len() as int);
                            }
                            return Some(Err(lit_then("invalid -targetid value: ", v.as_slice())));
                        },
                    }
                },
                None => {
                    match pipe_option_chars(tok, "-bandolier") {
                        Some(v) => {
                            let tv = trim_chars(v.as_slice());
                            if tv.len() == 0 {
                                proof {
                                    lemma_scan_error_sticks(a, k as int, a.len() as int);
                                }
                                return Some(Err(lit("missing -bandolier value")));
                            }
                            if bandolier.is_some() {
                                proof {
                                    lemma_scan_error_sticks(a, k as int, a.len() as int);
                                }
                                return Some(Err(lit("multiple -bandolier options specified")));
                            }
                            bandolier = Some(tv);
                        },
                        None => {
                            if cast_type.is_some() {
                                proof {
                                    lemma_scan_error_sticks(a, k as int, a.len() as int);
                                }
                                return Some(Err(lit_then("multiple cast types specified: ", tok)));
                            }
                            cast_type = Some(k);
                        },
                    }
                },
            }
        }
        k = k + 1;
    }
    let ct = match cast_type {
        None => {
            return Some(Err(lit("missing cast type (expected gem#, item, or an item slot)")));
        },
        Some(j) => j,
    };
    proof {
        assert(a[0] == t[1]);
    }
    match cast_action(tokens[ct].as_slice(), tokens[1].as_slice()) {
        Err(e) => Some(Err(e)),
        Ok(action) => {
            let bandolier_set = match bandolier {
                Some(b) => Some(string_of(b.as_slice())),
                None => None,
            };
            Some(
                Ok(
                    ParsedCastingCommand {
                        action,
                        target_id,
                        require_not_invisible: invis,
                        bandolier_set,
                    },
                ),
            )
        },
    }
}

} // verus!
