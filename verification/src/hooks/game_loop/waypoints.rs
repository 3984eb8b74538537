//! `/nav` waypoint commands (`waypoint`/`wp`, `recordwaypoint`) and the
//! `/follow` argument parser.
use vstd::prelude::*;
use crate::text::{
    chars_of, eq_ic, eq_ignore_case_str, eq_str, lit, lower_chars, lower_seq, string_of, trim,
    trim_chars,
};
use crate::hooks::game_loop::tokenize::{tokenize_chars, tokenize_spec};

verus! {

/// A waypoint subcommand of `/nav`.
#[derive(Debug, PartialEq, Eq)]
pub enum NavWaypointCommand {
    Save(String),
    Recall(String),
    Delete(String),
    List,
}

/// [`NavWaypointCommand`] with the name as characters.
pub enum NavWaypointModel {
    Save(Seq<char>),
    Recall(Seq<char>),
    Delete(Seq<char>),
    List,
}

impl View for NavWaypointCommand {
    type V = NavWaypointModel;

    open spec fn view(&self) -> NavWaypointModel {
        match self {
            NavWaypointCommand::Save(s) => NavWaypointModel::Save(s@),
            NavWaypointCommand::Recall(s) => NavWaypointModel::Recall(s@),
            NavWaypointCommand::Delete(s) => NavWaypointModel::Delete(s@),
            NavWaypointCommand::List => NavWaypointModel::List,
        }
    }
}

/// The argument at `i`, or the empty string.
pub open spec fn arg_or_empty(args: Seq<Seq<char>>, i: int) -> Seq<char> {
    if 0 <= i < args.len() {
        args[i]
    } else {
        seq![]
    }
}

/// A named waypoint operation, or the error when the name is blank.
pub open spec fn named_or_err(
    name: Seq<char>,
    op: spec_fn(Seq<char>) -> NavWaypointModel,
    err: Seq<char>,
) -> Result<NavWaypointModel, Seq<char>> {
    if trim(name).len() == 0 {
        Err(err)
    } else {
        Ok(op(name))
    }
}

/// The meaning of `/nav <args>` as a waypoint command (`None` when it is no
/// waypoint command).
pub open spec fn waypoint_args_spec(args: Seq<Seq<char>>) -> Option<Result<NavWaypointModel, Seq<char>>> {
    if args.len() == 0 {
        Some(Err("Missing waypoint subcommand"@))
    } else {
        let sub = lower_seq(args[0]);
        if sub == "waypoint"@ || sub == "wp"@ {
            if args.len() == 2 && eq_ic(args[1], "list"@) {
                Some(Ok(NavWaypointModel::List))
            } else if args.len() >= 2 && eq_ic(args[1], "delete"@) {
                Some(named_or_err(arg_or_empty(args, 2), |n| NavWaypointModel::Delete(n), "Waypoint name is required for delete"@))
            } else if args.len() >= 2 && eq_ic(args[1], "save"@) {
                Some(named_or_err(arg_or_empty(args, 2), |n| NavWaypointModel::Save(n), "Waypoint name is required for save"@))
            } else if args.len() >= 2 && eq_ic(args[1], "recall"@) {
                Some(named_or_err(arg_or_empty(args, 2), |n| NavWaypointModel::Recall(n), "Waypoint name is required for recall"@))
            } else {
                Some(named_or_err(arg_or_empty(args, 1), |n| NavWaypointModel::Recall(n), "Waypoint name is required"@))
            }
        } else if sub == "recordwaypoint"@ {
            Some(named_or_err(arg_or_empty(args, 1), |n| NavWaypointModel::Save(n), "Waypoint name is required for save"@))
        } else {
            None
        }
    }
}

/// The meaning of a command as a `/nav` waypoint command.
pub open spec fn nav_waypoint_spec(c: Seq<char>) -> Option<Result<NavWaypointModel, Seq<char>>> {
    match tokenize_spec(c) {
        None => Some(Err("unterminated quote in slash command"@)),
        Some(t) => if t.len() == 0 || !eq_ic(t[0], "/nav"@) {
            None
        } else {
            waypoint_args_spec(t.drop_first())
        },
    }
}

/// Build a named operation from token `i`, or the error when the name is
/// blank (a missing token counts as blank).
fn named_waypoint(tokens: &Vec<Vec<char>>, i: usize, kind: u8, err: &str) -> (r: Result<NavWaypointCommand, String>)
    requires
        kind < 3,
    ensures
        ({
            let name = arg_or_empty(tokens@.map_values(|a: Vec<char>| a@), i as int);
            if trim(name).len() == 0 {
                r matches Err(e) && e@ == err@
            } else {
                r matches Ok(c) && c@ == (if kind == 0 {
                    NavWaypointModel::Save(name)
                } else if kind == 1 {
                    NavWaypointModel::Recall(name)
                } else {
                    NavWaypointModel::Delete(name)
                })
            }
        }),
{
    if i >= tokens.len() {
        proof {
            assert(trim(seq![]).len() == 0);
        }
        return Err(lit(err));
    }
    let name = tokens[i].as_slice();
    if trim_chars(name).len() == 0 {
        return Err(lit(err));
    }
    let s = string_of(name);
    if kind == 0 {
        Ok(NavWaypointCommand::Save(s))
    } else if kind == 1 {
        Ok(NavWaypointCommand::Recall(s))
    } else {
        Ok(NavWaypointCommand::Delete(s))
    }
}

/// Parse `/nav waypoint|wp [list|delete|save|recall] <name>` and
/// `/nav recordwaypoint <name>`. `None` for other commands; an error when
/// the command cannot be tokenized, the subcommand is missing, or a
/// required name is blank.
pub fn parse_nav_waypoint_command(command: &str) -> (r: Option<Result<NavWaypointCommand, String>>)
    ensures
        r is None ==> nav_waypoint_spec(command@) is None,
        r matches Some(Ok(c)) ==> nav_waypoint_spec(command@) == Some(Ok::<NavWaypointModel, Seq<char>>(c@)),
        r matches Some(Err(e)) ==> nav_waypoint_spec(command@) == Some(Err::<NavWaypointModel, Seq<char>>(e@)),
{
    let c = chars_of(command);
    let tokens = match tokenize_chars(c.as_slice()) {
        None => {
            return Some(Err(lit("unterminated quote in slash command")));
        },
        Some(t) => t,
    };
    let ghost t = tokens@.map_values(|a: Vec<char>| a@);
    if tokens.len() == 0 || !eq_ignore_case_str(tokens[0].as_slice(), "/nav") {
        return None;
    }
    let ghost a = t.drop_first();
    proof {
        assert forall|j: int| j >= 0 implies #[trigger] arg_or_empty(a, j) == arg_or_empty(t, j + 1) by {}
    }
    let n = tokens.len() - 1;
    if n == 0 {
        return Some(Err(lit("Missing waypoint subcommand")));
    }
    let sub = lower_chars(tokens[1].as_slice());
    if eq_str(sub.as_slice(), "waypoint") || eq_str(sub.as_slice(), "wp") {
        if n == 2 && eq_ignore_case_str(tokens[2].as_slice(), "list") {
            return Some(Ok(NavWaypointCommand::List));
        }
        if n >= 2 && eq_ignore_case_str(tokens[2].as_slice(), "delete") {
            return Some(named_waypoint(&tokens, 3, 2, "Waypoint name is required for delete"));
        }
        if n >= 2 && eq_ignore_case_str(tokens[2].as_slice(), "save") {
            return Some(named_waypoint(&tokens, 3, 0, "Waypoint name is required for save"));
        }
        if n >= 2 && eq_ignore_case_str(tokens[2].as_slice(), "recall") {
            return Some(named_waypoint(&tokens, 3, 1, "Waypoint name is required for recall"));
        }
        return Some(named_waypoint(&tokens, 2, 1, "Waypoint name is required"));
    }
    if eq_str(sub.as_slice(), "recordwaypoint") {
        return Some(named_waypoint(&tokens, 2, 0, "Waypoint name is required for save"));
    }
    None
}

} // verus!
