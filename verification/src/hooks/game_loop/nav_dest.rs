//! `/nav` destination commands: `target`, `door`, `item` and `loc Y X Z`
//! (an optional `to` may come first). The coordinates of `loc` are kept as
//! the tokens given; turning them into numbers is left to the caller.
use vstd::prelude::*;
use crate::text::{chars_of, eq_ic, eq_ignore_case_str, lit, string_of};
use crate::hooks::game_loop::tokenize::{tokenize_chars, tokenize_spec};

verus! {

/// Where a `/nav` destination command goes.
#[derive(Debug, PartialEq, Eq)]
pub enum NavDestination {
    /// The current target.
    Target,
    /// The nearest door.
    Door,
    /// The nearest ground item.
    Item,
    /// A location, given as its Y, X and Z coordinate tokens.
    Loc { y: String, x: String, z: String },
}

/// [`NavDestination`] with the coordinate tokens as characters.
pub enum NavDestinationModel {
    Target,
    Door,
    Item,
    Loc(Seq<char>, Seq<char>, Seq<char>),
}

impl View for NavDestination {
    type V = NavDestinationModel;

    open spec fn view(&self) -> NavDestinationModel {
        match self {
            NavDestination::Target => NavDestinationModel::Target,
            NavDestination::Door => NavDestinationModel::Door,
            NavDestination::Item => NavDestinationModel::Item,
            NavDestination::Loc { y, x, z } => NavDestinationModel::Loc(y@, x@, z@),
        }
    }
}

/// No further argument, or the single word `click`.
pub open spec fn click_or_nothing(rest: Seq<Seq<char>>) -> bool {
    rest.len() == 0 || (rest.len() == 1 && eq_ic(rest[0], "click"@))
}

/// The meaning of the arguments after `/nav` as a destination command.
pub open spec fn nav_destination_args_spec(given: Seq<Seq<char>>) -> Option<Result<NavDestinationModel, Seq<char>>> {
    let args = if given.len() > 0 && eq_ic(given[0], "to"@) {
        given.drop_first()
    } else {
        given
    };
    if args.len() == 0 {
        None
    } else {
        let mode = args[0];
        let rest = args.drop_first();
        if eq_ic(mode, "target"@) {
            if rest.len() == 0 {
                Some(Ok(NavDestinationModel::Target))
            } else {
                Some(Err("target navigation does not accept extra arguments"@))
            }
        } else if eq_ic(mode, "loc"@) {
            if rest.len() != 3 {
                Some(Err("loc navigation requires coordinates in `/nav loc Y X Z` order"@))
            } else {
                Some(Ok(NavDestinationModel::Loc(rest[0], rest[1], rest[2])))
            }
        } else if eq_ic(mode, "door"@) {
            if click_or_nothing(rest) {
                Some(Ok(NavDestinationModel::Door))
            } else {
                None
            }
        } else if eq_ic(mode, "item"@) {
            if click_or_nothing(rest) {
                Some(Ok(NavDestinationModel::Item))
            } else {
                None
            }
        } else {
            None
        }
    }
}

/// The meaning of a command as a `/nav` destination command (`None` when it
/// is none).
pub open spec fn nav_destination_spec(c: Seq<char>) -> Option<Result<NavDestinationModel, Seq<char>>> {
    match tokenize_spec(c) {
        None => Some(Err("unterminated quote in slash command"@)),
        Some(t) => if t.len() == 0 || !eq_ic(t[0], "/nav"@) {
            None
        } else {
            nav_destination_args_spec(t.drop_first())
        },
    }
}

/// Parse `/nav [to] target|door [click]|item [click]|loc Y X Z`. `None` for
/// other commands; an error when the command cannot be tokenized, `target`
/// has extra arguments, or `loc` does not have exactly three coordinates.
pub fn parse_nav_destination_command(command: &str) -> (r: Option<Result<NavDestination, String>>)
    ensures
        r is None ==> nav_destination_spec(command@) is None,
        r matches Some(Ok(d)) ==> nav_destination_spec(command@) == Some(Ok::<NavDestinationModel, Seq<char>>(d@)),
        r matches Some(Err(e)) ==> nav_destination_spec(command@) == Some(Err::<NavDestinationModel, Seq<char>>(e@)),
{
    let c = chars_of(command);
    let tokens = match tokenize_chars(c.as_slice()) {
        None => {
            return Some(Err(lit("unterminated quote in slash command")));
        },
        Some(t) => t,
    };
    let ghost t = tokens@.map_values(|a: Vec<char>| a@);
    if tokens.len() == 0 || !eq_ignore_case_str(tokens[0].as_slice(), "/nav") {
        return None;
    }
    let ghost given = t.drop_first();
    let start: usize = if tokens.len() > 1 && eq_ignore_case_str(tokens[1].as_slice(), "to") {
        2
    } else {
        1
    };
    let ghost args = if given.len() > 0 && eq_ic(given[0], "to"@) {
        given.drop_first()
    } else {
        given
    };
    proof {
        assert(args =~= t.subrange(start as int, t.len() as int));
    }
    if start >= tokens.len() {
        return None;
    }
    let n = tokens.len() - start - 1;
    let ghost rest = args.drop_first();
    proof {
        assert(rest.len() == n);
        assert forall|j: int| 0 <= j < n implies #[trigger] rest[j] == tokens@[start + 1 + j]@ by {}
    }
    let mode = tokens[start].as_slice();
    if eq_ignore_case_str(mode, "target") {
        if n == 0 {
            return Some(Ok(NavDestination::Target));
        }
        return Some(Err(lit("target navigation does not accept extra arguments")));
    }
    if eq_ignore_case_str(mode, "loc") {
        if n != 3 {
            return Some(Err(lit("loc navigation requires coordinates in `/nav loc Y X Z` order")));
        }
        let y = string_of(tokens[start + 1].as_slice());
        let x = string_of(tokens[start + 2].as_slice());
        let z = string_of(tokens[start + 3].as_slice());
        return Some(Ok(NavDestination::Loc { y, x, z }));
    }
    let click_ok = n == 0 || (n == 1 && eq_ignore_case_str(tokens[start + 1].as_slice(), "click"));
    if eq_ignore_case_str(mode, "door") {
        if click_ok {
            return Some(Ok(NavDestination::Door));
        }
        return None;
    }
    if eq_ignore_case_str(mode, "item") {
        if click_ok {
            return Some(Ok(NavDestination::Item));
        }
        return None;
    }
    None
}

} // verus!
