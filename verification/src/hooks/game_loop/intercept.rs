//! Slash commands handled before the game sees them: `/cleartarget`,
//! `/click right target`, `/livingshield`, the `/door` rewrite, and the
//! target pre-clear rule.
use vstd::prelude::*;
use crate::text::{
    chars_of, eq_ic, eq_ignore_case_str, lit, lit_then, split_at_ws, split_at_ws_exec, split_ws,
    split_whitespace, starts_with, starts_with_str, string_of, sub_chars, trim, trim_chars, is_ws,
    lemma_trim_has_no_outer_ws,
};

verus! {

/// A slash command the hook handles itself or rewrites.
#[derive(Debug, Clone, PartialEq, Eq)]
pub enum InterceptedSlashCommand {
    ClearTarget,
    InteractTarget,
    Rewrite(String),
    LivingShield(String),
}

/// [`InterceptedSlashCommand`] with its strings as character sequences.
pub enum InterceptedModel {
    ClearTarget,
    InteractTarget,
    Rewrite(Seq<char>),
    LivingShield(Seq<char>),
}

impl View for InterceptedSlashCommand {
    type V = InterceptedModel;

    open spec fn view(&self) -> InterceptedModel {
        match self {
            InterceptedSlashCommand::ClearTarget => InterceptedModel::ClearTarget,
            InterceptedSlashCommand::InteractTarget => InterceptedModel::InteractTarget,
            InterceptedSlashCommand::Rewrite(s) => InterceptedModel::Rewrite(s@),
            InterceptedSlashCommand::LivingShield(s) => InterceptedModel::LivingShield(s@),
        }
    }
}

/// `/door [rest]` becomes `/doortarget [rest]` (rest trimmed, dropped when
/// blank); any other command is left alone.
pub open spec fn door_rewrite_spec(c: Seq<char>) -> Option<Seq<char>> {
    let (head, rest) = split_at_ws(c);
    if !eq_ic(head, "/door"@) {
        None
    } else {
        match rest {
            Some(r) => if trim(r).len() > 0 {
                Some("/doortarget "@ + trim(r))
            } else {
                Some("/doortarget"@)
            },
            None => Some("/doortarget"@),
        }
    }
}

/// Exactly the three words `/click right target`, ignoring ASCII case.
pub open spec fn click_right_target_spec(c: Seq<char>) -> bool {
    let t = split_ws(c);
    t.len() == 3 && eq_ic(t[0], "/click"@) && eq_ic(t[1], "right"@) && eq_ic(t[2], "target"@)
}

/// `/doortarget ...`, or `/target` with a non-blank argument.
pub open spec fn preclear_spec(c: Seq<char>) -> bool {
    let (head, rest) = split_at_ws(c);
    if eq_ic(head, "/doortarget"@) {
        true
    } else if !eq_ic(head, "/target"@) {
        false
    } else {
        match rest {
            Some(r) => trim(r).len() > 0,
            None => false,
        }
    }
}

/// Which custom handling a slash command gets.
pub open spec fn intercept_spec(c: Seq<char>) -> Option<InterceptedModel> {
    if eq_ic(c, "/cleartarget"@) {
        Some(InterceptedModel::ClearTarget)
    } else if click_right_target_spec(c) {
        Some(InterceptedModel::InteractTarget)
    } else if starts_with(c, "/livingshield"@) {
        Some(InterceptedModel::LivingShield(trim(c.subrange(13, c.len() as int))))
    } else if starts_with(c, "/LivingShield"@) {
        Some(InterceptedModel::LivingShield(trim(c.subrange(13, c.len() as int))))
    } else {
        match door_rewrite_spec(c) {
            Some(r) => Some(InterceptedModel::Rewrite(r)),
            None => None,
        }
    }
}

/// The living-shield argument has no surrounding whitespace, whatever
/// spacing the command had: a `/livingshield` command hands on the spawn id
/// text alone.
pub proof fn lemma_living_shield_argument_is_trimmed(c: Seq<char>, arg: Seq<char>)
    requires
        intercept_spec(c) == Some(InterceptedModel::LivingShield(arg)),
    ensures
        arg.len() > 0 ==> !is_ws(arg[0]) && !is_ws(arg.last()),
{
    lemma_trim_has_no_outer_ws(c.subrange(13, c.len() as int));
}

/// The `/door` rewrite on characters.
pub fn rewrite_door_chars(c: &[char]) -> (r: Option<String>)
    ensures
        r is None ==> door_rewrite_spec(c@) is None,
        r matches Some(s) ==> door_rewrite_spec(c@) == Some(s@),
{
    let (head, rest) = split_at_ws_exec(c);
    if !eq_ignore_case_str(head.as_slice(), "/door") {
        return None;
    }
    match rest {
        Some(r) => {
            let t = trim_chars(r.as_slice());
            if t.len() > 0 {
                Some(lit_then("/doortarget ", t.as_slice()))
            } else {
                Some(lit("/doortarget"))
            }
        },
        None => Some(lit("/doortarget")),
    }
}

/// Rewrite `/door [args]` to `/doortarget [args]`.
pub fn rewrite_door_command(command: &str) -> (r: Option<String>)
    ensures
        r is None ==> door_rewrite_spec(command@) is None,
        r matches Some(s) ==> door_rewrite_spec(command@) == Some(s@),
{
    let c = chars_of(command);
    rewrite_door_chars(c.as_slice())
}

/// `/click right target` on characters.
pub fn click_right_target_chars(c: &[char]) -> (r: bool)
    ensures
        r == click_right_target_spec(c@),
{
    let t = split_whitespace(c);
    t.len() == 3 && eq_ignore_case_str(t[0].as_slice(), "/click") && eq_ignore_case_str(
        t[1].as_slice(),
        "right",
    ) && eq_ignore_case_str(t[2].as_slice(), "target")
}

/// Whether the command is exactly `/click right target` (ASCII case
/// ignored).
pub fn is_click_right_target_command(command: &str) -> (r: bool)
    ensures
        r == click_right_target_spec(command@),
{
    let c = chars_of(command);
    click_right_target_chars(c.as_slice())
}

/// Whether the current target must be cleared before the command runs, so
/// that a target-switching command really switches.
pub fn should_preclear_target_for_slash(command: &str) -> (r: bool)
    ensures
        r == preclear_spec(command@),
{
    let c = chars_of(command);
    let (head, rest) = split_at_ws_exec(c.as_slice());
    if eq_ignore_case_str(head.as_slice(), "/doortarget") {
        return true;
    }
    if !eq_ignore_case_str(head.as_slice(), "/target") {
        return false;
    }
    match rest {
        Some(r) => trim_chars(r.as_slice()).len() > 0,
        None => false,
    }
}

/// Classify a (trimmed) slash command for custom handling.
pub fn intercept_custom_slash_command(command: &str) -> (r: Option<InterceptedSlashCommand>)
    ensures
        r is None ==> intercept_spec(command@) is None,
        r matches Some(i) ==> intercept_spec(command@) == Some(i@),
{
    let c = chars_of(command);
    let cs = c.as_slice();
    if eq_ignore_case_str(cs, "/cleartarget") {
        return Some(InterceptedSlashCommand::ClearTarget);
    }
    if click_right_target_chars(cs) {
        return Some(InterceptedSlashCommand::InteractTarget);
    }
    let lower_prefix = starts_with_str(cs, "/livingshield");
    let upper_prefix = starts_with_str(cs, "/LivingShield");
    if lower_prefix || upper_prefix {
        proof {
            reveal_strlit("/livingshield");
            reveal_strlit("/LivingShield");
        }
        let rest = sub_chars(cs, 13, cs.len());
        let t = trim_chars(rest.as_slice());
        return Some(InterceptedSlashCommand::LivingShield(string_of(t.as_slice())));
    }
    match rewrite_door_chars(cs) {
        Some(r) => Some(InterceptedSlashCommand::Rewrite(r)),
        None => None,
    }
}

} // verus!
