//! Where a slash command from the orchestrator goes: handled by the hook
//! itself (target clearing, interaction, living shield, waypoints, spell
//! sets, `/casting`, movement) or passed to the game, possibly rewritten,
//! after a target pre-clear and with the bandolier set it activates noted.
use vstd::prelude::*;
use crate::text::{
    chars_of, dec, eq_ic, eq_ignore_case_str, lit, parse_unsigned, parse_unsigned_exec, push_decimal,
    string_of, strings_view, trim, trim_chars,
};
use crate::hooks::game_loop::tokenize::{tokenize_chars, tokenize_spec};
use crate::hooks::game_loop::intercept::{
    intercept_custom_slash_command, intercept_spec, preclear_spec, should_preclear_target_for_slash,
    InterceptedModel, InterceptedSlashCommand,
};
use crate::hooks::game_loop::waypoints::{
    nav_waypoint_spec, parse_nav_waypoint_command, NavWaypointCommand, NavWaypointModel,
};
use crate::hooks::game_loop::spell_sets::{
    parse_spell_set_command, spell_set_spec, SpellSetCommand, SpellSetModel,
};
use crate::hooks::game_loop::casting_cmd::{
    action_command_spec, casting_spec, parse_casting_command, ParsedCastingCommand,
    ParsedCastingModel,
};
use crate::hooks::game_loop::slash::{bandolier_selector_spec, parse_bandolier_activate_command};
use crate::hooks::game_loop::bandolier::{
    opt_view, swap_issue_spec, swap_recorded, BandolierState, BANDOLIER_CAST_TIMEOUT_TICKS,
};
use crate::hooks::game_loop::cast_loop::{cast_commands_spec, issue_cast, CastingLoop};

verus! {

/// Where a slash command goes.
#[derive(Debug, PartialEq, Eq)]
pub enum SlashRoute {
    /// Clear the current target.
    ClearTarget,
    /// Right-click the current target.
    InteractTarget,
    /// Living shield on a spawn: `None` for the current target, otherwise
    /// the given id (0 when it does not parse).
    LivingShield(Option<u32>),
    /// A waypoint command, or why it was refused.
    NavWaypoint(Result<NavWaypointCommand, String>),
    /// A spell-set shortcut.
    SpellSet(SpellSetCommand),
    /// A `/casting` command, or why it was refused.
    Casting(Result<ParsedCastingCommand, String>),
    /// `/stick` or `/follow`.
    Movement,
    /// Pass the command to the game.
    Execute { command: String, preclear_target: bool, activates_bandolier: Option<String> },
}

/// [`SlashRoute`] with its strings as characters.
pub enum SlashRouteModel {
    ClearTarget,
    InteractTarget,
    LivingShield(Option<u32>),
    NavWaypoint(Result<NavWaypointModel, Seq<char>>),
    SpellSet(SpellSetModel),
    Casting(Result<ParsedCastingModel, Seq<char>>),
    Movement,
    Execute { command: Seq<char>, preclear_target: bool, activates_bandolier: Option<Seq<char>> },
}

impl View for SlashRoute {
    type V = SlashRouteModel;

    open spec fn view(&self) -> SlashRouteModel {
        match self {
            SlashRoute::ClearTarget => SlashRouteModel::ClearTarget,
            SlashRoute::InteractTarget => SlashRouteModel::InteractTarget,
            SlashRoute::LivingShield(t) => SlashRouteModel::LivingShield(*t),
            SlashRoute::NavWaypoint(r) => SlashRouteModel::NavWaypoint(
                match r {
                    Ok(c) => Ok(c@),
                    Err(e) => Err(e@),
                },
            ),
            SlashRoute::SpellSet(c) => SlashRouteModel::SpellSet(c@),
            SlashRoute::Casting(r) => SlashRouteModel::Casting(
                match r {
                    Ok(c) => Ok(c@),
                    Err(e) => Err(e@),
                },
            ),
            SlashRoute::Movement => SlashRouteModel::Movement,
            SlashRoute::Execute { command, preclear_target, activates_bandolier } =>
                SlashRouteModel::Execute {
                command: command@,
                preclear_target: *preclear_target,
                activates_bandolier: opt_view(*activates_bandolier),
            },
        }
    }
}

/// `/stick ...` or `/follow ...` (verb compared ignoring ASCII case).
pub open spec fn movement_spec(c: Seq<char>) -> bool {
    match tokenize_spec(c) {
        Some(t) => t.len() > 0 && (eq_ic(t[0], "/stick"@) || eq_ic(t[0], "/follow"@)),
        None => false,
    }
}

/// The route of a slash command. Checks run in order on the trimmed
/// command: intercepted commands, waypoint commands, spell-set shortcuts
/// (on the possibly rewritten command), `/casting`, movement; anything else
/// goes to the game.
pub open spec fn route_spec(command: Seq<char>) -> SlashRouteModel {
    let trimmed = trim(command);
    match intercept_spec(trimmed) {
        Some(InterceptedModel::ClearTarget) => SlashRouteModel::ClearTarget,
        Some(InterceptedModel::InteractTarget) => SlashRouteModel::InteractTarget,
        Some(InterceptedModel::LivingShield(s)) => SlashRouteModel::LivingShield(
            if s.len() == 0 {
                None
            } else {
                match parse_unsigned(s, 4294967295) {
                    Some(n) => Some(n as u32),
                    None => Some(0u32),
                }
            },
        ),
        other => {
            let slash = match other {
                Some(InterceptedModel::Rewrite(r)) => r,
                _ => trimmed,
            };
            match nav_waypoint_spec(trimmed) {
                Some(w) => SlashRouteModel::NavWaypoint(w),
                None => match spell_set_spec(slash) {
                    Some(c) => SlashRouteModel::SpellSet(c),
                    None => match casting_spec(trimmed) {
                        Some(c) => SlashRouteModel::Casting(c),
                        None => if movement_spec(trimmed) {
                            SlashRouteModel::Movement
                        } else {
                            SlashRouteModel::Execute {
                                command: slash,
                                preclear_target: preclear_spec(slash),
                                activates_bandolier: bandolier_selector_spec(slash),
                            }
                        },
                    },
                },
            }
        },
    }
}

/// Whether a command is `/stick` or `/follow`.
fn is_movement_command(c: &[char]) -> (r: bool)
    ensures
        r == movement_spec(c@),
{
    match tokenize_chars(c) {
        None => false,
        Some(t) => t.len() > 0 && (eq_ignore_case_str(t[0].as_slice(), "/stick")
            || eq_ignore_case_str(t[0].as_slice(), "/follow")),
    }
}

/// Decide where a slash command goes.
pub fn route_slash_command(command: &str) -> (r: SlashRoute)
    ensures
        r@ == route_spec(command@),
{
    let c = chars_of(command);
    let t = trim_chars(c.as_slice());
    let trimmed = string_of(t.as_slice());
    let slash: String = match intercept_custom_slash_command(trimmed.as_str()) {
        Some(InterceptedSlashCommand::ClearTarget) => {
            return SlashRoute::ClearTarget;
        },
        Some(InterceptedSlashCommand::InteractTarget) => {
            return SlashRoute::InteractTarget;
        },
        Some(InterceptedSlashCommand::LivingShield(s)) => {
            let sv = chars_of(s.as_str());
            if sv.len() == 0 {
                return SlashRoute::LivingShield(None);
            }
            let id: u32 = match parse_unsigned_exec(sv.as_slice(), 4294967295) {
                Some(n) => n as u32,
                None => 0,
            };
            return SlashRoute::LivingShield(Some(id));
        },
        Some(InterceptedSlashCommand::Rewrite(r)) => r,
        None => trimmed.clone(),
    };
    match parse_nav_waypoint_command(trimmed.as_str()) {
        Some(w) => {
            return SlashRoute::NavWaypoint(w);
        },
        None => {},
    }
    match parse_spell_set_command(slash.as_str()) {
        Some(s) => {
            return SlashRoute::SpellSet(s);
        },
        None => {},
    }
    match parse_casting_command(trimmed.as_str()) {
        Some(p) => {
            return SlashRoute::Casting(p);
        },
        None => {},
    }
    if is_movement_command(t.as_slice()) {
        return SlashRoute::Movement;
    }
    let preclear = should_preclear_target_for_slash(slash.as_str());
    let bandolier = parse_bandolier_activate_command(slash.as_str());
    SlashRoute::Execute { command: slash, preclear_target: preclear, activates_bandolier: bandolier }
}

/// The commands a parsed `/casting` queues: nothing when it requires the
/// player to be visible and the player is invisible; otherwise the
/// bandolier activation (if a swap is needed), `/target id T` (if a target
/// is given), then the action's command.
pub open spec fn casting_plan_spec(
    parsed: ParsedCastingModel,
    active: Option<String>,
    player_invisible: Option<bool>,
) -> Seq<Seq<char>> {
    if parsed.require_not_invisible && player_invisible == Some(true) {
        seq![]
    } else {
        let swap = match parsed.bandolier_set {
            Some(b) => match swap_issue_spec(active, b) {
                Some(c) => seq![c],
                None => seq![],
            },
            None => seq![],
        };
        let target = match parsed.target_id {
            Some(t) => seq!["/target id "@ + dec(t as nat)],
            None => seq![],
        };
        swap + target + seq![action_command_spec(parsed.action)]
    }
}

/// Carry out a parsed `/casting`: the commands to queue, recording a
/// bandolier swap when one is requested. `player_invisible` is `None` when
/// the game cannot be read.
pub fn plan_casting(
    parsed: &ParsedCastingCommand,
    player_invisible: Option<bool>,
    bandolier: &mut BandolierState,
    current_tick: u64,
) -> (r: Vec<String>)
    requires
        current_tick <= u64::MAX - BANDOLIER_CAST_TIMEOUT_TICKS,
    ensures
        strings_view(r@) == casting_plan_spec(parsed@, old(bandolier).active_set, player_invisible),
        (parsed.require_not_invisible && player_invisible == Some(true))
            || parsed.bandolier_set is None ==> *final(bandolier) == *old(bandolier),
        !(parsed.require_not_invisible && player_invisible == Some(true)) ==> (
        parsed.bandolier_set matches Some(b) ==> swap_recorded(
            *old(bandolier),
            *final(bandolier),
            b@,
            current_tick,
        )),
{
    let mut out: Vec<String> = Vec::new();
    if parsed.require_not_invisible && player_invisible == Some(true) {
        proof {
            assert(strings_view(out@) =~= seq![]);
        }
        return out;
    }
    let ghost active = bandolier.active_set;
    match &parsed.bandolier_set {
        Some(b) => {
            match bandolier.schedule_bandolier_swap(b.as_str(), current_tick) {
                Some(cmd) => out.push(cmd),
                None => {},
            }
        },
        None => {},
    }
    let ghost swap_part = strings_view(out@);
    match parsed.target_id {
        Some(t) => {
            let mut s = lit("/target id ");
            push_decimal(&mut s, t as u64);
            out.push(s);
        },
        None => {},
    }
    let ghost target_part = strings_view(out@);
    out.push(parsed.action.slash_command());
    proof {
        let m = parsed@;
        let swap = match m.bandolier_set {
            Some(b) => match swap_issue_spec(active, b) {
                Some(c) => seq![c],
                None => seq![],
            },
            None => seq![],
        };
        let target = match m.target_id {
            Some(t) => seq!["/target id "@ + dec(t as nat)],
            None => seq![],
        };
        assert(swap_part =~= swap);
        assert(target_part =~= swap + target);
        assert(strings_view(out@) =~= swap + target + seq![action_command_spec(m.action)]);
    }
    out
}

/// What a `CastSpell` request starts.
pub struct CastSpellPlan {
    /// The loop to run, replacing any running loop.
    pub start_loop: Option<CastingLoop>,
    /// Commands to queue now.
    pub commands: Vec<String>,
}

/// Handle `CastSpell`: a kill loop when `kill`, a recast loop when
/// `recast > 0`, otherwise a single cast now.
pub fn plan_cast_spell(spell_slot: u8, target_id: Option<u32>, kill: bool, recast: u8, tick: u64) -> (r:
    CastSpellPlan)
    ensures
        kill ==> r.commands@.len() == 0 && r.start_loop == Some(
            CastingLoop::start_kill_spec(spell_slot, target_id, tick),
        ),
        !kill && recast > 0 ==> r.commands@.len() == 0 && r.start_loop == Some(
            CastingLoop::start_recast_spec(spell_slot, target_id, recast, tick),
        ),
        !kill && recast == 0 ==> r.start_loop is None && strings_view(r.commands@)
            == cast_commands_spec(spell_slot, target_id),
{
    if kill {
        CastSpellPlan {
            start_loop: Some(CastingLoop::start_kill(spell_slot, target_id, tick)),
            commands: Vec::new(),
        }
    } else if recast > 0 {
        CastSpellPlan {
            start_loop: Some(CastingLoop::start_recast(spell_slot, target_id, recast, tick)),
            commands: Vec::new(),
        }
    } else {
        CastSpellPlan { start_loop: None, commands: issue_cast(spell_slot, target_id) }
    }
}

} // verus!
