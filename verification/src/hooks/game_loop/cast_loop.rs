//! The repeating cast loop behind `CastSpell { kill, recast }`: `kill`
//! casts until the target dies or changes, `recast` casts N+1 times with a
//! doubling back-off capped at 30 ticks.
use vstd::prelude::*;
use crate::text::{dec, lit, push_decimal, strings_view};

verus! {

/// First back-off between casts, in ticks.
pub const CAST_LOOP_BASE_BACKOFF_TICKS: u64 = 8;

/// Largest back-off between casts, in ticks.
pub const CAST_LOOP_MAX_BACKOFF_TICKS: u64 = 30;

/// How the loop ends.
#[derive(Debug, Clone, Copy, PartialEq, Eq, Structural)]
pub enum CastLoopMode {
    /// Until the target (this spawn id, 0 for any) dies or changes.
    Kill { target_id: u32 },
    /// This many more casts.
    Recast { remaining: u8 },
}

/// A running cast loop.
#[derive(Debug, Clone, Copy, PartialEq, Eq, Structural)]
pub struct CastingLoop {
    pub spell_slot: u8,
    pub target_id: Option<u32>,
    pub active: bool,
    pub mode: CastLoopMode,
    pub next_cast_tick: u64,
    pub backoff_ticks: u64,
}

/// The current target as the game shows it.
#[derive(Debug, Clone, Copy, PartialEq, Eq, Structural)]
pub struct TargetObservation {
    pub spawn_id: u32,
    pub hp_current: i64,
}

/// What the game shows this tick, when the game is reachable.
#[derive(Debug, Clone, Copy, PartialEq, Eq, Structural)]
pub struct GameObservation {
    pub cast_in_progress: bool,
    pub target: Option<TargetObservation>,
}

/// `/target id T` (when a target is given) then `/cast N`.
pub open spec fn cast_commands_spec(spell_slot: u8, target_id: Option<u32>) -> Seq<Seq<char>> {
    match target_id {
        Some(t) => seq!["/target id "@ + dec(t as nat), "/cast "@ + dec(spell_slot as nat)],
        None => seq!["/cast "@ + dec(spell_slot as nat)],
    }
}

/// The commands for one cast.
pub fn issue_cast(spell_slot: u8, target_id: Option<u32>) -> (r: Vec<String>)
    ensures
        strings_view(r@) == cast_commands_spec(spell_slot, target_id),
{
    let mut out: Vec<String> = Vec::new();
    match target_id {
        Some(t) => {
            let mut s = lit("/target id ");
            push_decimal(&mut s, t as u64);
            out.push(s);
        },
        None => {},
    }
    let mut c = lit("/cast ");
    push_decimal(&mut c, spell_slot as u64);
    out.push(c);
    proof {
        assert(strings_view(out@) =~= cast_commands_spec(spell_slot, target_id));
    }
    out
}

impl CastingLoop {
    /// The back-off never exceeds its cap.
    pub open spec fn wf(&self) -> bool {
        self.backoff_ticks <= CAST_LOOP_MAX_BACKOFF_TICKS
    }

    /// The loop `start_kill` creates.
    pub open spec fn start_kill_spec(spell_slot: u8, target_id: Option<u32>, current_tick: u64) -> CastingLoop {
        CastingLoop {
                spell_slot,
                target_id,
                active: true,
                mode: CastLoopMode::Kill {
                    target_id: match target_id {
                        Some(t) => t,
                        None => 0,
                    },
                },
                next_cast_tick: current_tick,
                backoff_ticks: CAST_LOOP_BASE_BACKOFF_TICKS,
            }
    }

    /// A kill loop: cast now and every 8 ticks until the target is gone.
    pub fn start_kill(spell_slot: u8, target_id: Option<u32>, current_tick: u64) -> (r: Self)
        ensures
            r == Self::start_kill_spec(spell_slot, target_id, current_tick),
            r.wf(),
    {
        let target = match target_id {
            Some(t) => t,
            None => 0,
        };
        CastingLoop {
            spell_slot,
            target_id,
            active: true,
            mode: CastLoopMode::Kill { target_id: target },
            next_cast_tick: current_tick,
            backoff_ticks: CAST_LOOP_BASE_BACKOFF_TICKS,
        }
    }

    /// The loop `start_recast` creates.
    pub open spec fn start_recast_spec(spell_slot: u8, target_id: Option<u32>, recast: u8, current_tick: u64) -> CastingLoop {
        CastingLoop {
                spell_slot,
                target_id,
                active: true,
                mode: CastLoopMode::Recast {
                    remaining: if recast < 255 {
                        (recast + 1) as u8
                    } else {
                        255u8
                    },
                },
                next_cast_tick: current_tick,
                backoff_ticks: CAST_LOOP_BASE_BACKOFF_TICKS,
            }
    }

    /// A recast loop: `recast + 1` casts in all (saturating at 255).
    pub fn start_recast(spell_slot: u8, target_id: Option<u32>, recast: u8, current_tick: u64) -> (r:
        Self)
        ensures
            r == Self::start_recast_spec(spell_slot, target_id, recast, current_tick),
            r.wf(),
    {
        let remaining: u8 = if recast < 255 {
            recast + 1
        } else {
            255
        };
        CastingLoop {
            spell_slot,
            target_id,
            active: true,
            mode: CastLoopMode::Recast { remaining },
            next_cast_tick: current_tick,
            backoff_ticks: CAST_LOOP_BASE_BACKOFF_TICKS,
        }
    }

    /// Stop the loop.
    pub fn cancel(&mut self)
        ensures
            *final(self) == (CastingLoop { active: false, ..*old(self) }),
    {
        self.active = false;
    }

    /// The loop after one tick, whether it keeps running, and the commands it
    /// issues.
    pub open spec fn tick_spec(self, tick: u64, game: Option<GameObservation>) -> (CastingLoop, bool, Seq<Seq<char>>) {
        if !self.active {
            (self, false, seq![])
        } else if tick < self.next_cast_tick {
            (self, true, seq![])
        } else if game matches Some(g) && g.cast_in_progress {
            (CastingLoop { next_cast_tick: (tick + 1) as u64, ..self }, true, seq![])
        } else {
            match self.mode {
                CastLoopMode::Kill { target_id } => {
                    let stop = match game {
                        Some(g) => match g.target {
                            None => true,
                            Some(t) => (t.spawn_id != target_id && target_id != 0) || t.hp_current <= 0,
                        },
                        None => false,
                    };
                    if stop {
                        (CastingLoop { active: false, ..self }, false, seq![])
                    } else {
                        (
                            CastingLoop { next_cast_tick: (tick + self.backoff_ticks) as u64, ..self },
                            true,
                            cast_commands_spec(self.spell_slot, self.target_id),
                        )
                    }
                },
                CastLoopMode::Recast { remaining } => {
                    if remaining == 0 {
                        (CastingLoop { active: false, ..self }, false, seq![])
                    } else {
                        (
                            CastingLoop {
                                mode: CastLoopMode::Recast { remaining: (remaining - 1) as u8 },
                                next_cast_tick: (tick + self.backoff_ticks) as u64,
                                backoff_ticks: if 2 * self.backoff_ticks
                                    < CAST_LOOP_MAX_BACKOFF_TICKS {
                                    (2 * self.backoff_ticks) as u64
                                } else {
                                    CAST_LOOP_MAX_BACKOFF_TICKS
                                },
                                ..self
                            },
                            true,
                            cast_commands_spec(self.spell_slot, self.target_id),
                        )
                    }
                },
            }
        }
    }

    /// One tick of the loop: wait for the back-off, wait while a cast is in
    /// progress, stop when the kill target is gone, changed or dead or when
    /// the recasts are used up, and otherwise issue the next cast. Returns
    /// whether the loop keeps running and the commands to queue.
    pub fn tick(&mut self, current_tick: u64, game: Option<GameObservation>) -> (r: (bool, Vec<String>))
        requires
            old(self).wf(),
            current_tick <= u64::MAX - CAST_LOOP_MAX_BACKOFF_TICKS,
        ensures
            final(self).wf(),
            *final(self) == old(self).tick_spec(current_tick, game).0,
            r.0 == old(self).tick_spec(current_tick, game).1,
            strings_view(r.1@) == old(self).tick_spec(current_tick, game).2,
    {
        let none: Vec<String> = Vec::new();
        proof {
            assert(strings_view(none@) =~= seq![]);
        }
        if !self.active {
            return (false, none);
        }
        if current_tick < self.next_cast_tick {
            return (true, none);
        }
        match game {
            Some(g) => {
                if g.cast_in_progress {
                    self.next_cast_tick = current_tick + 1;
                    return (true, none);
                }
            },
            None => {},
        }
        match self.mode {
            CastLoopMode::Kill { target_id } => {
                let stop = match game {
                    Some(g) => match g.target {
                        None => true,
                        Some(t) => (t.spawn_id != target_id && target_id != 0) || t.hp_current <= 0,
                    },
                    None => false,
                };
                if stop {
                    self.active = false;
                    return (false, none);
                }
                let cmds = issue_cast(self.spell_slot, self.target_id);
                self.next_cast_tick = current_tick + self.backoff_ticks;
                (true, cmds)
            },
            CastLoopMode::Recast { remaining } => {
                if remaining == 0 {
                    self.active = false;
                    return (false, none);
                }
                let cmds = issue_cast(self.spell_slot, self.target_id);
                self.mode = CastLoopMode::Recast { remaining: remaining - 1 };
                let current_delay = self.backoff_ticks;
                self.next_cast_tick = current_tick + current_delay;
                self.backoff_ticks = if current_delay * 2 < CAST_LOOP_MAX_BACKOFF_TICKS {
                    current_delay * 2
                } else {
                    CAST_LOOP_MAX_BACKOFF_TICKS
                };
                (true, cmds)
            },
        }
    }
}

/// A kill loop that is due and sees no cast in progress stops for good once
/// its target is dead (hit points at or below zero), has disappeared, or has
/// been replaced by another spawn: the tick reports the loop finished,
/// issues no command, and leaves the loop inactive, so later ticks issue
/// nothing either.
pub proof fn lemma_kill_loop_stops_when_target_is_gone(
    l: CastingLoop,
    tick: u64,
    g: GameObservation,
    later: u64,
    later_game: Option<GameObservation>,
)
    requires
        l.active,
        l.mode is Kill,
        tick >= l.next_cast_tick,
        !g.cast_in_progress,
        match g.target {
            None => true,
            Some(t) => t.hp_current <= 0 || (t.spawn_id != l.mode->target_id && l.mode->target_id != 0),
        },
    ensures
        !l.tick_spec(tick, Some(g)).1,
        l.tick_spec(tick, Some(g)).2.len() == 0,
        !l.tick_spec(tick, Some(g)).0.active,
        !l.tick_spec(tick, Some(g)).0.tick_spec(later, later_game).1,
        l.tick_spec(tick, Some(g)).0.tick_spec(later, later_game).2.len() == 0,
{
}

/// A kill loop that is due, sees no cast in progress and whose target is
/// alive and still the one it was started on casts at it: the loop keeps
/// running and issues `/target id` (when started with a target) and `/cast`.
pub proof fn lemma_kill_loop_casts_while_target_lives(l: CastingLoop, tick: u64, g: GameObservation, t: TargetObservation)
    requires
        l.active,
        l.mode is Kill,
        tick >= l.next_cast_tick,
        tick + l.backoff_ticks <= u64::MAX,
        !g.cast_in_progress,
        g.target == Some(t),
        t.hp_current > 0,
        t.spawn_id == l.mode->target_id || l.mode->target_id == 0,
    ensures
        l.tick_spec(tick, Some(g)).1,
        l.tick_spec(tick, Some(g)).0.active,
        l.tick_spec(tick, Some(g)).2 == cast_commands_spec(l.spell_slot, l.target_id),
        l.tick_spec(tick, Some(g)).0.next_cast_tick == tick + l.backoff_ticks,
{
}

} // verus!
