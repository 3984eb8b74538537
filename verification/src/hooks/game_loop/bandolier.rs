//! Bandolier swaps around `/casting -bandolier|SET`: switch to the requested
//! set, then restore the previous set once the cast has finished (or after a
//! timeout when no cast was ever seen).
use vstd::prelude::*;
use crate::text::{chars_of, eq_ic, eq_ignore_case, string_of, trim, trim_chars};
use crate::hooks::game_loop::slash::{bandolier_activate_chars, bandolier_activate_spec};

verus! {

/// Ticks to wait for a cast to start or finish before restoring.
pub const BANDOLIER_CAST_TIMEOUT_TICKS: u64 = 30;

/// A swap waiting to be undone.
#[derive(Debug, Clone, PartialEq, Eq)]
pub struct PendingBandolierRestore {
    pub requested_set: String,
    pub restore_to: Option<String>,
    pub deadline_tick: u64,
    pub saw_casting: bool,
}

/// Whether a pending swap is due for restoring at `tick`, given whether a
/// cast is observed (`None` when it cannot be observed).
pub open spec fn restore_due(st: PendingBandolierRestore, tick: u64, observed: Option<bool>) -> bool {
    if st.saw_casting {
        observed == Some(false) || tick >= st.deadline_tick
    } else {
        tick >= st.deadline_tick
    }
}

/// The command that restores the previous set, unless it is the requested
/// set itself (ASCII case ignored) or there is none.
pub open spec fn restore_command_spec(st: PendingBandolierRestore) -> Option<Seq<char>> {
    match st.restore_to {
        Some(r) => if eq_ic(r@, st.requested_set@) {
            None
        } else {
            Some(bandolier_activate_spec(r@))
        },
        None => None,
    }
}

/// Optional string viewed as characters.
pub open spec fn opt_view(o: Option<String>) -> Option<Seq<char>> {
    match o {
        Some(s) => Some(s@),
        None => None,
    }
}

/// Advance a pending restore by one tick. While a cast is observed the
/// deadline moves to `current_tick + 30` and the swap is remembered as
/// used; once the cast is over (or the deadline passed) the pending state
/// is cleared and the restore command, if any, returned.
pub fn next_bandolier_restore_command(
    pending: &mut Option<PendingBandolierRestore>,
    current_tick: u64,
    observed_casting: Option<bool>,
) -> (r: Option<String>)
    requires
        current_tick <= u64::MAX - BANDOLIER_CAST_TIMEOUT_TICKS,
    ensures
        *old(pending) is None ==> r is None && *final(pending) is None,
        *old(pending) matches Some(st) ==> {
            if observed_casting == Some(true) {
                r is None && *final(pending) == Some(
                    PendingBandolierRestore {
                        saw_casting: true,
                        deadline_tick: (current_tick + BANDOLIER_CAST_TIMEOUT_TICKS) as u64,
                        ..st
                    },
                )
            } else if restore_due(st, current_tick, observed_casting) {
                *final(pending) is None && opt_view(r) == restore_command_spec(st)
            } else {
                r is None && *final(pending) == *old(pending)
            }
        },
{
    let st = match pending.take() {
        None => {
            return None;
        },
        Some(st) => st,
    };
    if observed_casting == Some(true) {
        *pending = Some(
            PendingBandolierRestore {
                requested_set: st.requested_set,
                restore_to: st.restore_to,
                deadline_tick: current_tick + BANDOLIER_CAST_TIMEOUT_TICKS,
                saw_casting: true,
            },
        );
        return None;
    }
    let should_restore = if st.saw_casting {
        observed_casting == Some(false) || current_tick >= st.deadline_tick
    } else {
        current_tick >= st.deadline_tick
    };
    if !should_restore {
        *pending = Some(st);
        return None;
    }
    match st.restore_to {
        None => None,
        Some(r) => {
            let rv = chars_of(r.as_str());
            let qv = chars_of(st.requested_set.as_str());
            if eq_ignore_case(rv.as_slice(), qv.as_slice()) {
                None
            } else {
                Some(bandolier_activate_chars(rv.as_slice()))
            }
        },
    }
}

/// The bandolier set known to be active and the swap waiting to be undone.
pub struct BandolierState {
    pub active_set: Option<String>,
    pub pending: Option<PendingBandolierRestore>,
}

/// The set to restore after a swap to `requested`: the one an earlier
/// pending swap would restore, else the active set; none when that is the
/// requested set.
pub open spec fn restore_target_spec(
    active: Option<String>,
    pending: Option<PendingBandolierRestore>,
    requested: Seq<char>,
) -> Option<String> {
    let candidate = match pending {
        Some(p) => match p.restore_to {
            Some(r) => Some(r),
            None => active,
        },
        None => active,
    };
    match candidate {
        Some(c) => if eq_ic(c@, requested) {
            None
        } else {
            Some(c)
        },
        None => None,
    }
}

/// The activation command a swap to `requested` (already trimmed, not
/// blank) issues: none when that set is already active.
pub open spec fn swap_command_spec(active: Option<String>, requested: Seq<char>) -> Option<Seq<char>> {
    let already = match active {
        Some(a) => eq_ic(a@, requested),
        None => false,
    };
    if already {
        None
    } else {
        Some(bandolier_activate_spec(requested))
    }
}

/// `new` is `old` after recording a swap to `requested_set` at `tick`: a
/// blank name changes nothing; otherwise the active set stays and the
/// pending restore names the trimmed set, what to restore, and the
/// deadline `tick + 30`.
pub open spec fn swap_recorded(
    old: BandolierState,
    new: BandolierState,
    requested_set: Seq<char>,
    tick: u64,
) -> bool {
    let req = trim(requested_set);
    if req.len() == 0 {
        new == old
    } else {
        &&& new.active_set == old.active_set
        &&& new.pending matches Some(p) && p.requested_set@ == req && p.restore_to
            == restore_target_spec(old.active_set, old.pending, req) && p.deadline_tick == tick
            + BANDOLIER_CAST_TIMEOUT_TICKS && !p.saw_casting
    }
}

/// The command a swap to `requested_set` issues (none for a blank name).
pub open spec fn swap_issue_spec(active: Option<String>, requested_set: Seq<char>) -> Option<Seq<char>> {
    if trim(requested_set).len() == 0 {
        None
    } else {
        swap_command_spec(active, trim(requested_set))
    }
}

impl BandolierState {
    /// No set known, nothing pending.
    pub fn new() -> (r: Self)
        ensures
            r.active_set is None,
            r.pending is None,
    {
        BandolierState { active_set: None, pending: None }
    }

    /// Record the set a `/bandolier activate` command selected.
    pub fn set_active(&mut self, set: String)
        ensures
            final(self).active_set == Some(set),
            final(self).pending == old(self).pending,
    {
        self.active_set = Some(set);
    }

    /// Schedule a swap to `requested_set` for a `/casting` command: record
    /// what to restore afterwards (deadline `current_tick + 30`) and return
    /// the activation command unless that set is already active. A blank
    /// set name changes nothing.
    pub fn schedule_bandolier_swap(&mut self, requested_set: &str, current_tick: u64) -> (r:
        Option<String>)
        requires
            current_tick <= u64::MAX - BANDOLIER_CAST_TIMEOUT_TICKS,
        ensures
            swap_recorded(*old(self), *final(self), requested_set@, current_tick),
            opt_view(r) == swap_issue_spec(old(self).active_set, requested_set@),
    {
        let raw = chars_of(requested_set);
        let req = trim_chars(raw.as_slice());
        if req.len() == 0 {
            return None;
        }
        let already_active = match &self.active_set {
            Some(a) => {
                let av = chars_of(a.as_str());
                eq_ignore_case(av.as_slice(), req.as_slice())
            },
            None => false,
        };
        let candidate: Option<String> = match &self.pending {
            Some(p) => match &p.restore_to {
                Some(r) => Some(r.clone()),
                None => match &self.active_set {
                    Some(a) => Some(a.clone()),
                    None => None,
                },
            },
            None => match &self.active_set {
                Some(a) => Some(a.clone()),
                None => None,
            },
        };
        let restore_to = match candidate {
            Some(c) => {
                let cv = chars_of(c.as_str());
                if eq_ignore_case(cv.as_slice(), req.as_slice()) {
                    None
                } else {
                    Some(c)
                }
            },
            None => None,
        };
        self.pending = Some(
            PendingBandolierRestore {
                requested_set: string_of(req.as_slice()),
                restore_to,
                deadline_tick: current_tick + BANDOLIER_CAST_TIMEOUT_TICKS,
                saw_casting: false,
            },
        );
        if already_active {
            None
        } else {
            Some(bandolier_activate_chars(req.as_slice()))
        }
    }
}

} // verus!
