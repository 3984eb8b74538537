//! Dynamic hardware-breakpoint slot planning.
//!
//! Tracks which logical hooks should occupy DR0-DR3 for a given game state and
//! provides the transitions for slot rotation.
use vstd::prelude::*;

use crate::hooks::hwbp::MAX_SLOTS;

verus! {

/// Game phase that decides which hooks occupy the debug registers.
#[derive(Debug, Clone, Copy, PartialEq, Eq, Structural)]
pub enum HookGameState {
    Login,
    InGame,
    ZoneLoading,
}

/// Logical hook that can be placed in a debug-register slot.
#[derive(Debug, Clone, Copy, PartialEq, Eq, Structural)]
pub enum HookKind {
    GiveTime,
    ProcessGameEvents,
    RealRenderWorld,
    DspChat,
    SetGameState,
}

/// Outcome of one rotation: the new state, its slot plan, and whether the
/// plan differs from the previous one.
#[derive(Debug, Clone, Copy)]
pub struct SlotRotation {
    pub state: HookGameState,
    pub assignments: [Option<HookKind>; MAX_SLOTS],
    pub changed: bool,
}

/// Current game state together with the slot plan in force.
#[derive(Debug, Clone, Copy)]
pub struct HookSlotManager {
    pub state: HookGameState,
    pub assignments: [Option<HookKind>; MAX_SLOTS],
}

/// Display name of a game state.
pub open spec fn game_state_name(s: HookGameState) -> Seq<char> {
    match s {
        HookGameState::Login => "Login"@,
        HookGameState::InGame => "InGame"@,
        HookGameState::ZoneLoading => "ZoneLoading"@,
    }
}

/// Hooks in priority order for a game state.
pub open spec fn priority_list(s: HookGameState) -> Seq<HookKind> {
    match s {
        HookGameState::Login => seq![HookKind::GiveTime],
        HookGameState::InGame => seq![
            HookKind::ProcessGameEvents,
            HookKind::RealRenderWorld,
            HookKind::DspChat,
        ],
        HookGameState::ZoneLoading => seq![HookKind::ProcessGameEvents, HookKind::SetGameState],
    }
}

/// The slot plan for a game state: slot `i` holds the `i`-th hook of the
/// priority list, and the remaining slots stay empty.
pub open spec fn plan_for(s: HookGameState) -> Seq<Option<HookKind>> {
    Seq::new(
        MAX_SLOTS as nat,
        |i: int|
            if i < priority_list(s).len() {
                Some(priority_list(s)[i])
            } else {
                None
            },
    )
}

impl HookGameState {
    /// Display name ("Login", "InGame", "ZoneLoading").
    pub fn name(&self) -> (r: &'static str)
        ensures
            r@ == game_state_name(*self),
    {
        match self {
            HookGameState::Login => "Login",
            HookGameState::InGame => "InGame",
            HookGameState::ZoneLoading => "ZoneLoading",
        }
    }
}

fn same_slot(a: Option<HookKind>, b: Option<HookKind>) -> (r: bool)
    ensures
        r <==> a == b,
{
    match (a, b) {
        (None, None) => true,
        (Some(x), Some(y)) => x == y,
        _ => false,
    }
}

fn same_plan(a: &[Option<HookKind>; MAX_SLOTS], b: &[Option<HookKind>; MAX_SLOTS]) -> (r: bool)
    ensures
        r <==> a@ == b@,
{
    let mut i: usize = 0;
    while i < MAX_SLOTS
        invariant
            0 <= i <= MAX_SLOTS,
            a@.len() == MAX_SLOTS,
            b@.len() == MAX_SLOTS,
            forall|j: int| 0 <= j < i ==> a@[j] == b@[j],
        decreases MAX_SLOTS - i,
    {
        if !same_slot(a[i], b[i]) {
            return false;
        }
        i = i + 1;
    }
    assert(a@ =~= b@);
    true
}

/// Build the slot plan for a game state.
fn build_plan(state: HookGameState) -> (r: [Option<HookKind>; MAX_SLOTS])
    ensures
        r@ == plan_for(state),
{
    let mut assignments: [Option<HookKind>; MAX_SLOTS] = [None; MAX_SLOTS];
    match state {
        HookGameState::Login => {
            assignments[0] = Some(HookKind::GiveTime);
        },
        HookGameState::InGame => {
            assignments[0] = Some(HookKind::ProcessGameEvents);
            assignments[1] = Some(HookKind::RealRenderWorld);
            assignments[2] = Some(HookKind::DspChat);
        },
        HookGameState::ZoneLoading => {
            assignments[0] = Some(HookKind::ProcessGameEvents);
            assignments[1] = Some(HookKind::SetGameState);
        },
    }
    assert(assignments@ =~= plan_for(state));
    assignments
}

impl HookSlotManager {
    /// A manager in the login state with every slot empty.
    pub fn new() -> (r: Self)
        ensures
            r.state == HookGameState::Login,
            r.assignments@ == Seq::new(MAX_SLOTS as nat, |i: int| None::<HookKind>),
    {
        let r = Self { state: HookGameState::Login, assignments: [None; MAX_SLOTS] };
        assert(r.assignments@ =~= Seq::new(MAX_SLOTS as nat, |i: int| None::<HookKind>));
        r
    }

    /// The game state of the last rotation.
    pub fn state(&self) -> (r: HookGameState)
        ensures
            r == self.state,
    {
        self.state
    }

    /// The slot plan in force.
    pub fn assignments(&self) -> (r: &[Option<HookKind>; MAX_SLOTS])
        ensures
            r@ == self.assignments@,
    {
        &self.assignments
    }

    /// Switch to `state`, installing its slot plan, and report whether the
    /// plan changed.
    pub fn rotate_hooks(&mut self, state: HookGameState) -> (r: SlotRotation)
        ensures
            final(self).state == state,
            final(self).assignments@ == plan_for(state),
            r.state == state,
            r.assignments@ == plan_for(state),
            r.changed <==> old(self).assignments@ != plan_for(state),
            (final(self).assignments@, r.changed) == rotation_result(old(self).assignments@, state),
    {
        let next = build_plan(state);
        let changed = !same_plan(&next, &self.assignments);
        self.state = state;
        self.assignments = next;
        SlotRotation { state, assignments: next, changed }
    }
}

/// What rotating a manager whose plan is `plan` to `s` gives: the plan then
/// in force, and whether it changed.
pub open spec fn rotation_result(plan: Seq<Option<HookKind>>, s: HookGameState) -> (Seq<Option<HookKind>>, bool) {
    (plan_for(s), plan != plan_for(s))
}

/// Rotating to a state twice is rotating once: the second rotation keeps
/// the plan the first installed and reports no change, whatever plan was in
/// force before.
pub proof fn lemma_rotation_idempotent(plan: Seq<Option<HookKind>>, s: HookGameState)
    ensures
        rotation_result(rotation_result(plan, s).0, s) == (rotation_result(plan, s).0, false),
{
}

/// Distinct game states have distinct slot plans, so every transition
/// between different states is reported as a change.
pub proof fn lemma_distinct_states_distinct_plans(a: HookGameState, b: HookGameState)
    requires
        a != b,
    ensures
        plan_for(a) != plan_for(b),
{
    assert(plan_for(a)[0] == Some(priority_list(a)[0]));
    assert(plan_for(b)[0] == Some(priority_list(b)[0]));
    assert(plan_for(a)[1] == (if 1 < priority_list(a).len() { Some(priority_list(a)[1]) } else { None }));
    assert(plan_for(b)[1] == (if 1 < priority_list(b).len() { Some(priority_list(b)[1]) } else { None }));
}

} // verus!
