//! Periodic hook rotation: the order in which a rotation cycle takes the
//! registered hooks down and puts them back, and how long the rotation
//! thread waits before the next cycle. The thread itself, and the hooks'
//! unhook/rehook closures, live with the caller.
use vstd::prelude::*;

verus! {

/// How long every hook stays removed during one cycle, in milliseconds.
pub const UNHOOK_PAUSE_MS: u64 = 50;

/// One step of a rotation cycle.
#[derive(Debug, Clone, Copy, PartialEq, Eq, Structural)]
pub enum RotationStep {
    /// Remove the hook registered at this position.
    Unhook(usize),
    /// Wait this many milliseconds.
    Pause(u64),
    /// Reinstall the hook registered at this position.
    Rehook(usize),
}

/// The steps of one cycle over `hook_count` registered hooks: every hook is
/// removed in registration order, then a pause, then every hook is
/// reinstalled in the same order.
pub open spec fn cycle_spec(hook_count: nat) -> Seq<RotationStep> {
    Seq::new(hook_count, |i: int| RotationStep::Unhook(i as usize))
        + seq![RotationStep::Pause(UNHOOK_PAUSE_MS)]
        + Seq::new(hook_count, |i: int| RotationStep::Rehook(i as usize))
}

/// The steps of one rotation cycle over `hook_count` registered hooks.
pub fn rotation_cycle(hook_count: usize) -> (r: Vec<RotationStep>)
    requires
        2 * hook_count + 1 <= usize::MAX,
    ensures
        r@ == cycle_spec(hook_count as nat),
{
    let mut steps: Vec<RotationStep> = Vec::new();
    let mut i: usize = 0;
    while i < hook_count
        invariant
            i <= hook_count,
            steps@ == Seq::new(i as nat, |k: int| RotationStep::Unhook(k as usize)),
        decreases hook_count - i,
    {
        steps.push(RotationStep::Unhook(i));
        i = i + 1;
    }
    steps.push(RotationStep::Pause(UNHOOK_PAUSE_MS));
    let mut j: usize = 0;
    while j < hook_count
        invariant
            j <= hook_count,
            steps@ == Seq::new(hook_count as nat, |k: int| RotationStep::Unhook(k as usize))
                + seq![RotationStep::Pause(UNHOOK_PAUSE_MS)]
                + Seq::new(j as nat, |k: int| RotationStep::Rehook(k as usize)),
        decreases hook_count - j,
    {
        let ghost before = steps@;
        steps.push(RotationStep::Rehook(j));
        proof {
            let unhooks = Seq::new(hook_count as nat, |k: int| RotationStep::Unhook(k as usize));
            let pause = seq![RotationStep::Pause(UNHOOK_PAUSE_MS)];
            let rehooks = Seq::new(j as nat, |k: int| RotationStep::Rehook(k as usize));
            let rehooks1 = Seq::new((j + 1) as nat, |k: int| RotationStep::Rehook(k as usize));
            assert(rehooks.push(RotationStep::Rehook(j)) =~= rehooks1);
            assert(before.push(RotationStep::Rehook(j)) =~= unhooks + pause + rehooks1);
        }
        j = j + 1;
    }
    steps
}

/// How long the rotation thread waits after a cycle that took `elapsed_ms`,
/// with a period of `interval_ms`: not at all with a zero period (the next
/// cycle starts at once), otherwise the rest of the period, and nothing once
/// the period has passed.
pub fn rotation_sleep_ms(interval_ms: u64, elapsed_ms: u64) -> (r: u64)
    ensures
        interval_ms == 0 ==> r == 0,
        elapsed_ms < interval_ms ==> r == interval_ms - elapsed_ms,
        elapsed_ms >= interval_ms ==> r == 0,
{
    if interval_ms == 0 || elapsed_ms >= interval_ms {
        0
    } else {
        interval_ms - elapsed_ms
    }
}

/// The rotation counter after one more completed cycle (it wraps, as an
/// atomic add does).
pub fn next_rotation_count(count: u64) -> (r: u64)
    ensures
        count < u64::MAX ==> r == count + 1,
        count == u64::MAX ==> r == 0,
{
    count.wrapping_add(1)
}

} // verus!
