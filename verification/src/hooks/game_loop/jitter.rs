//! Human-like delays for queued commands: a xorshift generator and the
//! triangle-shaped delay with occasional hesitation drawn from it.
use vstd::prelude::*;

verus! {

/// One xorshift step (shifts 13, 17, 5).
pub open spec fn xorshift_step(x: u32) -> u32 {
    let a = x ^ (x << 13u32);
    let b = a ^ (a >> 17u32);
    b ^ (b << 5u32)
}

/// A 32-bit xorshift generator.
#[derive(Debug, Clone, Copy, PartialEq, Eq, Structural)]
pub struct Xorshift32 {
    pub state: u32,
}

impl Xorshift32 {
    /// A generator started from `seed`.
    pub fn new(seed: u32) -> (r: Self)
        ensures
            r.state == seed,
    {
        Xorshift32 { state: seed }
    }

    /// The next value; it is also the new state.
    pub fn next_u32(&mut self) -> (r: u32)
        ensures
            r == xorshift_step(old(self).state),
            final(self).state == r,
    {
        let x = self.state;
        let a = x ^ (x << 13u32);
        let b = a ^ (a >> 17u32);
        let c = b ^ (b << 5u32);
        self.state = c;
        c
    }
}

/// The delay drawn from state `s`, and the state after the draws: two
/// draws give a base of 2 to 10 ticks (most often 6); a third draw that is a
/// multiple of 20 adds a hesitation of 5 to 19 ticks from a fourth draw.
pub open spec fn jitter_spec(s: u32) -> (u64, u32) {
    let d1 = xorshift_step(s);
    let d2 = xorshift_step(d1);
    let d3 = xorshift_step(d2);
    let d4 = xorshift_step(d3);
    let base = (d1 % 5 + 1) + (d2 % 5 + 1);
    if d3 % 20 == 0 {
        ((base + d4 % 15 + 5) as u64, d4)
    } else {
        (base as u64, d3)
    }
}

/// Draw a command delay in ticks.
pub fn human_jitter_ticks(rng: &mut Xorshift32) -> (r: u64)
    ensures
        (r, final(rng).state) == jitter_spec(old(rng).state),
        2 <= r <= 29,
{
    let base = (rng.next_u32() % 5 + 1) + (rng.next_u32() % 5 + 1);
    let hesitate = if rng.next_u32() % 20 == 0 {
        rng.next_u32() % 15 + 5
    } else {
        0
    };
    (base + hesitate) as u64
}

/// A seed from a clock reading: its low 32 bits, with zero replaced by 1
/// (a zero state would stay zero).
pub fn jitter_seed(nanos: u128) -> (r: u32)
    ensures
        r != 0,
        nanos as u32 != 0 ==> r == nanos as u32,
{
    let seed = nanos as u32;
    if seed == 0 {
        1
    } else {
        seed
    }
}

} // verus!
