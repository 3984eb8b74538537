//! The inbound message counter: the last value the game wrote, kept so the
//! expected acknowledgement count can be served without reading game memory.
use vstd::prelude::*;

verus! {

/// What the heartbeat adds to the inbound counter on each refill.
pub const INBOUND_REFILL_DELTA: i32 = 0x55;

/// The last observed counter write, if any.
#[derive(Debug, Clone, Copy, PartialEq, Eq, Structural)]
pub struct InboundCounterCache {
    pub expected_ack_counter: i32,
    pub has_observation: bool,
}

impl InboundCounterCache {
    /// Nothing observed yet.
    pub fn new() -> (r: Self)
        ensures
            !r.has_observation,
            r.expected_ack_counter == i32::MIN,
    {
        InboundCounterCache { expected_ack_counter: i32::MIN, has_observation: false }
    }

    /// The value the cache answers with.
    pub open spec fn answer(self) -> Option<i32> {
        if self.has_observation {
            Some(self.expected_ack_counter)
        } else {
            None
        }
    }
}

/// Record a counter write; the latest write replaces earlier ones.
pub fn record_write(cache: &mut InboundCounterCache, value: i32)
    ensures
        final(cache).has_observation,
        final(cache).expected_ack_counter == value,
        final(cache).answer() == Some(value),
{
    cache.expected_ack_counter = value;
    cache.has_observation = true;
}

/// The last observed write, or `None` before the first.
pub fn expected_ack_counter(cache: &InboundCounterCache) -> (r: Option<i32>)
    ensures
        r == cache.answer(),
{
    if cache.has_observation {
        Some(cache.expected_ack_counter)
    } else {
        None
    }
}

/// Whether any write has been observed.
pub fn has_observation(cache: &InboundCounterCache) -> (r: bool)
    ensures
        r == cache.has_observation,
{
    cache.has_observation
}

/// Forget every observation.
pub fn reset_cache(cache: &mut InboundCounterCache)
    ensures
        *final(cache) == (InboundCounterCache { expected_ack_counter: i32::MIN, has_observation: false }),
        final(cache).answer() is None,
{
    cache.expected_ack_counter = i32::MIN;
    cache.has_observation = false;
}

/// Hook the counter's write site. Without the game's code to patch this
/// succeeds and does nothing (writes are then recorded with
/// [`record_write`]).
pub fn install(write_site_addr: usize) -> (r: Result<(), String>)
    ensures
        r is Ok,
{
    Ok(())
}

/// Unhook the write site; nothing to undo without the game's code.
pub fn remove() {
}

} // verus!
