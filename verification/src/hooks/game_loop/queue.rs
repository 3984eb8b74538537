//! Commands waiting for their tick: each command is scheduled for a tick
//! (current tick plus a human-like delay) and released once that tick
//! arrives, in the order it was queued.
use vstd::prelude::*;

verus! {

/// Delay used when no jitter source is available.
pub const DEFAULT_COMMAND_DELAY_TICKS: u64 = 5;

/// A command and the tick at which it may run.
pub struct PendingCommand<C> {
    pub command: C,
    pub execute_at_tick: u64,
}

/// The pending commands, oldest first.
pub struct CommandQueue<C> {
    pub items: Vec<PendingCommand<C>>,
}

/// The commands of `s` that are due at `tick`, in order.
pub open spec fn due_part<C>(s: Seq<PendingCommand<C>>, tick: u64) -> Seq<C>
    decreases s.len(),
{
    if s.len() == 0 {
        seq![]
    } else {
        let rest = due_part(s.drop_last(), tick);
        if s.last().execute_at_tick <= tick {
            rest.push(s.last().command)
        } else {
            rest
        }
    }
}

/// The entries of `s` that are not yet due at `tick`, in order.
pub open spec fn waiting_part<C>(s: Seq<PendingCommand<C>>, tick: u64) -> Seq<PendingCommand<C>>
    decreases s.len(),
{
    if s.len() == 0 {
        seq![]
    } else {
        let rest = waiting_part(s.drop_last(), tick);
        if s.last().execute_at_tick <= tick {
            rest
        } else {
            rest.push(s.last())
        }
    }
}

/// Taking the due commands splits the queue: every entry is either handed
/// out (it is due) or kept (it is not), so the two parts add up to the
/// queue, and nothing kept is due.
pub proof fn lemma_take_ready_partitions<C>(s: Seq<PendingCommand<C>>, tick: u64)
    ensures
        due_part(s, tick).len() + waiting_part(s, tick).len() == s.len(),
        forall|i: int| 0 <= i < waiting_part(s, tick).len() ==> #[trigger] waiting_part(s, tick)[i].execute_at_tick > tick,
    decreases s.len(),
{
    if s.len() > 0 {
        lemma_take_ready_partitions(s.drop_last(), tick);
        let w = waiting_part(s, tick);
        let w0 = waiting_part(s.drop_last(), tick);
        assert forall|i: int| 0 <= i < w.len() implies #[trigger] w[i].execute_at_tick > tick by {
            if i < w0.len() {
                assert(w[i] == w0[i]);
            }
        }
    }
}

impl<C> CommandQueue<C> {
    /// An empty queue.
    pub fn new() -> (r: Self)
        ensures
            r.items@ == Seq::<PendingCommand<C>>::empty(),
    {
        CommandQueue { items: Vec::new() }
    }

    /// Queue a command for a given tick.
    pub fn push(&mut self, command: C, execute_at_tick: u64)
        ensures
            final(self).items@ == old(self).items@.push(PendingCommand { command, execute_at_tick }),
    {
        self.items.push(PendingCommand { command, execute_at_tick });
    }

    /// Queue a command with a delay: the jitter drawn for it, or 5 ticks when
    /// no jitter source is available.
    pub fn enqueue(&mut self, command: C, current_tick: u64, jitter: Option<u64>)
        requires
            current_tick + (match jitter {
                Some(d) => d,
                None => DEFAULT_COMMAND_DELAY_TICKS,
            }) <= u64::MAX,
        ensures
            final(self).items@ == old(self).items@.push(
                PendingCommand {
                    command,
                    execute_at_tick: (current_tick + match jitter {
                        Some(d) => d,
                        None => DEFAULT_COMMAND_DELAY_TICKS,
                    }) as u64,
                },
            ),
    {
        let delay = match jitter {
            Some(d) => d,
            None => DEFAULT_COMMAND_DELAY_TICKS,
        };
        self.items.push(PendingCommand { command, execute_at_tick: current_tick + delay });
    }

    /// Whether nothing is queued.
    pub fn is_empty(&self) -> (r: bool)
        ensures
            r == (self.items@.len() == 0),
    {
        self.items.len() == 0
    }

    /// Remove and return, in queue order, every command due at
    /// `current_tick`; the others stay queued in their order.
    pub fn take_ready(&mut self, current_tick: u64) -> (r: Vec<C>)
        ensures
            r@ == due_part(old(self).items@, current_tick),
            final(self).items@ == waiting_part(old(self).items@, current_tick),
    {
        let mut old_items: Vec<PendingCommand<C>> = Vec::new();
        std::mem::swap(&mut old_items, &mut self.items);
        let total = old_items.len();
        let ghost all = old_items@;
        let mut ready: Vec<C> = Vec::new();
        let mut waiting: Vec<PendingCommand<C>> = Vec::new();
        let mut rev: Vec<PendingCommand<C>> = Vec::new();
        while old_items.len() > 0
            invariant
                old_items@.len() + rev@.len() == all.len(),
                forall|j: int| 0 <= j < old_items@.len() ==> old_items@[j] == all[j],
                forall|j: int|
                    0 <= j < rev@.len() ==> rev@[j] == all[all.len() - 1 - j],
            decreases old_items@.len(),
        {
            let x = old_items.pop().unwrap();
            rev.push(x);
        }
        let ghost n = all.len();
        let mut k: usize = 0;
        proof {
            assert(all.subrange(0, 0) =~= seq![]);
        }
        while rev.len() > 0
            invariant
                rev@.len() + k == n,
                n == all.len(),
                n == total,
                forall|j: int| 0 <= j < rev@.len() ==> rev@[j] == all[n - 1 - j],
                ready@ == due_part(all.subrange(0, k as int), current_tick),
                waiting@ == waiting_part(all.subrange(0, k as int), current_tick),
            decreases rev@.len(),
        {
            let x = rev.pop().unwrap();
            proof {
                assert(x == all[k as int]);
                let p = all.subrange(0, k + 1);
                assert(p.drop_last() =~= all.subrange(0, k as int));
                assert(p.last() == x);
            }
            if x.execute_at_tick <= current_tick {
                ready.push(x.command);
            } else {
                waiting.push(x);
            }
            k = k + 1;
        }
        proof {
            assert(all.subrange(0, n as int) =~= all);
        }
        self.items = waiting;
        ready
    }
}

} // verus!
