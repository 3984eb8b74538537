//! Targeting control: what is written to the game's target pointer to set,
//! clear or assist a target, and the spawn-list searches behind them.
use vstd::prelude::*;
use crate::text::{lit, push_decimal, dec};

verus! {

/// The most spawn-list nodes a search visits (a guard against a corrupted
/// list).
pub const MAX_SPAWNS: usize = 5000;

/// Why a targeting operation was refused.
#[derive(Debug, Clone, Copy, PartialEq, Eq, Structural)]
pub enum TargetError {
    NoBaseAddress,
    SpawnNotFound(u32),
    RebaseFailed,
    PlatformStub,
    InvalidAssistTarget,
}

/// The message of each error.
pub open spec fn target_error_message(e: TargetError) -> Seq<char> {
    match e {
        TargetError::NoBaseAddress => "EQ base address not set -- cannot resolve pointers"@,
        TargetError::SpawnNotFound(id) => "spawn "@ + dec(id as nat) + " not found in spawn list"@,
        TargetError::RebaseFailed => "target pointer address could not be rebased"@,
        TargetError::PlatformStub => "targeting not available on this platform"@,
        TargetError::InvalidAssistTarget => "assist target pointer is not a live spawn"@,
    }
}

impl TargetError {
    /// The human-readable message of the error.
    pub fn message(&self) -> (r: String)
        ensures
            r@ == target_error_message(*self),
    {
        match self {
            TargetError::NoBaseAddress => lit("EQ base address not set -- cannot resolve pointers"),
            TargetError::SpawnNotFound(id) => {
                let mut s = lit("spawn ");
                push_decimal(&mut s, *id as u64);
                let tail = lit(" not found in spawn list");
                crate::text::push_str(&mut s, tail.as_str());
                s
            },
            TargetError::RebaseFailed => lit("target pointer address could not be rebased"),
            TargetError::PlatformStub => lit("targeting not available on this platform"),
            TargetError::InvalidAssistTarget => lit("assist target pointer is not a live spawn"),
        }
    }
}

/// A node of the game's spawn list: where it lives and its spawn id.
#[derive(Debug, Clone, Copy, PartialEq, Eq, Structural)]
pub struct SpawnNode {
    pub addr: usize,
    pub spawn_id: u32,
}

/// The value to store in the target pointer (0 clears the target).
#[derive(Debug, Clone, Copy, PartialEq, Eq, Structural)]
pub struct TargetWrite {
    pub value: usize,
}

/// The number of nodes a search looks at.
pub open spec fn searched(list: Seq<SpawnNode>) -> int {
    if list.len() < MAX_SPAWNS {
        list.len() as int
    } else {
        MAX_SPAWNS as int
    }
}

/// Index `i` is the first searched node with spawn id `id`.
pub open spec fn first_with_id(list: Seq<SpawnNode>, id: u32, i: int) -> bool {
    0 <= i < searched(list) && list[i].spawn_id == id && forall|j: int| 0 <= j < i ==> #[trigger] list[j].spawn_id != id
}

/// Index `i` is the first searched node at address `addr`.
pub open spec fn first_at_addr(list: Seq<SpawnNode>, addr: usize, i: int) -> bool {
    0 <= i < searched(list) && list[i].addr == addr && forall|j: int| 0 <= j < i ==> #[trigger] list[j].addr != addr
}

/// Spawn-list walking and target writes, against the game loaded at
/// `eq_base`.
#[derive(Debug, Clone, Copy, PartialEq, Eq, Structural)]
pub struct TargetingController {
    pub eq_base: u64,
}

impl TargetingController {
    /// A controller for the game loaded at `eq_base`.
    pub fn new(eq_base: u64) -> (r: Self)
        ensures
            r.eq_base == eq_base,
    {
        TargetingController { eq_base }
    }

    /// Point the controller at a new module base.
    pub fn set_eq_base(&mut self, eq_base: u64)
        ensures
            final(self).eq_base == eq_base,
    {
        self.eq_base = eq_base;
    }

    /// The target pointer can only be resolved with a module base.
    pub fn target_ptr_addr(&self) -> (r: Result<(), TargetError>)
        ensures
            self.eq_base == 0 ==> r == Err::<(), TargetError>(TargetError::NoBaseAddress),
            self.eq_base != 0 ==> r is Ok,
    {
        if self.eq_base == 0 {
            return Err(TargetError::NoBaseAddress);
        }
        Ok(())
    }

    /// Target the spawn at `spawn_addr`: that address goes into the target
    /// pointer.
    pub fn set_target_by_addr(&self, spawn_addr: usize) -> (r: Result<TargetWrite, TargetError>)
        ensures
            self.eq_base == 0 ==> r == Err::<TargetWrite, TargetError>(TargetError::NoBaseAddress),
            self.eq_base != 0 ==> r == Ok::<TargetWrite, TargetError>(TargetWrite { value: spawn_addr }),
    {
        self.target_ptr_addr()?;
        Ok(TargetWrite { value: spawn_addr })
    }

    /// Clear the target: null goes into the target pointer.
    pub fn clear_target(&self) -> (r: Result<TargetWrite, TargetError>)
        ensures
            self.eq_base == 0 ==> r == Err::<TargetWrite, TargetError>(TargetError::NoBaseAddress),
            self.eq_base != 0 ==> r == Ok::<TargetWrite, TargetError>(TargetWrite { value: 0 }),
    {
        self.target_ptr_addr()?;
        Ok(TargetWrite { value: 0 })
    }

    /// The current target's spawn id. Without the game's memory to read,
    /// there is never a target once the module base is known.
    pub fn get_current_target_id(&self) -> (r: Result<Option<u32>, TargetError>)
        ensures
            self.eq_base == 0 ==> r == Err::<Option<u32>, TargetError>(TargetError::NoBaseAddress),
            self.eq_base != 0 ==> r == Ok::<Option<u32>, TargetError>(None),
    {
        self.target_ptr_addr()?;
        Ok(None)
    }

    /// Find a spawn's address by id. Without the game's spawn list to walk,
    /// this is refused as unavailable once the module base is known.
    pub fn find_spawn_addr(&self, spawn_id: u32) -> (r: Result<usize, TargetError>)
        ensures
            self.eq_base == 0 ==> r == Err::<usize, TargetError>(TargetError::NoBaseAddress),
            self.eq_base != 0 ==> r == Err::<usize, TargetError>(TargetError::PlatformStub),
    {
        if self.eq_base == 0 {
            return Err(TargetError::NoBaseAddress);
        }
        Err(TargetError::PlatformStub)
    }

    /// Target a spawn by id: find it, then write its address.
    pub fn set_target(&self, spawn_id: u32) -> (r: Result<TargetWrite, TargetError>)
        ensures
            self.eq_base == 0 ==> r == Err::<TargetWrite, TargetError>(TargetError::NoBaseAddress),
            self.eq_base != 0 ==> r == Err::<TargetWrite, TargetError>(TargetError::PlatformStub),
    {
        let spawn_addr = self.find_spawn_addr(spawn_id)?;
        self.set_target_by_addr(spawn_addr)
    }

    /// Target what another character targets. Without the game's spawn list
    /// this is refused as unavailable.
    pub fn assist(&self, assist_spawn_id: u32) -> (r: Result<TargetWrite, TargetError>)
        ensures
            r == Err::<TargetWrite, TargetError>(TargetError::PlatformStub),
    {
        Err(TargetError::PlatformStub)
    }

    /// Target a spawn by id in a spawn list read from the game: find the
    /// first of the first 5000 nodes with that id, then write its address to
    /// the target pointer.
    pub fn set_target_in(&self, list: &[SpawnNode], spawn_id: u32) -> (r: Result<TargetWrite, TargetError>)
        ensures
            self.eq_base == 0 ==> r == Err::<TargetWrite, TargetError>(TargetError::NoBaseAddress),
            self.eq_base != 0 && (exists|i: int| first_with_id(list@, spawn_id, i)) ==> exists|i: int|
                first_with_id(list@, spawn_id, i) && r == Ok::<TargetWrite, TargetError>(
                    TargetWrite { value: list@[i].addr },
                ),
            self.eq_base != 0 && !(exists|i: int| first_with_id(list@, spawn_id, i)) ==> r == Err::<
                TargetWrite,
                TargetError,
            >(TargetError::SpawnNotFound(spawn_id)),
    {
        let found = self.find_spawn_addr_in(list, spawn_id);
        match found {
            Ok(addr) => self.set_target_by_addr(addr),
            Err(e) => {
                proof {
                    if self.eq_base != 0 {
                        assert forall|i: int| !first_with_id(list@, spawn_id, i) by {
                            if 0 <= i < searched(list@) {
                                assert(list@[i].spawn_id != spawn_id);
                            }
                        }
                    }
                }
                Err(e)
            },
        }
    }

    /// Find a spawn's address by id in a spawn list read from the game: the
    /// first of the first 5000 nodes with that id.
    pub fn find_spawn_addr_in(&self, list: &[SpawnNode], spawn_id: u32) -> (r: Result<usize, TargetError>)
        ensures
            self.eq_base == 0 ==> r == Err::<usize, TargetError>(TargetError::NoBaseAddress),
            self.eq_base != 0 ==> match r {
                Ok(addr) => exists|i: int| first_with_id(list@, spawn_id, i) && list@[i].addr == addr,
                Err(e) => e == TargetError::SpawnNotFound(spawn_id) && forall|i: int|
                    0 <= i < searched(list@) ==> #[trigger] list@[i].spawn_id != spawn_id,
            },
    {
        if self.eq_base == 0 {
            return Err(TargetError::NoBaseAddress);
        }
        let mut count: usize = 0;
        while count < list.len() && count < MAX_SPAWNS
            invariant
                0 <= count <= list@.len(),
                count <= MAX_SPAWNS,
                self.eq_base != 0,
                forall|j: int| 0 <= j < count ==> #[trigger] list@[j].spawn_id != spawn_id,
            decreases list@.len() - count,
        {
            if list[count].spawn_id == spawn_id {
                assert(first_with_id(list@, spawn_id, count as int));
                return Ok(list[count].addr);
            }
            count = count + 1;
        }
        Err(TargetError::SpawnNotFound(spawn_id))
    }

    /// Check that an address is still a live spawn in a spawn list read from
    /// the game, and give its id: the first of the first 5000 nodes at that
    /// address.
    pub fn find_spawn_id_by_addr_in(&self, list: &[SpawnNode], spawn_addr: usize) -> (r: Result<u32, TargetError>)
        ensures
            self.eq_base == 0 ==> r == Err::<u32, TargetError>(TargetError::NoBaseAddress),
            self.eq_base != 0 ==> match r {
                Ok(id) => exists|i: int| first_at_addr(list@, spawn_addr, i) && list@[i].spawn_id == id,
                Err(e) => e == TargetError::InvalidAssistTarget && forall|i: int|
                    0 <= i < searched(list@) ==> #[trigger] list@[i].addr != spawn_addr,
            },
    {
        if self.eq_base == 0 {
            return Err(TargetError::NoBaseAddress);
        }
        let mut count: usize = 0;
        while count < list.len() && count < MAX_SPAWNS
            invariant
                0 <= count <= list@.len(),
                count <= MAX_SPAWNS,
                self.eq_base != 0,
                forall|j: int| 0 <= j < count ==> #[trigger] list@[j].addr != spawn_addr,
            decreases list@.len() - count,
        {
            if list[count].addr == spawn_addr {
                assert(first_at_addr(list@, spawn_addr, count as int));
                return Ok(list[count].spawn_id);
            }
            count = count + 1;
        }
        Err(TargetError::InvalidAssistTarget)
    }

    /// Assist with a spawn list and the assisted character's target pointer
    /// read from the game: no target clears ours; otherwise the pointer must
    /// be a live spawn, and it becomes our target.
    pub fn assist_in(&self, list: &[SpawnNode], their_target_ptr: usize) -> (r: Result<TargetWrite, TargetError>)
        ensures
            self.eq_base == 0 ==> r == Err::<TargetWrite, TargetError>(TargetError::NoBaseAddress),
            self.eq_base != 0 && their_target_ptr == 0 ==> r == Ok::<TargetWrite, TargetError>(TargetWrite { value: 0 }),
            self.eq_base != 0 && their_target_ptr != 0 && (exists|i: int| first_at_addr(list@, their_target_ptr, i))
                ==> r == Ok::<TargetWrite, TargetError>(TargetWrite { value: their_target_ptr }),
            self.eq_base != 0 && their_target_ptr != 0 && !(exists|i: int| first_at_addr(list@, their_target_ptr, i))
                ==> r == Err::<TargetWrite, TargetError>(TargetError::InvalidAssistTarget),
    {
        if self.eq_base == 0 {
            return Err(TargetError::NoBaseAddress);
        }
        if their_target_ptr == 0 {
            return self.clear_target();
        }
        let found = self.find_spawn_id_by_addr_in(list, their_target_ptr);
        match found {
            Ok(_) => self.set_target_by_addr(their_target_ptr),
            Err(e) => {
                proof {
                    assert forall|i: int| !first_at_addr(list@, their_target_ptr, i) by {
                        if first_at_addr(list@, their_target_ptr, i) {
                            assert(list@[i].addr != their_target_ptr);
                        }
                    }
                }
                Err(e)
            },
        }
    }
}

} // verus!
