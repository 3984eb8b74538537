//! Responder for the server's memory check: a cache of FNV-1a hashes of
//! 256-byte blocks taken before any code is patched, the blocks a requested
//! region covers, and the clean hash (or pass-through) for each of them.
use vstd::prelude::*;
use crate::hooks::hwbp::{self, slot_index, HwbpPlatform, HwbpRegistry, HwbpSlot, SlotEntry};

verus! {

broadcast use vstd::std_specs::hash::group_hash_axioms;

/// Size of a hashed block.
pub const BLOCK_SIZE: usize = 0x100;

/// FNV-1a 64-bit offset basis.
pub const FNV_OFFSET: u64 = 0xcbf2_9ce4_8422_2325;

/// FNV-1a 64-bit prime.
pub const FNV_PRIME: u64 = 0x0000_0100_0000_01b3;

/// The debug-register slot of the memory-check hook.
pub const MEMCHECK_SLOT: HwbpSlot = HwbpSlot::Dr3;

/// FNV-1a 64-bit over a byte sequence.
pub open spec fn fnv64(s: Seq<u8>) -> u64
    decreases s.len(),
{
    if s.len() == 0 {
        FNV_OFFSET
    } else {
        (fnv64(s.drop_last()) ^ (s.last() as u64)).wrapping_mul(FNV_PRIME)
    }
}

/// FNV-1a 64-bit hash of a block of bytes.
pub fn hash_block(bytes: &[u8]) -> (r: u64)
    ensures
        r == fnv64(bytes@),
{
    let mut h = FNV_OFFSET;
    let mut i: usize = 0;
    while i < bytes.len()
        invariant
            0 <= i <= bytes@.len(),
            h == fnv64(bytes@.subrange(0, i as int)),
        decreases bytes@.len() - i,
    {
        proof {
            let p = bytes@.subrange(0, i + 1);
            assert(p.drop_last() =~= bytes@.subrange(0, i as int));
        }
        h = (h ^ (bytes[i] as u64)).wrapping_mul(FNV_PRIME);
        i = i + 1;
    }
    proof {
        assert(bytes@.subrange(0, bytes@.len() as int) =~= bytes@);
    }
    h
}

/// A region the server asks about.
#[derive(Debug, Clone, Copy, PartialEq, Eq, Structural)]
pub struct MemRegionSpec {
    pub address: usize,
    pub length: usize,
}

/// Start of the block containing `a`.
pub open spec fn block_of(a: usize) -> int {
    a - a % (BLOCK_SIZE as usize)
}

/// The last byte of a non-empty region (saturating at the top of memory).
pub open spec fn last_byte(spec: MemRegionSpec) -> int {
    if spec.address + spec.length > usize::MAX {
        usize::MAX - 1
    } else {
        spec.address + spec.length - 1
    }
}

/// The blocks a region covers, in address order: from the block of its
/// first byte to the block of its last byte. None for an empty region.
pub open spec fn region_blocks(spec: MemRegionSpec) -> Seq<usize> {
    if spec.length == 0 {
        seq![]
    } else {
        let start = block_of(spec.address);
        let end = block_of(last_byte(spec) as usize);
        Seq::new(((end - start) / (BLOCK_SIZE as int) + 1) as nat, |k: int| (start + (BLOCK_SIZE as int) * k) as usize)
    }
}

/// Block `k` of `memory`, read at `base`, is cached with its hash.
pub open spec fn block_cached(m: Map<usize, u64>, base: usize, memory: Seq<u8>, k: int) -> bool {
    let key = (base + k * (BLOCK_SIZE as int)) as usize;
    m.contains_key(key) && m[key] == fnv64(
        memory.subrange(k * (BLOCK_SIZE as int), (k + 1) * (BLOCK_SIZE as int)),
    )
}

/// Round down to a block boundary.
fn align_down(a: usize) -> (r: usize)
    ensures
        r == block_of(a),
{
    let r = a & !(BLOCK_SIZE - 1);
    assert(a & !255usize == (a - a % 256) as usize) by (bit_vector);
    r
}

/// The pre-patch hashes of blocks, by block address, and how many blocks
/// were hashed in all.
pub struct CleanHashCache {
    blocks: std::collections::HashMap<usize, u64>,
    coverage: usize,
}

impl CleanHashCache {
    /// The cached hashes.
    pub closed spec fn map(&self) -> Map<usize, u64> {
        self.blocks@
    }

    /// Blocks hashed so far.
    pub closed spec fn coverage_count(&self) -> usize {
        self.coverage
    }

    /// An empty cache.
    pub fn new() -> (r: Self)
        ensures
            r.map() == Map::<usize, u64>::empty(),
            r.coverage_count() == 0,
    {
        CleanHashCache { blocks: std::collections::HashMap::new(), coverage: 0 }
    }

    /// Record the clean bytes of the block at `block_base`: its hash
    /// replaces any earlier one, and the coverage counts the block when it
    /// is new.
    pub fn register_clean_block(&mut self, block_base: usize, clean_bytes: &[u8; BLOCK_SIZE])
        requires
            old(self).coverage_count() < usize::MAX,
        ensures
            final(self).map() == old(self).map().insert(block_base, fnv64(clean_bytes@)),
            final(self).coverage_count() == (if old(self).map().contains_key(block_base) {
                old(self).coverage_count() as int
            } else {
                old(self).coverage_count() + 1
            }),
    {
        let hash = hash_block(clean_bytes.as_slice());
        let prev = self.blocks.insert(block_base, hash);
        if prev.is_none() {
            self.coverage = self.coverage + 1;
        }
    }

    /// Hash every whole block of `memory` (read at address `base`) into the
    /// cache. Nothing happens for a null base or less than one block; a
    /// trailing partial block is ignored.
    pub fn populate_from_range(&mut self, base: usize, memory: &[u8])
        requires
            base + memory@.len() <= usize::MAX,
            old(self).coverage_count() + memory@.len() as int / (BLOCK_SIZE as int) <= usize::MAX,
        ensures
            (base == 0 || memory@.len() < BLOCK_SIZE) ==> final(self).map() == old(self).map()
                && final(self).coverage_count() == old(self).coverage_count(),
            !(base == 0 || memory@.len() < BLOCK_SIZE) ==> {
                &&& final(self).coverage_count() == old(self).coverage_count() + memory@.len() as int
                    / (BLOCK_SIZE as int)
                &&& forall|k: int|
                    0 <= k < memory@.len() as int / (BLOCK_SIZE as int) ==> #[trigger] block_cached(
                        final(self).map(),
                        base,
                        memory@,
                        k,
                    )
                &&& forall|a: usize|
                    old(self).map().contains_key(a) ==> #[trigger] final(self).map().contains_key(a)
            },
    {
        if base == 0 || memory.len() < BLOCK_SIZE {
            return;
        }
        let mlen = memory.len();
        let n_blocks = mlen / BLOCK_SIZE;
        let mut i: usize = 0;
        while i < n_blocks
            invariant
                0 <= i <= n_blocks,
                mlen == memory@.len(),
                n_blocks == memory@.len() as int / (BLOCK_SIZE as int),
                base + memory@.len() <= usize::MAX,
                self.coverage == old(self).coverage,
                forall|k: int| 0 <= k < i ==> #[trigger] block_cached(self.blocks@, base, memory@, k),
                forall|a: usize| old(self).blocks@.contains_key(a) ==> #[trigger] self.blocks@.contains_key(a),
            decreases n_blocks - i,
        {
            proof {
                assert(i * BLOCK_SIZE + BLOCK_SIZE <= memory@.len()) by (nonlinear_arith)
                    requires
                        i < n_blocks,
                        n_blocks == memory@.len() / 256,
                ;
            }
            let start = i * BLOCK_SIZE;
            let block_start = base + start;
            let mut block: Vec<u8> = Vec::new();
            let mut j: usize = 0;
            while j < BLOCK_SIZE
                invariant
                    0 <= j <= BLOCK_SIZE,
                    mlen == memory@.len(),
                    start + BLOCK_SIZE <= memory@.len(),
                    block@ == memory@.subrange(start as int, start + j),
                decreases BLOCK_SIZE - j,
            {
                block.push(memory[start + j]);
                proof {
                    assert(block@ =~= memory@.subrange(start as int, start + j + 1));
                }
                j = j + 1;
            }
            let hash = hash_block(block.as_slice());
            let ghost before = self.blocks@;
            self.blocks.insert(block_start, hash);
            proof {
                assert forall|k: int| 0 <= k < i + 1 implies #[trigger] block_cached(self.blocks@, base, memory@, k) by {
                    let key = (base + k * (BLOCK_SIZE as int)) as usize;
                    if k < i {
                        assert(k * 256 < i * 256) by (nonlinear_arith)
                            requires
                                k < i,
                        ;
                        assert(key != block_start);
                        assert(block_cached(before, base, memory@, k));
                        assert(self.blocks@.contains_key(key));
                        assert(self.blocks@[key] == before[key]);
                    } else {
                        assert(k == i);
                        assert(start == i * 256);
                        assert(block@ =~= memory@.subrange(k * 256, (k + 1) * 256));
                        assert(key == block_start);
                        assert(self.blocks@.contains_key(key));
                        assert(self.blocks@[key] == hash);
                    }
                }
                assert forall|a: usize| old(self).blocks@.contains_key(a) implies #[trigger] self.blocks@.contains_key(a) by {
                    assert(before.contains_key(a));
                }
            }
            i = i + 1;
        }
        self.coverage = self.coverage + n_blocks;
    }

    /// The cached hash of a block, `None` when it was never patched
    /// (pass-through).
    pub fn get_clean_hash(&self, block_base: usize) -> (r: Option<u64>)
        ensures
            self.map().contains_key(block_base) ==> r == Some(self.map()[block_base]),
            !self.map().contains_key(block_base) ==> r is None,
    {
        match self.blocks.get(&block_base) {
            Some(h) => Some(*h),
            None => None,
        }
    }

    /// Blocks hashed so far.
    pub fn coverage(&self) -> (r: usize)
        ensures
            r == self.coverage_count(),
    {
        self.coverage
    }

    /// The block addresses a region covers, in order.
    pub fn blocks_for_region(spec: &MemRegionSpec) -> (r: Vec<usize>)
        ensures
            r@ == region_blocks(*spec),
    {
        if spec.length == 0 {
            let v: Vec<usize> = Vec::new();
            proof {
                assert(v@ =~= region_blocks(*spec));
            }
            return v;
        }
        let start = align_down(spec.address);
        let end_byte = (if spec.address > usize::MAX - spec.length {
            usize::MAX
        } else {
            spec.address + spec.length
        }) - 1;
        let end_block = align_down(end_byte);
        proof {
            assert(start <= end_block);
        }
        let n = (end_block - start) / BLOCK_SIZE + 1;
        let mut out: Vec<usize> = Vec::new();
        let mut k: usize = 0;
        while k < n
            invariant
                0 <= k <= n,
                n == (end_block - start) / (BLOCK_SIZE as int) + 1,
                start <= end_block,
                (end_block - start) % (BLOCK_SIZE as int) == 0,
                out@ == Seq::new(k as nat, |i: int| (start + (BLOCK_SIZE as int) * i) as usize),
            decreases n - k,
        {
            proof {
                assert(start + 256 * k <= end_block) by (nonlinear_arith)
                    requires
                        k < n,
                        n == (end_block - start) / 256 + 1,
                        start <= end_block,
                ;
            }
            out.push(start + BLOCK_SIZE * k);
            proof {
                assert(out@ =~= Seq::new((k + 1) as nat, |i: int| (start + (BLOCK_SIZE as int) * i) as usize));
            }
            k = k + 1;
        }
        out
    }

    /// For every block the regions cover (region by region, in order): its
    /// address and its clean hash, or `None` to pass it through.
    pub fn query_regions(&self, specs: &[MemRegionSpec]) -> (r: Vec<(usize, Option<u64>)>)
        ensures
            r@ == query_spec(self.map(), specs@, specs@.len() as int),
    {
        let mut out: Vec<(usize, Option<u64>)> = Vec::new();
        let mut i: usize = 0;
        while i < specs.len()
            invariant
                0 <= i <= specs@.len(),
                out@ == query_spec(self.map(), specs@, i as int),
            decreases specs@.len() - i,
        {
            let blocks = Self::blocks_for_region(&specs[i]);
            let ghost before = out@;
            let mut j: usize = 0;
            while j < blocks.len()
                invariant
                    0 <= j <= blocks@.len(),
                    out@ == before + lookups(self.map(), blocks@.subrange(0, j as int)),
                decreases blocks@.len() - j,
            {
                let b = blocks[j];
                out.push((b, self.get_clean_hash(b)));
                proof {
                    let p = blocks@.subrange(0, j + 1);
                    assert(p.drop_last() =~= blocks@.subrange(0, j as int));
                    assert(out@ =~= before + lookups(self.map(), p));
                }
                j = j + 1;
            }
            proof {
                assert(blocks@.subrange(0, blocks@.len() as int) =~= blocks@);
            }
            i = i + 1;
        }
        out
    }

    /// Whether any block of the region has a cached hash (was patched).
    pub fn region_is_modified(&self, spec: &MemRegionSpec) -> (r: bool)
        ensures
            r == exists|k: int|
                0 <= k < region_blocks(*spec).len() && self.map().contains_key(
                    #[trigger] region_blocks(*spec)[k],
                ),
    {
        let blocks = Self::blocks_for_region(spec);
        let mut j: usize = 0;
        while j < blocks.len()
            invariant
                0 <= j <= blocks@.len(),
                blocks@ == region_blocks(*spec),
                forall|k: int| 0 <= k < j ==> !self.map().contains_key(#[trigger] blocks@[k]),
            decreases blocks@.len() - j,
        {
            if self.blocks.contains_key(&blocks[j]) {
                return true;
            }
            j = j + 1;
        }
        false
    }
}

/// Each block with its cached hash (`None` when not cached).
pub open spec fn lookups(m: Map<usize, u64>, blocks: Seq<usize>) -> Seq<(usize, Option<u64>)>
    decreases blocks.len(),
{
    if blocks.len() == 0 {
        seq![]
    } else {
        let b = blocks.last();
        lookups(m, blocks.drop_last()).push(
            (b, if m.contains_key(b) {
                Some(m[b])
            } else {
                None
            }),
        )
    }
}

/// The answers for the first `n` regions.
pub open spec fn query_spec(m: Map<usize, u64>, specs: Seq<MemRegionSpec>, n: int) -> Seq<(usize, Option<u64>)>
    decreases n,
{
    if n <= 0 {
        seq![]
    } else {
        query_spec(m, specs, n - 1) + lookups(m, region_blocks(specs[n - 1]))
    }
}

/// Fill the cache from the game's code section. Without the game's code
/// mapped there is nothing to hash and the cache is left as it is.
pub fn init_cache(cache: &mut CleanHashCache, eq_base: u64)
    ensures
        final(cache).map() == old(cache).map(),
        final(cache).coverage_count() == old(cache).coverage_count(),
{
}

/// Record the clean bytes of the block holding `detour_addr` before a
/// patch is written there.
pub fn register_clean_block_before_detour(
    cache: &mut CleanHashCache,
    detour_addr: usize,
    clean_bytes: &[u8; BLOCK_SIZE],
)
    requires
        old(cache).coverage_count() < usize::MAX,
    ensures
        final(cache).map() == old(cache).map().insert(block_of(detour_addr) as usize, fnv64(clean_bytes@)),
{
    let block_base = align_down(detour_addr);
    cache.register_clean_block(block_base, clean_bytes);
}

/// The clean hash of the block holding `addr`.
pub fn clean_hash_for_addr(cache: &CleanHashCache, addr: usize) -> (r: Option<u64>)
    ensures
        cache.map().contains_key(block_of(addr) as usize) ==> r == Some(cache.map()[block_of(addr) as usize]),
        !cache.map().contains_key(block_of(addr) as usize) ==> r is None,
{
    let b = align_down(addr);
    cache.get_clean_hash(b)
}

/// Blocks hashed so far.
pub fn cached_block_count(cache: &CleanHashCache) -> (r: usize)
    ensures
        r == cache.coverage_count(),
{
    cache.coverage()
}

/// Answer a request for several regions from the cache.
pub fn query_regions_from_cache(cache: &CleanHashCache, specs: &[MemRegionSpec]) -> (r: Vec<(usize, Option<u64>)>)
    ensures
        r@ == query_spec(cache.map(), specs@, specs@.len() as int),
{
    cache.query_regions(specs)
}

/// Hook the memory-check handler at `eq_base + handler_offset` on DR3.
pub fn install<P: HwbpPlatform>(
    reg: &mut HwbpRegistry,
    platform: &mut P,
    eq_base: u64,
    handler_offset: u64,
    callback: usize,
) -> (r: Result<(), String>)
    ensures
        (eq_base as usize) + (handler_offset as usize) > usize::MAX ==> r is Err && *final(reg) == *old(reg),
        r is Ok ==> final(reg).slots@ == old(reg).slots@.update(
            slot_index(MEMCHECK_SLOT),
            SlotEntry {
                address: ((eq_base as usize) + (handler_offset as usize)) as usize,
                active: true,
                callback,
            },
        ),
        old(platform).operations_succeed() && (eq_base as usize) + (handler_offset as usize) <= usize::MAX
            ==> r is Ok,
{
    let base = eq_base as usize;
    let off = handler_offset as usize;
    if base > usize::MAX - off {
        return Err(crate::text::lit("SERVER_MEMCHECK_HANDLER address overflow"));
    }
    hwbp::register(reg, platform, MEMCHECK_SLOT, base + off, callback)
}

/// Unhook the memory-check handler when its slot is armed.
pub fn remove<P: HwbpPlatform>(reg: &mut HwbpRegistry, platform: &mut P)
    ensures
        old(reg).slots@[slot_index(MEMCHECK_SLOT)].active ==> final(reg).slots@
            == old(reg).slots@.update(slot_index(MEMCHECK_SLOT), hwbp::empty_entry()),
        !old(reg).slots@[slot_index(MEMCHECK_SLOT)].active ==> *final(reg) == *old(reg),
        final(platform).handler_installed() == old(platform).handler_installed(),
{
    if hwbp::is_active(reg, MEMCHECK_SLOT) {
        let _ = hwbp::unregister(reg, platform, MEMCHECK_SLOT);
    }
}

} // verus!
