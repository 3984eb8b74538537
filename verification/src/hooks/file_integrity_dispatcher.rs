//! The game's file-integrity checks: the additive lagged Fibonacci generator
//! that picks the sampled positions, the per-file cache of precomputed
//! answers, and the (platform-only) dispatcher hook.
use vstd::prelude::*;

verus! {

/// Number of DWORDs sampled from each file.
pub const INTEGRITY_SAMPLE_COUNT: usize = 256;

/// Size of the generator's table.
pub const LFG_TABLE_SIZE: usize = 55;

/// Longer lag of the recurrence; equal to the table size.
pub const LFG_LAG_J: usize = 55;

/// Shorter lag of the recurrence.
pub const LFG_LAG_K: usize = 24;

/// Opcode of the executable self-hash check.
pub const OPCODE_EXE_HASH: u16 = 0x8bdc;

/// Opcode of the base-data file check.
pub const OPCODE_BASEDATA_HASH: u16 = 0xe91d;

/// Opcode of the skill-caps file check.
pub const OPCODE_SKILLCAPS_HASH: u16 = 0x9562;

/// One step of the linear congruential expander used by [`LfgPrng::seed`].
pub open spec fn lcg(v: u32) -> u32 {
    v.wrapping_mul(1_664_525).wrapping_add(1_013_904_223)
}

/// The expander applied `n` times to `seed`.
pub open spec fn lcg_iter(seed: u32, n: nat) -> u32
    decreases n,
{
    if n == 0 {
        seed
    } else {
        lcg(lcg_iter(seed, (n - 1) as nat))
    }
}

/// The window a seeded generator starts from: the first 55 expander outputs.
pub open spec fn seeded_window(seed: u32) -> Seq<u32> {
    Seq::new(55, |i: int| lcg_iter(seed, (i + 1) as nat))
}

/// The value the generator produces from a window of its last 55 outputs
/// (oldest first): `X[n-55] + X[n-24]`, wrapping.
pub open spec fn lfg_step(w: Seq<u32>) -> u32 {
    w[0].wrapping_add(w[31])
}

/// The window after `n` steps.
pub open spec fn lfg_advance(w: Seq<u32>, n: nat) -> Seq<u32>
    decreases n,
{
    if n == 0 {
        w
    } else {
        let p = lfg_advance(w, (n - 1) as nat);
        p.drop_first().push(lfg_step(p))
    }
}

/// The value returned by the `n`-th call (from zero) starting at window `w`.
pub open spec fn lfg_output(w: Seq<u32>, n: nat) -> u32 {
    lfg_step(lfg_advance(w, n))
}

/// What each window entry is after `k` steps: an entry of the starting window
/// or one of the outputs.
pub proof fn lemma_lfg_window(w: Seq<u32>, k: nat)
    requires
        w.len() == 55,
    ensures
        lfg_advance(w, k).len() == 55,
        forall|j: int|
            0 <= j < 55 ==> #[trigger] lfg_advance(w, k)[j] == if k + j < 55 {
                w[k + j]
            } else {
                lfg_output(w, (k + j - 55) as nat)
            },
    decreases k,
{
    if k > 0 {
        lemma_lfg_window(w, (k - 1) as nat);
        let p = lfg_advance(w, (k - 1) as nat);
        assert forall|j: int| 0 <= j < 55 implies #[trigger] lfg_advance(w, k)[j] == if k + j < 55 {
            w[k + j]
        } else {
            lfg_output(w, (k + j - 55) as nat)
        } by {
            if j < 54 {
                assert(lfg_advance(w, k)[j] == p[j + 1]);
            } else {
                assert(lfg_advance(w, k)[j] == lfg_step(p));
            }
        }
    }
}

/// The outputs satisfy the additive recurrence `X[n] = X[n-55] + X[n-24]`
/// (mod 2^32): counting outputs from zero, output `n + 55` is output `n`
/// plus output `n + 31`.
pub proof fn lemma_lfg_recurrence(w: Seq<u32>, n: nat)
    requires
        w.len() == 55,
    ensures
        lfg_output(w, n + 55) == lfg_output(w, n).wrapping_add(lfg_output(w, n + 31)),
{
    lemma_lfg_window(w, n + 55);
    assert(lfg_advance(w, n + 55)[0] == lfg_output(w, n));
    assert(lfg_advance(w, n + 55)[31] == lfg_output(w, (n + 31) as nat));
}

/// The whole stream of a generator started from window `w`: the 55 window
/// entries, then every value the successive calls return.
pub open spec fn lfg_stream(w: Seq<u32>, n: nat) -> u32 {
    if n < 55 {
        w[n as int]
    } else {
        lfg_output(w, (n - 55) as nat)
    }
}

/// A call on a generator whose window is `w` advanced `k` times returns
/// output `k` and leaves the window advanced `k + 1` times; with the
/// contract of [`LfgPrng::next`] this makes the `k`-th call from `w` return
/// `lfg_output(w, k)`, which is stream entry `55 + k`.
pub proof fn lemma_next_follows_stream(w: Seq<u32>, k: nat)
    ensures
        lfg_step(lfg_advance(w, k)) == lfg_output(w, k),
        lfg_advance(w, k).drop_first().push(lfg_output(w, k)) == lfg_advance(w, k + 1),
        lfg_output(w, k) == lfg_stream(w, k + 55),
{
}

/// The stream satisfies `Y[n] = Y[n-55] + Y[n-24]` (mod 2^32) for every
/// `n >= 55`, the starting window included.
pub proof fn lemma_lfg_stream_recurrence(w: Seq<u32>, n: nat)
    requires
        w.len() == 55,
        n >= 55,
    ensures
        lfg_stream(w, n) == lfg_stream(w, (n - 55) as nat).wrapping_add(lfg_stream(w, (n - 24) as nat)),
{
    let k = (n - 55) as nat;
    lemma_lfg_window(w, k);
    assert(lfg_advance(w, k)[0] == lfg_stream(w, k));
    assert(lfg_advance(w, k)[31] == lfg_stream(w, (n - 24) as nat));
}

/// The game's lagged Fibonacci generator (lags 55 and 24, mod 2^32).
#[derive(Clone, Debug)]
pub struct LfgPrng {
    table: [u32; LFG_TABLE_SIZE],
    index: usize,
}

impl View for LfgPrng {
    type V = Seq<u32>;

    /// The last 55 outputs, oldest first: the table read circularly from
    /// the slot after the newest.
    open spec fn view(&self) -> Seq<u32> {
        Seq::new(55, |k: int| self.raw_table()[(self.position() + 1 + k) % 55])
    }
}

impl LfgPrng {
    /// The table as the game holds it.
    pub closed spec fn raw_table(&self) -> Seq<u32> {
        self.table@
    }

    /// The slot holding the newest value.
    pub closed spec fn position(&self) -> nat {
        self.index as nat
    }

    /// The newest slot lies in the table.
    pub open spec fn wf(&self) -> bool {
        self.position() < 55
    }

    /// Start from a snapshot of the 55-entry state (`state[0]` oldest,
    /// `state[54]` newest).
    pub fn from_state(state: &[u32; LFG_TABLE_SIZE]) -> (r: Self)
        ensures
            r@ == state@,
            r.raw_table() == state@,
            r.position() == 54,
            r.wf(),
    {
        let r = LfgPrng { table: *state, index: LFG_TABLE_SIZE - 1 };
        assert(r@ =~= state@);
        r
    }

    /// Fill the table from one seed with the linear congruential expander.
    pub fn seed(seed: u32) -> (r: Self)
        ensures
            r@ == seeded_window(seed),
            r.position() == 54,
            r.wf(),
    {
        let mut table = [0u32; LFG_TABLE_SIZE];
        let mut v = seed;
        let mut i: usize = 0;
        while i < LFG_TABLE_SIZE
            invariant
                0 <= i <= 55,
                table@.len() == 55,
                v == lcg_iter(seed, i as nat),
                forall|j: int| 0 <= j < i ==> table@[j] == lcg_iter(seed, (j + 1) as nat),
            decreases 55 - i,
        {
            v = v.wrapping_mul(1_664_525).wrapping_add(1_013_904_223);
            table[i] = v;
            i = i + 1;
        }
        let r = LfgPrng { table, index: LFG_TABLE_SIZE - 1 };
        assert(r@ =~= seeded_window(seed));
        r
    }

    /// The raw table (a snapshot of the state as the game holds it).
    pub fn table(&self) -> (r: [u32; LFG_TABLE_SIZE])
        ensures
            r@ == self.raw_table(),
    {
        self.table
    }

    /// Advance one step and return the new value.
    pub fn next(&mut self) -> (r: u32)
        requires
            old(self).wf(),
        ensures
            final(self).wf(),
            r == lfg_step(old(self)@),
            final(self)@ == old(self)@.drop_first().push(r),
            final(self).position() == (old(self).position() + 1) % 55,
    {
        let ghost w = self@;
        let ghost t = self.table@;
        let ghost i0 = self.index;
        let idx = (self.index + 1) % LFG_TABLE_SIZE;
        let lag_k = (idx + LFG_TABLE_SIZE - LFG_LAG_K) % LFG_TABLE_SIZE;
        let value = self.table[idx].wrapping_add(self.table[lag_k]);
        assert(w[0] == t[idx as int]);
        assert(w[31] == t[lag_k as int]);
        self.index = idx;
        self.table[idx] = value;
        proof {
            assert forall|k: int| 0 <= k < 55 implies #[trigger] self@[k] == w.drop_first().push(value)[k] by {
                if k < 54 {
                    assert((idx + 1 + k) % 55 == (i0 + 2 + k) % 55);
                    assert((idx + 1 + k) % 55 != idx);
                } else {
                    assert((idx + 1 + k) % 55 == idx);
                }
            }
            assert(self@ =~= w.drop_first().push(value));
        }
        value
    }

    /// The 256 sampled DWORD positions for a file of `file_len` bytes: each
    /// output reduced modulo the number of whole DWORDs (`file_len / 4`), so
    /// every position is a DWORD of the file. A file shorter than one DWORD
    /// gives all zeros and does not advance the generator.
    pub fn sample_positions(&mut self, file_len: u64) -> (r: [u32; INTEGRITY_SAMPLE_COUNT])
        requires
            old(self).wf(),
        ensures
            final(self).wf(),
            file_len / 4 == 0 ==> final(self)@ == old(self)@ && forall|i: int| 0 <= i < 256 ==> r@[i] == 0,
            file_len / 4 != 0 ==> final(self)@ == lfg_advance(old(self)@, 256) && forall|i: int|
                0 <= i < 256 ==> #[trigger] r@[i] == (lfg_output(old(self)@, i as nat) as u64) % (file_len / 4)
                    && r@[i] < file_len / 4,
    {
        let dword_count = file_len / 4;
        let mut positions = [0u32; INTEGRITY_SAMPLE_COUNT];
        if dword_count == 0 {
            return positions;
        }
        let ghost w0 = self@;
        let mut i: usize = 0;
        while i < INTEGRITY_SAMPLE_COUNT
            invariant
                0 <= i <= 256,
                positions@.len() == 256,
                dword_count == file_len / 4,
                dword_count != 0,
                self.wf(),
                self@ == lfg_advance(w0, i as nat),
                forall|j: int| 0 <= j < i ==> #[trigger] positions@[j] == (lfg_output(w0, j as nat) as u64)
                    % dword_count && positions@[j] < dword_count,
            decreases 256 - i,
        {
            let v = self.next();
            let vv = v as u64;
            let p = vv % dword_count;
            assert(vv % dword_count <= vv) by (nonlinear_arith)
                requires
                    dword_count > 0,
            ;
            positions[i] = p as u32;
            i = i + 1;
        }
        positions
    }
}

/// A generator whose newest value sits in the last slot reads its window
/// straight off its table: restarting from a snapshot of that table
/// ([`LfgPrng::from_state`]) continues the same sequence.
pub proof fn lemma_snapshot_resumes(p: LfgPrng)
    requires
        p.position() == 54,
    ensures
        p@ == p.raw_table(),
{
    assert(p@ =~= p.raw_table());
}

/// Which file a check (and a cache entry) covers.
#[derive(Debug, Clone, Copy, PartialEq, Eq, Structural)]
pub enum IntegrityFile {
    EqGameExe,
    BaseDataTxt,
    SkillCapsTxt,
}

impl IntegrityFile {
    /// The server opcode of this check.
    pub fn opcode(self) -> (r: u16)
        ensures
            r == match self {
                IntegrityFile::EqGameExe => OPCODE_EXE_HASH,
                IntegrityFile::BaseDataTxt => OPCODE_BASEDATA_HASH,
                IntegrityFile::SkillCapsTxt => OPCODE_SKILLCAPS_HASH,
            },
    {
        match self {
            IntegrityFile::EqGameExe => OPCODE_EXE_HASH,
            IntegrityFile::BaseDataTxt => OPCODE_BASEDATA_HASH,
            IntegrityFile::SkillCapsTxt => OPCODE_SKILLCAPS_HASH,
        }
    }
}

/// A precomputed answer for one file: its full hash and the 256 samples.
#[derive(Clone, Debug)]
pub struct FileHashCache {
    pub file: IntegrityFile,
    pub full_hash: Vec<u8>,
    pub samples: [u32; INTEGRITY_SAMPLE_COUNT],
}

/// The loaded cache entries (at most one per file) and the switch that makes
/// the hook answer from them.
pub struct FileCacheStore {
    pub cache_active: bool,
    pub exe: Option<FileHashCache>,
    pub base_data: Option<FileHashCache>,
    pub skill_caps: Option<FileHashCache>,
}

impl FileCacheStore {
    /// Nothing loaded, answering from the files themselves.
    pub fn new() -> (r: Self)
        ensures
            !r.cache_active,
            r.exe is None,
            r.base_data is None,
            r.skill_caps is None,
    {
        FileCacheStore { cache_active: false, exe: None, base_data: None, skill_caps: None }
    }

    /// The entry loaded for `file`.
    pub open spec fn slot(self, file: IntegrityFile) -> Option<FileHashCache> {
        match file {
            IntegrityFile::EqGameExe => self.exe,
            IntegrityFile::BaseDataTxt => self.base_data,
            IntegrityFile::SkillCapsTxt => self.skill_caps,
        }
    }

    /// The store after loading `entry`: an already loaded file keeps its entry.
    pub open spec fn with_entry(self, entry: FileHashCache) -> Self {
        if self.slot(entry.file) is Some {
            self
        } else {
            match entry.file {
                IntegrityFile::EqGameExe => FileCacheStore { exe: Some(entry), ..self },
                IntegrityFile::BaseDataTxt => FileCacheStore { base_data: Some(entry), ..self },
                IntegrityFile::SkillCapsTxt => FileCacheStore { skill_caps: Some(entry), ..self },
            }
        }
    }
}

/// Load a cache entry; the first entry loaded for a file stays.
pub fn set_cache(store: &mut FileCacheStore, entry: FileHashCache)
    ensures
        *final(store) == old(store).with_entry(entry),
{
    match entry.file {
        IntegrityFile::EqGameExe => {
            if store.exe.is_none() {
                store.exe = Some(entry);
            }
        },
        IntegrityFile::BaseDataTxt => {
            if store.base_data.is_none() {
                store.base_data = Some(entry);
            }
        },
        IntegrityFile::SkillCapsTxt => {
            if store.skill_caps.is_none() {
                store.skill_caps = Some(entry);
            }
        },
    }
}

/// The entry loaded for `file`, if any.
pub fn get_cache(store: &FileCacheStore, file: IntegrityFile) -> (r: Option<&FileHashCache>)
    ensures
        match store.slot(file) {
            Some(e) => r == Some(&e),
            None => r is None,
        },
{
    let slot = match file {
        IntegrityFile::EqGameExe => &store.exe,
        IntegrityFile::BaseDataTxt => &store.base_data,
        IntegrityFile::SkillCapsTxt => &store.skill_caps,
    };
    match slot {
        Some(e) => Some(e),
        None => None,
    }
}

/// Loading an entry for a file with none makes it the file's entry; loading
/// one for a file that has an entry changes nothing; other files keep theirs.
pub proof fn lemma_cache_first_write_wins(store: FileCacheStore, entry: FileHashCache, other: IntegrityFile)
    ensures
        store.slot(entry.file) is None ==> store.with_entry(entry).slot(entry.file) == Some(entry),
        store.slot(entry.file) is Some ==> store.with_entry(entry) == store,
        other != entry.file ==> store.with_entry(entry).slot(other) == store.slot(other),
{
}

/// Hook the dispatcher. Without the game's function to patch this succeeds
/// and does nothing.
pub fn install(dispatcher_addr: usize) -> (r: Result<(), String>)
    ensures
        r is Ok,
{
    Ok(())
}

/// Unhook the dispatcher; nothing to undo without the game's function.
pub fn remove() {
}

} // verus!
