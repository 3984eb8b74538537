use textquest_dll::hooks::file_integrity_dispatcher::{
    get_cache, install, remove, set_cache, FileCacheStore, FileHashCache, IntegrityFile, LfgPrng,
    INTEGRITY_SAMPLE_COUNT, LFG_LAG_J, LFG_LAG_K, LFG_TABLE_SIZE, OPCODE_BASEDATA_HASH, OPCODE_EXE_HASH,
    OPCODE_SKILLCAPS_HASH,
};

#[test]
fn prng_deterministic_from_seed() {
    let mut a = LfgPrng::seed(0xDEAD_BEEF);
    let mut b = LfgPrng::seed(0xDEAD_BEEF);
    for _ in 0..1000 {
        assert_eq!(a.next(), b.next(), "PRNG must be deterministic");
    }
}

#[test]
fn prng_different_seeds_differ() {
    let mut a = LfgPrng::seed(1);
    let mut b = LfgPrng::seed(2);
    let seq_a: Vec<u32> = (0..256).map(|_| a.next()).collect();
    let seq_b: Vec<u32> = (0..256).map(|_| b.next()).collect();
    assert_ne!(seq_a, seq_b, "different seeds must yield different sequences");
}

#[test]
fn sample_positions_count() {
    let mut prng = LfgPrng::seed(0x1234_5678);
    let positions = prng.sample_positions(1024 * 1024);
    assert_eq!(positions.len(), INTEGRITY_SAMPLE_COUNT);
}

#[test]
fn sample_positions_in_range() {
    let file_len: u64 = 0x10_0000;
    let dword_count = file_len / 4;
    let mut prng = LfgPrng::seed(0xABCD_EF01);
    let positions = prng.sample_positions(file_len);
    for (i, &pos) in positions.iter().enumerate() {
        assert!(
            (pos as u64) < dword_count,
            "position[{i}] = {pos:#x} out of range (dword_count = {dword_count:#x})"
        );
    }
}

#[test]
fn sample_positions_empty_file() {
    let mut prng = LfgPrng::seed(0);
    let positions = prng.sample_positions(0);
    assert!(positions.iter().all(|&p| p == 0), "empty file must return all-zero positions");
}

#[test]
fn from_state_parity_1000_iterations() {
    let mut reference = LfgPrng::seed(0x5A5A_5A5A);
    for _ in 0..55 {
        reference.next();
    }
    let snapshot = reference.table();
    let mut from_snap = LfgPrng::from_state(&snapshot);
    for i in 0..1000 {
        let r = reference.next();
        let s = from_snap.next();
        assert_eq!(r, s, "from_state diverged at iteration {i}: reference={r:#010x} snapshot={s:#010x}");
    }
}

#[test]
fn lfg_recurrence_property() {
    let mut prng = LfgPrng::seed(0x9999_1111);
    let n = LFG_TABLE_SIZE * 3;
    let mut values = Vec::with_capacity(n);
    for _ in 0..n {
        values.push(prng.next());
    }
    for i in LFG_TABLE_SIZE..n {
        let expected = values[i - LFG_LAG_J].wrapping_add(values[i - LFG_LAG_K]);
        assert_eq!(
            values[i], expected,
            "recurrence failed at i={i}: values[{i}]={:#010x} expected={expected:#010x}",
            values[i]
        );
    }
}

#[test]
fn cache_roundtrip() {
    let mut store = FileCacheStore::new();
    let entry = FileHashCache {
        file: IntegrityFile::EqGameExe,
        full_hash: vec![0xAB, 0xCD, 0xEF],
        samples: [0u32; INTEGRITY_SAMPLE_COUNT],
    };
    set_cache(&mut store, entry.clone());
    let loaded = get_cache(&store, IntegrityFile::EqGameExe);
    assert!(loaded.is_some());
    let loaded = loaded.unwrap();
    assert_eq!(loaded.full_hash, entry.full_hash);
}

#[test]
fn cache_miss_returns_none() {
    let store = FileCacheStore::new();
    let _ = get_cache(&store, IntegrityFile::BaseDataTxt);
    let _ = get_cache(&store, IntegrityFile::SkillCapsTxt);
}

#[test]
fn opcode_mapping() {
    assert_eq!(IntegrityFile::EqGameExe.opcode(), OPCODE_EXE_HASH);
    assert_eq!(IntegrityFile::BaseDataTxt.opcode(), OPCODE_BASEDATA_HASH);
    assert_eq!(IntegrityFile::SkillCapsTxt.opcode(), OPCODE_SKILLCAPS_HASH);
}

#[test]
fn install_remove_stub() {
    assert!(install(0x1234_5678).is_ok());
    remove();
}

#[test]
fn seed_expands_with_linear_congruential_steps() {
    let prng = LfgPrng::seed(0);
    let table = prng.table();
    let first = 0u32.wrapping_mul(1_664_525).wrapping_add(1_013_904_223);
    let second = first.wrapping_mul(1_664_525).wrapping_add(1_013_904_223);
    assert_eq!(table[0], 1_013_904_223);
    assert_eq!(table[0], first);
    assert_eq!(table[1], second);
}

#[test]
fn first_output_is_oldest_plus_lag_k_entry() {
    let mut state = [0u32; LFG_TABLE_SIZE];
    for (i, v) in state.iter_mut().enumerate() {
        *v = i as u32 * 10;
    }
    let mut prng = LfgPrng::from_state(&state);
    // window oldest first: state[0] + state[31]
    assert_eq!(prng.next(), 0 + 310);
    assert_eq!(prng.next(), 10 + 320);
}

#[test]
fn cache_first_entry_for_a_file_wins() {
    let mut store = FileCacheStore::new();
    set_cache(
        &mut store,
        FileHashCache { file: IntegrityFile::BaseDataTxt, full_hash: vec![1], samples: [0u32; INTEGRITY_SAMPLE_COUNT] },
    );
    set_cache(
        &mut store,
        FileHashCache { file: IntegrityFile::BaseDataTxt, full_hash: vec![2], samples: [0u32; INTEGRITY_SAMPLE_COUNT] },
    );
    assert_eq!(get_cache(&store, IntegrityFile::BaseDataTxt).unwrap().full_hash, vec![1]);
    assert!(get_cache(&store, IntegrityFile::SkillCapsTxt).is_none());
}

#[test]
fn sample_positions_reduce_modulo_dword_count() {
    let mut a = LfgPrng::seed(77);
    let mut b = LfgPrng::seed(77);
    let positions = a.sample_positions(40);
    for p in positions.iter() {
        assert_eq!(*p, b.next() % 10);
    }
}

#[test]
fn sample_positions_use_the_full_dword_count() {
    let file_len: u64 = (1u64 << 34) + 8;
    let mut a = LfgPrng::seed(5);
    let mut b = LfgPrng::seed(5);
    let positions = a.sample_positions(file_len);
    for p in positions.iter() {
        assert_eq!(*p as u64, (b.next() as u64) % (file_len / 4));
    }
}
