use textquest_dll::hooks::hwbp::{HwbpRegistry, StubPlatform};
use textquest_dll::hooks::memcheck::{
    cached_block_count, clean_hash_for_addr, hash_block, init_cache, install, remove, CleanHashCache, MemRegionSpec,
    BLOCK_SIZE, FNV_OFFSET,
};

const TEST_BLOCK: usize = 0x0001_400B_5700;

fn fill_block(byte: u8) -> [u8; BLOCK_SIZE] {
    [byte; BLOCK_SIZE]
}

#[test]
fn hash_block_is_deterministic() {
    let block = fill_block(0xAB);
    assert_eq!(hash_block(&block), hash_block(&block));
}

#[test]
fn hash_block_distinguishes_content() {
    assert_ne!(hash_block(&fill_block(0x00)), hash_block(&fill_block(0xFF)));
}

#[test]
fn hash_block_empty_is_fnv_offset() {
    assert_eq!(hash_block(&[]), FNV_OFFSET);
}

#[test]
fn cache_stores_and_retrieves_clean_hash() {
    let mut c = CleanHashCache::new();
    let clean = fill_block(0x55);
    c.register_clean_block(TEST_BLOCK, &clean);
    assert_eq!(c.get_clean_hash(TEST_BLOCK), Some(hash_block(&clean)));
}

#[test]
fn cache_returns_none_for_unknown_block() {
    let c = CleanHashCache::new();
    assert_eq!(c.get_clean_hash(0xDEAD_BEEF_0000_0000), None);
}

#[test]
fn cache_coverage_increments_on_new_block() {
    let mut c = CleanHashCache::new();
    assert_eq!(c.coverage(), 0);
    c.register_clean_block(TEST_BLOCK, &fill_block(0x11));
    assert_eq!(c.coverage(), 1);
    c.register_clean_block(TEST_BLOCK, &fill_block(0x22));
    assert_eq!(c.coverage(), 1);
}

#[test]
fn blocks_for_region_single_aligned() {
    let spec = MemRegionSpec { address: TEST_BLOCK, length: BLOCK_SIZE };
    let blocks = CleanHashCache::blocks_for_region(&spec);
    assert_eq!(blocks, vec![TEST_BLOCK]);
}

#[test]
fn blocks_for_region_two_full_blocks() {
    let spec = MemRegionSpec { address: TEST_BLOCK, length: 2 * BLOCK_SIZE };
    let blocks = CleanHashCache::blocks_for_region(&spec);
    assert_eq!(blocks, vec![TEST_BLOCK, TEST_BLOCK + BLOCK_SIZE]);
}

#[test]
fn blocks_for_region_unaligned_start_covers_two_blocks() {
    let spec = MemRegionSpec { address: TEST_BLOCK + 8, length: BLOCK_SIZE };
    let blocks = CleanHashCache::blocks_for_region(&spec);
    assert_eq!(blocks.len(), 2);
    assert_eq!(blocks[0], TEST_BLOCK);
    assert_eq!(blocks[1], TEST_BLOCK + BLOCK_SIZE);
}

#[test]
fn blocks_for_region_zero_length_is_empty() {
    let spec = MemRegionSpec { address: TEST_BLOCK, length: 0 };
    assert!(CleanHashCache::blocks_for_region(&spec).is_empty());
}

#[test]
fn query_returns_clean_hash_for_modified_block() {
    let mut c = CleanHashCache::new();
    let pre_patch_bytes = fill_block(0x90);
    c.register_clean_block(TEST_BLOCK, &pre_patch_bytes);
    let spec = MemRegionSpec { address: TEST_BLOCK, length: BLOCK_SIZE };
    let results = c.query_regions(std::slice::from_ref(&spec));
    assert_eq!(results.len(), 1, "one block in the requested range");
    assert_eq!(results[0].0, TEST_BLOCK, "block base matches");
    assert_eq!(results[0].1, Some(hash_block(&pre_patch_bytes)), "clean hash returned for modified block");
}

#[test]
fn query_returns_none_for_unmodified_block() {
    let c = CleanHashCache::new();
    let spec = MemRegionSpec { address: TEST_BLOCK, length: BLOCK_SIZE };
    let results = c.query_regions(std::slice::from_ref(&spec));
    assert_eq!(results.len(), 1);
    assert_eq!(results[0].1, None, "unmodified block should be passthrough (None)");
}

#[test]
fn query_mixed_modified_and_unmodified() {
    let mut c = CleanHashCache::new();
    let clean = fill_block(0xCC);
    let second_block = TEST_BLOCK + BLOCK_SIZE;
    c.register_clean_block(second_block, &clean);
    let spec = MemRegionSpec { address: TEST_BLOCK, length: 2 * BLOCK_SIZE };
    let results = c.query_regions(std::slice::from_ref(&spec));
    assert_eq!(results.len(), 2);
    assert_eq!(results[0].0, TEST_BLOCK);
    assert_eq!(results[0].1, None);
    assert_eq!(results[1].0, second_block);
    assert_eq!(results[1].1, Some(hash_block(&clean)));
}

#[test]
fn region_is_modified_true_for_cached_block() {
    let mut c = CleanHashCache::new();
    c.register_clean_block(TEST_BLOCK, &fill_block(0x77));
    let spec = MemRegionSpec { address: TEST_BLOCK, length: BLOCK_SIZE };
    assert!(c.region_is_modified(&spec));
}

#[test]
fn region_is_modified_false_for_clean_block() {
    let c = CleanHashCache::new();
    let spec = MemRegionSpec { address: 0xCAFE_0000, length: BLOCK_SIZE };
    assert!(!c.region_is_modified(&spec));
}

#[test]
fn populate_from_range_null_is_safe() {
    let mut c = CleanHashCache::new();
    c.populate_from_range(0, &[]);
    assert_eq!(c.coverage(), 0);
}

#[test]
fn populate_from_range_too_small_is_safe() {
    let mut c = CleanHashCache::new();
    let buf = [0u8; BLOCK_SIZE - 1];
    c.populate_from_range(buf.as_ptr() as usize, &buf);
    assert_eq!(c.coverage(), 0, "less than one full block → no entries");
}

#[test]
fn populate_from_range_one_block() {
    let mut c = CleanHashCache::new();
    let block = fill_block(0xBE);
    let base = block.as_ptr() as usize;
    c.populate_from_range(base, &block);
    assert_eq!(c.coverage(), 1);
    assert_eq!(c.get_clean_hash(base), Some(hash_block(&block)));
}

#[test]
fn populate_from_range_two_blocks() {
    let mut c = CleanHashCache::new();
    let buf = [0xEFu8; 2 * BLOCK_SIZE];
    c.populate_from_range(buf.as_ptr() as usize, &buf);
    assert_eq!(c.coverage(), 2);
}

#[test]
fn clean_hash_for_addr_none_for_unregistered() {
    let cache = CleanHashCache::new();
    assert!(clean_hash_for_addr(&cache, 0xF00D_0000_1234_5678).is_none());
}

#[test]
fn install_ok_and_remove_safe_on_non_windows() {
    let mut reg = HwbpRegistry::new();
    let mut platform = StubPlatform::new();
    let result = install(&mut reg, &mut platform, 0x0001_4000_0000, 0xB_5720, 0x1);
    assert!(result.is_ok());
    remove(&mut reg, &mut platform);
}

#[test]
fn init_cache_noop_on_non_windows() {
    let mut cache = CleanHashCache::new();
    let before = cached_block_count(&cache);
    init_cache(&mut cache, 0x0001_4000_0000);
    let after = cached_block_count(&cache);
    assert_eq!(before, after);
}

#[test]
fn clean_hash_for_addr_uses_the_containing_block() {
    let mut cache = CleanHashCache::new();
    let clean = fill_block(0x3C);
    cache.register_clean_block(TEST_BLOCK, &clean);
    assert_eq!(clean_hash_for_addr(&cache, TEST_BLOCK + 0x20), Some(hash_block(&clean)));
}

#[test]
fn fnv_of_one_byte() {
    let expected = (FNV_OFFSET ^ 0x61).wrapping_mul(0x0000_0100_0000_01b3);
    assert_eq!(hash_block(b"a"), expected);
    assert_eq!(hash_block(b"a"), 0xaf63_dc4c_8601_ec8c);
}
