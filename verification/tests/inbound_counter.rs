use textquest_dll::hooks::inbound_counter::{
    expected_ack_counter, has_observation, install, record_write, remove, reset_cache, InboundCounterCache,
    INBOUND_REFILL_DELTA,
};

#[test]
fn cache_initially_empty() {
    let cache = InboundCounterCache::new();
    assert!(!has_observation(&cache), "no observation should be recorded before first write");
    assert_eq!(expected_ack_counter(&cache), None, "expected_ack_counter() should return None before first write");
}

#[test]
fn record_write_populates_cache() {
    let mut cache = InboundCounterCache::new();
    record_write(&mut cache, 42);
    assert!(has_observation(&cache), "observation flag should be set after write");
    assert_eq!(expected_ack_counter(&cache), Some(42), "expected_ack_counter() should return the recorded value");
}

#[test]
fn ack_counter_updates_on_subsequent_writes() {
    let mut cache = InboundCounterCache::new();
    record_write(&mut cache, 10);
    record_write(&mut cache, 20);
    record_write(&mut cache, 30);
    assert_eq!(expected_ack_counter(&cache), Some(30), "cache should hold the most recent write");
}

#[test]
fn reset_cache_clears_observation() {
    let mut cache = InboundCounterCache::new();
    record_write(&mut cache, 99);
    assert!(has_observation(&cache));
    reset_cache(&mut cache);
    assert!(!has_observation(&cache), "reset_cache() should clear observation flag");
    assert_eq!(expected_ack_counter(&cache), None, "reset_cache() should clear expected_ack_counter()");
}

#[test]
fn inbound_refill_delta_matches_ghidra_evidence() {
    assert_eq!(INBOUND_REFILL_DELTA, 0x55, "inbound refill delta must be 0x55 per Ghidra analysis");
}

#[test]
fn replay_ack_counter_served_correctly() {
    let mut cache = InboundCounterCache::new();
    let tick1_value: i32 = 0x55;
    record_write(&mut cache, tick1_value);
    assert_eq!(expected_ack_counter(&cache), Some(tick1_value));
    let tick2_value: i32 = tick1_value.wrapping_sub(10).wrapping_add(INBOUND_REFILL_DELTA);
    record_write(&mut cache, tick2_value);
    assert_eq!(expected_ack_counter(&cache), Some(tick2_value));
    let tick3_value: i32 = tick2_value.wrapping_sub(7).wrapping_add(INBOUND_REFILL_DELTA);
    record_write(&mut cache, tick3_value);
    assert_eq!(
        expected_ack_counter(&cache),
        Some(tick3_value),
        "replay scenario: expected ACK counter must track latest observed refill"
    );
}

#[test]
fn inbound_counter_install_stub_succeeds_on_non_windows() {
    let result = install(0x1_401A_4320);
    assert!(result.is_ok(), "stub install must succeed: {result:?}");
    remove();
}

#[test]
fn inbound_counter_remove_stub_does_not_panic() {
    remove();
}

#[test]
fn record_write_of_min_value_is_still_an_observation() {
    let mut cache = InboundCounterCache::new();
    record_write(&mut cache, i32::MIN);
    assert_eq!(expected_ack_counter(&cache), Some(i32::MIN));
}
