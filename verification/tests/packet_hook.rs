use textquest_dll::hooks::packet_hook::{
    capture_packet, classify_recv, counter_drift, drift_exceeds_threshold, extract_opcode, format_opcode, install,
    is_safe_packet_buffer, recv_capture_len, remove, send_buffers_to_capture, send_scan_len,
    should_alert_on_checksum_mismatch, wsabuf_offset, PacketDirection, PageInfo, RecvPath, WatchdogState,
    MIN_OPCODE_PACKET_LEN, OPCODE_CHECKSUM_MISMATCH_DISCONNECT, WD_DRIFT_WARN_THRESHOLD, WD_INTERVAL_MS, WSABUF_ALIGN,
    WSABUF_SIZE, WSA_IO_PENDING,
};

#[test]
fn packet_hook_install_stub_succeeds_on_non_windows() {
    assert!(install(0).is_ok());
}

#[test]
fn packet_hook_remove_stub_does_not_panic() {
    remove();
}

#[test]
fn packet_direction_copy() {
    let d = PacketDirection::Outbound;
    let d2 = d;
    assert_eq!(d, d2);
    assert_ne!(d, PacketDirection::Inbound);
}

#[test]
fn opcode_extraction_logic() {
    let packet = [0xABu8, 0xCD, 0x34, 0x12, 0x00, 0x00];
    assert_eq!(extract_opcode(&packet), Some(0x1234));
}

#[test]
fn short_packet_guard() {
    assert_eq!(MIN_OPCODE_PACKET_LEN, 4);
    let short_len = 3usize;
    assert!(short_len < MIN_OPCODE_PACKET_LEN);
    assert_eq!(extract_opcode(&[1, 2, 3]), None);
    assert!(capture_packet(&[1, 2, 3], PacketDirection::Inbound).is_none());
}

#[test]
fn windows_remove_before_install_does_not_panic() {
    remove();
}

#[test]
fn wsabuf_layout_matches_winsock2() {
    assert_eq!(WSABUF_SIZE, 16);
    assert_eq!(WSABUF_ALIGN, 8);
}

#[test]
fn multi_buffer_send_paths_are_handled() {
    for i in 0..3usize {
        let offset = wsabuf_offset(i);
        assert_eq!(offset, i * 16, "Buffer iteration offset should match expected value");
    }
    assert_eq!(send_buffers_to_capture(&[20, 30, 40]), vec![0, 1, 2]);
}

#[test]
fn zero_length_buffers_are_skipped() {
    assert_eq!(send_scan_len(0), None);
    assert_eq!(send_buffers_to_capture(&[0, 8, 0, 2, 5]), vec![1, 3, 4]);
}

#[test]
fn overlapped_receive_wsa_io_pending_detected() {
    assert_eq!(WSA_IO_PENDING, -1, "WSA_IO_PENDING should equal -1");
    assert_eq!(classify_recv(WSA_IO_PENDING, false), RecvPath::Pending);
}

#[test]
fn synchronous_vs_asynchronous_receive_paths() {
    assert_eq!(classify_recv(0, false), RecvPath::Completed);
    assert_eq!(classify_recv(-1, false), RecvPath::Pending);
    assert_ne!(classify_recv(0, true), classify_recv(-1, true));
    assert_eq!(classify_recv(7, false), RecvPath::Failed);
}

#[test]
fn multi_buffer_bounds_validation_per_buffer() {
    let buf_lens = [64usize, 0, 100_000, 32];
    let captured = send_buffers_to_capture(&buf_lens);
    assert_eq!(captured.len(), 3);
    assert_eq!(captured, vec![0, 2, 3]);
}

#[test]
fn overlapped_receive_validates_lpoverlapped_not_null() {
    assert_eq!(classify_recv(WSA_IO_PENDING, true), RecvPath::PendingWithoutOverlapped);
    assert_eq!(classify_recv(WSA_IO_PENDING, false), RecvPath::Pending);
}

#[test]
fn wsabuf_size_for_multi_buffer_iteration() {
    assert_eq!(WSABUF_SIZE, 16, "WSABUF must be 16 bytes for correct multi-buffer arithmetic");
    assert_eq!(wsabuf_offset(5), 80);
}

#[test]
fn watchdog_drift_threshold_covers_refill() {
    assert!(WD_DRIFT_WARN_THRESHOLD > 0x37);
    assert!(!drift_exceeds_threshold(0x37));
    assert!(drift_exceeds_threshold(0x55));
}

#[test]
fn watchdog_interval_matches_eq_heartbeat_period() {
    assert_eq!(WD_INTERVAL_MS, 500);
}

#[test]
fn watchdog_drift_arithmetic_zero_drift() {
    let drift = counter_drift(20, 15, 5);
    assert_eq!(drift, 0, "Zero drift when observed == actual delta");
}

#[test]
fn watchdog_drift_arithmetic_with_refill() {
    let drift = counter_drift(1, 53, 3);
    assert_eq!(drift, 55);
    assert!(drift.abs() <= WD_DRIFT_WARN_THRESHOLD, "A single refill cycle should not exceed drift threshold (drift = {})", drift);
    assert!(!drift_exceeds_threshold(drift));
}

#[test]
fn checksum_mismatch_opcode_constant_value() {
    assert_eq!(OPCODE_CHECKSUM_MISMATCH_DISCONNECT, 0xd799);
}

#[test]
fn checksum_mismatch_opcode_extracted_from_synthesized_packet() {
    let packet = [0x00u8, 0x00, 0x99, 0xd7, 0x00, 0x00, 0x00, 0x00];
    assert_eq!(extract_opcode(&packet), Some(0xd799), "opcode 0xd799 should be extracted from synthesized packet");
}

#[test]
fn non_checksum_mismatch_opcode_does_not_alert() {
    let packet = [0x00u8, 0x00, 0x29, 0xbb, 0x00, 0x00, 0x00, 0x00];
    let opcode = extract_opcode(&packet).unwrap();
    assert_ne!(opcode, 0xd799, "heartbeat opcode 0xbb29 must not match 0xd799");
    assert!(!should_alert_on_checksum_mismatch(PacketDirection::Inbound, &packet));
}

#[test]
fn checksum_mismatch_synthetic_packet_fixture_alert_fires() {
    let fixture_0xd799 = [0x00u8, 0x00, 0x99, 0xd7, 0xDE, 0xAD, 0xBE, 0xEF];
    assert!(should_alert_on_checksum_mismatch(PacketDirection::Inbound, &fixture_0xd799));
    assert!(!should_alert_on_checksum_mismatch(PacketDirection::Outbound, &fixture_0xd799));
    let short_packet = [0x00u8, 0x99];
    assert!(!should_alert_on_checksum_mismatch(PacketDirection::Inbound, &short_packet));
    let fixture_heartbeat = [0x00u8, 0x00, 0x29, 0xbb, 0x00, 0x00, 0x00, 0x00];
    assert!(!should_alert_on_checksum_mismatch(PacketDirection::Inbound, &fixture_heartbeat));
    let capture = capture_packet(&fixture_0xd799, PacketDirection::Inbound).unwrap();
    assert!(capture.checksum_alert);
    assert_eq!(capture.opcode, 0xd799);
}

#[test]
fn trace_packets_feature_opcode_format_matches_expected() {
    assert_eq!(format_opcode(0xbb29), "0xbb29", "packet_op field must use 0x-prefixed lowercase hex");
    assert_eq!(format_opcode(0xd799), "0xd799");
    assert_eq!(format_opcode(0x0001), "0x0001");
}

#[test]
fn trace_packets_feature_direction_field_variants() {
    let outbound = format!("{:?}", PacketDirection::Outbound);
    let inbound = format!("{:?}", PacketDirection::Inbound);
    assert!(!outbound.is_empty());
    assert!(!inbound.is_empty());
    assert_ne!(outbound, inbound);
}

#[test]
fn checksum_mismatch_alert_inbound_only() {
    let packet = [0x00u8, 0x00, 0x99, 0xd7, 0x00, 0x00, 0x00, 0x00];
    assert!(should_alert_on_checksum_mismatch(PacketDirection::Inbound, &packet));
    assert!(!should_alert_on_checksum_mismatch(PacketDirection::Outbound, &packet));
}

#[test]
fn watchdog_drift_arithmetic_dropped_packet() {
    let drift = counter_drift(100, 90, 8);
    assert_eq!(drift, -2);
    assert!(drift.abs() < 60, "A 2-packet drop drift ({}) should not reach warn threshold", drift);
}

#[test]
fn capture_keeps_first_sixteen_bytes() {
    let packet: Vec<u8> = (0u8..40).collect();
    let c = capture_packet(&packet, PacketDirection::Outbound).unwrap();
    assert_eq!(c.payload, (0u8..16).collect::<Vec<u8>>());
    assert_eq!(c.payload_size, 16);
    assert_eq!(c.opcode, 0x0302);
    assert!(!c.checksum_alert);
}

#[test]
fn received_bytes_are_capped_by_the_buffer() {
    assert_eq!(recv_capture_len(3, 100), None);
    assert_eq!(recv_capture_len(200, 100), Some((100, 16)));
    assert_eq!(recv_capture_len(10, 100), Some((10, 10)));
}

#[test]
fn watchdog_is_due_after_half_a_second() {
    let mut wd = WatchdogState::new();
    wd.last_tick_ms = 1_000;
    assert!(!wd.due(1_499));
    assert!(wd.due(1_500));
    assert!(!wd.due(10));
    wd.record(PacketDirection::Outbound);
    wd.record(PacketDirection::Outbound);
    wd.record(PacketDirection::Inbound);
    assert_eq!(wd.outbound_observed, 2);
    assert_eq!(wd.inbound_observed, 1);
}

#[test]
fn safe_packet_buffer_requires_committed_readable_region() {
    let page = PageInfo { state: 0x1000, protect: 0x04, base_address: 0x1000, region_size: 0x1000 };
    assert!(is_safe_packet_buffer(0x1100, 0x100, Some(page)));
    assert!(!is_safe_packet_buffer(0, 0x100, Some(page)));
    assert!(!is_safe_packet_buffer(0x1100, 0, Some(page)));
    assert!(!is_safe_packet_buffer(0x1100, 70_000, Some(page)));
    assert!(!is_safe_packet_buffer(0x1100, 0x100, None));
    assert!(!is_safe_packet_buffer(0x1F80, 0x100, Some(page)));
    assert!(!is_safe_packet_buffer(0x1100, 0x100, Some(PageInfo { state: 0x2000, ..page })));
    assert!(!is_safe_packet_buffer(0x1100, 0x100, Some(PageInfo { protect: 0x104, ..page })));
    assert!(!is_safe_packet_buffer(0x1100, 0x100, Some(PageInfo { protect: 0x10, ..page })));
    assert!(is_safe_packet_buffer(0x1100, 0x100, Some(PageInfo { protect: 0x220, ..page })));
}
