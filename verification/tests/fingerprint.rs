use textquest_dll::hooks::fingerprint::firmware::generate_firmware_tables;
use textquest_dll::hooks::fingerprint::{
    derive_bytes, generate_fingerprint, init, install, install_firmware_hooks, remove, spoofed, FingerprintStore,
};

#[test]
fn generate_fingerprint_is_deterministic() {
    let token = [0x42u8; 32];
    let fp1 = generate_fingerprint(&token);
    let fp2 = generate_fingerprint(&token);
    assert_eq!(fp1.video_card_id, fp2.video_card_id);
    assert_eq!(fp1.network_card_id, fp2.network_card_id);
    assert_eq!(fp1.hard_drive_id, fp2.hard_drive_id);
    assert_eq!(fp1.computer_name, fp2.computer_name);
}

#[test]
fn different_tokens_produce_different_fingerprints() {
    let fp_a = generate_fingerprint(&[0x01u8; 32]);
    let fp_b = generate_fingerprint(&[0x02u8; 32]);
    assert_ne!(fp_a.video_card_id, fp_b.video_card_id);
    assert_ne!(fp_a.network_card_id, fp_b.network_card_id);
    assert_ne!(fp_a.hard_drive_id, fp_b.hard_drive_id);
    assert_ne!(fp_a.computer_name, fp_b.computer_name);
}

#[test]
fn gpu_id_has_valid_format() {
    let fp = generate_fingerprint(&[0xABu8; 32]);
    assert!(fp.video_card_id.starts_with("PCI\\VEN_10DE&DEV_"));
    assert!(fp.video_card_id.contains("&SUBSYS_"));
    assert!(fp.video_card_id.contains("&REV_"));
}

#[test]
fn mac_address_is_locally_administered() {
    let fp = generate_fingerprint(&[0xCDu8; 32]);
    let parts: Vec<&str> = fp.network_card_id.split('-').collect();
    assert_eq!(parts.len(), 6);
    let first_octet = u8::from_str_radix(parts[0], 16).unwrap();
    assert_eq!(first_octet & 0x02, 0x02);
    assert_eq!(first_octet & 0x01, 0x00);
}

#[test]
fn disk_serial_format() {
    let fp = generate_fingerprint(&[0xEFu8; 32]);
    assert_eq!(fp.hard_drive_id.len(), 9);
    assert_eq!(fp.hard_drive_id.chars().nth(4), Some('-'));
}

#[test]
fn hostname_format() {
    let fp = generate_fingerprint(&[0x99u8; 32]);
    assert!(fp.computer_name.starts_with("DESKTOP-"));
    assert_eq!(fp.computer_name.len(), 15);
    assert!(fp.computer_name[8..].chars().all(|c| c.is_ascii_alphanumeric()));
}

#[test]
fn init_sets_spoofed_values() {
    let mut store = FingerprintStore::new();
    init(&mut store, &[0x55u8; 32]);
    assert!(spoofed(&store).is_some());
}

#[test]
fn derive_bytes_domain_separation() {
    let token = [0x77u8; 32];
    let a = derive_bytes(&token, b"gpu");
    let b = derive_bytes(&token, b"nic");
    assert_ne!(a, b);
}

#[test]
fn firmware_tables_are_deterministic_distinct_and_vm_free() {
    let a1 = generate_firmware_tables(&[0x11u8; 32]);
    let a2 = generate_firmware_tables(&[0x11u8; 32]);
    let b = generate_firmware_tables(&[0x22u8; 32]);
    assert_eq!(a1.rsmb, a2.rsmb);
    assert_ne!(a1.rsmb, b.rsmb);
    let upper = String::from_utf8_lossy(&a1.rsmb).to_ascii_uppercase();
    for forbidden in ["VBOX", "VIRTUALBOX", "VMWARE", "QEMU", "BOCHS", "XEN"] {
        assert!(!upper.contains(forbidden), "spoofed SMBIOS data contained {forbidden}");
    }
}

#[test]
fn fingerprint_stub_install_remove_are_safe() {
    assert!(install(0x12345).is_ok());
    assert!(install_firmware_hooks().is_ok());
    remove();
}

#[test]
fn first_init_wins() {
    let mut store = FingerprintStore::new();
    init(&mut store, &[0x01u8; 32]);
    let first = spoofed(&store).unwrap().computer_name.clone();
    init(&mut store, &[0x02u8; 32]);
    assert_eq!(spoofed(&store).unwrap().computer_name, first);
    assert_eq!(first, generate_fingerprint(&[0x01u8; 32]).computer_name);
}
