use textquest_dll::hooks::wmi::{classify_wmi_query, rewrite_process_inventory_query, WmiQueryPolicy};

#[test]
fn process_inventory_queries_are_rewritten() {
    assert_eq!(
        classify_wmi_query("SELECT ProcessId, Name FROM Win32_Process"),
        WmiQueryPolicy::RewriteProcessInventory
    );
}

#[test]
fn process_query_rewrite_adds_where_clause() {
    let rewritten = rewrite_process_inventory_query("SELECT ProcessId, Name FROM Win32_Process").unwrap();
    assert!(rewritten.contains(" FROM Win32_Process WHERE "));
    assert!(rewritten.contains("Name <> 'textquest.exe'"));
    assert!(rewritten.contains("Name <> 'textquest-web.exe'"));
}

#[test]
fn process_query_rewrite_extends_existing_where_clause() {
    let rewritten = rewrite_process_inventory_query("SELECT * FROM Win32_Process WHERE SessionId = 1").unwrap();
    assert!(rewritten.contains("WHERE SessionId = 1 AND "));
    assert!(rewritten.contains("Name <> 'textquest.exe'"));
}

#[test]
fn hardware_fingerprint_queries_are_blocked() {
    assert_eq!(classify_wmi_query("select SerialNumber from Win32_BIOS"), WmiQueryPolicy::BlockFingerprintingQuery);
    assert_eq!(
        classify_wmi_query("SELECT MACAddress FROM Win32_NetworkAdapter"),
        WmiQueryPolicy::BlockFingerprintingQuery
    );
}

#[test]
fn unrelated_queries_pass_through() {
    assert_eq!(classify_wmi_query("SELECT * FROM Win32_OperatingSystem"), WmiQueryPolicy::PassThrough);
}

#[test]
fn non_process_queries_are_not_rewritten() {
    assert_eq!(rewrite_process_inventory_query("SELECT * FROM Win32_OperatingSystem"), None);
}
