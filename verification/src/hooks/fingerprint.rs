//! Spoofed hardware identity derived from a session token: GPU, network
//! card, disk and host names, and firmware tables (SMBIOS and ACPI headers)
//! with plausible, VM-free contents. Every value is a function of the token
//! through a 128-bit FNV-1a derivation separated by domain.
use vstd::prelude::*;
use crate::text::{chars_of, hex_fixed, lit, push_char, push_hex};
use crate::hooks::fingerprint::firmware::{generate_firmware_tables, firmware_spec, SpoofedFirmwareTables};

pub mod firmware;

verus! {

/// SMBIOS provider signature `RSMB` as a little-endian four-character code.
pub const RSMB_PROVIDER: u32 = 0x424D_5352;

/// ACPI provider signature `ACPI` as a little-endian four-character code.
pub const ACPI_PROVIDER: u32 = 0x4950_4341;

/// The single SMBIOS table id.
pub const RSMB_TABLE_ID: u32 = 0;

/// FNV-1a 128-bit offset basis.
pub const FNV_OFFSET: u128 = 0x6C62_272E_07BB_0142_62B8_2175_6295_C58D;

/// FNV-1a 128-bit prime.
pub const FNV_PRIME: u128 = 0x0000_0000_0000_0100_0000_0000_0000_013B;

// ─── Derivation ──────────────────────────────────────────────────────────────

/// One FNV-1a step: xor the byte in, multiply by the prime (wrapping).
pub open spec fn fnv_step(h: u128, b: u8) -> u128 {
    (h ^ (b as u128)).wrapping_mul(FNV_PRIME)
}

/// FNV-1a over a byte sequence starting from `h`.
pub open spec fn fnv_fold(h: u128, s: Seq<u8>) -> u128
    decreases s.len(),
{
    if s.len() == 0 {
        h
    } else {
        fnv_step(fnv_fold(h, s.drop_last()), s.last())
    }
}

/// The hash of a token in a domain: the domain, a 0xFF separator, then the
/// token.
pub open spec fn derive_hash(token: Seq<u8>, domain: Seq<u8>) -> u128 {
    fnv_fold(fnv_step(fnv_fold(FNV_OFFSET, domain), 0xFF), token)
}

/// The `n` least significant bytes of `h`, least significant first.
pub open spec fn le_bytes_spec(h: u128, n: nat) -> Seq<u8>
    decreases n,
{
    if n == 0 {
        seq![]
    } else {
        seq![(h % 256) as u8] + le_bytes_spec(h / 256, (n - 1) as nat)
    }
}

/// The 16 bytes derived from a token in a domain.
pub open spec fn derive_spec(token: Seq<u8>, domain: Seq<u8>) -> Seq<u8> {
    le_bytes_spec(derive_hash(token, domain), 16)
}

/// FNV-1a of a byte slice from a starting value.
fn fnv_over(h0: u128, s: &[u8]) -> (r: u128)
    ensures
        r == fnv_fold(h0, s@),
{
    let mut h = h0;
    let mut i: usize = 0;
    while i < s.len()
        invariant
            0 <= i <= s@.len(),
            h == fnv_fold(h0, s@.subrange(0, i as int)),
        decreases s@.len() - i,
    {
        proof {
            let p = s@.subrange(0, i + 1);
            assert(p.drop_last() =~= s@.subrange(0, i as int));
        }
        h = (h ^ (s[i] as u128)).wrapping_mul(FNV_PRIME);
        i = i + 1;
    }
    proof {
        assert(s@.subrange(0, s@.len() as int) =~= s@);
    }
    h
}

/// The 16 little-endian bytes of a 128-bit value.
fn to_le_bytes_16(h: u128) -> (r: [u8; 16])
    ensures
        r@ == le_bytes_spec(h, 16),
{
    let mut out = [0u8; 16];
    let mut x = h;
    let mut i: usize = 0;
    while i < 16
        invariant
            0 <= i <= 16,
            out@.subrange(0, i as int) + le_bytes_spec(x, (16 - i) as nat) == le_bytes_spec(h, 16),
        decreases 16 - i,
    {
        proof {
            assert(le_bytes_spec(x, (16 - i) as nat) == seq![(x % 256) as u8] + le_bytes_spec(
                x / 256,
                (16 - i - 1) as nat,
            ));
        }
        let ghost before = out@;
        out[i] = (x % 256) as u8;
        proof {
            assert(out@.subrange(0, i + 1) =~= before.subrange(0, i as int).push((x % 256) as u8));
            assert(out@.subrange(0, i + 1) + le_bytes_spec(x / 256, (16 - i - 1) as nat)
                =~= before.subrange(0, i as int) + le_bytes_spec(x, (16 - i) as nat));
        }
        x = x / 256;
        i = i + 1;
    }
    proof {
        assert(out@.subrange(0, 16) =~= out@);
        assert(le_bytes_spec(x, 0) =~= seq![]);
        assert(out@ + seq![] =~= out@);
    }
    out
}

/// Derive 16 bytes from a token for a domain: FNV-1a (128-bit) over the
/// domain, a 0xFF separator, then the token; the hash's little-endian
/// bytes.
pub fn derive_bytes(token: &[u8; 32], domain: &[u8]) -> (r: [u8; 16])
    ensures
        r@ == derive_spec(token@, domain@),
{
    let h = fnv_over(FNV_OFFSET, domain);
    let h = (h ^ 0xFFu128).wrapping_mul(FNV_PRIME);
    let h = fnv_over(h, token.as_slice());
    to_le_bytes_16(h)
}

// ─── Identity strings ────────────────────────────────────────────────────────

/// A little-endian 16-bit value from two bytes.
pub open spec fn u16le(lo: u8, hi: u8) -> nat {
    lo as nat + 256 * (hi as nat)
}

/// The spoofed identifiers.
#[derive(Debug, Clone)]
pub struct SpoofedFingerprint {
    pub video_card_id: String,
    pub network_card_id: String,
    pub hard_drive_id: String,
    pub computer_name: String,
}

/// `PCI\VEN_10DE&DEV_dddd&SUBSYS_ssssSSSS&REV_rr` from the `gpu` bytes.
pub open spec fn gpu_id_spec(b: Seq<u8>) -> Seq<char> {
    "PCI\\VEN_10DE&DEV_"@ + hex_fixed(u16le(b[0], b[1]), 4) + "&SUBSYS_"@ + hex_fixed(
        u16le(b[2], b[3]),
        4,
    ) + hex_fixed(u16le(b[4], b[5]), 4) + "&REV_"@ + hex_fixed((b[6] % 16) as nat, 2)
}

/// The first MAC octet: locally administered, unicast.
pub open spec fn mac_first_octet(b0: u8) -> u8 {
    (b0 | 2) & 0xFE
}

/// `XX-XX-XX-XX-XX-XX` from the `nic` bytes, first octet adjusted.
pub open spec fn mac_spec(b: Seq<u8>) -> Seq<char> {
    hex_fixed(mac_first_octet(b[0]) as nat, 2) + "-"@ + hex_fixed(b[1] as nat, 2) + "-"@
        + hex_fixed(b[2] as nat, 2) + "-"@ + hex_fixed(b[3] as nat, 2) + "-"@ + hex_fixed(
        b[4] as nat,
        2,
    ) + "-"@ + hex_fixed(b[5] as nat, 2)
}

/// `HHHH-LLLL` from the `disk` bytes.
pub open spec fn disk_spec(b: Seq<u8>) -> Seq<char> {
    hex_fixed(u16le(b[0], b[1]), 4) + "-"@ + hex_fixed(u16le(b[2], b[3]), 4)
}

/// Digits then upper-case letters.
pub open spec fn host_charset(v: u8) -> char {
    if v < 10 {
        ((v + 48) as u8) as char
    } else {
        ((v + 55) as u8) as char
    }
}

/// `DESKTOP-` and seven characters of `0-9A-Z` from the `host` bytes.
pub open spec fn hostname_spec(b: Seq<u8>) -> Seq<char> {
    "DESKTOP-"@ + Seq::new(7, |i: int| host_charset(b[i] % 36))
}

fn push_hex_u16(s: &mut String, lo: u8, hi: u8)
    ensures
        final(s)@ == old(s)@ + hex_fixed(u16le(lo, hi), 4),
{
    push_hex(s, (lo as u64) + 256 * (hi as u64), 4);
}

/// The spoofed GPU device id.
pub fn generate_gpu_id(token: &[u8; 32]) -> (r: String)
    ensures
        r@ == gpu_id_spec(derive_spec(token@, "gpu"@.map_values(|c: char| c as u8))),
{
    let d = domain_bytes("gpu");
    let b = derive_bytes(token, d.as_slice());
    let mut s = lit("PCI\\VEN_10DE&DEV_");
    push_hex_u16(&mut s, b[0], b[1]);
    s.append("&SUBSYS_");
    push_hex_u16(&mut s, b[2], b[3]);
    push_hex_u16(&mut s, b[4], b[5]);
    s.append("&REV_");
    push_hex(&mut s, (b[6] % 16) as u64, 2);
    s
}

/// The spoofed network card MAC address.
pub fn generate_mac_address(token: &[u8; 32]) -> (r: String)
    ensures
        r@ == mac_spec(derive_spec(token@, "nic"@.map_values(|c: char| c as u8))),
{
    let d = domain_bytes("nic");
    let b = derive_bytes(token, d.as_slice());
    let first = (b[0] | 0x02) & 0xFE;
    let mut s = String::new();
    push_hex(&mut s, first as u64, 2);
    let mut k: usize = 1;
    while k < 6
        invariant
            1 <= k <= 6,
            b@ == derive_spec(token@, "nic"@.map_values(|c: char| c as u8)),
            s@ == mac_prefix(b@, k as nat),
        decreases 6 - k,
    {
        s.append("-");
        push_hex(&mut s, b[k] as u64, 2);
        k = k + 1;
    }
    proof {
        lemma_mac_prefix_full(b@);
    }
    s
}

/// The MAC text up to octet `k`.
pub open spec fn mac_prefix(b: Seq<u8>, k: nat) -> Seq<char>
    decreases k,
{
    if k <= 1 {
        hex_fixed(mac_first_octet(b[0]) as nat, 2)
    } else {
        mac_prefix(b, (k - 1) as nat) + "-"@ + hex_fixed(b[k - 1] as nat, 2)
    }
}

/// The MAC prefix over all six octets is the MAC text.
proof fn lemma_mac_prefix_full(b: Seq<u8>)
    ensures
        mac_prefix(b, 6) == mac_spec(b),
{
    reveal_with_fuel(mac_prefix, 7);
    assert(mac_prefix(b, 6) =~= mac_spec(b));
}

/// The spoofed disk serial.
pub fn generate_disk_serial(token: &[u8; 32]) -> (r: String)
    ensures
        r@ == disk_spec(derive_spec(token@, "disk"@.map_values(|c: char| c as u8))),
{
    let d = domain_bytes("disk");
    let b = derive_bytes(token, d.as_slice());
    let mut s = String::new();
    push_hex_u16(&mut s, b[0], b[1]);
    s.append("-");
    push_hex_u16(&mut s, b[2], b[3]);
    s
}

/// The spoofed host name.
pub fn generate_hostname(token: &[u8; 32]) -> (r: String)
    ensures
        r@ == hostname_spec(derive_spec(token@, "host"@.map_values(|c: char| c as u8))),
{
    let d = domain_bytes("host");
    let b = derive_bytes(token, d.as_slice());
    let mut s = lit("DESKTOP-");
    let ghost start = s@;
    let mut i: usize = 0;
    while i < 7
        invariant
            0 <= i <= 7,
            start == "DESKTOP-"@,
            s@ == start + Seq::new(i as nat, |j: int| host_charset(b@[j] % 36)),
        decreases 7 - i,
    {
        let v: u8 = b[i] % 36;
        let c: char = if v < 10 {
            (v + 48) as char
        } else {
            (v + 55) as char
        };
        proof {
            assert(c == host_charset(b@[i as int] % 36));
        }
        let ghost before = s@;
        push_char(&mut s, c);
        proof {
            assert(Seq::new((i + 1) as nat, |j: int| host_charset(b@[j] % 36)) =~= Seq::new(
                i as nat,
                |j: int| host_charset(b@[j] % 36),
            ).push(c));
            assert(s@ =~= start + Seq::new((i + 1) as nat, |j: int| host_charset(b@[j] % 36)));
        }
        i = i + 1;
    }
    s
}

/// The bytes of an ASCII domain label.
fn domain_bytes(label: &str) -> (r: Vec<u8>)
    ensures
        r@ == label@.map_values(|c: char| c as u8),
{
    let cs = chars_of(label);
    let mut out: Vec<u8> = Vec::new();
    let mut i: usize = 0;
    while i < cs.len()
        invariant
            0 <= i <= cs@.len(),
            cs@ == label@,
            out@ == cs@.subrange(0, i as int).map_values(|c: char| c as u8),
        decreases cs@.len() - i,
    {
        out.push(cs[i] as u8);
        proof {
            assert(out@ =~= cs@.subrange(0, i + 1).map_values(|c: char| c as u8));
        }
        i = i + 1;
    }
    proof {
        assert(cs@.subrange(0, cs@.len() as int) =~= cs@);
    }
    out
}

/// The identity derived from a token.
pub open spec fn fingerprint_spec(token: Seq<u8>, fp: SpoofedFingerprint) -> bool {
    &&& fp.video_card_id@ == gpu_id_spec(derive_spec(token, "gpu"@.map_values(|c: char| c as u8)))
    &&& fp.network_card_id@ == mac_spec(derive_spec(token, "nic"@.map_values(|c: char| c as u8)))
    &&& fp.hard_drive_id@ == disk_spec(derive_spec(token, "disk"@.map_values(|c: char| c as u8)))
    &&& fp.computer_name@ == hostname_spec(derive_spec(token, "host"@.map_values(|c: char| c as u8)))
}

/// All four identifiers for a token.
pub fn generate_fingerprint(token: &[u8; 32]) -> (r: SpoofedFingerprint)
    ensures
        fingerprint_spec(token@, r),
{
    SpoofedFingerprint {
        video_card_id: generate_gpu_id(token),
        network_card_id: generate_mac_address(token),
        hard_drive_id: generate_disk_serial(token),
        computer_name: generate_hostname(token),
    }
}

/// The identity is a function of the token: two generated fingerprints of
/// one token agree in every field.
pub proof fn lemma_fingerprint_deterministic(token: Seq<u8>, a: SpoofedFingerprint, b: SpoofedFingerprint)
    requires
        fingerprint_spec(token, a),
        fingerprint_spec(token, b),
    ensures
        a.video_card_id@ == b.video_card_id@,
        a.network_card_id@ == b.network_card_id@,
        a.hard_drive_id@ == b.hard_drive_id@,
        a.computer_name@ == b.computer_name@,
{
}


/// The spoofed identity and firmware tables once initialized.
pub struct FingerprintStore {
    pub spoofed: Option<SpoofedFingerprint>,
    pub firmware: Option<SpoofedFirmwareTables>,
}

impl FingerprintStore {
    /// Nothing initialized.
    pub fn new() -> (r: Self)
        ensures
            r.spoofed is None,
            r.firmware is None,
    {
        FingerprintStore { spoofed: None, firmware: None }
    }
}

/// Derive the spoofed identity and firmware tables from the session token.
/// Values already set are kept (the first initialization wins).
pub fn init(store: &mut FingerprintStore, session_token: &[u8; 32])
    ensures
        match old(store).spoofed {
            Some(f) => final(store).spoofed == Some(f),
            None => final(store).spoofed matches Some(f) && fingerprint_spec(session_token@, f),
        },
        match old(store).firmware {
            Some(f) => final(store).firmware == Some(f),
            None => final(store).firmware matches Some(f) && firmware_spec(session_token@, f),
        },
{
    let fp = generate_fingerprint(session_token);
    let fw = generate_firmware_tables(session_token);
    if store.spoofed.is_none() {
        store.spoofed = Some(fp);
    }
    if store.firmware.is_none() {
        store.firmware = Some(fw);
    }
}

/// The spoofed identity, once initialized.
pub fn spoofed(store: &FingerprintStore) -> (r: Option<&SpoofedFingerprint>)
    ensures
        match store.spoofed {
            Some(f) => r == Some(&f),
            None => r is None,
        },
{
    match &store.spoofed {
        Some(f) => Some(f),
        None => None,
    }
}

/// Hook the identity query. Without the game's function to hook this
/// succeeds and does nothing.
pub fn install(fingerprint_addr: usize) -> (r: Result<(), String>)
    ensures
        r is Ok,
{
    Ok(())
}

/// Hook the firmware-table queries. Without the system functions to hook
/// this succeeds and does nothing.
pub fn install_firmware_hooks() -> (r: Result<(), String>)
    ensures
        r is Ok,
{
    Ok(())
}

/// Remove the identity hooks. Without hooks in place this does nothing.
pub fn remove() {
}

} // verus!
