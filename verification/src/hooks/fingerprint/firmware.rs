//! Spoofed firmware tables: an SMBIOS blob (BIOS, system, baseboard and
//! chassis structures with their strings) and five ACPI table headers, all
//! derived from the session token, plus the lookups the firmware-table
//! hooks answer with.
use vstd::prelude::*;
use crate::text::{chars_of, dec, hex_fixed, lit, push_decimal, push_hex, push_chars};
use crate::hooks::fingerprint::{
    derive_bytes, derive_spec, u16le, ACPI_PROVIDER, RSMB_PROVIDER, RSMB_TABLE_ID,
};

verus! {

/// Bytes of ASCII text.
pub open spec fn ascii(s: Seq<char>) -> Seq<u8> {
    s.map_values(|c: char| c as u8)
}

/// Append bytes.
pub fn append_bytes(out: &mut Vec<u8>, b: &[u8])
    ensures
        final(out)@ == old(out)@ + b@,
{
    let mut i: usize = 0;
    let ghost start = out@;
    while i < b.len()
        invariant
            0 <= i <= b@.len(),
            out@ == start + b@.subrange(0, i as int),
        decreases b@.len() - i,
    {
        out.push(b[i]);
        proof {
            assert(out@ =~= start + b@.subrange(0, i + 1));
        }
        i = i + 1;
    }
    proof {
        assert(b@.subrange(0, b@.len() as int) =~= b@);
    }
}

/// Append the bytes of ASCII text.
pub fn append_ascii(out: &mut Vec<u8>, s: &str)
    ensures
        final(out)@ == old(out)@ + ascii(s@),
{
    let cs = chars_of(s);
    let mut i: usize = 0;
    let ghost start = out@;
    while i < cs.len()
        invariant
            0 <= i <= cs@.len(),
            cs@ == s@,
            out@ == start + ascii(cs@.subrange(0, i as int)),
        decreases cs@.len() - i,
    {
        out.push(cs[i] as u8);
        proof {
            assert(ascii(cs@.subrange(0, i + 1)) =~= ascii(cs@.subrange(0, i as int)).push(
                cs@[i as int] as u8,
            ));
            assert(out@ =~= start + ascii(cs@.subrange(0, i + 1)));
        }
        i = i + 1;
    }
    proof {
        assert(cs@.subrange(0, cs@.len() as int) =~= cs@);
    }
}

/// The 4 little-endian bytes of a 32-bit value.
pub open spec fn le32(v: u32) -> Seq<u8> {
    seq![
        (v % 256) as u8,
        ((v / 256) % 256) as u8,
        ((v / 65536) % 256) as u8,
        ((v / 16777216) % 256) as u8,
    ]
}

fn append_le32(out: &mut Vec<u8>, v: u32)
    ensures
        final(out)@ == old(out)@ + le32(v),
{
    let ghost start = out@;
    out.push((v % 256) as u8);
    out.push(((v / 256) % 256) as u8);
    out.push(((v / 65536) % 256) as u8);
    out.push(((v / 16777216) % 256) as u8);
    proof {
        assert(out@ =~= start + le32(v));
    }
}

/// The four-character code of a tag, first character least significant.
pub open spec fn fourcc_spec(tag: Seq<u8>) -> u32 {
    (tag[0] as nat + 256 * (tag[1] as nat) + 65536 * (tag[2] as nat) + 16777216 * (tag[3] as nat)) as u32
}

/// The four-character code of a tag.
pub fn fourcc(tag: [u8; 4]) -> (r: u32)
    ensures
        r == fourcc_spec(tag@),
{
    (tag[0] as u32) + 256 * (tag[1] as u32) + 65536 * (tag[2] as u32) + 16777216 * (tag[3] as u32)
}

// ─── SMBIOS strings ──────────────────────────────────────────────────────────

/// An SMBIOS string set: each string followed by a zero byte, then a final
/// zero byte.
pub open spec fn smbios_strings_spec(strings: Seq<Seq<char>>) -> Seq<u8>
    decreases strings.len(),
{
    if strings.len() == 0 {
        seq![0u8]
    } else {
        ascii(strings[0]) + seq![0u8] + smbios_strings_spec(strings.drop_first())
    }
}

/// The character sequences of string slices.
pub open spec fn strs_view(v: Seq<&str>) -> Seq<Seq<char>> {
    v.map_values(|s: &str| s@)
}

/// Concatenation of string entries each followed by a zero byte.
pub open spec fn entries_spec(strings: Seq<Seq<char>>) -> Seq<u8>
    decreases strings.len(),
{
    if strings.len() == 0 {
        seq![]
    } else {
        entries_spec(strings.drop_last()) + ascii(strings.last()) + seq![0u8]
    }
}

proof fn lemma_strings_split(strings: Seq<Seq<char>>)
    ensures
        smbios_strings_spec(strings) == entries_spec(strings) + seq![0u8],
    decreases strings.len(),
{
    if strings.len() > 0 {
        lemma_strings_split(strings.drop_first());
        lemma_entries_front(strings);
        assert(smbios_strings_spec(strings) =~= entries_spec(strings) + seq![0u8]);
    } else {
        assert(entries_spec(strings) + seq![0u8] =~= seq![0u8]);
    }
}

proof fn lemma_entries_front(strings: Seq<Seq<char>>)
    requires
        strings.len() > 0,
    ensures
        entries_spec(strings) == ascii(strings[0]) + seq![0u8] + entries_spec(strings.drop_first()),
    decreases strings.len(),
{
    if strings.len() == 1 {
        assert(strings.drop_last() =~= seq![]);
        assert(strings.drop_first() =~= seq![]);
        assert(entries_spec(strings.drop_first()) =~= seq![]);
        assert(entries_spec(strings) =~= ascii(strings[0]) + seq![0u8] + entries_spec(strings.drop_first()));
    } else {
        lemma_entries_front(strings.drop_last());
        assert(strings.drop_last().drop_first() =~= strings.drop_first().drop_last());
        assert(strings.drop_first().last() == strings.last());
        assert(entries_spec(strings) =~= ascii(strings[0]) + seq![0u8] + entries_spec(strings.drop_first()));
    }
}

/// Append an SMBIOS string set.
pub fn append_smbios_strings(out: &mut Vec<u8>, strings: &[&str])
    ensures
        final(out)@ == old(out)@ + smbios_strings_spec(strs_view(strings@)),
{
    let ghost start = out@;
    let mut i: usize = 0;
    while i < strings.len()
        invariant
            0 <= i <= strings@.len(),
            out@ == start + entries_spec(strs_view(strings@).subrange(0, i as int)),
        decreases strings@.len() - i,
    {
        append_ascii(out, strings[i]);
        out.push(0);
        proof {
            let p = strs_view(strings@).subrange(0, i + 1);
            assert(p.drop_last() =~= strs_view(strings@).subrange(0, i as int));
            assert(out@ =~= start + entries_spec(p));
        }
        i = i + 1;
    }
    out.push(0);
    proof {
        assert(strs_view(strings@).subrange(0, strings@.len() as int) =~= strs_view(strings@));
        lemma_strings_split(strs_view(strings@));
        assert(out@ =~= start + smbios_strings_spec(strs_view(strings@)));
    }
}

// ─── Derived text ────────────────────────────────────────────────────────────

/// `prefix` then the first five derived bytes in upper-case hex.
pub open spec fn serial_spec(b: Seq<u8>, prefix: Seq<char>) -> Seq<char> {
    prefix + hex_fixed(b[0] as nat, 2) + hex_fixed(b[1] as nat, 2) + hex_fixed(b[2] as nat, 2)
        + hex_fixed(b[3] as nat, 2) + hex_fixed(b[4] as nat, 2)
}

/// A serial number: `prefix` and ten hex digits derived in `domain`.
pub fn generate_serial(token: &[u8; 32], domain: &[u8], prefix: &str) -> (r: String)
    ensures
        r@ == serial_spec(derive_spec(token@, domain@), prefix@),
{
    let b = derive_bytes(token, domain);
    let mut s = lit(prefix);
    push_hex(&mut s, b[0] as u64, 2);
    push_hex(&mut s, b[1] as u64, 2);
    push_hex(&mut s, b[2] as u64, 2);
    push_hex(&mut s, b[3] as u64, 2);
    push_hex(&mut s, b[4] as u64, 2);
    s
}

/// Decimal text padded with leading zeros to `w` characters.
pub open spec fn pad_zeros(s: Seq<char>, w: nat) -> Seq<char> {
    if s.len() < w {
        Seq::new((w - s.len()) as nat, |i: int| '0') + s
    } else {
        s
    }
}

/// Append `n` in decimal padded with zeros to `width` digits (`{:0width}`).
pub fn push_decimal_padded(s: &mut String, n: u64, width: usize)
    ensures
        final(s)@ == old(s)@ + pad_zeros(dec(n as nat), width as nat),
{
    let mut d = String::new();
    push_decimal(&mut d, n);
    let len = d.as_str().unicode_len();
    let ghost start = s@;
    if len < width {
        let mut k: usize = 0;
        while k < width - len
            invariant
                0 <= k <= width - len,
                len < width,
                s@ == start + Seq::new(k as nat, |i: int| '0'),
            decreases width - len - k,
        {
            crate::text::push_char(s, '0');
            proof {
                assert(s@ =~= start + Seq::new((k + 1) as nat, |i: int| '0'));
            }
            k = k + 1;
        }
    }
    s.append(d.as_str());
    proof {
        assert(d@ =~= seq![] + dec(n as nat));
        if len < width {
            assert(s@ =~= start + pad_zeros(dec(n as nat), width as nat));
        } else {
            assert(s@ =~= start + pad_zeros(dec(n as nat), width as nat));
        }
    }
}

/// BIOS version `1.NN.NNNN` from the BIOS bytes.
pub open spec fn bios_version_spec(b: Seq<u8>) -> Seq<char> {
    "1."@ + pad_zeros(dec((b[0] % 20) as nat), 2) + "."@ + pad_zeros(dec(u16le(b[1], b[2])), 4)
}

/// The domain labels as bytes.
pub open spec fn label(s: Seq<char>) -> Seq<u8> {
    ascii(s)
}

fn label_bytes(s: &str) -> (r: Vec<u8>)
    ensures
        r@ == label(s@),
{
    let mut v: Vec<u8> = Vec::new();
    append_ascii(&mut v, s);
    proof {
        assert(v@ =~= seq![] + ascii(s@));
    }
    v
}

// ─── SMBIOS structures ───────────────────────────────────────────────────────

/// The BIOS information structure (type 0) with its strings.
pub open spec fn bios_info_spec(token: Seq<u8>) -> Seq<u8> {
    let b = derive_spec(token, label("smbios-bios"@));
    seq![
        0u8, 0x18, 0x00, 0x00, 1, 2, 0, 0, 3, 0x20, 0, 0, 0, 0, 0, 0, 0, 0, 0x03, 0x0D, 3, 2, 0xFF,
        0xFF,
    ] + smbios_strings_spec(
        seq!["American Megatrends Inc."@, bios_version_spec(b), "05/18/2023"@],
    )
}

/// Append the BIOS information structure.
pub fn append_smbios_bios_info(out: &mut Vec<u8>, token: &[u8; 32])
    ensures
        final(out)@ == old(out)@ + bios_info_spec(token@),
{
    let d = label_bytes("smbios-bios");
    let b = derive_bytes(token, d.as_slice());
    let formatted: [u8; 24] = [
        0u8, 0x18, 0x00, 0x00, 1, 2, 0, 0, 3, 0x20, 0, 0, 0, 0, 0, 0, 0, 0, 0x03, 0x0D, 3, 2, 0xFF,
        0xFF,
    ];
    let ghost start = out@;
    append_bytes(out, formatted.as_slice());
    let mut version = lit("1.");
    push_decimal_padded(&mut version, (b[0] % 20) as u64, 2);
    version.append(".");
    push_decimal_padded(&mut version, (b[1] as u64) + 256 * (b[2] as u64), 4);
    let strings = [ "American Megatrends Inc.", version.as_str(), "05/18/2023" ];
    append_smbios_strings(out, strings.as_slice());
    proof {
        assert(strs_view(strings@) =~= seq!["American Megatrends Inc."@, bios_version_spec(b@), "05/18/2023"@]);
        assert(formatted@ =~= seq![
            0u8, 0x18, 0x00, 0x00, 1, 2, 0, 0, 3, 0x20, 0, 0, 0, 0, 0, 0, 0, 0, 0x03, 0x0D, 3, 2, 0xFF,
            0xFF,
        ]);
        assert(out@ =~= start + bios_info_spec(token@));
    }
}

/// The SMBIOS UUID: the derived bytes with the version (4) and variant
/// (RFC 4122) bits set.
pub open spec fn uuid_spec(token: Seq<u8>) -> Seq<u8> {
    let u = derive_spec(token, label("smbios-uuid"@));
    u.update(6, (u[6] & 0x0F) | 0x40).update(8, (u[8] & 0x3F) | 0x80)
}

/// The SMBIOS UUID of a token.
pub fn generate_smbios_uuid(token: &[u8; 32]) -> (r: [u8; 16])
    ensures
        r@ == uuid_spec(token@),
{
    let d = label_bytes("smbios-uuid");
    let mut u = derive_bytes(token, d.as_slice());
    u[6] = (u[6] & 0x0F) | 0x40;
    u[8] = (u[8] & 0x3F) | 0x80;
    u
}

/// The system information structure (type 1) with its strings.
pub open spec fn system_info_spec(token: Seq<u8>) -> Seq<u8> {
    seq![1u8, 0x1B, 0x00, 0x01, 1, 2, 3, 4] + uuid_spec(token) + seq![0x06u8, 5, 6]
        + smbios_strings_spec(
        seq![
            "Dell Inc."@,
            "OptiPlex 7070"@,
            "A00"@,
            serial_spec(derive_spec(token, label("smbios-system-serial"@)), "SYS"@),
            serial_spec(derive_spec(token, label("smbios-sku"@)), "SKU"@),
            "OptiPlex"@,
        ],
    )
}

/// Append the system information structure.
pub fn append_smbios_system_info(out: &mut Vec<u8>, token: &[u8; 32])
    ensures
        final(out)@ == old(out)@ + system_info_spec(token@),
{
    let uuid = generate_smbios_uuid(token);
    let d1 = label_bytes("smbios-system-serial");
    let serial = generate_serial(token, d1.as_slice(), "SYS");
    let d2 = label_bytes("smbios-sku");
    let sku = generate_serial(token, d2.as_slice(), "SKU");
    let head: [u8; 8] = [1u8, 0x1B, 0x00, 0x01, 1, 2, 3, 4];
    let tail: [u8; 3] = [0x06u8, 5, 6];
    let ghost start = out@;
    append_bytes(out, head.as_slice());
    append_bytes(out, uuid.as_slice());
    append_bytes(out, tail.as_slice());
    let strings = [
        "Dell Inc.",
        "OptiPlex 7070",
        "A00",
        serial.as_str(),
        sku.as_str(),
        "OptiPlex",
    ];
    append_smbios_strings(out, strings.as_slice());
    proof {
        assert(head@ =~= seq![1u8, 0x1B, 0x00, 0x01, 1, 2, 3, 4]);
        assert(tail@ =~= seq![0x06u8, 5, 6]);
        assert(strs_view(strings@) =~= seq![
            "Dell Inc."@,
            "OptiPlex 7070"@,
            "A00"@,
            serial_spec(derive_spec(token@, label("smbios-system-serial"@)), "SYS"@),
            serial_spec(derive_spec(token@, label("smbios-sku"@)), "SKU"@),
            "OptiPlex"@,
        ]);
        assert(out@ =~= start + system_info_spec(token@));
    }
}

/// The baseboard information structure (type 2) with its strings.
pub open spec fn baseboard_info_spec(token: Seq<u8>) -> Seq<u8> {
    seq![2u8, 0x0F, 0x00, 0x02, 1, 2, 3, 4, 5, 0x0A, 0x00, 0x03, 0, 0, 0x0A] + smbios_strings_spec(
        seq![
            "Dell Inc."@,
            "0T2HR0"@,
            "A02"@,
            serial_spec(derive_spec(token, label("smbios-board-serial"@)), "BRD"@),
            serial_spec(derive_spec(token, label("smbios-board-asset"@)), "AST"@),
        ],
    )
}

/// Append the baseboard information structure.
pub fn append_smbios_baseboard_info(out: &mut Vec<u8>, token: &[u8; 32])
    ensures
        final(out)@ == old(out)@ + baseboard_info_spec(token@),
{
    let d1 = label_bytes("smbios-board-serial");
    let serial = generate_serial(token, d1.as_slice(), "BRD");
    let d2 = label_bytes("smbios-board-asset");
    let asset = generate_serial(token, d2.as_slice(), "AST");
    let head: [u8; 15] = [2u8, 0x0F, 0x00, 0x02, 1, 2, 3, 4, 5, 0x0A, 0x00, 0x03, 0, 0, 0x0A];
    let ghost start = out@;
    append_bytes(out, head.as_slice());
    let strings = ["Dell Inc.", "0T2HR0", "A02", serial.as_str(), asset.as_str()];
    append_smbios_strings(out, strings.as_slice());
    proof {
        assert(head@ =~= seq![2u8, 0x0F, 0x00, 0x02, 1, 2, 3, 4, 5, 0x0A, 0x00, 0x03, 0, 0, 0x0A]);
        assert(strs_view(strings@) =~= seq![
            "Dell Inc."@,
            "0T2HR0"@,
            "A02"@,
            serial_spec(derive_spec(token@, label("smbios-board-serial"@)), "BRD"@),
            serial_spec(derive_spec(token@, label("smbios-board-asset"@)), "AST"@),
        ]);
        assert(out@ =~= start + baseboard_info_spec(token@));
    }
}

/// The chassis information structure (type 3) with its strings.
pub open spec fn chassis_info_spec(token: Seq<u8>) -> Seq<u8> {
    seq![
        3u8, 0x16, 0x00, 0x03, 1, 0x03, 2, 3, 0, 0, 0, 0, 0, 0, 0, 0, 0, 0x01, 0x03, 0x03, 0, 0,
    ] + smbios_strings_spec(
        seq![
            "Dell Inc."@,
            serial_spec(derive_spec(token, label("smbios-chassis-serial"@)), "CHS"@),
            serial_spec(derive_spec(token, label("smbios-chassis-asset"@)), "TAG"@),
        ],
    )
}

/// Append the chassis information structure.
pub fn append_smbios_chassis_info(out: &mut Vec<u8>, token: &[u8; 32])
    ensures
        final(out)@ == old(out)@ + chassis_info_spec(token@),
{
    let d1 = label_bytes("smbios-chassis-serial");
    let serial = generate_serial(token, d1.as_slice(), "CHS");
    let d2 = label_bytes("smbios-chassis-asset");
    let asset = generate_serial(token, d2.as_slice(), "TAG");
    let head: [u8; 22] = [
        3u8, 0x16, 0x00, 0x03, 1, 0x03, 2, 3, 0, 0, 0, 0, 0, 0, 0, 0, 0, 0x01, 0x03, 0x03, 0, 0,
    ];
    let ghost start = out@;
    append_bytes(out, head.as_slice());
    let strings = ["Dell Inc.", serial.as_str(), asset.as_str()];
    append_smbios_strings(out, strings.as_slice());
    proof {
        assert(head@ =~= seq![
            3u8, 0x16, 0x00, 0x03, 1, 0x03, 2, 3, 0, 0, 0, 0, 0, 0, 0, 0, 0, 0x01, 0x03, 0x03, 0, 0,
        ]);
        assert(strs_view(strings@) =~= seq![
            "Dell Inc."@,
            serial_spec(derive_spec(token@, label("smbios-chassis-serial"@)), "CHS"@),
            serial_spec(derive_spec(token@, label("smbios-chassis-asset"@)), "TAG"@),
        ]);
        assert(out@ =~= start + chassis_info_spec(token@));
    }
}

/// The end-of-table structure (type 127).
pub open spec fn end_of_table_spec() -> Seq<u8> {
    seq![127u8, 4, 0x7F, 0x00, 0, 0]
}

/// Append the end-of-table structure.
pub fn append_smbios_end_of_table(out: &mut Vec<u8>)
    ensures
        final(out)@ == old(out)@ + end_of_table_spec(),
{
    let e: [u8; 6] = [127u8, 4, 0x7F, 0x00, 0, 0];
    append_bytes(out, e.as_slice());
    proof {
        assert(e@ =~= end_of_table_spec());
    }
}

// ─── ACPI headers ────────────────────────────────────────────────────────────

/// Upper-case hex digit of the low nibble, as a byte.
pub open spec fn hex_nibble_spec(v: u8) -> u8 {
    let n = v & 0x0F;
    if n < 10 {
        (n + 48) as u8
    } else {
        (n + 55) as u8
    }
}

/// Upper-case hex digit of the low nibble.
pub fn hex_nibble(value: u8) -> (r: u8)
    ensures
        r == hex_nibble_spec(value),
{
    let n = value & 0x0F;
    assert(n < 16) by (bit_vector)
        requires
            n == value & 0x0F,
    ;
    if n < 10 {
        n + 48
    } else {
        n + 55
    }
}

/// Sum of bytes modulo 256.
pub open spec fn byte_sum(s: Seq<u8>) -> u8
    decreases s.len(),
{
    if s.len() == 0 {
        0
    } else {
        ((byte_sum(s.drop_last()) as nat + s.last() as nat) % 256) as u8
    }
}

/// The header before its checksum is filled in.
pub open spec fn acpi_raw_spec(token: Seq<u8>, signature: Seq<u8>, domain: Seq<u8>) -> Seq<u8> {
    let b = derive_spec(token, domain);
    signature + le32(36) + seq![2u8, 0u8] + ascii("DELL  "@) + seq![
        'T' as u8,
        'Q' as u8,
        'F' as u8,
        'W' as u8,
        hex_nibble_spec(b[0] >> 4),
        hex_nibble_spec(b[0]),
        hex_nibble_spec(b[1] >> 4),
        hex_nibble_spec(b[1]),
    ] + seq![b[2], b[3], b[4], b[5]] + ascii("MSFT"@) + le32(0x0001_0013)
}

/// A 36-byte ACPI table header: signature, length 36, revision 2, checksum
/// (byte 9) making the byte sum zero, OEM `DELL  `, OEM table id `TQFW` and
/// four hex digits, OEM revision and creator `MSFT` 0x00010013.
pub open spec fn acpi_header_spec(token: Seq<u8>, signature: Seq<u8>, domain: Seq<u8>) -> Seq<u8> {
    let raw = acpi_raw_spec(token, signature, domain);
    raw.update(9, ((256 - byte_sum(raw) as int) % 256) as u8)
}

/// Build an ACPI table header for a signature, derived in `domain`.
pub fn generate_acpi_header(token: &[u8; 32], signature: [u8; 4], domain: &[u8]) -> (r: Vec<u8>)
    ensures
        r@ == acpi_header_spec(token@, signature@, domain@),
        r@.len() == 36,
{
    let b = derive_bytes(token, domain);
    let mut table: Vec<u8> = Vec::new();
    append_bytes(&mut table, signature.as_slice());
    append_le32(&mut table, 36);
    table.push(2);
    table.push(0);
    append_ascii(&mut table, "DELL  ");
    let id: [u8; 8] = [
        'T' as u8,
        'Q' as u8,
        'F' as u8,
        'W' as u8,
        hex_nibble(b[0] >> 4),
        hex_nibble(b[0]),
        hex_nibble(b[1] >> 4),
        hex_nibble(b[1]),
    ];
    append_bytes(&mut table, id.as_slice());
    let rev: [u8; 4] = [b[2], b[3], b[4], b[5]];
    append_bytes(&mut table, rev.as_slice());
    append_ascii(&mut table, "MSFT");
    append_le32(&mut table, 0x0001_0013);
    let ghost raw = table@;
    proof {
        reveal_strlit("DELL  ");
        reveal_strlit("MSFT");
        assert(id@ =~= seq![
            'T' as u8,
            'Q' as u8,
            'F' as u8,
            'W' as u8,
            hex_nibble_spec(b@[0] >> 4),
            hex_nibble_spec(b@[0]),
            hex_nibble_spec(b@[1] >> 4),
            hex_nibble_spec(b@[1]),
        ]);
        assert(rev@ =~= seq![b@[2], b@[3], b@[4], b@[5]]);
        assert(raw =~= acpi_raw_spec(token@, signature@, domain@));
    }
    let mut sum: u8 = 0;
    let mut i: usize = 0;
    while i < table.len()
        invariant
            0 <= i <= table@.len(),
            table@ == raw,
            sum == byte_sum(raw.subrange(0, i as int)),
        decreases table@.len() - i,
    {
        proof {
            let p = raw.subrange(0, i + 1);
            assert(p.drop_last() =~= raw.subrange(0, i as int));
        }
        sum = sum.wrapping_add(table[i]);
        i = i + 1;
    }
    proof {
        assert(raw.subrange(0, raw.len() as int) =~= raw);
    }
    let checksum = 0u8.wrapping_sub(sum);
    table[9] = checksum;
    table
}

// ─── Tables ──────────────────────────────────────────────────────────────────

/// One spoofed ACPI table.
#[derive(Debug, Clone)]
pub struct SpoofedAcpiTable {
    pub id: u32,
    pub data: Vec<u8>,
}

/// The SMBIOS blob and the ACPI tables.
#[derive(Debug, Clone)]
pub struct SpoofedFirmwareTables {
    pub rsmb: Vec<u8>,
    pub acpi: Vec<SpoofedAcpiTable>,
}

/// The SMBIOS structure table: BIOS, system, baseboard, chassis, end.
pub open spec fn smbios_table_spec(token: Seq<u8>) -> Seq<u8> {
    bios_info_spec(token) + system_info_spec(token) + baseboard_info_spec(token)
        + chassis_info_spec(token) + end_of_table_spec()
}

/// The raw SMBIOS data: version 3.2 header with the table length, then the
/// table.
pub open spec fn rsmb_spec(token: Seq<u8>) -> Seq<u8> {
    let t = smbios_table_spec(token);
    seq![0u8, 3, 2, 0] + le32(t.len() as u32) + t
}

/// The five ACPI signatures and their derivation domains, in order.
pub open spec fn acpi_signature(i: int) -> Seq<u8> {
    if i == 0 {
        ascii("FACP"@)
    } else if i == 1 {
        ascii("APIC"@)
    } else if i == 2 {
        ascii("HPET"@)
    } else if i == 3 {
        ascii("MCFG"@)
    } else {
        ascii("DSDT"@)
    }
}

/// The derivation domain of the `i`-th ACPI table.
pub open spec fn acpi_domain(i: int) -> Seq<u8> {
    if i == 0 {
        ascii("acpi-facp"@)
    } else if i == 1 {
        ascii("acpi-apic"@)
    } else if i == 2 {
        ascii("acpi-hpet"@)
    } else if i == 3 {
        ascii("acpi-mcfg"@)
    } else {
        ascii("acpi-dsdt"@)
    }
}

/// The tables generated from a token.
pub open spec fn firmware_spec(token: Seq<u8>, fw: SpoofedFirmwareTables) -> bool {
    &&& fw.rsmb@ == rsmb_spec(token)
    &&& fw.acpi@.len() == 5
    &&& forall|i: int|
        0 <= i < 5 ==> #[trigger] fw.acpi@[i].id == fourcc_spec(acpi_signature(i))
            && fw.acpi@[i].data@ == acpi_header_spec(token, acpi_signature(i), acpi_domain(i))
}

fn sig(s: &str) -> (r: [u8; 4])
    requires
        s@.len() == 4,
    ensures
        r@ == ascii(s@),
{
    let c = chars_of(s);
    let r = [c[0] as u8, c[1] as u8, c[2] as u8, c[3] as u8];
    proof {
        assert(r@ =~= ascii(s@));
    }
    r
}

fn acpi_table(token: &[u8; 32], signature: &str, domain: &str) -> (r: SpoofedAcpiTable)
    requires
        signature@.len() == 4,
    ensures
        r.id == fourcc_spec(ascii(signature@)),
        r.data@ == acpi_header_spec(token@, ascii(signature@), ascii(domain@)),
{
    let s = sig(signature);
    let d = label_bytes(domain);
    SpoofedAcpiTable { id: fourcc(s), data: generate_acpi_header(token, s, d.as_slice()) }
}

/// Generate the spoofed firmware tables for a token.
pub fn generate_firmware_tables(token: &[u8; 32]) -> (r: SpoofedFirmwareTables)
    ensures
        firmware_spec(token@, r),
{
    let mut table: Vec<u8> = Vec::new();
    append_smbios_bios_info(&mut table, token);
    append_smbios_system_info(&mut table, token);
    append_smbios_baseboard_info(&mut table, token);
    append_smbios_chassis_info(&mut table, token);
    append_smbios_end_of_table(&mut table);
    proof {
        assert(table@ =~= smbios_table_spec(token@));
    }
    let mut rsmb: Vec<u8> = Vec::new();
    rsmb.push(0);
    rsmb.push(3);
    rsmb.push(2);
    rsmb.push(0);
    append_le32(&mut rsmb, table.len() as u32);
    append_bytes(&mut rsmb, table.as_slice());
    proof {
        reveal_strlit("FACP");
        reveal_strlit("APIC");
        reveal_strlit("HPET");
        reveal_strlit("MCFG");
        reveal_strlit("DSDT");
        assert(rsmb@ =~= rsmb_spec(token@));
    }
    let mut acpi: Vec<SpoofedAcpiTable> = Vec::new();
    acpi.push(acpi_table(token, "FACP", "acpi-facp"));
    acpi.push(acpi_table(token, "APIC", "acpi-apic"));
    acpi.push(acpi_table(token, "HPET", "acpi-hpet"));
    acpi.push(acpi_table(token, "MCFG", "acpi-mcfg"));
    acpi.push(acpi_table(token, "DSDT", "acpi-dsdt"));
    SpoofedFirmwareTables { rsmb, acpi }
}


/// The bytes a firmware-table query returns: the SMBIOS blob for `RSMB`
/// table 0, the ACPI table with that id for `ACPI`, nothing otherwise.
pub open spec fn table_bytes_spec(fw: SpoofedFirmwareTables, provider: u32, table_id: u32) -> Option<Seq<u8>> {
    if provider == RSMB_PROVIDER {
        if table_id == RSMB_TABLE_ID {
            Some(fw.rsmb@)
        } else {
            None
        }
    } else if provider == ACPI_PROVIDER {
        if exists|i: int| 0 <= i < fw.acpi@.len() && fw.acpi@[i].id == table_id {
            let i = choose|i: int|
                0 <= i < fw.acpi@.len() && fw.acpi@[i].id == table_id && forall|j: int|
                    0 <= j < i ==> fw.acpi@[j].id != table_id;
            Some(fw.acpi@[i].data@)
        } else {
            None
        }
    } else {
        None
    }
}

/// The bytes of one firmware table.
pub fn firmware_table_bytes<'a>(fw: &'a SpoofedFirmwareTables, provider: u32, table_id: u32) -> (r:
    Option<&'a [u8]>)
    ensures
        match r {
            Some(b) => table_bytes_spec(*fw, provider, table_id) == Some(b@),
            None => table_bytes_spec(*fw, provider, table_id) is None,
        },
{
    if provider == RSMB_PROVIDER {
        if table_id == RSMB_TABLE_ID {
            return Some(fw.rsmb.as_slice());
        }
        return None;
    }
    if provider != ACPI_PROVIDER {
        return None;
    }
    let mut i: usize = 0;
    while i < fw.acpi.len()
        invariant
            0 <= i <= fw.acpi@.len(),
            provider == ACPI_PROVIDER,
            forall|j: int| 0 <= j < i ==> fw.acpi@[j].id != table_id,
        decreases fw.acpi@.len() - i,
    {
        if fw.acpi[i].id == table_id {
            proof {
                let k = choose|k: int|
                    0 <= k < fw.acpi@.len() && fw.acpi@[k].id == table_id && forall|j: int|
                        0 <= j < k ==> fw.acpi@[j].id != table_id;
                assert(0 <= i < fw.acpi@.len() && fw.acpi@[i as int].id == table_id && forall|j: int|
                    0 <= j < i ==> fw.acpi@[j].id != table_id);
                if k < i {
                    assert(fw.acpi@[k].id != table_id);
                } else if k > i {
                    assert(fw.acpi@[i as int].id != table_id);
                }
            }
            return Some(fw.acpi[i].data.as_slice());
        }
        i = i + 1;
    }
    None
}

/// The table ids a provider lists: table 0 for `RSMB`, the ACPI ids in
/// order for `ACPI` (four little-endian bytes each), nothing otherwise.
pub open spec fn enum_bytes_spec(fw: SpoofedFirmwareTables, provider: u32) -> Option<Seq<u8>> {
    if provider == RSMB_PROVIDER {
        Some(le32(RSMB_TABLE_ID))
    } else if provider == ACPI_PROVIDER {
        Some(ids_bytes(fw.acpi@, fw.acpi@.len() as int))
    } else {
        None
    }
}

/// The ids of the first `n` tables as little-endian bytes.
pub open spec fn ids_bytes(t: Seq<SpoofedAcpiTable>, n: int) -> Seq<u8>
    decreases n,
{
    if n <= 0 {
        seq![]
    } else {
        ids_bytes(t, n - 1) + le32(t[n - 1].id)
    }
}

/// List a provider's table ids.
pub fn firmware_table_enum_bytes(fw: &SpoofedFirmwareTables, provider: u32) -> (r: Option<Vec<u8>>)
    ensures
        match r {
            Some(b) => enum_bytes_spec(*fw, provider) == Some(b@),
            None => enum_bytes_spec(*fw, provider) is None,
        },
{
    if provider == RSMB_PROVIDER {
        let mut v: Vec<u8> = Vec::new();
        append_le32(&mut v, RSMB_TABLE_ID);
        proof {
            assert(v@ =~= le32(RSMB_TABLE_ID));
        }
        return Some(v);
    }
    if provider != ACPI_PROVIDER {
        return None;
    }
    let mut v: Vec<u8> = Vec::new();
    let mut i: usize = 0;
    while i < fw.acpi.len()
        invariant
            0 <= i <= fw.acpi@.len(),
            v@ == ids_bytes(fw.acpi@, i as int),
        decreases fw.acpi@.len() - i,
    {
        append_le32(&mut v, fw.acpi[i].id);
        i = i + 1;
    }
    Some(v)
}

/// What a firmware-table call answers with `data` for a caller buffer of
/// `buffer_size` bytes: the size needed, and whether the data is copied
/// (only into a real buffer that is large enough).
pub fn firmware_response(data_len: usize, buffer_is_null: bool, buffer_size: u32) -> (r: (u32, bool))
    ensures
        r.0 == data_len as u32,
        r.1 == (!buffer_is_null && buffer_size >= data_len as u32),
{
    let required = data_len as u32;
    (required, !buffer_is_null && buffer_size >= required)
}

} // verus!
