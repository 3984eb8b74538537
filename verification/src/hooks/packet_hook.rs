//! Packet capture around `WSASend` / `WSARecv`: which buffers are read,
//! the opcode at bytes 2..4 (little-endian), the checksum-mismatch alert,
//! and the message-counter drift watchdog.
use vstd::prelude::*;
use crate::text::push_char;

verus! {

/// Bytes of a packet copied into a capture.
pub const MAX_PACKET_SCAN: usize = 16;

/// Shortest packet that holds an opcode.
pub const MIN_OPCODE_PACKET_LEN: usize = 4;

/// Longest buffer accepted as a packet.
pub const MAX_PACKET_SIZE: usize = 65536;

/// Size of a Winsock `WSABUF` on x64.
pub const WSABUF_SIZE: usize = 16;

/// Alignment of a Winsock `WSABUF` on x64.
pub const WSABUF_ALIGN: usize = 8;

/// `WSARecv`'s return value for an operation still pending.
pub const WSA_IO_PENDING: i32 = -1;

/// The server's checksum-mismatch disconnect opcode.
pub const OPCODE_CHECKSUM_MISMATCH_DISCONNECT: u16 = 0xd799;

/// Interval of the counter watchdog, in milliseconds.
pub const WD_INTERVAL_MS: u64 = 500;

/// Drift beyond which the watchdog warns.
pub const WD_DRIFT_WARN_THRESHOLD: i32 = 60;

/// Which way a packet travels.
#[derive(Debug, Clone, Copy, PartialEq, Eq, Structural)]
pub enum PacketDirection {
    Outbound,
    Inbound,
}

/// The opcode of a packet: bytes 2 and 3, little-endian.
pub open spec fn opcode_spec(p: Seq<u8>) -> Option<u16> {
    if p.len() < 4 {
        None
    } else {
        Some((p[2] as int + 256 * (p[3] as int)) as u16)
    }
}

/// The opcode of a packet, `None` when it is shorter than 4 bytes.
pub fn extract_opcode(packet: &[u8]) -> (r: Option<u16>)
    ensures
        r == opcode_spec(packet@),
{
    if packet.len() < MIN_OPCODE_PACKET_LEN {
        return None;
    }
    let lo = packet[2] as u16;
    let hi = packet[3] as u16;
    Some(hi * 256 + lo)
}

/// Whether a packet is the server's checksum-mismatch disconnect: inbound,
/// long enough, and opcode 0xd799.
pub fn should_alert_on_checksum_mismatch(direction: PacketDirection, packet: &[u8]) -> (r: bool)
    ensures
        r == (direction == PacketDirection::Inbound && opcode_spec(packet@) == Some(
            OPCODE_CHECKSUM_MISMATCH_DISCONNECT,
        )),
{
    match extract_opcode(packet) {
        None => false,
        Some(op) => direction == PacketDirection::Inbound && op == OPCODE_CHECKSUM_MISMATCH_DISCONNECT,
    }
}

/// What is reported for one captured packet.
pub struct PacketCapture {
    pub opcode: u16,
    pub direction: PacketDirection,
    pub payload_size: u32,
    pub payload: Vec<u8>,
    /// The packet is the checksum-mismatch disconnect.
    pub checksum_alert: bool,
}

/// Capture a packet: `None` when it is shorter than 4 bytes; otherwise its
/// opcode, its first 16 bytes (at most) and whether it raises the
/// checksum-mismatch alert.
pub fn capture_packet(buf: &[u8], direction: PacketDirection) -> (r: Option<PacketCapture>)
    ensures
        buf@.len() < MIN_OPCODE_PACKET_LEN <==> r is None,
        r matches Some(c) ==> {
            let scan = if buf@.len() < MAX_PACKET_SCAN {
                buf@.len()
            } else {
                MAX_PACKET_SCAN as nat
            };
            &&& Some(c.opcode) == opcode_spec(buf@)
            &&& c.direction == direction
            &&& c.payload@ == buf@.subrange(0, scan as int)
            &&& c.payload_size == scan
            &&& c.checksum_alert == (direction == PacketDirection::Inbound && c.opcode
                == OPCODE_CHECKSUM_MISMATCH_DISCONNECT)
        },
{
    let opcode = match extract_opcode(buf) {
        None => {
            return None;
        },
        Some(op) => op,
    };
    let scan = if buf.len() < MAX_PACKET_SCAN {
        buf.len()
    } else {
        MAX_PACKET_SCAN
    };
    let mut payload: Vec<u8> = Vec::new();
    let mut i: usize = 0;
    while i < scan
        invariant
            0 <= i <= scan,
            scan <= buf@.len(),
            payload@ == buf@.subrange(0, i as int),
        decreases scan - i,
    {
        payload.push(buf[i]);
        proof {
            assert(payload@ =~= buf@.subrange(0, i + 1));
        }
        i = i + 1;
    }
    Some(
        PacketCapture {
            opcode,
            direction,
            payload_size: scan as u32,
            payload,
            checksum_alert: direction == PacketDirection::Inbound && opcode
                == OPCODE_CHECKSUM_MISMATCH_DISCONNECT,
        },
    )
}

/// Offset of the `i`-th `WSABUF` in a scatter/gather array (saturating).
pub fn wsabuf_offset(i: usize) -> (r: usize)
    ensures
        r == (if i * WSABUF_SIZE <= usize::MAX {
            (i * WSABUF_SIZE) as usize
        } else {
            usize::MAX
        }),
{
    if i <= usize::MAX / WSABUF_SIZE {
        i * WSABUF_SIZE
    } else {
        usize::MAX
    }
}

/// For one outbound buffer of `buf_len` bytes: `None` when it is empty (it
/// is skipped), otherwise the number of bytes checked for readability
/// before it is captured (at most 16).
pub fn send_scan_len(buf_len: usize) -> (r: Option<usize>)
    ensures
        buf_len == 0 ==> r is None,
        buf_len > 0 ==> r == Some(if buf_len < MAX_PACKET_SCAN { buf_len } else { MAX_PACKET_SCAN }),
{
    if buf_len == 0 {
        None
    } else if buf_len < MAX_PACKET_SCAN {
        Some(buf_len)
    } else {
        Some(MAX_PACKET_SCAN)
    }
}

/// The buffers of an outbound scatter/gather send that are captured: the
/// indices of the non-empty ones, in order.
pub fn send_buffers_to_capture(buf_lens: &[usize]) -> (r: Vec<usize>)
    ensures
        forall|k: int| 0 <= k < r@.len() ==> r@[k] < buf_lens@.len() && buf_lens@[r@[k] as int] > 0,
        forall|k: int, l: int| 0 <= k < l < r@.len() ==> r@[k] < r@[l],
        forall|j: int|
            0 <= j < buf_lens@.len() && buf_lens@[j] > 0 ==> exists|k: int|
                0 <= k < r@.len() && r@[k] == j,
{
    let mut out: Vec<usize> = Vec::new();
    let mut i: usize = 0;
    while i < buf_lens.len()
        invariant
            0 <= i <= buf_lens@.len(),
            forall|k: int| 0 <= k < out@.len() ==> out@[k] < i && buf_lens@[out@[k] as int] > 0,
            forall|k: int, l: int| 0 <= k < l < out@.len() ==> out@[k] < out@[l],
            forall|j: int|
                0 <= j < i && buf_lens@[j] > 0 ==> exists|k: int| 0 <= k < out@.len() && out@[k] == j,
        decreases buf_lens@.len() - i,
    {
        if send_scan_len(buf_lens[i]).is_some() {
            let ghost before = out@;
            out.push(i);
            proof {
                assert forall|j: int|
                    0 <= j < i + 1 && buf_lens@[j] > 0 implies exists|k: int|
                        0 <= k < out@.len() && out@[k] == j by {
                    if j < i {
                        let k = choose|k: int| 0 <= k < before.len() && before[k] == j;
                        assert(out@[k] == j);
                    } else {
                        assert(out@[before.len() as int] == j);
                    }
                }
            }
        }
        i = i + 1;
    }
    out
}

/// How a `WSARecv` call ended.
#[derive(Debug, Clone, Copy, PartialEq, Eq, Structural)]
pub enum RecvPath {
    /// Completed synchronously: the buffer can be read.
    Completed,
    /// Pending with an `OVERLAPPED` to complete it: read later.
    Pending,
    /// Pending but no `OVERLAPPED` was given: invalid parameters.
    PendingWithoutOverlapped,
    /// Any other result: nothing to read.
    Failed,
}

/// Classify a `WSARecv` result.
pub fn classify_recv(ret: i32, overlapped_is_null: bool) -> (r: RecvPath)
    ensures
        ret == 0 ==> r == RecvPath::Completed,
        ret == WSA_IO_PENDING ==> r == (if overlapped_is_null {
            RecvPath::PendingWithoutOverlapped
        } else {
            RecvPath::Pending
        }),
        ret != 0 && ret != WSA_IO_PENDING ==> r == RecvPath::Failed,
{
    if ret == 0 {
        RecvPath::Completed
    } else if ret == WSA_IO_PENDING {
        if overlapped_is_null {
            RecvPath::PendingWithoutOverlapped
        } else {
            RecvPath::Pending
        }
    } else {
        RecvPath::Failed
    }
}

/// For a completed receive: the bytes received (capped by the buffer) and
/// the bytes to check for readability (at most 16), or `None` when fewer
/// than 4 bytes arrived.
pub fn recv_capture_len(received_total: usize, buf_len: usize) -> (r: Option<(usize, usize)>)
    ensures
        ({
            let received = if received_total < buf_len { received_total } else { buf_len };
            if received < MIN_OPCODE_PACKET_LEN {
                r is None
            } else {
                r == Some((received, if received < MAX_PACKET_SCAN { received } else { MAX_PACKET_SCAN }))
            }
        }),
{
    let received = if received_total < buf_len {
        received_total
    } else {
        buf_len
    };
    if received < MIN_OPCODE_PACKET_LEN {
        return None;
    }
    let scan = if received < MAX_PACKET_SCAN {
        received
    } else {
        MAX_PACKET_SCAN
    };
    Some((received, scan))
}

/// Whether a buffer length is acceptable for a packet: non-zero and at most
/// 64 KiB.
pub fn packet_len_acceptable(len: usize) -> (r: bool)
    ensures
        r == (len != 0 && len <= MAX_PACKET_SIZE),
{
    len != 0 && len <= MAX_PACKET_SIZE
}

/// What the system reports about the memory region holding an address.
#[derive(Debug, Clone, Copy, PartialEq, Eq, Structural)]
pub struct PageInfo {
    pub state: u32,
    pub protect: u32,
    pub base_address: usize,
    pub region_size: usize,
}

/// Region state of committed memory.
pub const MEM_COMMIT: u32 = 0x1000;

/// Protection flag: no access.
pub const PAGE_NOACCESS: u32 = 0x01;

/// Protection flag: guard page.
pub const PAGE_GUARD: u32 = 0x100;

/// The base protections under which a page can be read.
pub open spec fn readable_protection(base: u32) -> bool {
    base == 0x02 || base == 0x04 || base == 0x08 || base == 0x20 || base == 0x40 || base == 0x80
}

/// `a + b`, saturating at the top of the address space.
pub open spec fn sat_add(a: usize, b: usize) -> int {
    if a + b > usize::MAX {
        usize::MAX as int
    } else {
        a + b
    }
}

/// Whether a packet buffer can be read: a non-null address, a length of 1
/// to 64 KiB, and a committed, readable, non-guard region (`page`, as the
/// memory query reported it; `None` when the query failed) that holds the
/// whole range.
pub open spec fn safe_packet_buffer_spec(addr: usize, len: usize, page: Option<PageInfo>) -> bool {
    addr != 0 && len != 0 && len <= MAX_PACKET_SIZE && match page {
        None => false,
        Some(p) => p.state == MEM_COMMIT && p.protect & PAGE_NOACCESS == 0 && p.protect & PAGE_GUARD == 0
            && readable_protection(p.protect & 0xff) && sat_add(addr, len) <= sat_add(p.base_address, p.region_size),
    }
}

/// Decide whether a packet buffer is safe to read.
pub fn is_safe_packet_buffer(addr: usize, len: usize, page: Option<PageInfo>) -> (r: bool)
    ensures
        r == safe_packet_buffer_spec(addr, len, page),
{
    if addr == 0 || len == 0 || len > MAX_PACKET_SIZE {
        return false;
    }
    let p = match page {
        None => return false,
        Some(p) => p,
    };
    if p.state != MEM_COMMIT {
        return false;
    }
    if p.protect & PAGE_NOACCESS != 0 || p.protect & PAGE_GUARD != 0 {
        return false;
    }
    let base = p.protect & 0xff;
    let readable = base == 0x02 || base == 0x04 || base == 0x08 || base == 0x20 || base == 0x40 || base == 0x80;
    if !readable {
        return false;
    }
    let region_end = p.base_address.saturating_add(p.region_size);
    let range_end = addr.saturating_add(len);
    range_end <= region_end
}

// ─── Counter watchdog ────────────────────────────────────────────────────────

/// Drift between the counter's change and the packets seen: the counter
/// should fall by one per packet, so the drift is
/// `(out - prev_out) - (-observed)`, all wrapping.
pub open spec fn drift_spec(prev_out: i32, out: i32, out_observed: i32) -> i32 {
    out.wrapping_sub(prev_out).wrapping_sub((-out_observed) as i32)
}

/// The drift of the outbound counter over one watchdog interval.
pub fn counter_drift(prev_out: i32, out: i32, out_observed: i32) -> (r: i32)
    requires
        out_observed != i32::MIN,
    ensures
        r == drift_spec(prev_out, out, out_observed),
{
    let actual_delta = out.wrapping_sub(prev_out);
    let expected_delta = -out_observed;
    actual_delta.wrapping_sub(expected_delta)
}

/// Whether a drift is large enough to warn about (more than 60 either way).
pub fn drift_exceeds_threshold(drift: i32) -> (r: bool)
    requires
        drift != i32::MIN,
    ensures
        r == (drift > WD_DRIFT_WARN_THRESHOLD || drift < -WD_DRIFT_WARN_THRESHOLD),
{
    let a = if drift < 0 {
        -drift
    } else {
        drift
    };
    a > WD_DRIFT_WARN_THRESHOLD
}

/// What one watchdog tick found for the outbound counter.
#[derive(Debug, Clone, Copy, PartialEq, Eq, Structural)]
pub struct OutboundCheck {
    pub counter: i32,
    pub drift: i32,
    pub warn: bool,
}

/// The watchdog's running state.
pub struct WatchdogState {
    pub outbound_observed: u32,
    pub inbound_observed: u32,
    /// Last counter values read; `i32::MIN` before the first read.
    pub last_out_snap: i32,
    pub last_in_snap: i32,
    pub last_tick_ms: u64,
}

impl WatchdogState {
    /// Nothing observed, no snapshot yet.
    pub fn new() -> (r: Self)
        ensures
            r.outbound_observed == 0 && r.inbound_observed == 0,
            r.last_out_snap == i32::MIN && r.last_in_snap == i32::MIN,
            r.last_tick_ms == 0,
    {
        WatchdogState {
            outbound_observed: 0,
            inbound_observed: 0,
            last_out_snap: i32::MIN,
            last_in_snap: i32::MIN,
            last_tick_ms: 0,
        }
    }

    /// Count a packet seen at the hook (wrapping).
    pub fn record(&mut self, direction: PacketDirection)
        ensures
            direction == PacketDirection::Outbound ==> final(self).outbound_observed == (if old(
                self,
            ).outbound_observed == u32::MAX {
                0
            } else {
                (old(self).outbound_observed + 1) as u32
            }) && final(self).inbound_observed == old(self).inbound_observed,
            direction == PacketDirection::Inbound ==> final(self).inbound_observed == (if old(
                self,
            ).inbound_observed == u32::MAX {
                0
            } else {
                (old(self).inbound_observed + 1) as u32
            }) && final(self).outbound_observed == old(self).outbound_observed,
            final(self).last_out_snap == old(self).last_out_snap,
            final(self).last_in_snap == old(self).last_in_snap,
            final(self).last_tick_ms == old(self).last_tick_ms,
    {
        match direction {
            PacketDirection::Outbound => {
                self.outbound_observed = if self.outbound_observed == u32::MAX {
                    0
                } else {
                    self.outbound_observed + 1
                };
            },
            PacketDirection::Inbound => {
                self.inbound_observed = if self.inbound_observed == u32::MAX {
                    0
                } else {
                    self.inbound_observed + 1
                };
            },
        }
    }

    /// Whether a watchdog tick is due at `now_ms` (at least 500 ms since the
    /// last one).
    pub fn due(&self, now_ms: u64) -> (r: bool)
        ensures
            r == (now_ms >= self.last_tick_ms && now_ms - self.last_tick_ms >= WD_INTERVAL_MS),
    {
        now_ms >= self.last_tick_ms && now_ms - self.last_tick_ms >= WD_INTERVAL_MS
    }

    /// One watchdog tick with the counters read from the game (`None` when a
    /// counter could not be read): the observed counts are drained, the
    /// snapshots updated, and the outbound drift computed when an earlier
    /// snapshot exists.
    pub fn tick(&mut self, now_ms: u64, out_val: Option<i32>, in_val: Option<i32>) -> (r: Option<OutboundCheck>)
        requires
            old(self).outbound_observed != 0x8000_0000,
            out_val matches Some(out) ==> (old(self).last_out_snap != i32::MIN ==> drift_spec(
                old(self).last_out_snap,
                out,
                old(self).outbound_observed as i32,
            ) != i32::MIN),
        ensures
            final(self).last_tick_ms == now_ms,
            final(self).outbound_observed == 0,
            final(self).inbound_observed == 0,
            final(self).last_out_snap == (match out_val {
                Some(v) => v,
                None => old(self).last_out_snap,
            }),
            final(self).last_in_snap == (match in_val {
                Some(v) => v,
                None => old(self).last_in_snap,
            }),
            match out_val {
                Some(out) => if old(self).last_out_snap != i32::MIN {
                    let d = drift_spec(old(self).last_out_snap, out, old(self).outbound_observed as i32);
                    r == Some(OutboundCheck {
                        counter: out,
                        drift: d,
                        warn: d > WD_DRIFT_WARN_THRESHOLD || d < -WD_DRIFT_WARN_THRESHOLD,
                    })
                } else {
                    r is None
                },
                None => r is None,
            },
    {
        self.last_tick_ms = now_ms;
        let observed = self.outbound_observed;
        let out_observed = observed as i32;
        self.outbound_observed = 0;
        self.inbound_observed = 0;
        let prev_out = self.last_out_snap;
        let mut report: Option<OutboundCheck> = None;
        match out_val {
            Some(out) => {
                self.last_out_snap = out;
                if prev_out != i32::MIN {
                    proof {
                        assert(out_observed != i32::MIN) by (bit_vector)
                            requires
                                out_observed == observed as i32,
                                observed != 0x8000_0000u32,
                        ;
                    }
                    let drift = counter_drift(prev_out, out, out_observed);
                    let warn = drift_exceeds_threshold(drift);
                    report = Some(OutboundCheck { counter: out, drift, warn });
                }
            },
            None => {},
        }
        match in_val {
            Some(v) => {
                self.last_in_snap = v;
            },
            None => {},
        }
        report
    }
}

// ─── Hook state ──────────────────────────────────────────────────────────────

/// Whether the send/receive hooks are in place, and for which client.
pub struct PacketHookState {
    pub installed: bool,
    pub client_id: u32,
}

impl PacketHookState {
    /// Not installed.
    pub fn new() -> (r: Self)
        ensures
            !r.installed,
            r.client_id == 0,
    {
        PacketHookState { installed: false, client_id: 0 }
    }
}

/// Install the send/receive hooks. Without Winsock to hook this succeeds and
/// changes nothing.
pub fn install(client_id: u32) -> (r: Result<(), String>)
    ensures
        r is Ok,
{
    Ok(())
}

/// Activate the packet hooks explicitly (validation mode): the same as
/// [`install`].
pub fn activate_packet_hooks(client_id: u32) -> (r: Result<(), String>)
    ensures
        r is Ok,
{
    install(client_id)
}

/// Remove the hooks. Without hooks in place this does nothing.
pub fn remove() {
}

/// Lower-case hexadecimal digit.
pub open spec fn hex_lower_digit(d: nat) -> char {
    if d < 10 {
        (d + ('0' as u32)) as char
    } else {
        (d - 10 + ('a' as u32)) as char
    }
}

/// `{:#06x}` of an opcode: `0x` and four lower-case hexadecimal digits.
pub open spec fn opcode_text_spec(op: u16) -> Seq<char> {
    seq![
        '0',
        'x',
        hex_lower_digit(((op as nat) / 4096) % 16),
        hex_lower_digit(((op as nat) / 256) % 16),
        hex_lower_digit(((op as nat) / 16) % 16),
        hex_lower_digit((op as nat) % 16),
    ]
}

fn hex_lower(d: u16) -> (r: char)
    requires
        d < 16,
    ensures
        r == hex_lower_digit(d as nat),
{
    if d < 10 {
        ((d as u8) + ('0' as u8)) as char
    } else {
        ((d as u8) - 10 + ('a' as u8)) as char
    }
}

/// The opcode as traces show it, e.g. `0xbb29`.
pub fn format_opcode(op: u16) -> (r: String)
    ensures
        r@ == opcode_text_spec(op),
{
    let mut s = String::new();
    push_char(&mut s, '0');
    push_char(&mut s, 'x');
    push_char(&mut s, hex_lower((op / 4096) % 16));
    push_char(&mut s, hex_lower((op / 256) % 16));
    push_char(&mut s, hex_lower((op / 16) % 16));
    push_char(&mut s, hex_lower(op % 16));
    proof {
        assert(s@ =~= opcode_text_spec(op));
    }
    s
}

} // verus!
