//! The null Direct3D 11 device: which texture and buffer allocations are
//! shrunk and which draw calls are dropped while null rendering, the
//! present-time bookkeeping of the hooks and the screenshot frame, and the
//! 24-bit BMP encoding of a captured backbuffer.
use vstd::prelude::*;
use crate::hooks::render::{self, RenderMode, RenderState};
use crate::hooks::fingerprint::firmware::append_bytes;

verus! {

/// Bind flag of a render target.
pub const D3D11_BIND_RENDER_TARGET: u32 = 0x20;

/// Bind flag of a depth-stencil buffer.
pub const D3D11_BIND_DEPTH_STENCIL: u32 = 0x40;

/// Usage code of a staging resource.
pub const D3D11_USAGE_STAGING: u32 = 3;

/// Device vtable slot of `CreateBuffer`.
pub const VTABLE_CREATE_BUFFER: usize = 3;

/// Device vtable slot of `CreateTexture2D`.
pub const VTABLE_CREATE_TEXTURE2D: usize = 5;

/// Swap-chain vtable slot of `Present`.
pub const VTABLE_PRESENT: usize = 8;

/// Context vtable slot of `DrawIndexed`.
pub const VTABLE_DRAW_INDEXED: usize = 12;

/// Context vtable slot of `Draw`.
pub const VTABLE_DRAW: usize = 13;

/// Context vtable slot of `DrawIndexedInstanced`.
pub const VTABLE_DRAW_INDEXED_INSTANCED: usize = 19;

/// Context vtable slot of `DrawInstanced`.
pub const VTABLE_DRAW_INSTANCED: usize = 20;

/// Context vtable slot of `DrawAuto`.
pub const VTABLE_DRAW_AUTO: usize = 38;

/// Device vtable slot of `GetImmediateContext`.
pub const VTABLE_GET_IMMEDIATE_CONTEXT: usize = 40;

/// Buffers larger than this are shrunk while null rendering.
pub const BUFFER_SHRINK_THRESHOLD: u32 = 4096;

/// The size a shrunk buffer gets.
pub const SHRUNK_BUFFER_SIZE: u32 = 256;

/// A 2D texture description (the fields of `D3D11_TEXTURE2D_DESC`).
#[derive(Debug, Clone, Copy, PartialEq, Eq, Structural)]
pub struct TextureDesc {
    pub width: u32,
    pub height: u32,
    pub mip_levels: u32,
    pub array_size: u32,
    pub format: u32,
    pub sample_count: u32,
    pub sample_quality: u32,
    pub usage: u32,
    pub bind_flags: u32,
    pub cpu_access_flags: u32,
    pub misc_flags: u32,
}

/// A buffer description (the fields of `D3D11_BUFFER_DESC`).
#[derive(Debug, Clone, Copy, PartialEq, Eq, Structural)]
pub struct BufferDesc {
    pub byte_width: u32,
    pub usage: u32,
    pub bind_flags: u32,
    pub cpu_access_flags: u32,
    pub misc_flags: u32,
    pub structure_byte_stride: u32,
}

/// Whether the hooks are in place, the screenshot pass-through, the cached
/// module base, and the result of the last capture not yet collected.
#[derive(Debug, Clone, PartialEq, Eq)]
pub struct Dx11State {
    pub present_hooked: bool,
    pub device_hooked: bool,
    pub context_hooked: bool,
    pub screenshot_frame: bool,
    pub cached_eq_base: u64,
    pub capture_result: Option<Result<String, String>>,
}

impl Dx11State {
    /// No hook in place, nothing pending.
    pub fn new() -> (r: Self)
        ensures
            !r.present_hooked,
            !r.device_hooked,
            !r.context_hooked,
            !r.screenshot_frame,
            r.cached_eq_base == 0,
            r.capture_result is None,
    {
        Dx11State {
            present_hooked: false,
            device_hooked: false,
            context_hooked: false,
            screenshot_frame: false,
            cached_eq_base: 0,
            capture_result: None,
        }
    }
}

/// Keep the result of a capture for the command that asked for it; a newer
/// result replaces an uncollected one.
pub fn store_capture_result(dx: &mut Dx11State, result: Result<String, String>)
    ensures
        final(dx).capture_result == Some(result),
        final(dx).present_hooked == old(dx).present_hooked,
        final(dx).device_hooked == old(dx).device_hooked,
        final(dx).context_hooked == old(dx).context_hooked,
        final(dx).screenshot_frame == old(dx).screenshot_frame,
        final(dx).cached_eq_base == old(dx).cached_eq_base,
{
    dx.capture_result = Some(result);
}

/// Collect the pending capture result, if any.
pub fn take_capture_result(dx: &mut Dx11State) -> (r: Option<Result<String, String>>)
    ensures
        r == old(dx).capture_result,
        final(dx).capture_result is None,
        final(dx).present_hooked == old(dx).present_hooked,
        final(dx).device_hooked == old(dx).device_hooked,
        final(dx).context_hooked == old(dx).context_hooked,
        final(dx).screenshot_frame == old(dx).screenshot_frame,
        final(dx).cached_eq_base == old(dx).cached_eq_base,
{
    let r = dx.capture_result.take();
    r
}

/// Draw calls are dropped while null rendering, except in a screenshot frame.
pub fn should_suppress_draw(mode: RenderMode, dx: &Dx11State) -> (r: bool)
    ensures
        r == (mode == RenderMode::NullRender && !dx.screenshot_frame),
{
    mode == RenderMode::NullRender && !dx.screenshot_frame
}

/// Let draw calls through for the next frame.
pub fn request_screenshot_frame(dx: &mut Dx11State)
    ensures
        final(dx).screenshot_frame,
        final(dx).present_hooked == old(dx).present_hooked,
        final(dx).device_hooked == old(dx).device_hooked,
        final(dx).context_hooked == old(dx).context_hooked,
        final(dx).cached_eq_base == old(dx).cached_eq_base,
        final(dx).capture_result == old(dx).capture_result,
{
    dx.screenshot_frame = true;
}

/// The texture actually created while null rendering: everything but render
/// targets, depth stencils and staging textures that is larger than 1x1
/// becomes a single-level 1x1 texture.
pub open spec fn shrunk_texture(mode: RenderMode, d: TextureDesc) -> Option<TextureDesc> {
    if mode == RenderMode::NullRender && d.bind_flags & D3D11_BIND_RENDER_TARGET == 0
        && d.bind_flags & D3D11_BIND_DEPTH_STENCIL == 0 && d.usage != D3D11_USAGE_STAGING && (d.width
        > 1 || d.height > 1) {
        Some(TextureDesc { width: 1, height: 1, mip_levels: 1, ..d })
    } else {
        None
    }
}

/// The replacement description for a texture allocation, or `None` to
/// create it as asked.
pub fn shrink_texture_desc(mode: RenderMode, desc: &TextureDesc) -> (r: Option<TextureDesc>)
    ensures
        r == shrunk_texture(mode, *desc),
{
    if mode == RenderMode::NullRender {
        let is_rt = desc.bind_flags & D3D11_BIND_RENDER_TARGET != 0;
        let is_ds = desc.bind_flags & D3D11_BIND_DEPTH_STENCIL != 0;
        let is_staging = desc.usage == D3D11_USAGE_STAGING;
        if !is_rt && !is_ds && !is_staging && (desc.width > 1 || desc.height > 1) {
            return Some(TextureDesc { width: 1, height: 1, mip_levels: 1, ..*desc });
        }
    }
    None
}

/// The buffer actually created while null rendering: buffers over 4 KiB
/// become 256 bytes.
pub open spec fn shrunk_buffer(mode: RenderMode, d: BufferDesc) -> Option<BufferDesc> {
    if mode == RenderMode::NullRender && d.byte_width > BUFFER_SHRINK_THRESHOLD {
        Some(BufferDesc { byte_width: SHRUNK_BUFFER_SIZE, ..d })
    } else {
        None
    }
}

/// The replacement description for a buffer allocation, or `None` to create
/// it as asked.
pub fn shrink_buffer_desc(mode: RenderMode, desc: &BufferDesc) -> (r: Option<BufferDesc>)
    ensures
        r == shrunk_buffer(mode, *desc),
{
    if mode == RenderMode::NullRender && desc.byte_width > BUFFER_SHRINK_THRESHOLD {
        Some(BufferDesc { byte_width: SHRUNK_BUFFER_SIZE, ..*desc })
    } else {
        None
    }
}

/// What the present hook does around the real `Present`.
#[derive(Debug, Clone, Copy, PartialEq, Eq, Structural)]
pub struct PresentPlan {
    /// First present: hook the device and context now.
    pub hook_device: bool,
    /// This is a capture frame: read the backbuffer after presenting.
    pub capture: bool,
}

/// Before the real `Present`: the device is hooked on the first present only,
/// and a pending capture frame is taken over.
pub fn begin_present(dx: &mut Dx11State, render_state: &mut RenderState) -> (r: PresentPlan)
    ensures
        r.hook_device == !old(dx).device_hooked,
        r.capture == old(render_state).capture_active,
        final(dx).device_hooked,
        final(dx).present_hooked == old(dx).present_hooked,
        final(dx).context_hooked == old(dx).context_hooked,
        final(dx).screenshot_frame == old(dx).screenshot_frame,
        final(dx).cached_eq_base == old(dx).cached_eq_base,
        final(dx).capture_result == old(dx).capture_result,
        *final(render_state) == (RenderState { capture_active: false, ..*old(render_state) }),
{
    let hook_device = !dx.device_hooked;
    dx.device_hooked = true;
    let capture = render::take_capture_active(render_state);
    PresentPlan { hook_device, capture }
}

/// After the real `Present`: the screenshot pass-through ends, and the
/// result of a capture (when this was a capture frame) is kept.
pub fn end_present(dx: &mut Dx11State, capture_result: Option<Result<String, String>>)
    ensures
        !final(dx).screenshot_frame,
        final(dx).capture_result == match capture_result {
            Some(c) => Some(c),
            None => old(dx).capture_result,
        },
        final(dx).present_hooked == old(dx).present_hooked,
        final(dx).device_hooked == old(dx).device_hooked,
        final(dx).context_hooked == old(dx).context_hooked,
        final(dx).cached_eq_base == old(dx).cached_eq_base,
{
    dx.screenshot_frame = false;
    match capture_result {
        Some(c) => store_capture_result(dx, c),
        None => {},
    }
}

/// Try the deferred Present-hook install. Without the game's window there is
/// nothing to hook, so nothing changes.
pub fn ensure_installed(dx: &mut Dx11State)
    ensures
        *final(dx) == *old(dx),
{
}

/// Install the device hooks. Without a Direct3D device to hook this succeeds
/// and does nothing.
pub fn install(eq_base: u64) -> (r: Result<(), String>)
    ensures
        r is Ok,
{
    Ok(())
}

/// Mark every hook as removed (the shared vtables are left as they are).
pub fn remove(dx: &mut Dx11State, eq_base: u64)
    ensures
        !final(dx).present_hooked,
        !final(dx).device_hooked,
        !final(dx).context_hooked,
        final(dx).screenshot_frame == old(dx).screenshot_frame,
        final(dx).cached_eq_base == old(dx).cached_eq_base,
        final(dx).capture_result == old(dx).capture_result,
{
    dx.present_hooked = false;
    dx.device_hooked = false;
    dx.context_hooked = false;
}

/// Whether the context draw-call hooks are installed.
pub fn draw_hooks_installed(dx: &Dx11State) -> (r: bool)
    ensures
        r == dx.context_hooked,
{
    dx.context_hooked
}

/// Whether the present hook is installed.
pub fn present_hook_installed(dx: &Dx11State) -> (r: bool)
    ensures
        r == dx.present_hooked,
{
    dx.present_hooked
}

/// Little-endian bytes of a `u32`.
pub open spec fn le32(v: u32) -> Seq<u8> {
    seq![(v % 256) as u8, ((v / 256) % 256) as u8, ((v / 65536) % 256) as u8, (v / 16777216) as u8]
}

/// Little-endian bytes of a `u16`.
pub open spec fn le16(v: u16) -> Seq<u8> {
    seq![(v % 256) as u8, (v / 256) as u8]
}

/// `n` zero bytes.
pub open spec fn zeros(n: nat) -> Seq<u8> {
    Seq::new(n, |i: int| 0u8)
}

/// Bytes of one pixel row: three bytes per pixel, padded to four.
pub open spec fn padded_row_len(width: u32) -> int {
    ((width * 3 + 3) / 4) * 4
}

/// Size of the whole file.
pub open spec fn bmp_file_size(width: u32, height: u32) -> int {
    54 + padded_row_len(width) * height
}

/// The bit pattern of the negated height (a top-down image).
pub open spec fn neg_height_bits(height: u32) -> u32 {
    ((0x1_0000_0000 - height) % 0x1_0000_0000) as u32
}

/// The 54-byte file and info header.
pub open spec fn bmp_header(width: u32, height: u32) -> Seq<u8> {
    seq![0x42u8, 0x4du8] + le32(bmp_file_size(width, height) as u32) + zeros(4) + le32(54) + le32(40)
        + le32(width) + le32(neg_height_bits(height)) + le16(1) + le16(24) + zeros(24)
}

/// Row `y`: blue, green, red of each 4-byte source pixel, then zero padding.
pub open spec fn bmp_row(width: u32, row_pitch: u32, data: Seq<u8>, y: int) -> Seq<u8> {
    Seq::new(
        padded_row_len(width) as nat,
        |i: int|
            if i < width * 3 {
                data[y * row_pitch + (i / 3) * 4 + i % 3]
            } else {
                0u8
            },
    )
}

/// The first `rows` rows.
pub open spec fn bmp_pixels(width: u32, row_pitch: u32, data: Seq<u8>, rows: nat) -> Seq<u8>
    decreases rows,
{
    if rows == 0 {
        Seq::empty()
    } else {
        bmp_pixels(width, row_pitch, data, (rows - 1) as nat) + bmp_row(width, row_pitch, data, rows - 1)
    }
}

/// The whole file.
pub open spec fn bmp_image(width: u32, height: u32, row_pitch: u32, data: Seq<u8>) -> Seq<u8> {
    bmp_header(width, height) + bmp_pixels(width, row_pitch, data, height as nat)
}

/// Each encoded row has the padded row length.
pub proof fn lemma_bmp_pixels_len(width: u32, row_pitch: u32, data: Seq<u8>, rows: nat)
    ensures
        bmp_pixels(width, row_pitch, data, rows).len() == rows * padded_row_len(width),
    decreases rows,
{
    if rows > 0 {
        let r1 = (rows - 1) as nat;
        lemma_bmp_pixels_len(width, row_pitch, data, r1);
        let p = padded_row_len(width);
        let w3 = width * 3 + 3;
        assert((w3 / 4) * 4 >= 0) by (nonlinear_arith)
            requires
                w3 >= 3,
        ;
        assert(p >= 0);
        assert(bmp_row(width, row_pitch, data, rows - 1).len() == p);
        assert(bmp_pixels(width, row_pitch, data, rows) == bmp_pixels(width, row_pitch, data, r1) + bmp_row(
            width,
            row_pitch,
            data,
            rows - 1,
        ));
        assert(r1 * p + p == rows * p) by (nonlinear_arith)
            requires
                r1 == rows - 1,
        ;
    } else {
        let p = padded_row_len(width);
        assert(rows * p == 0) by (nonlinear_arith)
            requires
                rows == 0,
        ;
    }
}

/// The file size written in the header is the size of the file: 54 header
/// bytes and the padded rows.
pub proof fn lemma_bmp_size_matches_header(width: u32, height: u32, row_pitch: u32, data: Seq<u8>)
    ensures
        bmp_header(width, height).len() == 54,
        bmp_image(width, height, row_pitch, data).len() == bmp_file_size(width, height),
{
    lemma_bmp_pixels_len(width, row_pitch, data, height as nat);
    assert(height as nat * padded_row_len(width) == padded_row_len(width) * height) by (nonlinear_arith);
}

fn push_le32(out: &mut Vec<u8>, v: u32)
    ensures
        final(out)@ == old(out)@ + le32(v),
{
    out.push((v % 256) as u8);
    out.push(((v / 256) % 256) as u8);
    out.push(((v / 65536) % 256) as u8);
    out.push((v / 16777216) as u8);
}

fn push_le16(out: &mut Vec<u8>, v: u16)
    ensures
        final(out)@ == old(out)@ + le16(v),
{
    out.push((v % 256) as u8);
    out.push((v / 256) as u8);
}

fn push_zeros(out: &mut Vec<u8>, n: usize)
    ensures
        final(out)@ == old(out)@ + zeros(n as nat),
{
    let ghost start = out@;
    let mut i: usize = 0;
    while i < n
        invariant
            0 <= i <= n,
            out@ == start + zeros(i as nat),
        decreases n - i,
    {
        out.push(0u8);
        i = i + 1;
        proof {
            assert(out@ =~= start + zeros(i as nat));
        }
    }
}

/// Encode a BGRA backbuffer (rows `row_pitch` bytes apart) as a top-down
/// 24-bit BMP file.
pub fn encode_bmp(width: u32, height: u32, row_pitch: u32, data: &[u8]) -> (r: Vec<u8>)
    requires
        width * 3 + 3 <= u32::MAX,
        54 + padded_row_len(width) * height <= u32::MAX,
        height != 0x8000_0000,
        width == 0 || (width - 1) * 4 <= u32::MAX,
        height == 0 || (height - 1) * row_pitch <= u32::MAX,
        width == 0 || height == 0 || (height - 1) * row_pitch + (width - 1) * 4 + 2 < data@.len(),
    ensures
        r@ == bmp_image(width, height, row_pitch, data@),
{
    let row_size = width * 3;
    let rounded: u32 = row_size + 3;
    let padded_row = rounded & !3u32;
    assert((rounded & !3u32) == (rounded / 4) * 4) by (bit_vector);
    assert(padded_row * height <= u32::MAX) by (nonlinear_arith)
        requires
            padded_row == padded_row_len(width),
            54 + padded_row_len(width) * height <= u32::MAX,
    ;
    let pixel_data_size = padded_row * height;
    let file_size = 54 + pixel_data_size;
    let mut out: Vec<u8> = Vec::new();
    out.push(0x42u8);
    out.push(0x4du8);
    push_le32(&mut out, file_size);
    push_zeros(&mut out, 4);
    push_le32(&mut out, 54);
    push_le32(&mut out, 40);
    push_le32(&mut out, width);
    push_le32(&mut out, 0u32.wrapping_sub(height));
    push_le16(&mut out, 1);
    push_le16(&mut out, 24);
    push_zeros(&mut out, 24);
    let ghost header = out@;
    assert(header =~= bmp_header(width, height));
    let mut y: u32 = 0;
    while y < height
        invariant
            0 <= y <= height,
            row_size == width * 3,
            padded_row == padded_row_len(width),
            width * 3 + 3 <= u32::MAX,
            width == 0 || (width - 1) * 4 <= u32::MAX,
            height == 0 || (height - 1) * row_pitch <= u32::MAX,
            width == 0 || height == 0 || (height - 1) * row_pitch + (width - 1) * 4 + 2 < data@.len(),
            out@ == header + bmp_pixels(width, row_pitch, data@, y as nat),
        decreases height - y,
    {
        assert(y * row_pitch <= (height - 1) * row_pitch) by (nonlinear_arith)
            requires
                y < height,
        ;
        let row_base = y * row_pitch;
        let ghost before = out@;
        let ghost row = bmp_row(width, row_pitch, data@, y as int);
        let mut x: u32 = 0;
        while x < width
            invariant
                0 <= x <= width,
                y < height,
                row_size == width * 3,
                padded_row == padded_row_len(width),
                row_base == y * row_pitch,
                width * 3 + 3 <= u32::MAX,
                width == 0 || (width - 1) * 4 <= u32::MAX,
                y * row_pitch <= (height - 1) * row_pitch,
                width == 0 || (height - 1) * row_pitch + (width - 1) * 4 + 2 < data@.len(),
                row == bmp_row(width, row_pitch, data@, y as int),
                out@ == before + row.subrange(0, 3 * x as int),
            decreases width - x,
        {
            let data_len = data.len();
            assert(row_base + x * 4 + 2 < data_len);
            let px = row_base as usize + (x * 4) as usize;
            assert(row[3 * x as int] == data@[px as int]);
            assert(row[3 * x + 1] == data@[px + 1]);
            assert(row[3 * x + 2] == data@[px + 2]);
            out.push(data[px]);
            out.push(data[px + 1]);
            out.push(data[px + 2]);
            x = x + 1;
            assert(out@ =~= before + row.subrange(0, 3 * x as int));
        }
        let mut i: u32 = row_size;
        while i < padded_row
            invariant
                row_size <= i <= padded_row,
                row_size == width * 3,
                padded_row == padded_row_len(width),
                row == bmp_row(width, row_pitch, data@, y as int),
                out@ == before + row.subrange(0, i as int),
            decreases padded_row - i,
        {
            out.push(0u8);
            i = i + 1;
            assert(out@ =~= before + row.subrange(0, i as int));
        }
        assert(row.subrange(0, padded_row as int) =~= row);
        y = y + 1;
        assert(out@ =~= header + bmp_pixels(width, row_pitch, data@, y as nat));
    }
    out
}

} // verus!
