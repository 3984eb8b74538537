use textquest_dll::hooks::dx11_null::{
    begin_present, draw_hooks_installed, encode_bmp, end_present, ensure_installed, install, remove,
    request_screenshot_frame, shrink_buffer_desc, shrink_texture_desc, should_suppress_draw, store_capture_result,
    take_capture_result, BufferDesc, Dx11State, TextureDesc, VTABLE_DRAW, VTABLE_DRAW_AUTO, VTABLE_DRAW_INDEXED,
    VTABLE_DRAW_INDEXED_INSTANCED, VTABLE_DRAW_INSTANCED,
};
use textquest_dll::hooks::render::{RenderMode, RenderState};

fn suppresses(mode: RenderMode, screenshot: bool) -> bool {
    let mut dx = Dx11State::new();
    dx.screenshot_frame = screenshot;
    should_suppress_draw(mode, &dx)
}

#[test]
fn should_suppress_draw_in_null_render() {
    assert!(suppresses(RenderMode::NullRender, false));
}

#[test]
fn should_not_suppress_draw_in_normal_mode() {
    assert!(!suppresses(RenderMode::Normal, false));
}

#[test]
fn should_not_suppress_draw_in_strobe_mode() {
    assert!(!suppresses(RenderMode::Strobe, false));
}

#[test]
fn screenshot_frame_overrides_null_render() {
    assert!(!suppresses(RenderMode::NullRender, true), "screenshot frame should allow draw calls through");
}

#[test]
fn request_screenshot_frame_sets_flag() {
    let mut dx = Dx11State::new();
    dx.screenshot_frame = false;
    request_screenshot_frame(&mut dx);
    assert!(dx.screenshot_frame);
}

#[test]
fn screenshot_frame_clears_on_swap() {
    let mut dx = Dx11State::new();
    dx.screenshot_frame = true;
    let was_set = dx.screenshot_frame;
    end_present(&mut dx, None);
    assert!(was_set, "flag should have been set before swap");
    assert!(!dx.screenshot_frame, "flag should be cleared after swap");
}

#[test]
fn draw_hooks_not_installed_by_default() {
    let mut dx = Dx11State::new();
    dx.context_hooked = false;
    assert!(!draw_hooks_installed(&dx));
}

#[test]
fn vtable_constants_are_distinct() {
    let indices = [VTABLE_DRAW_INDEXED, VTABLE_DRAW, VTABLE_DRAW_INDEXED_INSTANCED, VTABLE_DRAW_INSTANCED, VTABLE_DRAW_AUTO];
    for (i, a) in indices.iter().enumerate() {
        for (j, b) in indices.iter().enumerate() {
            if i != j {
                assert_ne!(a, b, "vtable indices {i} and {j} must be distinct");
            }
        }
    }
}

#[test]
fn dx11_null_stub_install_remove_are_safe() {
    let mut dx = Dx11State::new();
    assert!(install(0x12345).is_ok());
    ensure_installed(&mut dx);
    remove(&mut dx, 0x12345);
}

fn tex(width: u32, height: u32, bind_flags: u32, usage: u32) -> TextureDesc {
    TextureDesc {
        width,
        height,
        mip_levels: 9,
        array_size: 1,
        format: 28,
        sample_count: 1,
        sample_quality: 0,
        usage,
        bind_flags,
        cpu_access_flags: 0,
        misc_flags: 0,
    }
}

#[test]
fn null_render_shrinks_plain_textures_only() {
    let shrunk = shrink_texture_desc(RenderMode::NullRender, &tex(512, 256, 0x8, 0)).unwrap();
    assert_eq!((shrunk.width, shrunk.height, shrunk.mip_levels), (1, 1, 1));
    assert_eq!(shrunk.format, 28);
    assert_eq!(shrink_texture_desc(RenderMode::NullRender, &tex(512, 256, 0x20, 0)), None);
    assert_eq!(shrink_texture_desc(RenderMode::NullRender, &tex(512, 256, 0x40, 0)), None);
    assert_eq!(shrink_texture_desc(RenderMode::NullRender, &tex(512, 256, 0, 3)), None);
    assert_eq!(shrink_texture_desc(RenderMode::NullRender, &tex(1, 1, 0, 0)), None);
    assert_eq!(shrink_texture_desc(RenderMode::Normal, &tex(512, 256, 0, 0)), None);
}

#[test]
fn null_render_shrinks_large_buffers_to_256_bytes() {
    let big = BufferDesc { byte_width: 4097, usage: 0, bind_flags: 1, cpu_access_flags: 0, misc_flags: 0, structure_byte_stride: 0 };
    assert_eq!(shrink_buffer_desc(RenderMode::NullRender, &big).unwrap().byte_width, 256);
    let small = BufferDesc { byte_width: 4096, ..big };
    assert_eq!(shrink_buffer_desc(RenderMode::NullRender, &small), None);
    assert_eq!(shrink_buffer_desc(RenderMode::Strobe, &big), None);
}

#[test]
fn present_hooks_device_once_and_collects_capture() {
    let mut dx = Dx11State::new();
    let mut render = RenderState::new();
    render.capture_active = true;
    let first = begin_present(&mut dx, &mut render);
    assert!(first.hook_device);
    assert!(first.capture);
    assert!(!render.capture_active);
    let second = begin_present(&mut dx, &mut render);
    assert!(!second.hook_device);
    assert!(!second.capture);
    end_present(&mut dx, Some(Ok("shot.bmp".to_string())));
    assert_eq!(take_capture_result(&mut dx), Some(Ok("shot.bmp".to_string())));
    assert_eq!(take_capture_result(&mut dx), None);
    store_capture_result(&mut dx, Err("Map failed".to_string()));
    assert_eq!(take_capture_result(&mut dx), Some(Err("Map failed".to_string())));
}

#[test]
fn bmp_encoding_of_a_two_by_two_image() {
    // Two BGRA pixels per row, rows 8 bytes apart.
    let data: Vec<u8> = vec![1, 2, 3, 255, 4, 5, 6, 255, 7, 8, 9, 255, 10, 11, 12, 255];
    let out = encode_bmp(2, 2, 8, &data);
    // Row of 6 bytes padded to 8; file = 54 + 16 = 70.
    assert_eq!(out.len(), 70);
    assert_eq!(&out[0..2], b"BM");
    assert_eq!(&out[2..6], &70u32.to_le_bytes());
    assert_eq!(&out[10..14], &54u32.to_le_bytes());
    assert_eq!(&out[14..18], &40u32.to_le_bytes());
    assert_eq!(&out[18..22], &2u32.to_le_bytes());
    assert_eq!(&out[22..26], &(-2i32).to_le_bytes());
    assert_eq!(&out[26..28], &1u16.to_le_bytes());
    assert_eq!(&out[28..30], &24u16.to_le_bytes());
    assert_eq!(&out[54..62], &[1, 2, 3, 4, 5, 6, 0, 0]);
    assert_eq!(&out[62..70], &[7, 8, 9, 10, 11, 12, 0, 0]);
}
