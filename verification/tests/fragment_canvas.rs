use glowberry_lib::config::{ShaderContent, ShaderLanguage, ShaderSource};
use glowberry_lib::fragment_canvas::{
    aligned_bytes_per_row, bind_group_layout, build_shader_source, detect_language, image_upload,
    language_for_extension, render_pipeline, texture_upload, texture_upload_data, Binding,
    BindingKind, Blend, Filter, FragmentCanvas, FramePass, PassLoad, ShaderError, Topology,
    COPY_ROW_ALIGNMENT, NANOS_PER_SECOND, WGSL_PREAMBLE, WGSL_PREAMBLE_WITH_TEXTURE,
};

fn source(shader: ShaderContent, background_image: Option<&str>, frame_rate: u8) -> ShaderSource {
    ShaderSource {
        shader,
        background_image: background_image.map(|p| p.to_string()),
        language: ShaderLanguage::Wgsl,
        frame_rate,
    }
}

#[test]
fn detects_glsl_language_for_frag_extension() {
    let source = ShaderSource {
        shader: ShaderContent::Path("/tmp/test.frag".into()),
        background_image: None,
        language: ShaderLanguage::Wgsl,
        frame_rate: 30,
    };

    assert_eq!(detect_language(&source), ShaderLanguage::Glsl);
}

#[test]
fn detects_language_by_extension_only_for_shader_files() {
    let glsl = source(ShaderContent::Path("/tmp/test.glsl".into()), None, 30);
    assert_eq!(detect_language(&glsl), ShaderLanguage::Glsl);
    let wgsl = source(ShaderContent::Path("/tmp/test.wgsl".into()), None, 30);
    assert_eq!(detect_language(&wgsl), ShaderLanguage::Wgsl);
    let bare = source(ShaderContent::Path("/tmp/frag".into()), None, 30);
    assert_eq!(detect_language(&bare), ShaderLanguage::Wgsl);
    let inline = source(ShaderContent::Code("// test.frag".into()), None, 30);
    assert_eq!(detect_language(&inline), ShaderLanguage::Wgsl);
    let mut declared = source(ShaderContent::Code("void main(){}".into()), None, 30);
    declared.language = ShaderLanguage::Glsl;
    assert_eq!(detect_language(&declared), ShaderLanguage::Glsl);
}

#[test]
fn language_follows_the_extension() {
    assert_eq!(language_for_extension(Some("frag"), ShaderLanguage::Wgsl), ShaderLanguage::Glsl);
    assert_eq!(language_for_extension(Some("glsl"), ShaderLanguage::Wgsl), ShaderLanguage::Glsl);
    assert_eq!(language_for_extension(Some("wgsl"), ShaderLanguage::Wgsl), ShaderLanguage::Wgsl);
    assert_eq!(language_for_extension(Some("FRAG"), ShaderLanguage::Wgsl), ShaderLanguage::Wgsl);
    assert_eq!(language_for_extension(None, ShaderLanguage::Glsl), ShaderLanguage::Glsl);
}

#[test]
fn aligns_bytes_per_row_to_wgpu_requirement() {
    let bytes_per_pixel = 4;
    let aligned = aligned_bytes_per_row(1, bytes_per_pixel);

    assert_eq!(aligned, wgpu::COPY_BYTES_PER_ROW_ALIGNMENT);
}

#[test]
fn alignment_is_that_of_the_device() {
    assert_eq!(COPY_ROW_ALIGNMENT, wgpu::COPY_BYTES_PER_ROW_ALIGNMENT);
}

#[test]
fn aligned_row_is_the_least_multiple_that_holds_the_row() {
    assert_eq!(aligned_bytes_per_row(0, 4), 0);
    assert_eq!(aligned_bytes_per_row(63, 4), 256);
    assert_eq!(aligned_bytes_per_row(64, 4), 256);
    assert_eq!(aligned_bytes_per_row(65, 4), 512);
    assert_eq!(aligned_bytes_per_row(1920, 4), 7680);
    assert_eq!(aligned_bytes_per_row(1921, 4), 7936);
    for width in 0..600u32 {
        let aligned = aligned_bytes_per_row(width, 4);
        assert_eq!(aligned % 256, 0);
        assert!(aligned >= width * 4);
        assert!(aligned < width * 4 + 256);
        assert_eq!(aligned == width * 4, (width * 4) % 256 == 0);
    }
}

#[test]
fn pads_texture_upload_rows_when_needed() {
    let width = 1;
    let height = 2;
    let rgba = vec![1u8; (width * height * 4) as usize];

    let (upload_data, bytes_per_row, rows_per_image) = texture_upload_data(&rgba, width, height);

    assert_eq!(bytes_per_row, wgpu::COPY_BYTES_PER_ROW_ALIGNMENT);
    assert_eq!(rows_per_image, height);
    assert_eq!(upload_data.len(), (bytes_per_row * height) as usize);
}

#[test]
fn padded_rows_start_with_the_image_rows() {
    let width = 3u32;
    let height = 4u32;
    let rgba: Vec<u8> = (0..width * height * 4).map(|i| (i + 1) as u8).collect();
    let (upload_data, bytes_per_row, rows_per_image) = texture_upload_data(&rgba, width, height);
    assert_eq!(bytes_per_row, 256);
    assert_eq!(rows_per_image, 4);
    assert_eq!(upload_data.len(), 1024);
    for row in 0..height as usize {
        let start = row * 256;
        assert_eq!(&upload_data[start..start + 12], &rgba[row * 12..row * 12 + 12]);
        assert!(upload_data[start + 12..start + 256].iter().all(|b| *b == 0));
    }
}

#[test]
fn aligned_rows_are_handed_on_as_they_are() {
    let rgba: Vec<u8> = (0..64 * 2 * 4).map(|i| i as u8).collect();
    let (upload_data, bytes_per_row, rows_per_image) = texture_upload_data(&rgba, 64, 2);
    assert_eq!(bytes_per_row, 256);
    assert_eq!(rows_per_image, 2);
    assert!(matches!(upload_data, std::borrow::Cow::Borrowed(_)));
    assert_eq!(&upload_data[..], &rgba[..]);
}

#[test]
fn upload_of_an_image_without_rows_is_empty() {
    let (upload_data, bytes_per_row, rows_per_image) = texture_upload_data(&[], 5, 0);
    assert_eq!(upload_data.len(), 0);
    assert_eq!(bytes_per_row, 256);
    assert_eq!(rows_per_image, 0);
}

#[test]
fn texture_upload_refuses_what_does_not_fit() {
    assert!(texture_upload(vec![0u8; 7], 2, 1).is_none());
    assert!(texture_upload(Vec::new(), u32::MAX, 1).is_none());
    let upload = texture_upload(vec![9u8; 8], 2, 1).unwrap();
    assert_eq!((upload.width, upload.height), (2, 1));
    assert_eq!(upload.bytes_per_row, 256);
    assert_eq!(upload.rows_per_image, 1);
    assert_eq!(upload.data.len(), 256);
    assert_eq!(&upload.data[..8], &[9u8; 8]);
    let aligned = texture_upload(vec![3u8; 256], 64, 1).unwrap();
    assert_eq!(aligned.data, vec![3u8; 256]);
    let short_but_aligned = texture_upload(vec![3u8; 10], 64, 1).unwrap();
    assert_eq!(short_but_aligned.data, vec![3u8; 10]);
}

#[test]
fn image_is_converted_and_laid_out_for_upload() {
    let mut pixels = image::RgbImage::new(3, 2);
    pixels.put_pixel(0, 0, image::Rgb([10, 20, 30]));
    pixels.put_pixel(2, 1, image::Rgb([40, 50, 60]));
    let picture = image::DynamicImage::ImageRgb8(pixels);
    let upload = image_upload(&picture).unwrap();
    assert_eq!((upload.width, upload.height), (3, 2));
    assert_eq!(upload.bytes_per_row, 256);
    assert_eq!(upload.rows_per_image, 2);
    assert_eq!(upload.data.len(), 512);
    assert_eq!(&upload.data[0..4], &[10, 20, 30, 255]);
    assert_eq!(&upload.data[4..8], &[0, 0, 0, 255]);
    assert_eq!(&upload.data[256 + 8..256 + 12], &[40, 50, 60, 255]);
    assert!(upload.data[12..256].iter().all(|b| *b == 0));
}

#[test]
fn glsl_is_rejected_when_building_shader_source() {
    let result = build_shader_source(ShaderLanguage::Glsl, "preamble", "void main(){}");

    assert!(matches!(result, Err(ShaderError::UnsupportedLanguage(ShaderLanguage::Glsl))));
}

#[test]
fn wgsl_shader_follows_the_preamble() {
    let result = build_shader_source(ShaderLanguage::Wgsl, "preamble", "fn main() {}");
    assert_eq!(result.unwrap(), "preamble\nfn main() {}");
}

#[test]
fn preambles_declare_the_bindings() {
    assert_eq!(
        WGSL_PREAMBLE,
        "@group(0) @binding(0) var<uniform> iResolution: vec2f;\n\
         @group(0) @binding(1) var<uniform> iTime: f32;"
    );
    assert_eq!(
        WGSL_PREAMBLE_WITH_TEXTURE,
        "@group(0) @binding(0) var<uniform> iResolution: vec2f;\n\
         @group(0) @binding(1) var<uniform> iTime: f32;\n\
         @group(0) @binding(2) var iTexture: texture_2d<f32>;\n\
         @group(0) @binding(3) var iTextureSampler: sampler;"
    );
}

#[test]
fn bindings_follow_the_background_image() {
    assert_eq!(
        bind_group_layout(false),
        vec![
            Binding { binding: 0, kind: BindingKind::Uniform },
            Binding { binding: 1, kind: BindingKind::Uniform },
        ]
    );
    assert_eq!(
        bind_group_layout(true),
        vec![
            Binding { binding: 0, kind: BindingKind::Uniform },
            Binding { binding: 1, kind: BindingKind::Uniform },
            Binding { binding: 2, kind: BindingKind::Texture },
            Binding { binding: 3, kind: BindingKind::Sampler },
        ]
    );
}

#[test]
fn canvas_is_made_from_inline_code() {
    let inline = source(ShaderContent::Code("fn main() {}".into()), None, 30);
    let (canvas, text) =
        FragmentCanvas::new(&inline, Err("not read".to_string()), Err("not loaded".to_string()), 77)
            .unwrap();
    assert_eq!(text, format!("{}\n{}", WGSL_PREAMBLE, "fn main() {}"));
    assert_eq!(canvas.start_time, 77);
    assert_eq!(canvas.last_frame, 77);
    assert_eq!(canvas.configured_frame_rate(), 30);
    assert_eq!(canvas.current_frame_rate(), 30);
    assert!(!canvas.has_texture);
}

#[test]
fn canvas_with_a_background_image_uses_the_texture_preamble() {
    let textured = source(ShaderContent::Path("/s/x.wgsl".into()), Some("/img/a.png"), 30);
    let (canvas, text) =
        FragmentCanvas::new(&textured, Ok("fn main() {}".to_string()), Ok(()), 0).unwrap();
    assert!(canvas.has_texture);
    assert_eq!(text, format!("{}\n{}", WGSL_PREAMBLE_WITH_TEXTURE, "fn main() {}"));
}

#[test]
fn canvas_errors_come_in_order() {
    let textured = source(ShaderContent::Path("/s/x.frag".into()), Some("/img/a.png"), 30);
    let unread = FragmentCanvas::new(
        &textured,
        Err("no such file".to_string()),
        Err("bad image".to_string()),
        0,
    );
    assert!(matches!(unread, Err(ShaderError::Io(reason)) if reason == "no such file"));
    let unloaded =
        FragmentCanvas::new(&textured, Ok("void main(){}".to_string()), Err("bad image".to_string()), 0);
    assert!(matches!(unloaded, Err(ShaderError::ImageLoad(reason)) if reason == "bad image"));
    let unsupported = FragmentCanvas::new(&textured, Ok("void main(){}".to_string()), Ok(()), 0);
    assert!(matches!(unsupported, Err(ShaderError::UnsupportedLanguage(ShaderLanguage::Glsl))));
    let plain = source(ShaderContent::Path("/s/x.wgsl".into()), None, 30);
    assert!(FragmentCanvas::new(&plain, Ok(String::new()), Err("ignored".to_string()), 0).is_ok());
}

#[test]
fn frame_rate_is_clamped_when_the_canvas_is_made() {
    for (configured, used) in [(0u8, 1u8), (1, 1), (30, 30), (60, 60), (61, 60), (255, 60)] {
        let inline = source(ShaderContent::Code(String::new()), None, configured);
        assert_eq!(inline.clamped_frame_rate(), used);
        let (canvas, _) = FragmentCanvas::new(&inline, Ok(String::new()), Ok(()), 0).unwrap();
        assert_eq!(canvas.configured_frame_rate(), used);
        assert_eq!(canvas.current_frame_rate(), used);
    }
}

fn canvas(frame_rate: u8, now: u64) -> FragmentCanvas {
    let inline = source(ShaderContent::Code(String::new()), None, frame_rate);
    FragmentCanvas::new(&inline, Ok(String::new()), Ok(()), now).unwrap().0
}

#[test]
fn no_frame_is_due_within_a_frame_interval() {
    let mut paced = canvas(30, 0);
    paced.mark_frame_rendered(1_000_000);
    let interval = NANOS_PER_SECOND / 30;
    assert!(!paced.should_render(1_000_000));
    assert!(!paced.should_render(1_000_000 + interval / 2));
    assert!(!paced.should_render(1_000_000 + interval));
    assert!(paced.should_render(1_000_000 + interval + 1));
    assert!(!paced.should_render(0));
}

#[test]
fn frame_interval_is_the_part_of_a_second() {
    let mut paced = canvas(4, 0);
    paced.mark_frame_rendered(10);
    assert!(!paced.should_render(10 + 249_999_999));
    assert!(paced.should_render(10 + 250_000_000));
    let mut slow = canvas(1, 0);
    slow.mark_frame_rendered(0);
    assert!(!slow.should_render(999_999_999));
    assert!(slow.should_render(1_000_000_000));
    assert!(slow.should_render(u64::MAX));
}

#[test]
fn frame_rate_override_is_clamped_and_taken_back() {
    let mut paced = canvas(30, 0);
    paced.set_frame_rate_override(Some(5));
    assert_eq!(paced.current_frame_rate(), 5);
    assert_eq!(paced.configured_frame_rate(), 30);
    assert!(!paced.should_render(199_999_999));
    assert!(paced.should_render(200_000_000));
    paced.set_frame_rate_override(Some(0));
    assert_eq!(paced.current_frame_rate(), 1);
    paced.set_frame_rate_override(Some(200));
    assert_eq!(paced.current_frame_rate(), 60);
    paced.set_frame_rate_override(None);
    assert_eq!(paced.current_frame_rate(), 30);
}

#[test]
fn render_hands_the_shader_the_time_since_the_canvas_was_made() {
    let paced = canvas(30, 500);
    assert_eq!(paced.render(2_500), FramePass { elapsed_nanos: 2_000, load: PassLoad::ClearTransparent, vertex_count: 4 });
    assert_eq!(paced.render(100), FramePass { elapsed_nanos: 0, load: PassLoad::ClearTransparent, vertex_count: 4 });
}

#[test]
fn resolution_is_recorded() {
    let mut paced = canvas(30, 0);
    assert_eq!((paced.resolution_width, paced.resolution_height), (0, 0));
    paced.update_resolution(1920, 1080);
    assert_eq!((paced.resolution_width, paced.resolution_height), (1920, 1080));
}

#[test]
fn pipeline_draws_a_blended_triangle_strip() {
    let plan = render_pipeline();
    assert_eq!(plan.topology, Topology::TriangleStrip);
    assert_eq!(plan.blend, Blend::Alpha);
    assert!(plan.write_all_channels);
    assert!(!plan.depth_stencil);
    assert_eq!(plan.sample_count, 1);
    assert_eq!(plan.texture_filter, Filter::Linear);
}

#[test]
fn image_with_rows_beyond_the_device_is_not_laid_out() {
    let too_wide = image::DynamicImage::new_rgba8(u32::MAX, 0);
    assert!(image_upload(&too_wide).is_none());
    let widest = image::DynamicImage::new_rgba8(u32::MAX / 4 - 63, 0);
    let upload = image_upload(&widest).unwrap();
    assert_eq!((upload.width, upload.height), (u32::MAX / 4 - 63, 0));
    assert_eq!(upload.bytes_per_row, 4_294_967_040);
    assert!(upload.data.is_empty());
    let aligned = image_upload(&image::DynamicImage::new_rgba8(64, 1)).unwrap();
    assert_eq!(aligned.bytes_per_row, 256);
    assert_eq!(aligned.data, vec![0u8; 256]);
}
