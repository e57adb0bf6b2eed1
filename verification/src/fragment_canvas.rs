//! The canvas of an animated background: how its shader is put together,
//! how an image is laid out for upload, and when the next frame is due.
//!
//! The graphics objects themselves belong to the caller. A [`FragmentCanvas`]
//! holds the part that decides: the frame rates and the two times that pace
//! the animation.

use std::borrow::Cow;
use vstd::prelude::*;

use crate::config::{
    clamp_frame_rate, clamped_rate, ShaderContent, ShaderContentView, ShaderLanguage, ShaderSource,
    ShaderSourceView, MAX_FRAME_RATE, MIN_FRAME_RATE,
};
use crate::text::same_text;

verus! {

/// Row alignment, in bytes, that the graphics device asks of a buffer an
/// image is copied from.
pub const COPY_ROW_ALIGNMENT: u32 = 256;

/// Bytes of one pixel of an 8-bit RGBA image.
pub const RGBA_BYTES_PER_PIXEL: u32 = 4;

/// `wgpu::COPY_BYTES_PER_ROW_ALIGNMENT`, which wgpu declares as the constant
/// 256.
#[verifier::external_body]
fn copy_bytes_per_row_alignment() -> (a: u32)
    ensures
        a == COPY_ROW_ALIGNMENT,
{
    wgpu::COPY_BYTES_PER_ROW_ALIGNMENT
}

/// The least multiple of [`COPY_ROW_ALIGNMENT`] that holds `bytes` bytes.
pub open spec fn align_up(bytes: int) -> int {
    ((bytes + COPY_ROW_ALIGNMENT - 1) / (COPY_ROW_ALIGNMENT as int)) * COPY_ROW_ALIGNMENT
}

/// Row length in bytes of an upload of rows of `width` pixels.
pub open spec fn spec_aligned_bytes_per_row(width: u32, bytes_per_pixel: u32) -> int {
    align_up(width * bytes_per_pixel)
}

/// An aligned length is a multiple of the alignment, holds what it was made
/// for, is the least such multiple, and is the length itself exactly when
/// that was aligned already.
pub proof fn lemma_align_up(bytes: int)
    requires
        0 <= bytes,
    ensures
        align_up(bytes) % (COPY_ROW_ALIGNMENT as int) == 0,
        bytes <= align_up(bytes) < bytes + COPY_ROW_ALIGNMENT,
        align_up(bytes) == bytes <==> bytes % (COPY_ROW_ALIGNMENT as int) == 0,
{
}

/// Row length in bytes for a copy of rows of `width` pixels of
/// `bytes_per_pixel` bytes each: the row's own length, rounded up to the
/// device's row alignment.
pub fn aligned_bytes_per_row(width: u32, bytes_per_pixel: u32) -> (r: u32)
    requires
        spec_aligned_bytes_per_row(width, bytes_per_pixel) <= u32::MAX,
    ensures
        r == spec_aligned_bytes_per_row(width, bytes_per_pixel),
        r % COPY_ROW_ALIGNMENT == 0,
        r >= width * bytes_per_pixel,
        r == width * bytes_per_pixel <==> (width * bytes_per_pixel) % (COPY_ROW_ALIGNMENT as int)
            == 0,
{
    proof {
        assert(0 <= width * bytes_per_pixel) by (nonlinear_arith);
        lemma_align_up(width * bytes_per_pixel);
    }
    let unpadded: u64 = (width as u64) * (bytes_per_pixel as u64);
    let alignment: u64 = copy_bytes_per_row_alignment() as u64;
    (((unpadded + alignment - 1) / alignment) * alignment) as u32
}

/// The bytes that are handed to the device for an image of `height` rows of
/// `width` RGBA pixels: the image's own bytes where its rows are aligned, and
/// else each row followed by zeros up to the aligned row length.
pub open spec fn upload_bytes(rgba: Seq<u8>, width: u32, height: u32) -> Seq<u8> {
    let unpadded = width * RGBA_BYTES_PER_PIXEL;
    let padded = spec_aligned_bytes_per_row(width, RGBA_BYTES_PER_PIXEL);
    if padded == unpadded {
        rgba
    } else {
        Seq::new((padded * height) as nat, |i: int| padded_byte(rgba, unpadded, padded, i))
    }
}

/// The byte at position `i` of a buffer of rows of length `padded` that hold
/// the rows of `rgba`, of length `unpadded`, each followed by zeros.
pub open spec fn padded_byte(rgba: Seq<u8>, unpadded: int, padded: int, i: int) -> u8 {
    if i % padded < unpadded {
        rgba[(i / padded) * unpadded + i % padded]
    } else {
        0u8
    }
}

/// Where the byte at `column` of row `row` stands in a buffer of rows of
/// `row_length` bytes.
pub open spec fn byte_position(row: int, column: int, row_length: int) -> int {
    row * row_length + column
}

/// Position `row * padded + column` lies in row `row`, at column `column`.
proof fn lemma_row_column(padded: int, row: int, column: int)
    requires
        0 <= column < padded,
        0 <= row,
    ensures
        (row * padded + column) / padded == row,
        (row * padded + column) % padded == column,
        0 <= row * padded,
{
    vstd::arithmetic::div_mod::lemma_fundamental_div_mod_converse(
        row * padded + column,
        padded,
        row,
        column,
    );
    assert(0 <= row * padded) by (nonlinear_arith)
        requires
            0 <= row,
            0 < padded,
    ;
}

/// Rows below `height` end at or before `padded * height`, and start inside
/// an image of `unpadded * height` bytes.
proof fn lemma_row_bounds(unpadded: int, padded: int, row: int, height: int)
    requires
        0 <= unpadded <= padded,
        0 <= row < height,
    ensures
        row * padded + padded <= padded * height,
        row * unpadded + unpadded <= unpadded * height,
        0 <= row * unpadded,
        0 <= row * padded,
{
    assert(row * padded + padded <= padded * height) by (nonlinear_arith)
        requires
            0 <= padded,
            0 <= row < height,
    ;
    assert(row * unpadded + unpadded <= unpadded * height) by (nonlinear_arith)
        requires
            0 <= unpadded,
            0 <= row < height,
    ;
    assert(0 <= row * unpadded) by (nonlinear_arith)
        requires
            0 <= unpadded,
            0 <= row,
    ;
    assert(0 <= row * padded) by (nonlinear_arith)
        requires
            0 <= padded,
            0 <= row,
    ;
}

/// Whether rows of `width` RGBA pixels can be laid out for upload, `height`
/// of them: the aligned row length fits the device's 32-bit row length and,
/// where rows have to be padded, the padded buffer can be addressed.
pub open spec fn rows_fit(width: u32, height: u32) -> bool {
    let unpadded = width * RGBA_BYTES_PER_PIXEL;
    let padded = spec_aligned_bytes_per_row(width, RGBA_BYTES_PER_PIXEL);
    &&& padded <= u32::MAX
    &&& padded != unpadded ==> padded * height <= usize::MAX
}

/// What [`texture_upload_data`] asks of an image: its rows can be laid out,
/// as [`rows_fit`] says, and, where rows have to be padded, the image holds
/// every row.
pub open spec fn upload_fits(rgba_len: nat, width: u32, height: u32) -> bool {
    let unpadded = width * RGBA_BYTES_PER_PIXEL;
    let padded = spec_aligned_bytes_per_row(width, RGBA_BYTES_PER_PIXEL);
    &&& rows_fit(width, height)
    &&& padded != unpadded ==> unpadded * height <= rgba_len
}

/// Lays an image of `height` rows of `width` RGBA pixels out for upload.
/// Returns the bytes to copy from, the length of a row in them, and the
/// number of rows.
///
/// The image's bytes are handed on as they are where their rows are aligned;
/// otherwise a buffer of `height` aligned rows is made, each holding the
/// image's row in its first `4 * width` bytes. Either way, unless aligned
/// rows come with more or fewer bytes than the image has pixels for, what is
/// returned holds exactly `height` rows of the returned length, each
/// starting with the image's row.
pub fn texture_upload_data(rgba: &[u8], width: u32, height: u32) -> (r: (Cow<'_, [u8]>, u32, u32))
    requires
        upload_fits(rgba@.len(), width, height),
    ensures
        r.0@ == upload_bytes(rgba@, width, height),
        r.1 == spec_aligned_bytes_per_row(width, RGBA_BYTES_PER_PIXEL),
        r.2 == height,
        r.1 != width * RGBA_BYTES_PER_PIXEL || rgba@.len() == width * RGBA_BYTES_PER_PIXEL
            * height ==> r.0@.len() == r.1 * height,
        r.1 != width * RGBA_BYTES_PER_PIXEL || rgba@.len() == width * RGBA_BYTES_PER_PIXEL
            * height ==> forall|row: int, column: int|
            0 <= row < height && 0 <= column < width * RGBA_BYTES_PER_PIXEL ==> r.0@[
            #[trigger] byte_position(row, column, r.1 as int)] == rgba@[byte_position(
                row,
                column,
                width * RGBA_BYTES_PER_PIXEL,
            )],
{
    let bytes_per_row = aligned_bytes_per_row(width, RGBA_BYTES_PER_PIXEL);
    let unpadded_bytes_per_row: u32 = (((width as u64) * (RGBA_BYTES_PER_PIXEL as u64)) as u32);
    if bytes_per_row == unpadded_bytes_per_row {
        return (Cow::Borrowed(rgba), bytes_per_row, height);
    }
    let ghost unpadded = unpadded_bytes_per_row as int;
    let ghost padded = bytes_per_row as int;
    let available: usize = rgba.len();
    let mut buffer: Vec<u8> = Vec::new();
    let mut row: u32 = 0;
    while row < height
        invariant
            row <= height,
            available == rgba@.len(),
            0 <= unpadded < padded,
            unpadded == unpadded_bytes_per_row,
            padded == bytes_per_row,
            padded * height <= usize::MAX,
            unpadded * height <= rgba@.len(),
            buffer@ == Seq::new((row * padded) as nat, |i: int| padded_byte(rgba@, unpadded, padded, i)),
        decreases height - row,
    {
        proof {
            lemma_row_bounds(unpadded, padded, row as int, height as int);
        }
        let source_offset: usize = (row as usize) * (unpadded_bytes_per_row as usize);
        let mut column: u32 = 0;
        while column < bytes_per_row
            invariant
                row < height,
                column <= bytes_per_row,
                available == rgba@.len(),
                0 <= unpadded < padded,
                unpadded == unpadded_bytes_per_row,
                padded == bytes_per_row,
                source_offset == row * unpadded,
                row * unpadded + unpadded <= rgba@.len(),
                row * padded + padded <= usize::MAX,
                0 <= row * padded,
                buffer@ == Seq::new(
                    (row * padded + column) as nat,
                    |i: int| padded_byte(rgba@, unpadded, padded, i),
                ),
            decreases bytes_per_row - column,
        {
            proof {
                lemma_row_column(padded, row as int, column as int);
            }
            let byte: u8 = if column < unpadded_bytes_per_row {
                rgba[source_offset + column as usize]
            } else {
                0
            };
            buffer.push(byte);
            column = column + 1;
            assert(buffer@ =~= Seq::new(
                (row * padded + column) as nat,
                |i: int| padded_byte(rgba@, unpadded, padded, i),
            ));
        }
        row = row + 1;
        assert(row * padded == (row - 1) * padded + padded) by (nonlinear_arith);
    }
    proof {
        assert(height * padded == padded * height) by (nonlinear_arith);
        assert(buffer@ =~= upload_bytes(rgba@, width, height));
        assert forall|r: int, c: int| 0 <= r < height && 0 <= c < unpadded implies buffer@[
        #[trigger] byte_position(r, c, padded)] == rgba@[byte_position(r, c, unpadded)] by {
            lemma_row_bounds(unpadded, padded, r, height as int);
            lemma_row_column(padded, r, c);
        }
    }
    (Cow::Owned(buffer), bytes_per_row, height)
}

/// An image laid out for upload as a texture.
#[derive(Debug)]
pub struct TextureUpload {
    pub width: u32,
    pub height: u32,
    /// Length in bytes of one row in `data`.
    pub bytes_per_row: u32,
    pub rows_per_image: u32,
    pub data: Vec<u8>,
}

/// Lays an image out for upload, where [`upload_fits`] holds of it; `None`
/// for any other image.
pub fn texture_upload(rgba: Vec<u8>, width: u32, height: u32) -> (r: Option<TextureUpload>)
    ensures
        r is Some <==> upload_fits(rgba@.len(), width, height),
        r matches Some(u) ==> {
            &&& u.width == width
            &&& u.height == height
            &&& u.bytes_per_row == spec_aligned_bytes_per_row(width, RGBA_BYTES_PER_PIXEL)
            &&& u.rows_per_image == height
            &&& u.data@ == upload_bytes(rgba@, width, height)
        },
{
    let unpadded: u64 = (width as u64) * 4;
    let alignment: u64 = COPY_ROW_ALIGNMENT as u64;
    let padded: u64 = ((unpadded + alignment - 1) / alignment) * alignment;
    if padded > u32::MAX as u64 {
        return None;
    }
    if padded != unpadded {
        assert(unpadded * height <= 0x4_0000_0000 * 0x1_0000_0000 && padded * height
            <= 0x4_0000_0000 * 0x1_0000_0000) by (nonlinear_arith)
            requires
                0 <= unpadded <= 0x4_0000_0000,
                0 <= padded <= 0x4_0000_0000,
                0 <= height <= 0x1_0000_0000,
        ;
        let needed: u128 = (unpadded as u128) * (height as u128);
        let made: u128 = (padded as u128) * (height as u128);
        if made > usize::MAX as u128 || needed > rgba.len() as u128 {
            return None;
        }
    }
    let (padded_rows, bytes_per_row, rows_per_image) = {
        let laid_out = texture_upload_data(rgba.as_slice(), width, height);
        if padded == unpadded {
            (None, laid_out.1, laid_out.2)
        } else {
            match laid_out.0 {
                Cow::Borrowed(bytes) => (
                    Some(vstd::slice::slice_to_vec(bytes)),
                    laid_out.1,
                    laid_out.2,
                ),
                Cow::Owned(buffer) => (Some(buffer), laid_out.1, laid_out.2),
            }
        }
    };
    let data = match padded_rows {
        Some(buffer) => buffer,
        None => rgba,
    };
    Some(TextureUpload { width, height, bytes_per_row, rows_per_image, data })
}

#[verifier::external_type_specification]
#[verifier::external_body]
pub struct ExDynamicImage(image::DynamicImage);

/// The width of an image in pixels: what `DynamicImage::width` of the image
/// crate returns.
pub uninterp spec fn image_width(image: image::DynamicImage) -> u32;

/// The height of an image in pixels: what `DynamicImage::height` of the
/// image crate returns.
pub uninterp spec fn image_height(image: image::DynamicImage) -> u32;

/// The bytes of an image as 8-bit RGBA, pixel by pixel and row by row: what
/// the buffer that `DynamicImage::to_rgba8` of the image crate returns
/// holds.
pub uninterp spec fn image_rgba8(image: image::DynamicImage) -> Seq<u8>;

/// `DynamicImage::width` of the image crate.
#[verifier::external_body]
fn width_of(image: &image::DynamicImage) -> (width: u32)
    ensures
        width == image_width(*image),
{
    image.width()
}

/// `DynamicImage::height` of the image crate.
#[verifier::external_body]
fn height_of(image: &image::DynamicImage) -> (height: u32)
    ensures
        height == image_height(*image),
{
    image.height()
}

/// `DynamicImage::to_rgba8` of the image crate, with `ImageBuffer::into_raw`:
/// the bytes of the image as 8-bit RGBA, which depend on the image alone.
/// The conversion keeps width and height, and an image buffer holds at least
/// four bytes for each of its pixels.
#[verifier::external_body]
fn rgba8_bytes(image: &image::DynamicImage) -> (bytes: Vec<u8>)
    ensures
        bytes@ == image_rgba8(*image),
        bytes@.len() >= RGBA_BYTES_PER_PIXEL * image_width(*image) * image_height(*image),
{
    image.to_rgba8().into_raw()
}

/// Converts a background image to 8-bit RGBA and lays it out for upload as
/// [`texture_upload`] does.
///
/// An image whose rows can be laid out, as [`rows_fit`] says of its width
/// and height, gives an upload of that width and height, with rows of the
/// aligned length, that holds the image's RGBA bytes laid out by
/// [`upload_bytes`]. Any other image gives `None`.
pub fn image_upload(image: &image::DynamicImage) -> (r: Option<TextureUpload>)
    ensures
        r is Some <==> rows_fit(image_width(*image), image_height(*image)),
        r matches Some(u) ==> {
            &&& u.width == image_width(*image)
            &&& u.height == image_height(*image)
            &&& u.bytes_per_row == spec_aligned_bytes_per_row(u.width, RGBA_BYTES_PER_PIXEL)
            &&& u.rows_per_image == u.height
            &&& u.data@ == upload_bytes(image_rgba8(*image), u.width, u.height)
        },
{
    let width = width_of(image);
    let height = height_of(image);
    let rgba = rgba8_bytes(image);
    let ghost bytes = rgba@;
    proof {
        assert(RGBA_BYTES_PER_PIXEL * width * height == (width * RGBA_BYTES_PER_PIXEL) * height)
            by (nonlinear_arith);
    }
    let r = texture_upload(rgba, width, height);
    proof {
        if r is Some {
            assert(r->Some_0.data@ == upload_bytes(bytes, width, height));
        }
    }
    r
}

/// Why a canvas could not be made.
#[derive(Debug)]
pub enum ShaderError {
    /// The shader's file could not be read; with the reason.
    Io(String),
    /// The background image could not be loaded; with the reason.
    ImageLoad(String),
    /// The shader is in a language that cannot be run.
    UnsupportedLanguage(ShaderLanguage),
}

pub enum ShaderErrorView {
    Io(Seq<char>),
    ImageLoad(Seq<char>),
    UnsupportedLanguage(ShaderLanguage),
}

impl View for ShaderError {
    type V = ShaderErrorView;

    open spec fn view(&self) -> ShaderErrorView {
        match self {
            ShaderError::Io(reason) => ShaderErrorView::Io(reason@),
            ShaderError::ImageLoad(reason) => ShaderErrorView::ImageLoad(reason@),
            ShaderError::UnsupportedLanguage(language) => ShaderErrorView::UnsupportedLanguage(
                *language,
            ),
        }
    }
}

/// The extension of the file that a path names, if it has one: what
/// `Path::extension` of the standard library returns for the path.
pub uninterp spec fn path_extension_of(path: Seq<char>) -> Option<Seq<char>>;

/// `Path::extension` of the standard library: the extension of the file that
/// a path names, if it has one.
#[verifier::external_body]
fn path_extension(path: &str) -> (r: Option<&str>)
    ensures
        match r {
            Some(extension) => path_extension_of(path@) == Some(extension@),
            None => path_extension_of(path@) is None,
        },
{
    match std::path::Path::new(path).extension() {
        Some(extension) => extension.to_str(),
        None => None,
    }
}

/// The language of a shader with the declared language `declared`, given the
/// extension of the file it is read from: a file that ends in `glsl` or
/// `frag` holds GLSL whatever was declared.
pub open spec fn language_by_extension(
    extension: Option<Seq<char>>,
    declared: ShaderLanguage,
) -> ShaderLanguage {
    if extension == Some("glsl"@) || extension == Some("frag"@) {
        ShaderLanguage::Glsl
    } else {
        declared
    }
}

/// Executable form of [`language_by_extension`].
pub fn language_for_extension(extension: Option<&str>, declared: ShaderLanguage) -> (r:
    ShaderLanguage)
    ensures
        r == language_by_extension(
            match extension {
                Some(e) => Some(e@),
                None => None,
            },
            declared,
        ),
{
    match extension {
        Some(e) => {
            if same_text(e, "glsl") || same_text(e, "frag") {
                ShaderLanguage::Glsl
            } else {
                declared
            }
        },
        None => declared,
    }
}

/// The language a shader source is taken to be in: for a shader read from a
/// file, [`language_by_extension`] of that file's extension; for inline
/// code, the declared language.
pub open spec fn detected_language(source: ShaderSourceView) -> ShaderLanguage {
    match source.shader {
        ShaderContentView::Path(path) => language_by_extension(
            path_extension_of(path),
            source.language,
        ),
        ShaderContentView::Code(_) => source.language,
    }
}

/// Executable form of [`detected_language`].
pub fn detect_language(source: &ShaderSource) -> (r: ShaderLanguage)
    ensures
        r == detected_language(source@),
{
    match &source.shader {
        ShaderContent::Path(path) => language_for_extension(
            path_extension(path.as_str()),
            source.language,
        ),
        ShaderContent::Code(_) => source.language,
    }
}

/// What is put in front of every shader: the declarations of the resolution
/// and the time that a shader is given.
pub const WGSL_PREAMBLE: &'static str =
    "@group(0) @binding(0) var<uniform> iResolution: vec2f;\n@group(0) @binding(1) var<uniform> iTime: f32;";

/// What is put in front of a shader with a background image: the
/// declarations of [`WGSL_PREAMBLE`], then those of the image and its sampler.
pub const WGSL_PREAMBLE_WITH_TEXTURE: &'static str =
    "@group(0) @binding(0) var<uniform> iResolution: vec2f;\n@group(0) @binding(1) var<uniform> iTime: f32;\n@group(0) @binding(2) var iTexture: texture_2d<f32>;\n@group(0) @binding(3) var iTextureSampler: sampler;";

/// The vertex shader of every canvas: a strip of four vertices that covers
/// the whole surface.
pub const VERTEX_SHADER: &'static str =
    "struct VertexOutput {\n    @builtin(position) position: vec4<f32>,\n}\n\n@vertex\nfn vs_main(@builtin(vertex_index) vertex_index: u32) -> VertexOutput {\n    var positions = array<vec2<f32>, 4>(\n        vec2<f32>(-1.0, -1.0),\n        vec2<f32>( 1.0, -1.0),\n        vec2<f32>(-1.0,  1.0),\n        vec2<f32>( 1.0,  1.0),\n    );\n\n    var out: VertexOutput;\n    out.position = vec4<f32>(positions[vertex_index], 0.0, 1.0);\n    return out;\n}\n";

/// The preamble for a shader with or without a background image.
pub open spec fn preamble_for(has_texture: bool) -> Seq<char> {
    if has_texture {
        WGSL_PREAMBLE_WITH_TEXTURE@
    } else {
        WGSL_PREAMBLE@
    }
}

/// The text that is compiled: the preamble, a line break, the shader.
pub open spec fn full_shader_text(preamble: Seq<char>, shader_code: Seq<char>) -> Seq<char> {
    preamble + "\n"@ + shader_code
}

/// Puts `preamble` in front of a WGSL shader. A shader in any other language
/// is refused.
pub fn build_shader_source(language: ShaderLanguage, preamble: &str, shader_code: &str) -> (r:
    Result<String, ShaderError>)
    ensures
        match language {
            ShaderLanguage::Wgsl => r is Ok && r->Ok_0@ == full_shader_text(
                preamble@,
                shader_code@,
            ),
            ShaderLanguage::Glsl => r is Err && r->Err_0@ == ShaderErrorView::UnsupportedLanguage(
                ShaderLanguage::Glsl,
            ),
        },
{
    match language {
        ShaderLanguage::Wgsl => {
            let text = String::from_str(preamble).concat("\n").concat(shader_code);
            Ok(text)
        },
        ShaderLanguage::Glsl => Err(ShaderError::UnsupportedLanguage(ShaderLanguage::Glsl)),
    }
}

/// What a binding of a shader is bound to.
#[derive(Debug, Clone, Copy, PartialEq, Eq, Structural)]
pub enum BindingKind {
    /// A uniform buffer.
    Uniform,
    /// A two-dimensional texture of filterable floats.
    Texture,
    /// A filtering sampler.
    Sampler,
}

/// One binding of a shader's bind group, visible to the fragment stage.
#[derive(Debug, Clone, Copy, PartialEq, Eq, Structural)]
pub struct Binding {
    pub binding: u32,
    pub kind: BindingKind,
}

/// The bindings of a shader: the resolution at 0 and the time at 1 and, with
/// a background image, its texture at 2 and its sampler at 3.
pub open spec fn layout_bindings(has_texture: bool) -> Seq<Binding> {
    let uniforms = seq![
        Binding { binding: 0, kind: BindingKind::Uniform },
        Binding { binding: 1, kind: BindingKind::Uniform },
    ];
    if has_texture {
        uniforms + seq![
            Binding { binding: 2, kind: BindingKind::Texture },
            Binding { binding: 3, kind: BindingKind::Sampler },
        ]
    } else {
        uniforms
    }
}

/// Executable form of [`layout_bindings`].
pub fn bind_group_layout(has_texture: bool) -> (r: Vec<Binding>)
    ensures
        r@ == layout_bindings(has_texture),
{
    let mut bindings: Vec<Binding> = Vec::new();
    bindings.push(Binding { binding: 0, kind: BindingKind::Uniform });
    bindings.push(Binding { binding: 1, kind: BindingKind::Uniform });
    if has_texture {
        bindings.push(Binding { binding: 2, kind: BindingKind::Texture });
        bindings.push(Binding { binding: 3, kind: BindingKind::Sampler });
    }
    assert(bindings@ =~= layout_bindings(has_texture));
    bindings
}

/// Nanoseconds in a second. Times are counted in nanoseconds from a moment
/// that the caller chooses once.
pub const NANOS_PER_SECOND: u64 = 1_000_000_000;

/// Vertices of the strip that covers the whole surface.
pub const FULL_SCREEN_VERTICES: u32 = 4;

/// What a render pass starts from.
#[derive(Debug, Clone, Copy, PartialEq, Eq, Structural)]
pub enum PassLoad {
    /// The target is cleared to transparent.
    ClearTransparent,
}

/// One render pass of a canvas: the target is cleared and the full-screen
/// strip is drawn with the shader.
#[derive(Debug, Clone, Copy, PartialEq, Eq, Structural)]
pub struct FramePass {
    /// The time handed to the shader: nanoseconds since the canvas was made.
    pub elapsed_nanos: u64,
    pub load: PassLoad,
    pub vertex_count: u32,
}

/// How the vertices of a pipeline are put together.
#[derive(Debug, Clone, Copy, PartialEq, Eq, Structural)]
pub enum Topology {
    TriangleStrip,
}

/// How what a pipeline draws is blended with what is there.
#[derive(Debug, Clone, Copy, PartialEq, Eq, Structural)]
pub enum Blend {
    Alpha,
}

/// How a texture is sampled between its pixels.
#[derive(Debug, Clone, Copy, PartialEq, Eq, Structural)]
pub enum Filter {
    Linear,
}

/// The render pipeline of a canvas.
#[derive(Debug, Clone, Copy, PartialEq, Eq, Structural)]
pub struct PipelinePlan {
    pub topology: Topology,
    pub blend: Blend,
    /// Whether all colour channels are written.
    pub write_all_channels: bool,
    pub depth_stencil: bool,
    pub sample_count: u32,
    /// How the background image is sampled, both enlarged and reduced.
    pub texture_filter: Filter,
}

/// The render pipeline of every canvas: a triangle strip, blended by alpha,
/// written to all colour channels, without depth or stencil test and without
/// multisampling.
pub fn render_pipeline() -> (r: PipelinePlan)
    ensures
        r == (PipelinePlan {
            topology: Topology::TriangleStrip,
            blend: Blend::Alpha,
            write_all_channels: true,
            depth_stencil: false,
            sample_count: 1,
            texture_filter: Filter::Linear,
        }),
{
    PipelinePlan {
        topology: Topology::TriangleStrip,
        blend: Blend::Alpha,
        write_all_channels: true,
        depth_stencil: false,
        sample_count: 1,
        texture_filter: Filter::Linear,
    }
}

/// The pacing state of one animated surface.
#[derive(Debug, Clone, Copy, PartialEq, Eq, Structural)]
pub struct FragmentCanvas {
    /// When the canvas was made.
    pub start_time: u64,
    /// When the last frame was rendered.
    pub last_frame: u64,
    /// Frames per second in force.
    pub frame_rate: u8,
    /// Frames per second of the shader source, in range.
    pub configured_frame_rate: u8,
    /// Whether the shader samples a background image.
    pub has_texture: bool,
    /// Width of the resolution last handed to the shader.
    pub resolution_width: u32,
    /// Height of the resolution last handed to the shader.
    pub resolution_height: u32,
}

/// The text that a file read gave, or the reason it failed.
pub open spec fn read_view(read: Result<String, String>) -> Result<Seq<char>, Seq<char>> {
    match read {
        Ok(text) => Ok(text@),
        Err(reason) => Err(reason@),
    }
}

/// Whether an image load went well, or the reason it failed.
pub open spec fn load_view(load: Result<(), String>) -> Result<(), Seq<char>> {
    match load {
        Ok(()) => Ok(()),
        Err(reason) => Err(reason@),
    }
}

/// A new canvas and the text to compile for it, or the error.
pub open spec fn made_view(made: Result<(FragmentCanvas, String), ShaderError>) -> Result<
    (FragmentCanvas, Seq<char>),
    ShaderErrorView,
> {
    match made {
        Ok((canvas, text)) => Ok((canvas, text@)),
        Err(error) => Err(error@),
    }
}

/// What making a canvas at time `now` gives, for a source taken to be in
/// `language`.
///
/// `shader_file` is what reading the shader's file gave; it counts only for a
/// shader given by path. `background` is what loading the background image
/// gave; it counts only for a source that names one. A failed read comes
/// first, then a failed image load, then a language that cannot be run.
pub open spec fn canvas_for(
    source: ShaderSourceView,
    language: ShaderLanguage,
    shader_file: Result<Seq<char>, Seq<char>>,
    background: Result<(), Seq<char>>,
    now: u64,
) -> Result<(FragmentCanvas, Seq<char>), ShaderErrorView> {
    let code = match source.shader {
        ShaderContentView::Path(_) => shader_file,
        ShaderContentView::Code(text) => Ok(text),
    };
    let has_texture = source.background_image is Some;
    match code {
        Err(reason) => Err(ShaderErrorView::Io(reason)),
        Ok(text) => if has_texture && background is Err {
            Err(ShaderErrorView::ImageLoad(background->Err_0))
        } else if language == ShaderLanguage::Glsl {
            Err(ShaderErrorView::UnsupportedLanguage(ShaderLanguage::Glsl))
        } else {
            Ok(
                (
                    FragmentCanvas::fresh(clamp_frame_rate(source.frame_rate), has_texture, now),
                    full_shader_text(preamble_for(has_texture), text),
                ),
            )
        },
    }
}

impl FragmentCanvas {
    /// A canvas made at `now` that runs at `frame_rate`.
    pub open spec fn fresh(frame_rate: u8, has_texture: bool, now: u64) -> FragmentCanvas {
        FragmentCanvas {
            start_time: now,
            last_frame: now,
            frame_rate,
            configured_frame_rate: frame_rate,
            has_texture,
            resolution_width: 0,
            resolution_height: 0,
        }
    }

    /// Both frame rates are in range.
    pub open spec fn wf(&self) -> bool {
        &&& MIN_FRAME_RATE <= self.frame_rate <= MAX_FRAME_RATE
        &&& MIN_FRAME_RATE <= self.configured_frame_rate
            <= MAX_FRAME_RATE
    }

    /// Time since the last frame at `now`; none if `now` is earlier.
    pub open spec fn since_last_frame(&self, now: u64) -> int {
        if now >= self.last_frame {
            now - self.last_frame
        } else {
            0
        }
    }

    /// Whether a frame is due at `now`: at least one frame interval, the
    /// `frame_rate`-th part of a second, has passed since the last frame.
    pub open spec fn frame_due(&self, now: u64) -> bool {
        self.since_last_frame(now) * self.frame_rate >= NANOS_PER_SECOND
    }

    /// The canvas after a frame was rendered at `now`.
    pub open spec fn rendered_at(&self, now: u64) -> FragmentCanvas {
        FragmentCanvas { last_frame: now, ..*self }
    }

    /// The render pass for a frame at `now`.
    pub open spec fn frame_pass(&self, now: u64) -> FramePass {
        FramePass {
            elapsed_nanos: if now >= self.start_time {
                (now - self.start_time) as u64
            } else {
                0
            },
            load: PassLoad::ClearTransparent,
            vertex_count: FULL_SCREEN_VERTICES,
        }
    }

    /// The canvas after the shader was handed a resolution.
    pub open spec fn with_resolution(&self, width: u32, height: u32) -> FragmentCanvas {
        FragmentCanvas { resolution_width: width, resolution_height: height, ..*self }
    }

    /// The canvas after a frame rate override.
    pub open spec fn overridden(&self, frame_rate: Option<u8>) -> FragmentCanvas {
        FragmentCanvas {
            frame_rate: clamp_frame_rate(
                match frame_rate {
                    Some(rate) => rate,
                    None => self.configured_frame_rate,
                },
            ),
            ..*self
        }
    }

    /// Makes the canvas for a source that is taken to be in `language`, and
    /// the text to compile for it: see [`canvas_for`].
    pub fn with_language(
        source: &ShaderSource,
        language: ShaderLanguage,
        shader_file: Result<String, String>,
        background: Result<(), String>,
        now: u64,
    ) -> (r: Result<(FragmentCanvas, String), ShaderError>)
        ensures
            made_view(r) == canvas_for(
                source@,
                language,
                read_view(shader_file),
                load_view(background),
                now,
            ),
            r matches Ok((canvas, _)) ==> canvas.wf(),
    {
        let code = match &source.shader {
            ShaderContent::Path(_) => shader_file,
            ShaderContent::Code(text) => Ok(text.clone()),
        };
        let text = match code {
            Ok(text) => text,
            Err(reason) => {
                return Err(ShaderError::Io(reason));
            },
        };
        let has_texture = source.background_image.is_some();
        if has_texture {
            match background {
                Ok(()) => {},
                Err(reason) => {
                    return Err(ShaderError::ImageLoad(reason));
                },
            }
        }
        let preamble = if has_texture {
            WGSL_PREAMBLE_WITH_TEXTURE
        } else {
            WGSL_PREAMBLE
        };
        let full_text = match build_shader_source(language, preamble, text.as_str()) {
            Ok(full_text) => full_text,
            Err(error) => {
                return Err(error);
            },
        };
        let frame_rate = clamped_rate(source.frame_rate);
        Ok(
            (
                FragmentCanvas {
                    start_time: now,
                    last_frame: now,
                    frame_rate,
                    configured_frame_rate: frame_rate,
                    has_texture,
                    resolution_width: 0,
                    resolution_height: 0,
                },
                full_text,
            ),
        )
    }

    /// Makes the canvas for a shader source, and the text to compile for it,
    /// as [`FragmentCanvas::with_language`] does for the language that
    /// [`detect_language`] finds.
    ///
    /// The frame rate of the canvas is that of the source, brought into the
    /// range from 1 to 60.
    pub fn new(
        source: &ShaderSource,
        shader_file: Result<String, String>,
        background: Result<(), String>,
        now: u64,
    ) -> (r: Result<(FragmentCanvas, String), ShaderError>)
        ensures
            made_view(r) == canvas_for(
                source@,
                detected_language(source@),
                read_view(shader_file),
                load_view(background),
                now,
            ),
            r matches Ok((canvas, _)) ==> canvas.wf() && canvas.configured_frame_rate
                == clamp_frame_rate(source.frame_rate),
    {
        let language = detect_language(source);
        FragmentCanvas::with_language(source, language, shader_file, background, now)
    }

    /// Records the resolution that the shader is given from now on.
    pub fn update_resolution(&mut self, width: u32, height: u32)
        ensures
            *final(self) == old(self).with_resolution(width, height),
    {
        self.resolution_width = width;
        self.resolution_height = height;
    }

    /// Whether enough time has passed at `now` for the next frame.
    pub fn should_render(&self, now: u64) -> (r: bool)
        ensures
            r == self.frame_due(now),
    {
        let elapsed: u64 = if now >= self.last_frame {
            now - self.last_frame
        } else {
            0
        };
        assert(elapsed * self.frame_rate <= 0xffff_ffff_ffff_ffff * 0xff) by (nonlinear_arith)
            requires
                0 <= elapsed <= 0xffff_ffff_ffff_ffff,
                0 <= self.frame_rate <= 0xff,
        ;
        (elapsed as u128) * (self.frame_rate as u128) >= NANOS_PER_SECOND as u128
    }

    /// Records that a frame was rendered at `now`.
    pub fn mark_frame_rendered(&mut self, now: u64)
        ensures
            *final(self) == old(self).rendered_at(now),
    {
        self.last_frame = now;
    }

    /// The frame rate of the shader source, in range.
    pub fn configured_frame_rate(&self) -> (r: u8)
        ensures
            r == self.configured_frame_rate,
    {
        self.configured_frame_rate
    }

    /// The frame rate in force.
    pub fn current_frame_rate(&self) -> (r: u8)
        ensures
            r == self.frame_rate,
    {
        self.frame_rate
    }

    /// Runs the canvas at `frame_rate`, brought into range, until the next
    /// override; `None` brings the configured frame rate back.
    pub fn set_frame_rate_override(&mut self, frame_rate: Option<u8>)
        ensures
            *final(self) == old(self).overridden(frame_rate),
            old(self).wf() ==> final(self).wf(),
    {
        let wanted = match frame_rate {
            Some(rate) => rate,
            None => self.configured_frame_rate,
        };
        self.frame_rate = clamped_rate(wanted);
    }

    /// The render pass for a frame at `now`: the shader is handed the time
    /// since the canvas was made, and the full-screen strip is drawn.
    pub fn render(&self, now: u64) -> (r: FramePass)
        ensures
            r == self.frame_pass(now),
    {
        let elapsed_nanos: u64 = if now >= self.start_time {
            now - self.start_time
        } else {
            0
        };
        FramePass {
            elapsed_nanos,
            load: PassLoad::ClearTransparent,
            vertex_count: FULL_SCREEN_VERTICES,
        }
    }
}

/// After a frame was rendered, no frame is due before a full frame interval
/// has passed, and so none within half of one.
pub proof fn lemma_no_frame_due_within_interval(canvas: FragmentCanvas, rendered: u64, now: u64)
    requires
        (now - rendered) * canvas.frame_rate < NANOS_PER_SECOND,
    ensures
        !canvas.rendered_at(rendered).frame_due(now),
        (now - rendered) * 2 * canvas.frame_rate < NANOS_PER_SECOND ==> !canvas.rendered_at(
            rendered,
        ).frame_due(now),
{
}

/// A frame is due once a full frame interval has passed since the last one.
pub proof fn lemma_frame_due_after_interval(canvas: FragmentCanvas, rendered: u64, now: u64)
    requires
        now >= rendered,
        (now - rendered) * canvas.frame_rate >= NANOS_PER_SECOND,
    ensures
        canvas.rendered_at(rendered).frame_due(now),
{
}

} // verus!
