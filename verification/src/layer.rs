//! One surface on one output, and the size of what it is drawn at.

use vstd::prelude::*;

use crate::fragment_canvas::FragmentCanvas;

verus! {

/// The fractional scale that stands for 1: scales are counted in 120ths.
pub const SCALE_DENOMINATOR: u32 = 120;

/// Physical width taken for an output of which nothing is known.
pub const FALLBACK_WIDTH: u32 = 1920;

/// Physical height taken for an output of which nothing is known.
pub const FALLBACK_HEIGHT: u32 = 1080;

/// The scale in force: the one given, or 1 where none is known.
pub open spec fn scale_or_default(fractional_scale: Option<u32>) -> u32 {
    match fractional_scale {
        Some(scale) => scale,
        None => SCALE_DENOMINATOR,
    }
}

/// A logical length at a scale in 120ths, in physical pixels: `length * scale
/// / 120`, rounded down. A result beyond 32 bits is held at the largest
/// 32-bit length.
pub open spec fn scaled_length(length: u32, scale: u32) -> u32 {
    let exact = (length * scale) / (SCALE_DENOMINATOR as int);
    if exact > u32::MAX {
        u32::MAX
    } else {
        exact as u32
    }
}

/// The integer scale factor of an output as a fractional scale in 120ths,
/// held at the largest 32-bit scale.
pub open spec fn whole_scale(scale_factor: u32) -> u32 {
    if scale_factor * SCALE_DENOMINATOR > u32::MAX {
        u32::MAX
    } else {
        (scale_factor * SCALE_DENOMINATOR) as u32
    }
}

/// Executable form of [`whole_scale`].
pub fn scale_from_factor(scale_factor: u32) -> (r: u32)
    ensures
        r == whole_scale(scale_factor),
{
    let scaled: u64 = (scale_factor as u64) * 120;
    if scaled > u32::MAX as u64 {
        u32::MAX
    } else {
        scaled as u32
    }
}

/// Executable form of [`scaled_length`].
pub fn scale_length(length: u32, scale: u32) -> (r: u32)
    ensures
        r == scaled_length(length, scale),
{
    assert(length * scale <= 0xffff_ffff * 0xffff_ffff) by (nonlinear_arith)
        requires
            0 <= length <= 0xffff_ffff,
            0 <= scale <= 0xffff_ffff,
    ;
    let exact: u64 = ((length as u64) * (scale as u64)) / 120;
    if exact > u32::MAX as u64 {
        u32::MAX
    } else {
        exact as u32
    }
}

/// The size in physical pixels of a shader's surface.
///
/// With a logical size: that size at the fractional scale, or at scale 1
/// where none is known. Without one: the output's current mode. Without
/// either: 1920 by 1080 at the fractional scale.
pub open spec fn physical_size(
    layer_size: Option<(u32, u32)>,
    fractional_scale: Option<u32>,
    output_mode_dims: Option<(u32, u32)>,
) -> (u32, u32) {
    let scale = scale_or_default(fractional_scale);
    match layer_size {
        Some((width, height)) => (scaled_length(width, scale), scaled_length(height, scale)),
        None => match output_mode_dims {
            Some(dims) => dims,
            None => (scaled_length(FALLBACK_WIDTH, scale), scaled_length(FALLBACK_HEIGHT, scale)),
        },
    }
}

/// A missing fractional scale counts as 120 in the physical size.
pub proof fn lemma_missing_scale_is_one(
    layer_size: Option<(u32, u32)>,
    output_mode_dims: Option<(u32, u32)>,
)
    ensures
        physical_size(layer_size, None, output_mode_dims) == physical_size(
            layer_size,
            Some(SCALE_DENOMINATOR),
            output_mode_dims,
        ),
        layer_size matches Some((width, height)) ==> physical_size(
            layer_size,
            None,
            output_mode_dims,
        ) == (width, height),
{
    match layer_size {
        Some((width, height)) => {
            assert(width * SCALE_DENOMINATOR == width * 120);
            assert(height * SCALE_DENOMINATOR == height * 120);
            assert((width * 120) / 120 == width);
            assert((height * 120) / 120 == height);
        },
        None => {},
    }
}

/// The layer of the compositor's layer shell that a surface is on.
#[derive(Debug, Clone, Copy, PartialEq, Eq, Structural)]
pub enum ShellLayer {
    Background,
}

/// How a surface takes keyboard input.
#[derive(Debug, Clone, Copy, PartialEq, Eq, Structural)]
pub enum KeyboardInteractivity {
    /// The surface takes no keyboard input.
    Never,
}

/// How the layer surface of a background is set up.
#[derive(Debug, Clone, Copy, PartialEq, Eq, Structural)]
pub struct LayerSetup {
    pub layer: ShellLayer,
    pub anchor_top: bool,
    pub anchor_bottom: bool,
    pub anchor_left: bool,
    pub anchor_right: bool,
    /// The space the surface reserves; -1 lets it reach under other
    /// surfaces and reserves none.
    pub exclusive_zone: i32,
    pub keyboard_interactivity: KeyboardInteractivity,
}

/// The setup of every background: on the background layer, anchored to all
/// four edges, reserving no space, without keyboard input.
pub fn layer_setup() -> (r: LayerSetup)
    ensures
        r == (LayerSetup {
            layer: ShellLayer::Background,
            anchor_top: true,
            anchor_bottom: true,
            anchor_left: true,
            anchor_right: true,
            exclusive_zone: -1i32,
            keyboard_interactivity: KeyboardInteractivity::Never,
        }),
{
    LayerSetup {
        layer: ShellLayer::Background,
        anchor_top: true,
        anchor_bottom: true,
        anchor_left: true,
        anchor_right: true,
        exclusive_zone: -1,
        keyboard_interactivity: KeyboardInteractivity::Never,
    }
}

/// What the graphics side of a shader layer holds.
#[derive(Debug, Clone, Copy, PartialEq, Eq)]
pub struct GpuLayerState {
    /// Width the surface is configured at, in physical pixels.
    pub surface_width: u32,
    /// Height the surface is configured at, in physical pixels.
    pub surface_height: u32,
    pub canvas: FragmentCanvas,
}

/// One surface on one output.
#[derive(Debug, Clone, Copy, PartialEq, Eq)]
pub struct CosmicBgLayer {
    /// The handle of the layer surface.
    pub id: u64,
    /// The handle of the output the surface is on.
    pub output: u64,
    /// The output's integer scale factor.
    pub scale_factor: u32,
    /// The output's current mode, in physical pixels.
    pub mode: Option<(u32, u32)>,
    /// The logical size; known from the first configure on.
    pub size: Option<(u32, u32)>,
    /// The scale in 120ths, where one is known.
    pub fractional_scale: Option<u32>,
    pub needs_redraw: bool,
    /// Bytes of the pixel buffer pool of a still background.
    pub pool: Option<usize>,
    /// The graphics state of an animated background.
    pub gpu_state: Option<GpuLayerState>,
}

impl CosmicBgLayer {
    /// The physical size of this layer's surface: see [`physical_size`].
    pub open spec fn spec_physical_size(&self) -> (u32, u32) {
        physical_size(self.size, self.fractional_scale, self.mode)
    }

    /// A layer's surface is configured at the layer's physical size, where
    /// it has one.
    pub open spec fn surface_sized(&self) -> bool {
        self.gpu_state matches Some(gpu) ==> (gpu.surface_width, gpu.surface_height)
            == self.spec_physical_size()
    }

    /// The layer with its surface configured at its physical size and its
    /// shader told so; a layer without graphics state is left as it is.
    pub open spec fn resized(&self) -> CosmicBgLayer {
        match self.gpu_state {
            Some(gpu) => {
                let (width, height) = self.spec_physical_size();
                CosmicBgLayer {
                    gpu_state: Some(
                        GpuLayerState {
                            surface_width: width,
                            surface_height: height,
                            canvas: gpu.canvas.with_resolution(width, height),
                        },
                    ),
                    ..*self
                }
            },
            None => *self,
        }
    }

    /// The layer holds a pool or graphics state, never both.
    pub open spec fn one_kind(&self) -> bool {
        !(self.pool is Some && self.gpu_state is Some)
    }

    #[verifier::when_used_as_spec(spec_physical_size)]
    pub fn physical_size(&self) -> (r: (u32, u32))
        ensures
            r == self.spec_physical_size(),
    {
        shader_physical_size(self.size, self.fractional_scale, self.mode)
    }
}

/// Executable form of [`physical_size`].
pub fn shader_physical_size(
    layer_size: Option<(u32, u32)>,
    fractional_scale: Option<u32>,
    output_mode_dims: Option<(u32, u32)>,
) -> (r: (u32, u32))
    ensures
        r == physical_size(layer_size, fractional_scale, output_mode_dims),
{
    let scale = match fractional_scale {
        Some(scale) => scale,
        None => SCALE_DENOMINATOR,
    };
    match layer_size {
        Some((width, height)) => (scale_length(width, scale), scale_length(height, scale)),
        None => match output_mode_dims {
            Some(dims) => dims,
            None => (scale_length(FALLBACK_WIDTH, scale), scale_length(FALLBACK_HEIGHT, scale)),
        },
    }
}

} // verus!
