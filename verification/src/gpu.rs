//! What the graphics context is asked for.

use vstd::prelude::*;

verus! {

/// Which graphics adapter is asked for.
#[derive(Debug, Clone, Copy, PartialEq, Eq, Structural)]
pub enum AdapterChoice {
    /// An adapter that saves power.
    LowPower,
    /// The adapter that the system offers first.
    Default,
}

/// The adapter to ask for: a low-power one if that is preferred and there
/// is one, the default one otherwise.
pub fn choose_adapter(prefer_low_power: bool, low_power_available: bool) -> (r: AdapterChoice)
    ensures
        r == if prefer_low_power && low_power_available {
            AdapterChoice::LowPower
        } else {
            AdapterChoice::Default
        },
{
    if prefer_low_power && low_power_available {
        AdapterChoice::LowPower
    } else {
        AdapterChoice::Default
    }
}

/// How frames are presented.
#[derive(Debug, Clone, Copy, PartialEq, Eq, Structural)]
pub enum PresentMode {
    /// In step with the display, in the way the device does best.
    AutoVsync,
}

/// How a surface is blended with what is behind it.
#[derive(Debug, Clone, Copy, PartialEq, Eq, Structural)]
pub enum AlphaMode {
    Opaque,
}

/// How a surface is configured.
#[derive(Debug, Clone, Copy, PartialEq, Eq, Structural)]
pub struct SurfaceConfiguration {
    pub width: u32,
    pub height: u32,
    pub present_mode: PresentMode,
    pub alpha_mode: AlphaMode,
    /// How many formats besides the surface's own its views may have.
    pub view_formats: usize,
}

/// The configuration of a surface of `width` by `height` physical pixels:
/// presented in step with the display, opaque, with views in the surface's
/// own format only.
pub fn configure_surface(width: u32, height: u32) -> (r: SurfaceConfiguration)
    ensures
        r == (SurfaceConfiguration {
            width,
            height,
            present_mode: PresentMode::AutoVsync,
            alpha_mode: AlphaMode::Opaque,
            view_formats: 0,
        }),
{
    SurfaceConfiguration {
        width,
        height,
        present_mode: PresentMode::AutoVsync,
        alpha_mode: AlphaMode::Opaque,
        view_formats: 0,
    }
}

} // verus!
