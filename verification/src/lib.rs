//! The core of a desktop background service: what is shown on which output,
//! how an animated background is paced and uploaded, and when power saving
//! holds it back. The library decides; its caller talks to the compositor,
//! the graphics device and the system.

pub mod config;
pub mod context;
pub mod engine;
pub mod external_surface;
pub mod fragment_canvas;
pub mod gpu;
pub mod layer;
pub mod power_saving;
pub mod sequences;
pub mod shader_params;
pub mod state;
pub mod upower;
pub mod user_context;
pub mod wallpaper;
mod text;
