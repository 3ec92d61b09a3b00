//! How a preview surface is configured.

use vstd::prelude::*;

verus! {

/// Texel format of a presentation surface.
#[derive(Debug, Clone, Copy, PartialEq, Eq, Structural)]
pub enum SurfaceFormat {
    /// Red, green, blue and alpha, eight bits each, unsigned and normalised.
    Rgba8Unorm,
    /// The same channels with blue first.
    Bgra8Unorm,
}

/// When an image that was presented reaches the screen.
#[derive(Debug, Clone, Copy, PartialEq, Eq, Structural)]
pub enum PresentMode {
    /// In the order of presentation, one image for every refresh of the display.
    Fifo,
    /// At once, without waiting for the display.
    Immediate,
}

/// How the alpha channel of a presented image is read.
#[derive(Debug, Clone, Copy, PartialEq, Eq, Structural)]
pub enum AlphaMode {
    /// Alpha is ignored.
    Opaque,
    /// The colour channels are multiplied by alpha already.
    PreMultiplied,
}

/// Number of frames that may be queued for presentation on a preview surface.
pub const FRAME_LATENCY: u32 = 2;

/// The configuration of a presentation surface.
#[derive(Debug, Clone, Copy, PartialEq, Eq, Structural)]
pub struct SurfaceConfig {
    pub width: u32,
    pub height: u32,
    pub format: SurfaceFormat,
    pub present_mode: PresentMode,
    pub desired_maximum_frame_latency: u32,
    pub alpha_mode: AlphaMode,
}

/// The format of every preview surface, and of what is drawn into it.
pub fn preview_format() -> (format: SurfaceFormat)
    ensures
        format == SurfaceFormat::Rgba8Unorm,
{
    SurfaceFormat::Rgba8Unorm
}

/// The configuration of every preview surface: eight-bit RGBA, paced by the
/// display, two frames of latency, premultiplied alpha.
pub open spec fn preview_config(width: u32, height: u32) -> SurfaceConfig {
    SurfaceConfig {
        width,
        height,
        format: SurfaceFormat::Rgba8Unorm,
        present_mode: PresentMode::Fifo,
        desired_maximum_frame_latency: FRAME_LATENCY,
        alpha_mode: AlphaMode::PreMultiplied,
    }
}

/// The configuration for a preview surface on a target of `width` by
/// `height` pixels.
pub fn surface_config(width: u32, height: u32) -> (config: SurfaceConfig)
    ensures
        config == preview_config(width, height),
{
    SurfaceConfig {
        width,
        height,
        format: preview_format(),
        present_mode: PresentMode::Fifo,
        desired_maximum_frame_latency: FRAME_LATENCY,
        alpha_mode: AlphaMode::PreMultiplied,
    }
}

} // verus!
