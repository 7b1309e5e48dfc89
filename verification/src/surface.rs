//! The surface configuration and the rule for resizing it.

use vstd::prelude::*;

verus! {

/// The pixel format of the presentable surface. The bridge targets one
/// native surface type, with one format.
#[derive(Clone, Copy, PartialEq, Eq, Debug, Structural)]
pub enum PixelFormat {
    Bgra8UnormSrgb,
}

/// The configuration of the presentable surface: its size in device pixels
/// and its pixel format.
#[derive(Clone, Copy, PartialEq, Eq, Debug, Structural)]
pub struct SurfaceConfig {
    pub width: u32,
    pub height: u32,
    pub format: PixelFormat,
}

/// Whether a size describes a surface that can be configured: neither
/// dimension is zero.
pub open spec fn presentable(width: u32, height: u32) -> bool {
    width != 0 && height != 0
}

/// The configuration after a resize request: unchanged where either
/// dimension is zero, else the same format at the new size.
pub open spec fn resized(config: SurfaceConfig, width: u32, height: u32) -> SurfaceConfig {
    if presentable(width, height) {
        SurfaceConfig { width, height, format: config.format }
    } else {
        config
    }
}

impl SurfaceConfig {
    /// A configuration of the given size in the surface's one format.
    pub fn new(width: u32, height: u32) -> (config: SurfaceConfig)
        ensures
            config == (SurfaceConfig { width, height, format: PixelFormat::Bgra8UnormSrgb }),
    {
        SurfaceConfig { width, height, format: PixelFormat::Bgra8UnormSrgb }
    }

    /// Takes a resize request. A request with a zero dimension changes
    /// nothing. Returns whether the surface has to be configured anew.
    pub fn resize(&mut self, width: u32, height: u32) -> (reconfigure: bool)
        ensures
            *final(self) == resized(*old(self), width, height),
            reconfigure == presentable(width, height),
    {
        if width == 0 || height == 0 {
            return false;
        }
        self.width = width;
        self.height = height;
        true
    }
}

/// A resize request with a zero dimension leaves the configuration as it
/// was, so a later request finds it as if the first had never come.
pub proof fn lemma_degenerate_resize_is_noop(
    config: SurfaceConfig,
    width: u32,
    height: u32,
    next_width: u32,
    next_height: u32,
)
    requires
        width == 0 || height == 0,
    ensures
        resized(config, width, height) == config,
        resized(resized(config, width, height), next_width, next_height) == resized(
            config,
            next_width,
            next_height,
        ),
{
}

} // verus!
