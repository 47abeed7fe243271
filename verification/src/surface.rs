//! The presentable surface's configuration.

use vstd::prelude::*;

verus! {

/// A drawable size in physical pixels.
#[derive(Clone, Copy, Debug, PartialEq, Eq, Structural)]
pub struct Extent {
    pub width: u32,
    pub height: u32,
}

impl Extent {
    /// The size with the given width and height.
    pub fn new(width: u32, height: u32) -> (size: Extent)
        ensures
            size == (Extent { width, height }),
    {
        Extent { width, height }
    }
}

/// A color format of the platform, named by the code under which the
/// platform layer knows it. The library never interprets the code; it only
/// keeps the format of the offscreen target equal to the surface's.
#[derive(Clone, Copy, Debug, PartialEq, Eq, Structural)]
pub struct ColorFormat {
    pub code: u32,
}

/// How finished frames are handed to the compositor.
#[derive(Clone, Copy, Debug, PartialEq, Eq, Structural)]
pub enum PresentMode {
    /// Frames are shown as soon as they are presented, with no pacing.
    Immediate,
    /// The newest frame replaces a waiting one at the next refresh.
    Mailbox,
    /// Frames queue up and are shown one per refresh.
    Fifo,
}

/// The configuration of the presentable surface. The surface is used as a
/// render attachment only.
#[derive(Clone, Copy, Debug, PartialEq, Eq, Structural)]
pub struct SurfaceConfig {
    pub width: u32,
    pub height: u32,
    pub color_format: ColorFormat,
    pub present_mode: PresentMode,
}

impl SurfaceConfig {
    /// The drawable size this configuration describes.
    pub open spec fn size(self) -> Extent {
        Extent { width: self.width, height: self.height }
    }

    /// This configuration with its size replaced.
    pub open spec fn with_size(self, width: u32, height: u32) -> SurfaceConfig {
        SurfaceConfig { width, height, ..self }
    }

    /// A configuration for a surface of the given size and format, presenting
    /// without pacing.
    pub fn new(width: u32, height: u32, color_format: ColorFormat) -> (config: SurfaceConfig)
        ensures
            config == (SurfaceConfig {
                width,
                height,
                color_format,
                present_mode: PresentMode::Immediate,
            }),
    {
        SurfaceConfig { width, height, color_format, present_mode: PresentMode::Immediate }
    }

    /// Sets the drawable size. Format and present mode stay as they are.
    pub fn configure(&mut self, width: u32, height: u32)
        ensures
            *final(self) == old(self).with_size(width, height),
    {
        self.width = width;
        self.height = height;
    }

    /// The drawable size.
    pub fn extent(&self) -> (size: Extent)
        ensures
            size == self.size(),
    {
        Extent { width: self.width, height: self.height }
    }
}

/// Configuring is idempotent: a second `configure` with the same size
/// changes nothing, and of two in a row only the last one counts.
pub proof fn lemma_configure_idempotent(config: SurfaceConfig, w0: u32, h0: u32, w: u32, h: u32)
    ensures
        config.with_size(w, h).with_size(w, h) == config.with_size(w, h),
        config.with_size(w0, h0).with_size(w, h) == config.with_size(w, h),
        config.with_size(w, h).size() == (Extent { width: w, height: h }),
        config.with_size(config.width, config.height) == config,
{
}

} // verus!
