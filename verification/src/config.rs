//! Surface configuration for a render surface.
//!
//! An immutable-after-creation description of the color, depth, stencil,
//! multisample and option settings of a window's render surface. The
//! native layer keeps this in a record of its own; the wrapper models
//! that record as plain values, with `None` standing for the native
//! "use the default" / "no buffer" sentinel of each field. Invalid
//! combinations are the native layer's concern: the setters validate
//! nothing beyond their types.

use vstd::prelude::*;

verus! {

/// Surface color format.
#[derive(Clone, Copy, Debug, PartialEq, Eq, Structural)]
pub enum ColorFormat {
    Rgb888,
    Rgba8888,
}

/// Surface depth-buffer size.
#[derive(Clone, Copy, Debug, PartialEq, Eq, Structural)]
pub enum DepthBits {
    DepthBits8,
    DepthBits16,
    DepthBits24,
    DepthBits32,
}

/// Surface stencil-buffer size.
#[derive(Clone, Copy, Debug, PartialEq, Eq, Structural)]
pub enum StencilBits {
    StencilBits1,
    StencilBits2,
    StencilBits4,
    StencilBits8,
    StencilBits16,
}

/// Multisample (MSAA) level of the render surface. Only works on
/// supported devices.
#[derive(Clone, Copy, Debug, PartialEq, Eq, Structural)]
pub enum MultisampleBits {
    /// MSAA with a minimum number of samples.
    MultisampleLow,
    /// MSAA with half the maximum number of samples.
    MultisampleMedium,
    /// MSAA with the maximum number of samples allowed.
    MultisampleHigh,
}

/// Bit set of render-surface options.
pub const GL_OPTIONS_NONE: u32 = 0;

/// Option bit: allow rendering directly to the window when possible.
pub const GL_OPTIONS_DIRECT: u32 = 1;

/// A set of render-surface option bits.
#[derive(Clone, Copy, Debug, PartialEq, Eq, Structural)]
pub struct GlOptions {
    pub bits: u32,
}

impl GlOptions {
    /// The empty option set.
    pub fn none() -> (r: GlOptions)
        ensures
            r.bits == GL_OPTIONS_NONE,
    {
        GlOptions { bits: GL_OPTIONS_NONE }
    }

    /// The option set holding only the direct-rendering bit.
    pub fn direct() -> (r: GlOptions)
        ensures
            r.bits == GL_OPTIONS_DIRECT,
    {
        GlOptions { bits: GL_OPTIONS_DIRECT }
    }

    /// Whether every bit of `mask` is present in this set.
    pub fn contains(&self, mask: u32) -> (r: bool)
        ensures
            r == (self.bits & mask == mask),
    {
        self.bits & mask == mask
    }
}

/// The configuration of a render surface, owned by exactly one window
/// builder or window for its whole lifetime. Created all-default;
/// consumed by window creation.
pub struct GlConfig {
    /// Color format; `None` leaves the native default in place.
    pub color_format: Option<ColorFormat>,
    /// Depth-buffer size; `None` maps to the native "no depth buffer"
    /// sentinel.
    pub depth: Option<DepthBits>,
    /// Stencil-buffer size; `None` maps to the native "no stencil
    /// buffer" sentinel.
    pub stencil: Option<StencilBits>,
    /// Render-surface option bits.
    pub options: GlOptions,
    /// Multisample level; `None` maps to the native "no multisampling"
    /// sentinel.
    pub multisample: Option<MultisampleBits>,
}

impl GlConfig {
    /// The all-default configuration a fresh surface description starts
    /// from.
    pub open spec fn spec_default() -> GlConfig {
        GlConfig {
            color_format: None,
            depth: None,
            stencil: None,
            options: GlOptions { bits: GL_OPTIONS_NONE },
            multisample: None,
        }
    }

    /// A fresh, all-default configuration.
    pub fn new() -> (c: GlConfig)
        ensures
            c == GlConfig::spec_default(),
    {
        GlConfig {
            color_format: None,
            depth: None,
            stencil: None,
            options: GlOptions { bits: GL_OPTIONS_NONE },
            multisample: None,
        }
    }

    /// Overwrites the color format in place.
    pub fn set_color_format(&mut self, format: ColorFormat)
        ensures
            *final(self) == (GlConfig { color_format: Some(format), ..*old(self) }),
    {
        self.color_format = Some(format);
    }

    /// Overwrites the depth-buffer setting in place.
    pub fn set_depth(&mut self, depth: Option<DepthBits>)
        ensures
            *final(self) == (GlConfig { depth: depth, ..*old(self) }),
    {
        self.depth = depth;
    }

    /// Overwrites the stencil-buffer setting in place.
    pub fn set_stencil(&mut self, stencil: Option<StencilBits>)
        ensures
            *final(self) == (GlConfig { stencil: stencil, ..*old(self) }),
    {
        self.stencil = stencil;
    }

    /// Overwrites the option bits in place.
    pub fn set_options(&mut self, options: GlOptions)
        ensures
            *final(self) == (GlConfig { options: options, ..*old(self) }),
    {
        self.options = options;
    }

    /// Overwrites the multisample setting in place.
    pub fn set_multisample(&mut self, multisample: Option<MultisampleBits>)
        ensures
            *final(self) == (GlConfig { multisample: multisample, ..*old(self) }),
    {
        self.multisample = multisample;
    }
}

} // verus!
