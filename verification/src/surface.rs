//! The presentable surface as the core sees it: its configuration, the
//! descriptor values of an acquired image, the ways acquisition can fail,
//! and the choice of surface format at startup.
//!
//! The surface itself is owned by the shell; only plain descriptor values
//! cross into the core. A format is carried as an opaque numeric code plus
//! the one property the core reads (whether it is an sRGB format), and a
//! present mode as an opaque code picked from the surface's capabilities.

use vstd::prelude::*;

verus! {

/// The ways acquiring the next presentable image can fail. Recovery is the
/// frame orchestrator's job alone; see `frame::State::dispatch`.
#[derive(Clone, Copy, Debug, PartialEq, Eq, Structural)]
pub enum SurfaceError {
    /// The surface was lost; recoverable by reconfiguring it.
    Lost,
    /// The surface no longer matches the window; recoverable by
    /// reconfiguring it.
    Outdated,
    /// The device is out of memory; fatal.
    OutOfMemory,
    /// The image took too long to become available; transient.
    Timeout,
}

/// A texture format: an opaque code, plus whether it is an sRGB format
/// (the one property the startup choice reads).
#[derive(Clone, Copy, Debug, PartialEq, Eq, Structural)]
pub struct TextureFormat {
    pub code: u32,
    pub srgb: bool,
}

/// What a texture may be used for, reduced to the two usages the pipeline
/// needs: as a render-pass output and as a sampled input.
#[derive(Clone, Copy, Debug, PartialEq, Eq, Structural)]
pub struct TextureUsage {
    pub render_attachment: bool,
    pub texture_binding: bool,
}

/// The surface configuration: what `reconfigure` hands to the surface
/// provider and what sizes the intermediate target.
#[derive(Clone, Copy, Debug, PartialEq, Eq, Structural)]
pub struct SurfaceConfig {
    pub width: u32,
    pub height: u32,
    pub format: TextureFormat,
    /// Present mode, as an opaque code from the surface's capabilities.
    pub present_mode: u32,
}

impl SurfaceConfig {
    /// A configuration is well formed when both dimensions are positive.
    pub open spec fn wf(self) -> bool {
        self.width > 0 && self.height > 0
    }
}

/// The descriptor values of an acquired presentable image, read back from
/// the surface so the intermediate target can match it exactly.
#[derive(Clone, Copy, Debug, PartialEq, Eq, Structural)]
pub struct AcquiredImage {
    pub width: u32,
    pub height: u32,
    pub format: TextureFormat,
    pub sample_count: u32,
    pub mip_level_count: u32,
    pub usage: TextureUsage,
}

/// Whether `formats` holds an sRGB format anywhere.
pub open spec fn has_srgb(formats: Seq<TextureFormat>) -> bool {
    exists|i: int| 0 <= i < formats.len() && formats[i].srgb
}

/// The format the renderer runs in: the first sRGB format the surface
/// offers, or the first offered format when it offers no sRGB one.
///
/// The capability list is ordered by preference, and the shaders assume an
/// sRGB target, so the first sRGB entry wins.
pub fn choose_surface_format(formats: &Vec<TextureFormat>) -> (r: TextureFormat)
    requires
        formats@.len() > 0,
    ensures
        has_srgb(formats@) ==> exists|i: int|
            0 <= i < formats@.len() && formats@[i].srgb && r == formats@[i]
                && (forall|j: int| 0 <= j < i ==> !formats@[j].srgb),
        !has_srgb(formats@) ==> r == formats@[0],
{
    let mut i: usize = 0;
    while i < formats.len()
        invariant
            i <= formats@.len(),
            forall|j: int| 0 <= j < i ==> !formats@[j].srgb,
        decreases formats@.len() - i,
    {
        if formats[i].srgb {
            return formats[i];
        }
        i = i + 1;
    }
    formats[0]
}

} // verus!
