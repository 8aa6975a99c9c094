//! Presentation-surface configuration and the depth buffer that shadows it.
//!
//! The surface manager owns the surface configuration (format, size,
//! presentation mode) and the descriptor of the depth attachment. The two
//! are reconfigured together: at the start of every render the depth
//! buffer's dimensions equal the surface's. A zero-area size is tolerated
//! by skipping reconfiguration and marking the surface non-drawable until
//! a non-zero size arrives.

use vstd::prelude::*;
use crate::format::{SurfaceFormat, spec_negotiate, negotiate_format};

verus! {

/// How presented frames are paced. The renderer fixes this to `Fifo`
/// (vertical-sync locked: no tearing, bounded frame queue).
#[derive(Clone, Copy, Debug, PartialEq, Eq, Structural)]
pub enum PresentMode {
    AutoVsync,
    AutoNoVsync,
    Immediate,
    Mailbox,
    Fifo,
    FifoRelaxed,
}

/// Alpha compositing modes a surface may advertise; the renderer takes
/// the first advertised one.
#[derive(Clone, Copy, Debug, PartialEq, Eq, Structural)]
pub enum AlphaMode {
    Auto,
    Opaque,
    PreMultiplied,
    PostMultiplied,
    Inherit,
}

/// Depth-attachment texel format; fixed to 32-bit float depth.
#[derive(Clone, Copy, Debug, PartialEq, Eq, Structural)]
pub enum DepthFormat {
    Depth32Float,
}

/// What a surface advertises: its color formats and alpha modes.
pub struct SurfaceCaps {
    pub formats: Vec<SurfaceFormat>,
    pub alpha_modes: Vec<AlphaMode>,
}

/// The surface's presentation configuration.
#[derive(Clone, Copy, Debug, PartialEq, Eq, Structural)]
pub struct SurfaceConfig {
    pub format: SurfaceFormat,
    pub width: u32,
    pub height: u32,
    pub present_mode: PresentMode,
    pub alpha_mode: AlphaMode,
}

/// Descriptor of the depth attachment: a single-sample, single-mip,
/// one-layer, two-dimensional 32-bit float depth texture sized to the
/// surface.
#[derive(Clone, Copy, Debug, PartialEq, Eq, Structural)]
pub struct DepthTextureDesc {
    pub width: u32,
    pub height: u32,
    pub depth_or_array_layers: u32,
    pub mip_level_count: u32,
    pub sample_count: u32,
    pub format: DepthFormat,
}

/// The fixed shape of every depth attachment this renderer creates.
pub open spec fn spec_depth_desc(width: u32, height: u32) -> DepthTextureDesc {
    DepthTextureDesc {
        width,
        height,
        depth_or_array_layers: 1,
        mip_level_count: 1,
        sample_count: 1,
        format: DepthFormat::Depth32Float,
    }
}

/// Build the descriptor of the depth attachment for the given surface
/// dimensions.
pub fn create_depth_texture_desc(width: u32, height: u32) -> (d: DepthTextureDesc)
    ensures
        d == spec_depth_desc(width, height),
{
    DepthTextureDesc {
        width,
        height,
        depth_or_array_layers: 1,
        mip_level_count: 1,
        sample_count: 1,
        format: DepthFormat::Depth32Float,
    }
}

/// Owner of the surface configuration and the depth descriptor, kept in
/// lock step. `drawable` is false while the last requested size had a
/// zero side; no render pass is recorded in that state.
#[derive(Clone, Copy, Debug, PartialEq, Eq, Structural)]
pub struct SurfaceManager {
    pub config: SurfaceConfig,
    pub depth: DepthTextureDesc,
    pub drawable: bool,
}

impl SurfaceManager {
    /// The resource invariant: the depth buffer exactly shadows the
    /// surface dimensions, and the depth descriptor has its fixed shape.
    pub open spec fn wf(self) -> bool {
        &&& self.depth == spec_depth_desc(self.config.width, self.config.height)
        &&& self.config.present_mode == PresentMode::Fifo
    }

    /// The effect of a reconfiguration request: a non-zero size replaces
    /// the surface dimensions and the depth descriptor together; a size
    /// with a zero side leaves both untouched and clears `drawable`.
    pub open spec fn spec_reconfigure(self, width: u32, height: u32) -> SurfaceManager {
        if width > 0 && height > 0 {
            SurfaceManager {
                config: SurfaceConfig { width, height, ..self.config },
                depth: spec_depth_desc(width, height),
                drawable: true,
            }
        } else {
            SurfaceManager { drawable: false, ..self }
        }
    }

    /// Configure the surface for the first time: negotiate the color
    /// format from the capability list, fix `Fifo` presentation, take the
    /// first advertised alpha mode, and size the depth buffer to match.
    pub fn configure(caps: &SurfaceCaps, width: u32, height: u32) -> (sm: SurfaceManager)
        requires
            caps.formats@.len() > 0,
            caps.alpha_modes@.len() > 0,
        ensures
            sm.wf(),
            sm.config.format == spec_negotiate(caps.formats@),
            sm.config.width == width,
            sm.config.height == height,
            sm.config.present_mode == PresentMode::Fifo,
            sm.config.alpha_mode == caps.alpha_modes@[0],
            sm.depth == spec_depth_desc(width, height),
            sm.drawable == (width > 0 && height > 0),
    {
        let format = negotiate_format(&caps.formats);
        let config = SurfaceConfig {
            format,
            width,
            height,
            present_mode: PresentMode::Fifo,
            alpha_mode: caps.alpha_modes[0],
        };
        SurfaceManager {
            config,
            depth: create_depth_texture_desc(width, height),
            drawable: width > 0 && height > 0,
        }
    }

    /// Apply a resize or scale-factor change: reconfigure surface and
    /// depth buffer together, or skip both on a zero-area size.
    pub fn reconfigure(&mut self, width: u32, height: u32)
        requires
            old(self).wf(),
        ensures
            *final(self) == old(self).spec_reconfigure(width, height),
            final(self).wf(),
            width > 0 && height > 0 ==> final(self).depth.width == width
                && final(self).depth.height == height,
    {
        if width > 0 && height > 0 {
            self.config.width = width;
            self.config.height = height;
            self.depth = create_depth_texture_desc(width, height);
            self.drawable = true;
        } else {
            self.drawable = false;
        }
    }
}

/// Reconfiguring twice with the same dimensions yields a surface
/// configuration and depth descriptor identical to reconfiguring once.
pub proof fn lemma_reconfigure_idempotent(sm: SurfaceManager, width: u32, height: u32)
    ensures
        sm.spec_reconfigure(width, height).spec_reconfigure(width, height)
            == sm.spec_reconfigure(width, height),
{
}

/// After any reconfiguration of a well-formed manager the depth buffer's
/// dimensions equal the surface's, whatever size was requested.
pub proof fn lemma_depth_matches_surface(sm: SurfaceManager, width: u32, height: u32)
    requires
        sm.wf(),
    ensures
        sm.spec_reconfigure(width, height).depth.width
            == sm.spec_reconfigure(width, height).config.width,
        sm.spec_reconfigure(width, height).depth.height
            == sm.spec_reconfigure(width, height).config.height,
{
}

} // verus!
