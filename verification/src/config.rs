use vstd::prelude::*;

verus! {

/// Presentation policy for the surface. The harness always runs with a
/// vsync-aligned, bounded-latency policy; no other mode is ever configured.
#[derive(Clone, Copy, Debug, PartialEq, Eq, Structural)]
pub enum PresentMode {
    Fifo,
}

/// Number of in-flight frames the surface is configured to allow.
pub const DESIRED_FRAME_LATENCY: u32 = 2;

/// The configuration a presentation surface is currently set up with:
/// pixel size, chosen texture format (an opaque identifier supplied by the
/// host when it enumerates the surface's supported formats), presentation
/// policy and in-flight frame latency.
#[derive(Clone, Copy, Debug, PartialEq, Eq, Structural)]
pub struct SurfaceConfig {
    pub width: u32,
    pub height: u32,
    pub format: u32,
    pub present_mode: PresentMode,
    pub desired_maximum_frame_latency: u32,
}

/// One window dimension, clamped so that the surface is never configured
/// with a zero extent.
pub open spec fn clamp_dimension_spec(d: u32) -> u32 {
    if d == 0 {
        1u32
    } else {
        d
    }
}

/// The configuration built from a window's reported pixel size and a chosen
/// format: each dimension clamped to at least 1, vsync-aligned presentation,
/// and the fixed frame latency.
pub open spec fn config_spec(width: u32, height: u32, format: u32) -> SurfaceConfig {
    SurfaceConfig {
        width: clamp_dimension_spec(width),
        height: clamp_dimension_spec(height),
        format,
        present_mode: PresentMode::Fifo,
        desired_maximum_frame_latency: DESIRED_FRAME_LATENCY,
    }
}

fn clamp_dimension(d: u32) -> (r: u32)
    ensures
        r == clamp_dimension_spec(d),
{
    if d == 0 {
        1
    } else {
        d
    }
}

impl SurfaceConfig {
    /// A configuration never describes a zero-sized surface and always
    /// carries the fixed presentation policy.
    pub open spec fn wf(self) -> bool {
        &&& self.width >= 1
        &&& self.height >= 1
        &&& self.present_mode is Fifo
        &&& self.desired_maximum_frame_latency == DESIRED_FRAME_LATENCY
    }

    /// Build the configuration applied at first-time configure.
    pub fn new(width: u32, height: u32, format: u32) -> (c: Self)
        ensures
            c == config_spec(width, height, format),
            c.wf(),
    {
        SurfaceConfig {
            width: clamp_dimension(width),
            height: clamp_dimension(height),
            format,
            present_mode: PresentMode::Fifo,
            desired_maximum_frame_latency: DESIRED_FRAME_LATENCY,
        }
    }

    /// Reconfigure in place for a new window size. Only the extent changes:
    /// format, presentation policy and latency are kept, and each dimension
    /// is clamped to at least 1.
    pub fn resize(&mut self, width: u32, height: u32)
        ensures
            *final(self) == (SurfaceConfig {
                width: clamp_dimension_spec(width),
                height: clamp_dimension_spec(height),
                ..*old(self)
            }),
            old(self).wf() ==> final(self).wf(),
    {
        self.width = clamp_dimension(width);
        self.height = clamp_dimension(height);
    }
}

} // verus!
