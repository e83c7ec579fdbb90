//! The presentation surface's CPU-side model: its pixel extent, the resize
//! rule that rejects zero-area reconfigurations, the choice of surface
//! format at startup, and the per-frame recovery policy for surface errors.

use vstd::prelude::*;

verus! {

/// The pixel extent the presentation surface is configured with. Both sides
/// stay positive: a zero-area resize is rejected rather than applied.
#[derive(Copy, Clone, Debug, PartialEq, Eq, Structural)]
pub struct SurfaceExtent {
    pub width: u32,
    pub height: u32,
}

impl SurfaceExtent {
    /// A configured surface never has a zero-area extent.
    pub open spec fn wf(self) -> bool {
        self.width > 0 && self.height > 0
    }

    pub fn new(width: u32, height: u32) -> (r: SurfaceExtent)
        requires
            width > 0,
            height > 0,
        ensures
            r.width == width,
            r.height == height,
            r.wf(),
    {
        SurfaceExtent { width, height }
    }

    /// Applies a resize request: a request with a positive area replaces the
    /// extent and reports that the surface must be reconfigured; a request
    /// with zero width or zero height is a no-op on the configuration. A
    /// well-formed extent therefore stays well-formed, and a later valid
    /// resize takes effect as usual.
    pub fn resize(&mut self, new_width: u32, new_height: u32) -> (reconfigure: bool)
        ensures
            reconfigure == (new_width > 0 && new_height > 0),
            reconfigure ==> final(self).width == new_width && final(self).height == new_height,
            !reconfigure ==> *final(self) == *old(self),
            old(self).wf() ==> final(self).wf(),
    {
        if new_width > 0 && new_height > 0 {
            self.width = new_width;
            self.height = new_height;
            true
        } else {
            false
        }
    }
}

/// Picks the surface format at startup: the first sRGB-capable format the
/// GPU context reports, and otherwise the first reported format. `srgb`
/// holds, for each reported format in order, whether it is sRGB-capable.
pub fn choose_format_index(srgb: &Vec<bool>) -> (r: usize)
    requires
        srgb.len() > 0,
    ensures
        r < srgb.len(),
        srgb@.contains(true) ==> srgb[r as int] && forall|j: int| 0 <= j < r ==> !srgb[j],
        !srgb@.contains(true) ==> r == 0,
{
    let mut i: usize = 0;
    while i < srgb.len()
        invariant
            i <= srgb.len(),
            forall|j: int| 0 <= j < i ==> !srgb[j],
        decreases srgb.len() - i,
    {
        if srgb[i] {
            return i;
        }
        i += 1;
    }
    assert(!srgb@.contains(true));
    0
}

/// The recoverable and fatal ways acquiring the next surface image can fail.
#[derive(Copy, Clone, Debug, PartialEq, Eq, Structural)]
pub enum SurfaceErrorKind {
    /// The surface was lost and must be rebuilt.
    Lost,
    /// The surface no longer matches the window and must be reconfigured.
    Outdated,
    /// No image became available in time.
    Timeout,
    /// The device is out of memory.
    OutOfMemory,
}

/// What the frame loop does after a failed surface acquisition.
#[derive(Copy, Clone, Debug, PartialEq, Eq, Structural)]
pub enum FrameRecovery {
    /// Reconfigure the surface at the current extent and skip this frame.
    ReconfigureAndSkip,
    /// Skip this frame silently; the next redraw retries naturally.
    Skip,
    /// Terminate the process.
    Fatal,
}

/// The per-frame recovery policy: lost or outdated surfaces are reconfigured
/// and the frame is skipped, a timeout skips the frame silently, and out of
/// memory is fatal. Nothing is retried within the same frame.
pub fn recovery_for(error: &SurfaceErrorKind) -> (r: FrameRecovery)
    ensures
        r == FrameRecovery::ReconfigureAndSkip <==> (*error == SurfaceErrorKind::Lost
            || *error == SurfaceErrorKind::Outdated),
        r == FrameRecovery::Skip <==> *error == SurfaceErrorKind::Timeout,
        r == FrameRecovery::Fatal <==> *error == SurfaceErrorKind::OutOfMemory,
{
    match error {
        SurfaceErrorKind::Lost => FrameRecovery::ReconfigureAndSkip,
        SurfaceErrorKind::Outdated => FrameRecovery::ReconfigureAndSkip,
        SurfaceErrorKind::Timeout => FrameRecovery::Skip,
        SurfaceErrorKind::OutOfMemory => FrameRecovery::Fatal,
    }
}

} // verus!
