//! The presentable surface and its depth target: their sizes move together
//! on every accepted resize, and how a failed image acquisition is handled.
use vstd::prelude::*;

verus! {

/// Description of the depth render target: a 2-D image with one mip level
/// and one sample, usable only as a render attachment.
#[derive(Clone, Copy, Debug, PartialEq, Eq, Structural)]
pub struct DepthTargetDesc {
    pub width: u32,
    pub height: u32,
    pub depth_or_array_layers: u32,
    pub mip_level_count: u32,
    pub sample_count: u32,
}

/// The surface configuration size and the size of the depth target built for it.
#[derive(Clone, Copy, Debug, PartialEq, Eq, Structural)]
pub struct FrameTargets {
    pub width: u32,
    pub height: u32,
    pub depth: DepthTargetDesc,
    /// Bumped on every reconfiguration, so that stale attachments can be told apart.
    pub generation: u64,
}

pub open spec fn depth_desc_for(width: u32, height: u32) -> DepthTargetDesc {
    DepthTargetDesc {
        width,
        height,
        depth_or_array_layers: 1,
        mip_level_count: 1,
        sample_count: 1,
    }
}

/// The depth target matching a surface of `width` x `height`.
pub fn create_depth_framebuffer(width: u32, height: u32) -> (r: DepthTargetDesc)
    ensures
        r == depth_desc_for(width, height),
{
    DepthTargetDesc { width, height, depth_or_array_layers: 1, mip_level_count: 1, sample_count: 1 }
}

impl FrameTargets {
    /// The surface and depth target always have the same size.
    pub open spec fn wf(&self) -> bool {
        self.depth == depth_desc_for(self.width, self.height)
    }

    pub fn new(width: u32, height: u32) -> (r: Self)
        ensures
            r.wf(),
            r.width == width,
            r.height == height,
            r.generation == 0,
    {
        FrameTargets { width, height, depth: create_depth_framebuffer(width, height), generation: 0 }
    }

    /// Resizes the surface and rebuilds the depth target to match; a zero
    /// dimension leaves everything unchanged. Returns whether anything changed.
    pub fn resize(&mut self, width: u32, height: u32) -> (r: bool)
        requires
            old(self).wf(),
        ensures
            final(self).wf(),
            r == (width > 0 && height > 0),
            r ==> final(self).width == width && final(self).height == height
                && final(self).depth.width == width && final(self).depth.height == height
                && final(self).generation == old(self).generation.wrapping_add(1),
            !r ==> *final(self) == *old(self),
    {
        if width == 0 || height == 0 {
            return false;
        }
        self.width = width;
        self.height = height;
        self.depth = create_depth_framebuffer(width, height);
        self.generation = self.generation.wrapping_add(1);
        true
    }
}

/// Why the next presentable image could not be acquired.
#[derive(Clone, Copy, Debug, PartialEq, Eq, Structural)]
pub enum SurfaceErrorKind {
    Timeout,
    Outdated,
    Lost,
    OutOfMemory,
}

/// What the frame loop does after a failed acquisition.
#[derive(Clone, Copy, Debug, PartialEq, Eq, Structural)]
pub enum Recovery {
    /// Reconfigure the surface and depth target, and retry on the next cycle.
    Reconfigure,
    /// Stop: the failure is fatal.
    Exit,
    /// Drop this frame.
    Skip,
}

pub open spec fn recovery_of(e: SurfaceErrorKind) -> Recovery {
    match e {
        SurfaceErrorKind::Lost | SurfaceErrorKind::Outdated => Recovery::Reconfigure,
        SurfaceErrorKind::OutOfMemory => Recovery::Exit,
        SurfaceErrorKind::Timeout => Recovery::Skip,
    }
}

pub fn recovery_for(e: SurfaceErrorKind) -> (r: Recovery)
    ensures
        r == recovery_of(e),
{
    match e {
        SurfaceErrorKind::Lost | SurfaceErrorKind::Outdated => Recovery::Reconfigure,
        SurfaceErrorKind::OutOfMemory => Recovery::Exit,
        SurfaceErrorKind::Timeout => Recovery::Skip,
    }
}

} // verus!
