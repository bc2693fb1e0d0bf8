//! Swapchain and surface management: extent clamping against the surface
//! capabilities, image-count selection, acquire-outcome handling and lazy
//! reconstruction of a stale swapchain.

use vstd::prelude::*;

use crate::geom::UVec2;
use crate::image::GpuImage;

verus! {

/// The queried surface capabilities the swapchain is built against.
#[derive(Clone, Copy, PartialEq, Eq, Structural, Debug)]
pub struct SurfaceCapabilities {
    pub min_extent: UVec2,
    pub max_extent: UVec2,
    pub min_image_count: u32,
    /// Zero means the surface sets no upper bound.
    pub max_image_count: u32,
}

/// Swapchains prefer triple buffering where the surface allows it.
pub const DESIRED_IMAGE_COUNT: u32 = 3;

/// `v` clamped into `[lo, hi]`.
pub open spec fn spec_clamp(v: u32, lo: u32, hi: u32) -> u32 {
    if v < lo {
        lo
    } else if v > hi {
        hi
    } else {
        v
    }
}

/// The swapchain extent for a window extent: the window size clamped into
/// the surface's supported range, per axis.
pub fn swapchain_extent(window: UVec2, caps: &SurfaceCapabilities) -> (r: UVec2)
    ensures
        r.x == spec_clamp(window.x, caps.min_extent.x, caps.max_extent.x),
        r.y == spec_clamp(window.y, caps.min_extent.y, caps.max_extent.y),
{
    let x = if window.x < caps.min_extent.x {
        caps.min_extent.x
    } else if window.x > caps.max_extent.x {
        caps.max_extent.x
    } else {
        window.x
    };
    let y = if window.y < caps.min_extent.y {
        caps.min_extent.y
    } else if window.y > caps.max_extent.y {
        caps.max_extent.y
    } else {
        window.y
    };
    UVec2 { x, y }
}

/// The image count to request: the desired count raised to the surface's
/// minimum, and capped by its maximum where one is declared.
pub fn swapchain_image_count(caps: &SurfaceCapabilities) -> (r: u32)
    ensures
        r == if caps.max_image_count > 0 {
            if caps.max_image_count < (if caps.min_image_count > DESIRED_IMAGE_COUNT {
                caps.min_image_count
            } else {
                DESIRED_IMAGE_COUNT
            }) {
                caps.max_image_count
            } else {
                (if caps.min_image_count > DESIRED_IMAGE_COUNT {
                    caps.min_image_count
                } else {
                    DESIRED_IMAGE_COUNT
                })
            }
        } else {
            if caps.min_image_count > DESIRED_IMAGE_COUNT {
                caps.min_image_count
            } else {
                DESIRED_IMAGE_COUNT
            }
        },
        r >= caps.min_image_count || (caps.max_image_count > 0 && caps.max_image_count
            < caps.min_image_count),
{
    let wanted = if caps.min_image_count > DESIRED_IMAGE_COUNT {
        caps.min_image_count
    } else {
        DESIRED_IMAGE_COUNT
    };
    if caps.max_image_count > 0 && caps.max_image_count < wanted {
        caps.max_image_count
    } else {
        wanted
    }
}

/// What a swapchain acquire attempt reported.
#[derive(Clone, Copy, PartialEq, Eq, Structural, Debug)]
pub enum AcquireOutcome {
    /// An image was acquired; `suboptimal` marks a surface that still works
    /// but no longer matches perfectly.
    Acquired { image_index: u32, suboptimal: bool },
    /// The swapchain no longer matches the surface and must be rebuilt.
    OutOfDate,
}

/// The model of the swapchain: its images' tracked layout states and its
/// extent.
pub struct SwapchainState {
    pub color_images: Vec<GpuImage>,
    pub depth_image: GpuImage,
    pub extent: UVec2,
}

/// Surface manager state: the swapchain model, the capabilities it was
/// built against, and whether it must be rebuilt before the next use.
pub struct SurfaceState {
    pub swapchain: SwapchainState,
    pub capabilities: SurfaceCapabilities,
    pub swapchain_is_bad: bool,
}

impl SurfaceState {
    /// Handles an acquire outcome: an out-of-date surface, or a suboptimal
    /// acquire, marks the swapchain for lazy reconstruction; presenting is
    /// skipped exactly when no image was acquired.  Only a stale surface is
    /// recoverable; any other acquire failure is treated as fatal by the
    /// caller before this point.
    pub fn note_acquire_outcome(&mut self, outcome: AcquireOutcome) -> (acquired: Option<u32>)
        ensures
            match outcome {
                AcquireOutcome::Acquired { image_index, suboptimal } => acquired == Some(
                    image_index,
                ) && final(self).swapchain_is_bad == (old(self).swapchain_is_bad || suboptimal),
                AcquireOutcome::OutOfDate => acquired is None && final(self).swapchain_is_bad,
            },
            final(self).swapchain == old(self).swapchain,
            final(self).capabilities == old(self).capabilities,
    {
        match outcome {
            AcquireOutcome::Acquired { image_index, suboptimal } => {
                if suboptimal {
                    self.swapchain_is_bad = true;
                }
                Some(image_index)
            },
            AcquireOutcome::OutOfDate => {
                self.swapchain_is_bad = true;
                None
            },
        }
    }

    /// Whether the swapchain must be rebuilt before this frame can acquire:
    /// only when it is marked stale and the window has a nonzero extent.
    /// Reconstruction requires a full device-idle wait first, since prior
    /// swapchain images may still be referenced by in-flight work.
    pub fn needs_reconstruction(&self, window: UVec2) -> (r: bool)
        ensures
            r == (self.swapchain_is_bad && window.x > 0 && window.y > 0),
    {
        self.swapchain_is_bad && window.x > 0 && window.y > 0
    }

    /// Installs the freshly rebuilt swapchain model after the unverified
    /// layer has waited for the device to go idle, destroyed the old
    /// swapchain and created the new one at the clamped extent.
    pub fn install_swapchain(
        &mut self,
        swapchain: SwapchainState,
        capabilities: SurfaceCapabilities,
    )
        ensures
            final(self).swapchain == swapchain,
            final(self).capabilities == capabilities,
            !final(self).swapchain_is_bad,
    {
        self.swapchain = swapchain;
        self.capabilities = capabilities;
        self.swapchain_is_bad = false;
    }
}

} // verus!

use crate::image::{
    ImageMemoryBarrier, ACCESS_COLOR_ATTACHMENT_READ, ACCESS_COLOR_ATTACHMENT_WRITE,
    ACCESS_DEPTH_STENCIL_ATTACHMENT_READ, ACCESS_DEPTH_STENCIL_ATTACHMENT_WRITE,
    ACCESS_TRANSFER_WRITE, ImageLayout,
};
use crate::replay::ImageRef;

verus! {

/// The transitions and clears that ready this frame's acquired swapchain
/// image.
pub struct AcquiredImagePlan {
    /// Into transfer-dst, before the clears: the color then the depth
    /// image.
    pub transfer_dst_barriers: Vec<(ImageRef, ImageMemoryBarrier)>,
    /// The depth image to its attachment state, after its clear.
    pub depth_attachment_barriers: Vec<(ImageRef, ImageMemoryBarrier)>,
    /// The color image to its attachment state, ready for rendering.
    pub color_attachment_barriers: Vec<(ImageRef, ImageMemoryBarrier)>,
    /// The images to clear while they sit in transfer-dst.
    pub color_clears: Vec<ImageRef>,
    pub depth_clears: Vec<ImageRef>,
}

impl SwapchainState {
    /// Readies the acquired image: moves the color and depth images into
    /// transfer-dst for their clears, then the depth image to its
    /// attachment state and the color image to color-attachment.  Each
    /// barrier starts from the image's tracked state, so the plan is exact
    /// whatever state the image was left in by its previous frame.
    pub fn prepare_acquired_image(&mut self, image_index: usize) -> (r: AcquiredImagePlan)
        requires
            image_index < old(self).color_images@.len(),
        ensures
            final(self).extent == old(self).extent,
            final(self).color_images@.len() == old(self).color_images@.len(),
            r.transfer_dst_barriers@.len() == 2,
            r.transfer_dst_barriers@[0].0 == ImageRef::SwapchainColor(image_index),
            r.transfer_dst_barriers@[0].1 == (ImageMemoryBarrier {
                old_layout: old(self).color_images@[image_index as int].layout,
                new_layout: ImageLayout::TransferDst,
                src_access_mask: old(self).color_images@[image_index as int].access_mask,
                dst_access_mask: ACCESS_TRANSFER_WRITE,
            }),
            r.transfer_dst_barriers@[1].0 == ImageRef::SwapchainDepth,
            r.transfer_dst_barriers@[1].1 == (ImageMemoryBarrier {
                old_layout: old(self).depth_image.layout,
                new_layout: ImageLayout::TransferDst,
                src_access_mask: old(self).depth_image.access_mask,
                dst_access_mask: ACCESS_TRANSFER_WRITE,
            }),
            r.depth_attachment_barriers@.len() == 1,
            r.depth_attachment_barriers@[0].0 == ImageRef::SwapchainDepth,
            r.depth_attachment_barriers@[0].1 == (ImageMemoryBarrier {
                old_layout: ImageLayout::TransferDst,
                new_layout: ImageLayout::DepthStencilAttachment,
                src_access_mask: ACCESS_TRANSFER_WRITE,
                dst_access_mask: ACCESS_DEPTH_STENCIL_ATTACHMENT_READ
                    | ACCESS_DEPTH_STENCIL_ATTACHMENT_WRITE,
            }),
            r.color_attachment_barriers@.len() == 1,
            r.color_attachment_barriers@[0].0 == ImageRef::SwapchainColor(image_index),
            r.color_attachment_barriers@[0].1 == (ImageMemoryBarrier {
                old_layout: ImageLayout::TransferDst,
                new_layout: ImageLayout::ColorAttachment,
                src_access_mask: ACCESS_TRANSFER_WRITE,
                dst_access_mask: ACCESS_COLOR_ATTACHMENT_READ | ACCESS_COLOR_ATTACHMENT_WRITE,
            }),
            r.color_clears@ == seq![ImageRef::SwapchainColor(image_index)],
            r.depth_clears@ == seq![ImageRef::SwapchainDepth],
            final(self).color_images@[image_index as int].layout
                == ImageLayout::ColorAttachment,
            final(self).color_images@[image_index as int].access_mask == (
            ACCESS_COLOR_ATTACHMENT_READ | ACCESS_COLOR_ATTACHMENT_WRITE),
            final(self).depth_image.layout == ImageLayout::DepthStencilAttachment,
            forall|j: int|
                0 <= j < old(self).color_images@.len() && j != image_index ==> final(self).color_images@[j] == old(self).color_images@[j],
    {
        let mut transfer_dst_barriers: Vec<(ImageRef, ImageMemoryBarrier)> = Vec::new();
        let mut depth_attachment_barriers: Vec<(ImageRef, ImageMemoryBarrier)> = Vec::new();
        let mut color_attachment_barriers: Vec<(ImageRef, ImageMemoryBarrier)> = Vec::new();
        let color = &mut self.color_images[image_index];
        let cb = color.change_layout_mem_barrier(ImageLayout::TransferDst, ACCESS_TRANSFER_WRITE);
        transfer_dst_barriers.push((ImageRef::SwapchainColor(image_index), cb));
        let ca = color.change_layout_mem_barrier(
            ImageLayout::ColorAttachment,
            ACCESS_COLOR_ATTACHMENT_READ | ACCESS_COLOR_ATTACHMENT_WRITE,
        );
        let db = self.depth_image.change_layout_mem_barrier(
            ImageLayout::TransferDst,
            ACCESS_TRANSFER_WRITE,
        );
        transfer_dst_barriers.push((ImageRef::SwapchainDepth, db));
        let da = self.depth_image.change_layout_mem_barrier(
            ImageLayout::DepthStencilAttachment,
            ACCESS_DEPTH_STENCIL_ATTACHMENT_READ | ACCESS_DEPTH_STENCIL_ATTACHMENT_WRITE,
        );
        depth_attachment_barriers.push((ImageRef::SwapchainDepth, da));
        color_attachment_barriers.push((ImageRef::SwapchainColor(image_index), ca));
        let mut color_clears: Vec<ImageRef> = Vec::new();
        color_clears.push(ImageRef::SwapchainColor(image_index));
        let mut depth_clears: Vec<ImageRef> = Vec::new();
        depth_clears.push(ImageRef::SwapchainDepth);
        AcquiredImagePlan {
            transfer_dst_barriers,
            depth_attachment_barriers,
            color_attachment_barriers,
            color_clears,
            depth_clears,
        }
    }

    /// The barrier that readies the acquired image for presenting, after
    /// all rendering into it: it leaves the image in the present-source
    /// layout with no access.
    pub fn present_barrier(&mut self, image_index: usize) -> (r: (ImageRef, ImageMemoryBarrier))
        requires
            image_index < old(self).color_images@.len(),
        ensures
            r.0 == ImageRef::SwapchainColor(image_index),
            r.1.old_layout == old(self).color_images@[image_index as int].layout,
            r.1.src_access_mask == old(self).color_images@[image_index as int].access_mask,
            r.1.new_layout == ImageLayout::PresentSrc,
            r.1.dst_access_mask == 0,
            final(self).color_images@[image_index as int].layout == ImageLayout::PresentSrc,
            final(self).depth_image == old(self).depth_image,
            final(self).extent == old(self).extent,
            forall|j: int|
                0 <= j < old(self).color_images@.len() && j != image_index ==> final(self).color_images@[j] == old(self).color_images@[j],
    {
        let color = &mut self.color_images[image_index];
        let b = color.change_layout_mem_barrier(
            ImageLayout::PresentSrc,
            crate::image::ACCESS_NONE,
        );
        (ImageRef::SwapchainColor(image_index), b)
    }
}

} // verus!

verus! {

/// What a present attempt reported.
#[derive(Clone, Copy, PartialEq, Eq, Structural, Debug)]
pub enum PresentOutcome {
    /// The image was queued for presentation.
    Presented,
    /// The surface still works but no longer matches perfectly.
    Suboptimal,
    /// The swapchain no longer matches the surface and must be rebuilt.
    OutOfDate,
}

impl SurfaceState {
    /// Handles a present outcome: a stale or suboptimal surface marks the
    /// swapchain for lazy reconstruction on the next viable frame; a clean
    /// present changes nothing.  Only a stale surface is recoverable; any
    /// other present failure is treated as fatal by the caller before this
    /// point.
    pub fn note_present_outcome(&mut self, outcome: PresentOutcome)
        ensures
            final(self).swapchain_is_bad == (old(self).swapchain_is_bad || outcome
                != PresentOutcome::Presented),
            final(self).swapchain == old(self).swapchain,
            final(self).capabilities == old(self).capabilities,
    {
        match outcome {
            PresentOutcome::Presented => {},
            PresentOutcome::Suboptimal => {
                self.swapchain_is_bad = true;
            },
            PresentOutcome::OutOfDate => {
                self.swapchain_is_bad = true;
            },
        }
    }
}

} // verus!
