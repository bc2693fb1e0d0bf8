//! Per-image layout and access-mask state machine.
//!
//! Each GPU image tracks the layout and access mask established by the last
//! barrier recorded for it; the image object is the sole source of truth for
//! which transition is needed next.  Every layout-dependent access must be
//! preceded by a transition establishing a compatible state.

use vstd::prelude::*;

use crate::attribute::TextureFormatID;
use crate::geom::UVec3;

verus! {

/// Image layouts the backend moves its images through.
#[derive(Clone, Copy, PartialEq, Eq, Structural, Debug)]
pub enum ImageLayout {
    Undefined,
    TransferDst,
    ShaderReadOnly,
    ColorAttachment,
    DepthStencilAttachment,
    PresentSrc,
}

/// Access-mask bits, matching the native API's values.
pub const ACCESS_NONE: u32 = 0;

pub const ACCESS_COLOR_ATTACHMENT_READ: u32 = 0x80;

pub const ACCESS_COLOR_ATTACHMENT_WRITE: u32 = 0x100;

pub const ACCESS_DEPTH_STENCIL_ATTACHMENT_READ: u32 = 0x200;

pub const ACCESS_DEPTH_STENCIL_ATTACHMENT_WRITE: u32 = 0x400;

pub const ACCESS_TRANSFER_WRITE: u32 = 0x1000;

pub const ACCESS_SHADER_READ: u32 = 0x20;

/// Pixel storage format of an image.
#[derive(Clone, Copy, PartialEq, Eq, Structural, Debug)]
pub enum ImageFormat {
    /// A color image of the given texel format.
    Format(TextureFormatID),
    /// The device's depth/stencil format.
    DepthStencil,
}

/// A layout/access transition to record for one image: the source state is
/// what the last barrier established, the destination state is what the next
/// access needs.
#[derive(Clone, Copy, PartialEq, Eq, Structural, Debug)]
pub struct ImageMemoryBarrier {
    pub old_layout: ImageLayout,
    pub new_layout: ImageLayout,
    pub src_access_mask: u32,
    pub dst_access_mask: u32,
}

/// Copy of a packed byte region of the staging buffer into an image.
#[derive(Clone, Copy, PartialEq, Eq, Structural, Debug)]
pub struct BufferImageCopy {
    pub buffer_offset: usize,
    pub image_extent: UVec3,
}

/// Device pixel storage that tracks its current layout and access mask.
#[derive(Clone, Copy, PartialEq, Eq, Structural, Debug)]
pub struct GpuImage {
    pub extent: UVec3,
    pub format: ImageFormat,
    pub layout: ImageLayout,
    pub access_mask: u32,
}

impl GpuImage {
    /// The (layout, access) pair the image is currently in.
    pub open spec fn spec_state(&self) -> (ImageLayout, u32) {
        (self.layout, self.access_mask)
    }

    /// Creates an image; a fresh allocation starts in the undefined layout
    /// with no access.
    pub fn new(extent: UVec3, format: ImageFormat) -> (r: GpuImage)
        ensures
            r.extent == extent,
            r.format == format,
            r.layout == ImageLayout::Undefined,
            r.access_mask == ACCESS_NONE,
    {
        GpuImage { extent, format, layout: ImageLayout::Undefined, access_mask: ACCESS_NONE }
    }

    /// Computes the barrier that moves the image from its tracked state to
    /// `(layout, access_mask)`, and overwrites the tracked state with the
    /// new values, so the tracked state always equals the last barrier
    /// recorded.
    pub fn change_layout_mem_barrier(&mut self, layout: ImageLayout, access_mask: u32) -> (b:
        ImageMemoryBarrier)
        ensures
            b.old_layout == old(self).layout,
            b.src_access_mask == old(self).access_mask,
            b.new_layout == layout,
            b.dst_access_mask == access_mask,
            final(self).layout == layout,
            final(self).access_mask == access_mask,
            final(self).extent == old(self).extent,
            final(self).format == old(self).format,
    {
        let b = ImageMemoryBarrier {
            old_layout: self.layout,
            new_layout: layout,
            src_access_mask: self.access_mask,
            dst_access_mask: access_mask,
        };
        self.layout = layout;
        self.access_mask = access_mask;
        b
    }

    /// Like [`GpuImage::change_layout_mem_barrier`], but a no-op returning
    /// `None` when the image is already in exactly the requested state, so a
    /// repeated request never emits a redundant barrier.
    pub fn change_layout_checked(&mut self, layout: ImageLayout, access_mask: u32) -> (b: Option<
        ImageMemoryBarrier,
    >)
        ensures
            final(self).layout == layout,
            final(self).access_mask == access_mask,
            final(self).extent == old(self).extent,
            final(self).format == old(self).format,
            b is Some <==> old(self).spec_state() != (layout, access_mask),
            b matches Some(barrier) ==> barrier == (ImageMemoryBarrier {
                old_layout: old(self).layout,
                new_layout: layout,
                src_access_mask: old(self).access_mask,
                dst_access_mask: access_mask,
            }),
    {
        if self.layout == layout && self.access_mask == access_mask {
            None
        } else {
            Some(self.change_layout_mem_barrier(layout, access_mask))
        }
    }

    /// Describes the staging-buffer copy that fills this image, reading at
    /// the given packed offset.
    pub fn get_buffer_copy_to(&self, offset: usize) -> (r: BufferImageCopy)
        ensures
            r.buffer_offset == offset,
            r.image_extent == self.extent,
    {
        BufferImageCopy { buffer_offset: offset, image_extent: self.extent }
    }
}

/// Image state after applying a sequence of transition requests in order.
pub open spec fn apply_transitions(img: GpuImage, targets: Seq<(ImageLayout, u32)>) -> GpuImage
    decreases targets.len(),
{
    if targets.len() == 0 {
        img
    } else {
        let prev = apply_transitions(img, targets.drop_last());
        GpuImage {
            layout: targets.last().0,
            access_mask: targets.last().1,
            ..prev
        }
    }
}

/// The barriers emitted by applying a sequence of checked transition
/// requests in order: one barrier for each request that found the image in a
/// different state.
pub open spec fn checked_barriers(img: GpuImage, targets: Seq<(ImageLayout, u32)>) -> Seq<
    ImageMemoryBarrier,
>
    decreases targets.len(),
{
    if targets.len() == 0 {
        Seq::empty()
    } else {
        let prev = apply_transitions(img, targets.drop_last());
        let earlier = checked_barriers(img, targets.drop_last());
        if prev.spec_state() == targets.last() {
            earlier
        } else {
            earlier.push(
                ImageMemoryBarrier {
                    old_layout: prev.layout,
                    new_layout: targets.last().0,
                    src_access_mask: prev.access_mask,
                    dst_access_mask: targets.last().1,
                },
            )
        }
    }
}

/// In the barriers emitted for one image by checked transitions, each
/// barrier starts from the state the previous one established, and no two
/// consecutive barriers move to the identical (layout, access) pair: a
/// barrier is only emitted when it changes the state the last one left.
pub proof fn lemma_no_redundant_barriers(img: GpuImage, targets: Seq<(ImageLayout, u32)>)
    ensures
        forall|i: int|
            0 <= i < checked_barriers(img, targets).len() - 1 ==> (
            #[trigger] checked_barriers(img, targets)[i + 1]).old_layout == checked_barriers(
                img,
                targets,
            )[i].new_layout && checked_barriers(img, targets)[i + 1].src_access_mask
                == checked_barriers(img, targets)[i].dst_access_mask,
        forall|i: int|
            0 <= i < checked_barriers(img, targets).len() - 1 ==> !((
            #[trigger] checked_barriers(img, targets)[i + 1]).new_layout == checked_barriers(
                img,
                targets,
            )[i].new_layout && checked_barriers(img, targets)[i + 1].dst_access_mask
                == checked_barriers(img, targets)[i].dst_access_mask),
    decreases targets.len(),
{
    if targets.len() > 0 {
        lemma_no_redundant_barriers(img, targets.drop_last());
        lemma_last_barrier_matches_state(img, targets.drop_last());
        assert(checked_barriers(img, targets.drop_last()) == checked_barriers(
            img,
            targets,
        ).take(checked_barriers(img, targets).len() - (
        if apply_transitions(img, targets.drop_last()).spec_state() == targets.last() {
            0int
        } else {
            1int
        })));
    }
}

/// After any sequence of checked transitions, the tracked state equals the
/// state established by the last emitted barrier (or the initial state when
/// none was emitted): the tracked state is always the last barrier actually
/// recorded.
pub proof fn lemma_last_barrier_matches_state(img: GpuImage, targets: Seq<(ImageLayout, u32)>)
    ensures
        checked_barriers(img, targets).len() == 0 ==> apply_transitions(img, targets).spec_state()
            == img.spec_state(),
        checked_barriers(img, targets).len() > 0 ==> apply_transitions(img, targets).spec_state()
            == (checked_barriers(img, targets).last().new_layout, checked_barriers(
            img,
            targets,
        ).last().dst_access_mask),
    decreases targets.len(),
{
    if targets.len() > 0 {
        lemma_last_barrier_matches_state(img, targets.drop_last());
    }
}

} // verus!
