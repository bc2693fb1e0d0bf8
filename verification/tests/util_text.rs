//! Small utilities: alignment, scratch buffers, decimal formatting,
//! substring search, swapchain sizing and texture blits.

use isopod::geom::{UVec2, UVec3};
use isopod::glsl::{find_from, usize_dec};
use isopod::swapchain::{
    swapchain_extent, swapchain_image_count, AcquireOutcome, PresentOutcome, SurfaceCapabilities,
    SurfaceState, SwapchainState,
};
use isopod::image::ImageLayout;
use isopod::replay::ImageRef;
use isopod::texture_data::TextureData;
use isopod::util::{align_up, ByteBufferCell};

#[test]
fn align_up_values() {
    assert_eq!(align_up(0, 64), 0);
    assert_eq!(align_up(1, 64), 64);
    assert_eq!(align_up(64, 64), 64);
    assert_eq!(align_up(65, 64), 128);
    assert_eq!(align_up(130, 64), 192);
    assert_eq!(align_up(7, 0), 7);
}

#[test]
fn byte_buffer_aligns_with_zero_padding() {
    let mut b = ByteBufferCell::new();
    b.push_bytes(&[1, 2, 3]);
    b.align_to(8);
    assert_eq!(b.len(), 8);
    b.push_bytes(&[9]);
    b.align_to(8);
    assert_eq!(b.len(), 16);
    let bytes = b.get_mut().clone();
    assert_eq!(&bytes[..4], &[1, 2, 3, 0]);
    assert_eq!(bytes[8], 9);
    assert_eq!(bytes[15], 0);
}

#[test]
fn decimal_formatting() {
    assert_eq!(usize_dec(0), "0");
    assert_eq!(usize_dec(7), "7");
    assert_eq!(usize_dec(10), "10");
    assert_eq!(usize_dec(409), "409");
    assert_eq!(usize_dec(120000), "120000");
}

#[test]
fn substring_search() {
    assert_eq!(find_from("abcabc", "abc", 0), Some(0));
    assert_eq!(find_from("abcabc", "abc", 1), Some(3));
    assert_eq!(find_from("abcabc", "abc", 4), None);
    assert_eq!(find_from("abc", "zzz", 0), None);
    assert_eq!(find_from("abc", "", 1), Some(1));
}

#[test]
fn swapchain_extent_clamps_to_capabilities() {
    let caps = SurfaceCapabilities {
        min_extent: UVec2::new(16, 16),
        max_extent: UVec2::new(2048, 1024),
        min_image_count: 2,
        max_image_count: 0,
    };
    assert_eq!(swapchain_extent(UVec2::new(640, 480), &caps), UVec2::new(640, 480));
    assert_eq!(swapchain_extent(UVec2::new(1, 5000), &caps), UVec2::new(16, 1024));
    // the desired triple buffering is above the minimum and unbounded
    assert_eq!(swapchain_image_count(&caps), 3);
    let capped = SurfaceCapabilities { max_image_count: 2, ..caps };
    assert_eq!(swapchain_image_count(&capped), 2);
    let high_min = SurfaceCapabilities { min_image_count: 5, ..caps };
    assert_eq!(swapchain_image_count(&high_min), 5);
}

#[test]
fn acquire_outcomes_drive_the_dirty_flag() {
    let mut surface = SurfaceState {
        swapchain: SwapchainState {
            color_images: Vec::new(),
            depth_image: isopod::image::GpuImage::new(
                UVec3::new(1, 1, 1),
                isopod::image::ImageFormat::DepthStencil,
            ),
            extent: UVec2::new(64, 64),
        },
        capabilities: SurfaceCapabilities {
            min_extent: UVec2::new(1, 1),
            max_extent: UVec2::new(4096, 4096),
            min_image_count: 2,
            max_image_count: 0,
        },
        swapchain_is_bad: false,
    };
    assert_eq!(
        surface.note_acquire_outcome(AcquireOutcome::Acquired { image_index: 1, suboptimal: false }),
        Some(1)
    );
    assert!(!surface.swapchain_is_bad);
    assert!(!surface.needs_reconstruction(UVec2::new(64, 64)));
    // an out-of-date surface skips presenting and marks for rebuild
    assert_eq!(surface.note_acquire_outcome(AcquireOutcome::OutOfDate), None);
    assert!(surface.swapchain_is_bad);
    assert!(surface.needs_reconstruction(UVec2::new(64, 64)));
    // no rebuild while the window has no pixels
    assert!(!surface.needs_reconstruction(UVec2::new(0, 64)));
}

#[test]
fn blit_copies_the_clipped_box() {
    let mut src: TextureData<u8> = TextureData::new_empty(UVec3::new(4, 4, 1));
    for (j, p) in src.pixels.iter_mut().enumerate() {
        *p = j as u8;
    }
    let mut dst: TextureData<u8> = TextureData::new_empty(UVec3::new(4, 4, 1));
    // copy the 2x2 box at (1,1) to (2,2); it clips to 2x2 at the border
    dst.blit_from(&src, UVec3::new(2, 2, 1), UVec3::new(1, 1, 0), UVec3::new(2, 2, 0));
    // src texel (1,1) has linear index 5, (2,1) -> 6, (1,2) -> 9, (2,2) -> 10
    assert_eq!(dst.pixels[2 + 2 * 4], 5);
    assert_eq!(dst.pixels[3 + 2 * 4], 6);
    assert_eq!(dst.pixels[2 + 3 * 4], 9);
    assert_eq!(dst.pixels[3 + 3 * 4], 10);
    // everything outside the written box is untouched
    assert_eq!(dst.pixels[0], 0);
    assert_eq!(dst.pixels[1 + 2 * 4], 0);
    assert_eq!(dst.size(), UVec3::new(4, 4, 1));
    assert_eq!(dst.size_2d(), UVec2::new(4, 4));
}

#[test]
fn acquired_image_transitions_and_present() {
    let mut sc = SwapchainState {
        color_images: vec![
            isopod::image::GpuImage::new(
                UVec3::new(8, 8, 1),
                isopod::image::ImageFormat::Format(isopod::attribute::TextureFormatID::U8Vec4),
            ),
            isopod::image::GpuImage::new(
                UVec3::new(8, 8, 1),
                isopod::image::ImageFormat::Format(isopod::attribute::TextureFormatID::U8Vec4),
            ),
        ],
        depth_image: isopod::image::GpuImage::new(
            UVec3::new(8, 8, 1),
            isopod::image::ImageFormat::DepthStencil,
        ),
        extent: UVec2::new(8, 8),
    };
    let plan = sc.prepare_acquired_image(1);
    assert_eq!(plan.transfer_dst_barriers.len(), 2);
    assert_eq!(plan.transfer_dst_barriers[0].0, ImageRef::SwapchainColor(1));
    // the first acquire starts from the undefined layout
    assert_eq!(plan.transfer_dst_barriers[0].1.old_layout, ImageLayout::Undefined);
    assert_eq!(plan.transfer_dst_barriers[0].1.new_layout, ImageLayout::TransferDst);
    assert_eq!(plan.color_attachment_barriers[0].1.new_layout, ImageLayout::ColorAttachment);
    assert_eq!(plan.depth_attachment_barriers[0].1.new_layout, ImageLayout::DepthStencilAttachment);
    assert_eq!(sc.color_images[1].layout, ImageLayout::ColorAttachment);
    // the untouched image keeps its state
    assert_eq!(sc.color_images[0].layout, ImageLayout::Undefined);
    // presenting returns the image from color-attachment to present-source
    let (r, b) = sc.present_barrier(1);
    assert_eq!(r, ImageRef::SwapchainColor(1));
    assert_eq!(b.old_layout, ImageLayout::ColorAttachment);
    assert_eq!(b.new_layout, ImageLayout::PresentSrc);
    assert_eq!(sc.color_images[1].layout, ImageLayout::PresentSrc);
    // the next acquire of the same image transitions from present-source
    let plan2 = sc.prepare_acquired_image(1);
    assert_eq!(plan2.transfer_dst_barriers[0].1.old_layout, ImageLayout::PresentSrc);
}

#[test]
fn texel_count_is_validated_at_definition_time() {
    let ok: Option<TextureData<u8>> = TextureData::new_from_pixels(vec![0u8; 12], UVec3::new(2, 3, 2));
    assert!(ok.is_some());
    assert_eq!(ok.unwrap().size(), UVec3::new(2, 3, 2));
    let short: Option<TextureData<u8>> =
        TextureData::new_from_pixels(vec![0u8; 11], UVec3::new(2, 3, 2));
    assert!(short.is_none());
    let zero: Option<TextureData<u8>> = TextureData::new_from_pixels(Vec::new(), UVec3::new(4, 0, 4));
    assert!(zero.is_some());
}

#[test]
fn present_outcomes_drive_the_dirty_flag() {
    let mut surface = SurfaceState {
        swapchain: SwapchainState {
            color_images: Vec::new(),
            depth_image: isopod::image::GpuImage::new(
                UVec3::new(1, 1, 1),
                isopod::image::ImageFormat::DepthStencil,
            ),
            extent: UVec2::new(32, 32),
        },
        capabilities: SurfaceCapabilities {
            min_extent: UVec2::new(1, 1),
            max_extent: UVec2::new(4096, 4096),
            min_image_count: 2,
            max_image_count: 0,
        },
        swapchain_is_bad: false,
    };
    surface.note_present_outcome(PresentOutcome::Presented);
    assert!(!surface.swapchain_is_bad);
    surface.note_present_outcome(PresentOutcome::Suboptimal);
    assert!(surface.swapchain_is_bad);
    surface.swapchain_is_bad = false;
    surface.note_present_outcome(PresentOutcome::OutOfDate);
    assert!(surface.swapchain_is_bad);
    // a later clean present does not clear the mark; only reconstruction does
    surface.note_present_outcome(PresentOutcome::Presented);
    assert!(surface.swapchain_is_bad);
}
