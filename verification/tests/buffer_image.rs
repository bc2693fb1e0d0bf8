//! GPU buffer growth policy and the image layout state machine.

use isopod::buffer::{GpuBuffer, MemoryKind};
use isopod::geom::UVec3;
use isopod::image::{
    GpuImage, ImageFormat, ImageLayout, ACCESS_SHADER_READ, ACCESS_TRANSFER_WRITE,
};
use isopod::attribute::TextureFormatID;

#[test]
fn expand_to_fit_grows_only_when_needed() {
    let mut b = GpuBuffer::new(100, 0x1, MemoryKind::PreferHost);
    // fits: no-op
    assert!(!b.expand_to_fit(50));
    assert_eq!(b.capacity, 100);
    assert!(!b.expand_to_fit(100));
    assert_eq!(b.capacity, 100);
    // does not fit but doubling is enough
    assert!(b.expand_to_fit(150));
    assert_eq!(b.capacity, 200);
    // does not fit and doubling is not enough
    assert!(b.expand_to_fit(1000));
    assert_eq!(b.capacity, 1000);
}

#[test]
fn expand_to_fit_is_monotonic_and_idempotent() {
    let mut b = GpuBuffer::new(64, 0, MemoryKind::PreferDevice);
    b.expand_to_fit(1000);
    let cap = b.capacity;
    assert!(cap >= 1000);
    // repeating with an equal or smaller request changes nothing
    assert!(!b.expand_to_fit(1000));
    assert_eq!(b.capacity, cap);
    assert!(!b.expand_to_fit(3));
    assert_eq!(b.capacity, cap);
    assert!(!b.expand_to_fit(0));
    assert_eq!(b.capacity, cap);
}

#[test]
fn buffer_descriptor_ranges() {
    let b = GpuBuffer::new(256, 0, MemoryKind::PreferDevice);
    let whole = b.desc_whole_buffer_info();
    assert_eq!(whole.offset, 0);
    assert_eq!(whole.range, 256);
    let part = b.desc_partial_buffer_info(64, 32);
    assert_eq!(part.offset, 64);
    assert_eq!(part.range, 32);
}

#[test]
fn image_tracks_last_barrier() {
    let mut img = GpuImage::new(
        UVec3::new(4, 4, 1),
        ImageFormat::Format(TextureFormatID::U8Vec4),
    );
    assert_eq!(img.layout, ImageLayout::Undefined);
    let b1 = img.change_layout_mem_barrier(ImageLayout::TransferDst, ACCESS_TRANSFER_WRITE);
    assert_eq!(b1.old_layout, ImageLayout::Undefined);
    assert_eq!(b1.new_layout, ImageLayout::TransferDst);
    assert_eq!(b1.src_access_mask, 0);
    assert_eq!(b1.dst_access_mask, ACCESS_TRANSFER_WRITE);
    // the tracked state equals the last recorded barrier
    assert_eq!(img.layout, ImageLayout::TransferDst);
    assert_eq!(img.access_mask, ACCESS_TRANSFER_WRITE);
    let b2 = img.change_layout_mem_barrier(ImageLayout::ShaderReadOnly, ACCESS_SHADER_READ);
    assert_eq!(b2.old_layout, ImageLayout::TransferDst);
    assert_eq!(b2.src_access_mask, ACCESS_TRANSFER_WRITE);
    assert_eq!(img.layout, ImageLayout::ShaderReadOnly);
}

#[test]
fn checked_transition_skips_redundant_barrier() {
    let mut img = GpuImage::new(
        UVec3::new(2, 2, 1),
        ImageFormat::Format(TextureFormatID::U8Vec4),
    );
    let first = img.change_layout_checked(ImageLayout::TransferDst, ACCESS_TRANSFER_WRITE);
    assert!(first.is_some());
    // asking for the state the image is already in emits nothing
    let second = img.change_layout_checked(ImageLayout::TransferDst, ACCESS_TRANSFER_WRITE);
    assert!(second.is_none());
    assert_eq!(img.layout, ImageLayout::TransferDst);
    let third = img.change_layout_checked(ImageLayout::ShaderReadOnly, ACCESS_SHADER_READ);
    assert!(third.is_some());
    assert_eq!(third.unwrap().old_layout, ImageLayout::TransferDst);
}
