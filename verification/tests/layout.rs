//! Struct layout validation: sizes, offsets, explicit padding and
//! definition-time rejection.

use isopod::attribute::{
    LayoutError, StructAttribute, StructLayout, TextureFormatID, UniformAttributeID,
    VertexAttributeID, N_TEXTURE_FORMATS,
};

fn field<T>(attribute: T, offset: usize, name: &str) -> StructAttribute<T> {
    StructAttribute { attribute, offset, name: String::from(name) }
}

#[test]
fn vertex_layout_size_is_sum_of_field_sizes() {
    // { position: vec3, color: vec3 } with no padding: 12 + 12 == 24
    let fields = vec![
        field(VertexAttributeID::Vec3, 0, "position"),
        field(VertexAttributeID::Vec3, 12, "color"),
    ];
    let layout = StructLayout::from_fields(fields, 24).unwrap();
    assert_eq!(layout.size, 24);
    assert_eq!(layout.attributes.len(), 2);
}

#[test]
fn implicit_padding_is_rejected_at_definition_time() {
    // a gap between the fields that no declared padding covers
    let fields = vec![
        field(VertexAttributeID::U8, 0, "a"),
        field(VertexAttributeID::F32, 4, "b"),
    ];
    match StructLayout::from_fields(fields, 8) {
        Err(LayoutError::FieldGap { index }) => assert_eq!(index, 1),
        other => panic!("expected a field gap, got {:?}", other.map(|l| l.size)),
    }
}

#[test]
fn declared_size_must_match() {
    let fields = vec![field(VertexAttributeID::Vec2, 0, "uv")];
    assert!(matches!(
        StructLayout::from_fields(fields, 12),
        Err(LayoutError::SizeMismatch)
    ));
}

#[test]
fn explicit_padding_covers_the_gap() {
    let fields = vec![
        field(VertexAttributeID::U8, 0, "a"),
        field(VertexAttributeID::Padding, 1, "pad"),
        field(VertexAttributeID::F32, 4, "b"),
    ];
    let layout = StructLayout::from_fields(fields, 8).unwrap();
    assert_eq!(layout.size, 8);
}

#[test]
fn misaligned_uniform_member_is_rejected() {
    // a vec3 must start on a 16-byte boundary in a uniform block
    let fields = vec![
        field(UniformAttributeID::F32, 0, "t"),
        field(UniformAttributeID::Vec3, 4, "dir"),
    ];
    assert!(matches!(
        StructLayout::from_fields(fields, 16),
        Err(LayoutError::Misaligned { index: 1 })
    ));
}

#[test]
fn aligned_uniform_block_is_accepted() {
    let fields = vec![
        field(UniformAttributeID::Vec4, 0, "tint"),
        field(UniformAttributeID::F32, 16, "t"),
        field(UniformAttributeID::Padding, 20, "pad"),
    ];
    let layout = StructLayout::from_fields(fields, 32).unwrap();
    assert_eq!(layout.size, 32);
}

#[test]
fn empty_layout() {
    let unit: StructLayout<VertexAttributeID> = StructLayout::unit();
    assert!(unit.is_empty());
    assert_eq!(unit.size, 0);
}

#[test]
fn texture_format_table() {
    assert_eq!(TextureFormatID::F32.texel_size(), 4);
    assert_eq!(TextureFormatID::Vec2.texel_size(), 8);
    assert_eq!(TextureFormatID::Vec4.texel_size(), 16);
    assert_eq!(TextureFormatID::U8Vec4.texel_size(), 4);
    assert_eq!(TextureFormatID::U16Vec4.texel_size(), 8);
    assert_eq!(TextureFormatID::SrgbU8Vec2.texel_size(), 2);
    let all = TextureFormatID::all();
    assert_eq!(all.len(), N_TEXTURE_FORMATS);
    for (k, f) in all.iter().enumerate() {
        assert_eq!(f.to_index(), k);
    }
}
