//! Attribute kinds for vertex, uniform and texture data, and the byte-layout
//! descriptions built from them.
//!
//! A layout is supplied explicitly as an ordered list of
//! `(name, byte offset, attribute kind)` fields; building it validates that
//! the offsets are exactly sequential (any gap must be covered by an
//! explicitly declared padding field) and that the declared total size
//! matches, so a type with implicit padding is rejected when it is defined,
//! not when it is first used.

use vstd::prelude::*;

verus! {

/// Texel format of a texture or framebuffer color target.
///
/// `Srgb` formats convert from sRGB colorspace to linear when read in a
/// shader and back when written.
#[derive(Clone, Copy, PartialEq, Eq, Structural, Debug)]
pub enum TextureFormatID {
    F32,
    Vec2,
    Vec4,
    U8,
    U8Vec2,
    U8Vec4,
    U16,
    U16Vec2,
    U16Vec4,
    SrgbU8,
    SrgbU8Vec2,
    SrgbU8Vec4,
}

/// Number of supported texture formats, which is also the index of the
/// swapchain's own format among a pipeline's variants.
pub const N_TEXTURE_FORMATS: usize = 12;

impl TextureFormatID {
    /// Index of this format in [`TextureFormatID::all`].
    pub open spec fn spec_index(&self) -> int {
        match self {
            TextureFormatID::F32 => 0,
            TextureFormatID::Vec2 => 1,
            TextureFormatID::Vec4 => 2,
            TextureFormatID::U8 => 3,
            TextureFormatID::U8Vec2 => 4,
            TextureFormatID::U8Vec4 => 5,
            TextureFormatID::U16 => 6,
            TextureFormatID::U16Vec2 => 7,
            TextureFormatID::U16Vec4 => 8,
            TextureFormatID::SrgbU8 => 9,
            TextureFormatID::SrgbU8Vec2 => 10,
            TextureFormatID::SrgbU8Vec4 => 11,
        }
    }

    /// Index of this format among the pipeline variants.
    pub fn to_index(&self) -> (r: usize)
        ensures
            r == self.spec_index(),
            r < N_TEXTURE_FORMATS,
    {
        match self {
            TextureFormatID::F32 => 0,
            TextureFormatID::Vec2 => 1,
            TextureFormatID::Vec4 => 2,
            TextureFormatID::U8 => 3,
            TextureFormatID::U8Vec2 => 4,
            TextureFormatID::U8Vec4 => 5,
            TextureFormatID::U16 => 6,
            TextureFormatID::U16Vec2 => 7,
            TextureFormatID::U16Vec4 => 8,
            TextureFormatID::SrgbU8 => 9,
            TextureFormatID::SrgbU8Vec2 => 10,
            TextureFormatID::SrgbU8Vec4 => 11,
        }
    }

    /// Bytes per texel of this format.
    pub open spec fn spec_texel_size(&self) -> nat {
        match self {
            TextureFormatID::F32 => 4,
            TextureFormatID::Vec2 => 8,
            TextureFormatID::Vec4 => 16,
            TextureFormatID::U8 => 1,
            TextureFormatID::U8Vec2 => 2,
            TextureFormatID::U8Vec4 => 4,
            TextureFormatID::U16 => 2,
            TextureFormatID::U16Vec2 => 4,
            TextureFormatID::U16Vec4 => 8,
            TextureFormatID::SrgbU8 => 1,
            TextureFormatID::SrgbU8Vec2 => 2,
            TextureFormatID::SrgbU8Vec4 => 4,
        }
    }

    /// Bytes per texel of this format.
    pub fn texel_size(&self) -> (r: usize)
        ensures
            r == self.spec_texel_size(),
    {
        match self {
            TextureFormatID::F32 => 4,
            TextureFormatID::Vec2 => 8,
            TextureFormatID::Vec4 => 16,
            TextureFormatID::U8 => 1,
            TextureFormatID::U8Vec2 => 2,
            TextureFormatID::U8Vec4 => 4,
            TextureFormatID::U16 => 2,
            TextureFormatID::U16Vec2 => 4,
            TextureFormatID::U16Vec4 => 8,
            TextureFormatID::SrgbU8 => 1,
            TextureFormatID::SrgbU8Vec2 => 2,
            TextureFormatID::SrgbU8Vec4 => 4,
        }
    }

    /// Every format, in variant-index order.
    pub fn all() -> (r: Vec<TextureFormatID>)
        ensures
            r@.len() == N_TEXTURE_FORMATS,
            forall|k: int| 0 <= k < r@.len() ==> (#[trigger] r@[k]).spec_index() == k,
    {
        let mut v: Vec<TextureFormatID> = Vec::new();
        v.push(TextureFormatID::F32);
        v.push(TextureFormatID::Vec2);
        v.push(TextureFormatID::Vec4);
        v.push(TextureFormatID::U8);
        v.push(TextureFormatID::U8Vec2);
        v.push(TextureFormatID::U8Vec4);
        v.push(TextureFormatID::U16);
        v.push(TextureFormatID::U16Vec2);
        v.push(TextureFormatID::U16Vec4);
        v.push(TextureFormatID::SrgbU8);
        v.push(TextureFormatID::SrgbU8Vec2);
        v.push(TextureFormatID::SrgbU8Vec4);
        v
    }
}

/// Explicitly declared padding inside a vertex or uniform struct; `N` is
/// the padded byte count.
#[derive(Clone, Copy)]
pub struct Padding<const N: usize> {
    bytes: [u8; N],
}

impl<const N: usize> Padding<N> {
    /// Creates the padding filler.
    pub fn new() -> Self {
        Padding { bytes: [0; N] }
    }
}

impl<const N: usize> Default for Padding<N> {
    fn default() -> Self {
        Padding::new()
    }
}

/// An attribute kind knows its byte size, its required byte alignment, and
/// whether it stands for explicitly declared padding.
pub trait AttributeKind: Sized {
    /// Byte size of one attribute of this kind.
    spec fn spec_size(&self) -> nat;

    /// Required byte alignment of this kind, at least 1.
    spec fn spec_alignment(&self) -> nat;

    /// Whether the kind is explicitly declared padding.
    spec fn spec_is_padding(&self) -> bool;

    /// Byte size of one attribute of this kind.
    fn size(&self) -> (r: usize)
        ensures
            r == self.spec_size(),
    ;

    /// Required byte alignment of this kind.
    fn alignment(&self) -> (r: usize)
        ensures
            r == self.spec_alignment(),
            r >= 1,
    ;

    /// Whether the kind is explicitly declared padding.
    fn is_padding(&self) -> (r: bool)
        ensures
            r == self.spec_is_padding(),
    ;
}

/// Kind of one field of a vertex or instance struct.  The `UNorm` kinds are
/// unsigned integers reinterpreted as [0, 1]-normalized floats on the wire.
#[derive(Clone, Copy, PartialEq, Eq, Structural, Debug)]
pub enum VertexAttributeID {
    Padding,
    F32,
    Vec2,
    Vec3,
    Vec4,
    U8,
    U8Vec2,
    U8Vec4,
    U8UNorm,
    U8Vec2UNorm,
    U8Vec4UNorm,
    U16,
    U16Vec2,
    U16Vec4,
    U16UNorm,
    U16Vec2UNorm,
    U16Vec4UNorm,
    U32,
    U32Vec2,
    U32Vec4,
}

impl AttributeKind for VertexAttributeID {
    open spec fn spec_size(&self) -> nat {
        match self {
            VertexAttributeID::Padding => 0,
            VertexAttributeID::F32 => 4,
            VertexAttributeID::Vec2 => 8,
            VertexAttributeID::Vec3 => 12,
            VertexAttributeID::Vec4 => 16,
            VertexAttributeID::U8 => 1,
            VertexAttributeID::U8Vec2 => 2,
            VertexAttributeID::U8Vec4 => 4,
            VertexAttributeID::U8UNorm => 1,
            VertexAttributeID::U8Vec2UNorm => 2,
            VertexAttributeID::U8Vec4UNorm => 4,
            VertexAttributeID::U16 => 2,
            VertexAttributeID::U16Vec2 => 4,
            VertexAttributeID::U16Vec4 => 8,
            VertexAttributeID::U16UNorm => 2,
            VertexAttributeID::U16Vec2UNorm => 4,
            VertexAttributeID::U16Vec4UNorm => 8,
            VertexAttributeID::U32 => 4,
            VertexAttributeID::U32Vec2 => 8,
            VertexAttributeID::U32Vec4 => 16,
        }
    }

    open spec fn spec_alignment(&self) -> nat {
        1
    }

    open spec fn spec_is_padding(&self) -> bool {
        self is Padding
    }

    fn size(&self) -> (r: usize) {
        match self {
            VertexAttributeID::Padding => 0,
            VertexAttributeID::F32 => 4,
            VertexAttributeID::Vec2 => 8,
            VertexAttributeID::Vec3 => 12,
            VertexAttributeID::Vec4 => 16,
            VertexAttributeID::U8 => 1,
            VertexAttributeID::U8Vec2 => 2,
            VertexAttributeID::U8Vec4 => 4,
            VertexAttributeID::U8UNorm => 1,
            VertexAttributeID::U8Vec2UNorm => 2,
            VertexAttributeID::U8Vec4UNorm => 4,
            VertexAttributeID::U16 => 2,
            VertexAttributeID::U16Vec2 => 4,
            VertexAttributeID::U16Vec4 => 8,
            VertexAttributeID::U16UNorm => 2,
            VertexAttributeID::U16Vec2UNorm => 4,
            VertexAttributeID::U16Vec4UNorm => 8,
            VertexAttributeID::U32 => 4,
            VertexAttributeID::U32Vec2 => 8,
            VertexAttributeID::U32Vec4 => 16,
        }
    }

    fn alignment(&self) -> (r: usize) {
        1
    }

    fn is_padding(&self) -> (r: bool) {
        match self {
            VertexAttributeID::Padding => true,
            _ => false,
        }
    }
}

/// Kind of one member of a uniform block or push-constant block.
#[derive(Clone, Copy, PartialEq, Eq, Structural, Debug)]
pub enum UniformAttributeID {
    Padding,
    F32,
    Vec2,
    Vec3,
    Vec4,
    I32,
    IVec2,
    IVec3,
    IVec4,
    U32,
    UVec2,
    UVec3,
    UVec4,
    Mat2,
    Mat3,
    Mat4,
}

impl AttributeKind for UniformAttributeID {
    open spec fn spec_size(&self) -> nat {
        match self {
            UniformAttributeID::Padding => 0,
            UniformAttributeID::F32 => 4,
            UniformAttributeID::Vec2 => 8,
            UniformAttributeID::Vec3 => 12,
            UniformAttributeID::Vec4 => 16,
            UniformAttributeID::I32 => 4,
            UniformAttributeID::IVec2 => 8,
            UniformAttributeID::IVec3 => 12,
            UniformAttributeID::IVec4 => 16,
            UniformAttributeID::U32 => 4,
            UniformAttributeID::UVec2 => 8,
            UniformAttributeID::UVec3 => 12,
            UniformAttributeID::UVec4 => 16,
            UniformAttributeID::Mat2 => 16,
            UniformAttributeID::Mat3 => 36,
            UniformAttributeID::Mat4 => 64,
        }
    }

    open spec fn spec_alignment(&self) -> nat {
        match self {
            UniformAttributeID::Padding => 1,
            UniformAttributeID::F32 => 4,
            UniformAttributeID::Vec2 => 8,
            UniformAttributeID::Vec3 => 16,
            UniformAttributeID::Vec4 => 16,
            UniformAttributeID::I32 => 4,
            UniformAttributeID::IVec2 => 8,
            UniformAttributeID::IVec3 => 16,
            UniformAttributeID::IVec4 => 16,
            UniformAttributeID::U32 => 4,
            UniformAttributeID::UVec2 => 8,
            UniformAttributeID::UVec3 => 16,
            UniformAttributeID::UVec4 => 16,
            UniformAttributeID::Mat2 => 8,
            UniformAttributeID::Mat3 => 16,
            UniformAttributeID::Mat4 => 16,
        }
    }

    open spec fn spec_is_padding(&self) -> bool {
        self is Padding
    }

    fn size(&self) -> (r: usize) {
        match self {
            UniformAttributeID::Padding => 0,
            UniformAttributeID::F32 => 4,
            UniformAttributeID::Vec2 => 8,
            UniformAttributeID::Vec3 => 12,
            UniformAttributeID::Vec4 => 16,
            UniformAttributeID::I32 => 4,
            UniformAttributeID::IVec2 => 8,
            UniformAttributeID::IVec3 => 12,
            UniformAttributeID::IVec4 => 16,
            UniformAttributeID::U32 => 4,
            UniformAttributeID::UVec2 => 8,
            UniformAttributeID::UVec3 => 12,
            UniformAttributeID::UVec4 => 16,
            UniformAttributeID::Mat2 => 16,
            UniformAttributeID::Mat3 => 36,
            UniformAttributeID::Mat4 => 64,
        }
    }

    fn alignment(&self) -> (r: usize) {
        match self {
            UniformAttributeID::Padding => 1,
            UniformAttributeID::F32 => 4,
            UniformAttributeID::Vec2 => 8,
            UniformAttributeID::Vec3 => 16,
            UniformAttributeID::Vec4 => 16,
            UniformAttributeID::I32 => 4,
            UniformAttributeID::IVec2 => 8,
            UniformAttributeID::IVec3 => 16,
            UniformAttributeID::IVec4 => 16,
            UniformAttributeID::U32 => 4,
            UniformAttributeID::UVec2 => 8,
            UniformAttributeID::UVec3 => 16,
            UniformAttributeID::UVec4 => 16,
            UniformAttributeID::Mat2 => 8,
            UniformAttributeID::Mat3 => 16,
            UniformAttributeID::Mat4 => 16,
        }
    }

    fn is_padding(&self) -> (r: bool) {
        match self {
            UniformAttributeID::Padding => true,
            _ => false,
        }
    }
}

/// One named field of a struct layout.
#[derive(Clone, Debug)]
pub struct StructAttribute<T> {
    pub attribute: T,
    pub offset: usize,
    pub name: String,
}

/// Ordered byte layout of a vertex, uniform or material struct.
#[derive(Clone, Debug)]
pub struct StructLayout<T> {
    pub attributes: Vec<StructAttribute<T>>,
    pub size: usize,
}

/// Why a layout was rejected when it was defined.
#[derive(Clone, Copy, PartialEq, Eq, Structural, Debug)]
pub enum LayoutError {
    /// A field does not start where the previous one ends: the struct has
    /// implicit padding that was not declared.
    FieldGap { index: usize },
    /// A field's offset breaks its kind's alignment rule.
    Misaligned { index: usize },
    /// The declared total size is not where the last field ends.
    SizeMismatch,
}

/// The fields from position `i` onward tile the layout exactly: each starts
/// at `expected` (the end of everything before it), is aligned for its kind,
/// and a padding field absorbs the gap up to the next field (or the end);
/// the final end equals `size`.
pub open spec fn layout_consistent_from<T: AttributeKind>(
    fields: Seq<StructAttribute<T>>,
    size: nat,
    i: int,
    expected: nat,
) -> bool
    decreases fields.len() - i,
{
    if i < 0 {
        false
    } else if i >= fields.len() {
        expected == size
    } else {
        let f = fields[i];
        &&& f.offset == expected
        &&& (f.offset as nat) % f.attribute.spec_alignment() == 0
        &&& if f.attribute.spec_is_padding() {
            let next: nat = if i + 1 < fields.len() {
                fields[i + 1].offset as nat
            } else {
                size
            };
            next >= expected && layout_consistent_from(fields, size, i + 1, next)
        } else {
            layout_consistent_from(fields, size, i + 1, expected + f.attribute.spec_size())
        }
    }
}

/// The whole field list tiles `size` exactly, starting at offset zero.
pub open spec fn layout_consistent<T: AttributeKind>(
    fields: Seq<StructAttribute<T>>,
    size: nat,
) -> bool {
    layout_consistent_from(fields, size, 0, 0)
}

/// Sum of the byte sizes of the fields from position `i` onward.
pub open spec fn sum_of_sizes_from<T: AttributeKind>(
    fields: Seq<StructAttribute<T>>,
    i: int,
) -> nat
    decreases fields.len() - i,
{
    if i < 0 || i >= fields.len() {
        0
    } else {
        fields[i].attribute.spec_size() + sum_of_sizes_from(fields, i + 1)
    }
}

/// Sum of the byte sizes of all fields.
pub open spec fn sum_of_sizes<T: AttributeKind>(fields: Seq<StructAttribute<T>>) -> nat {
    sum_of_sizes_from(fields, 0)
}

impl<T> StructLayout<T> {
    /// The layout of a struct with no fields.
    pub fn unit() -> (r: Self)
        ensures
            r.attributes@ == Seq::<StructAttribute<T>>::empty(),
            r.size == 0,
    {
        StructLayout { attributes: Vec::new(), size: 0 }
    }

    /// Whether the layout describes no data.
    pub fn is_empty(&self) -> (r: bool)
        ensures
            r == (self.size == 0 || self.attributes@.len() == 0),
    {
        self.size == 0 || self.attributes.len() == 0
    }
}

impl<T: AttributeKind> StructLayout<T> {
    /// Builds a layout from ordered `(name, byte offset, kind)` fields and
    /// the declared total size, validating that the fields tile the struct
    /// exactly.  A struct with implicit padding (a gap not covered by a
    /// declared padding field, or a size beyond the last field's end) is
    /// rejected here, at definition time.
    pub fn from_fields(fields: Vec<StructAttribute<T>>, size: usize) -> (r: Result<
        Self,
        LayoutError,
    >)
        ensures
            r is Ok <==> layout_consistent(fields@, size as nat),
            r matches Ok(l) ==> l.attributes@ == fields@ && l.size == size,
    {
        let n = fields.len();
        let mut expected: usize = 0;
        let mut i: usize = 0;
        while i < n
            invariant
                i <= n,
                n == fields@.len(),
                size <= usize::MAX,
                layout_consistent_from(fields@, size as nat, i as int, expected as nat)
                    ==> layout_consistent(fields@, size as nat),
                !layout_consistent_from(fields@, size as nat, i as int, expected as nat)
                    ==> !layout_consistent(fields@, size as nat),
            decreases n - i,
        {
            let f = &fields[i];
            if f.offset != expected {
                return Err(LayoutError::FieldGap { index: i });
            }
            if f.offset % f.attribute.alignment() != 0 {
                return Err(LayoutError::Misaligned { index: i });
            }
            if f.attribute.is_padding() {
                let next = if i + 1 < n {
                    fields[i + 1].offset
                } else {
                    size
                };
                if next < expected {
                    return Err(LayoutError::FieldGap { index: i });
                }
                expected = next;
            } else {
                let sz = f.attribute.size();
                if sz > usize::MAX - expected {
                    // No later offset or size can match an end past
                    // usize::MAX, so the layout is inconsistent.
                    proof {
                        lemma_layout_end_bounded(
                            fields@,
                            size as nat,
                            i as int + 1,
                            expected as nat + f.attribute.spec_size(),
                        );
                    }
                    return Err(LayoutError::SizeMismatch);
                }
                expected = expected + sz;
            }
            i = i + 1;
        }
        if expected != size {
            return Err(LayoutError::SizeMismatch);
        }
        Ok(StructLayout { attributes: fields, size })
    }
}

/// A consistent layout whose running end exceeds what a byte offset or size
/// can hold is impossible: every later field offset and the total size fit
/// in a machine word.
proof fn lemma_layout_end_bounded<T: AttributeKind>(
    fields: Seq<StructAttribute<T>>,
    size: nat,
    i: int,
    expected: nat,
)
    requires
        expected > usize::MAX,
        size <= usize::MAX,
    ensures
        !layout_consistent_from(fields, size, i, expected),
    decreases fields.len() - i,
{
    if 0 <= i < fields.len() {
        if fields[i].offset == expected {
            // offsets are usize values, so this cannot happen
            assert(fields[i].offset <= usize::MAX);
        }
    }
}

/// A layout that was accepted and declares no padding field has a size that
/// is exactly the sum of its field sizes.
pub proof fn lemma_layout_size_is_sum<T: AttributeKind>(fields: Seq<StructAttribute<T>>, size: nat)
    requires
        layout_consistent(fields, size),
        forall|k: int| 0 <= k < fields.len() ==> !(#[trigger] fields[k]).attribute.spec_is_padding(),
    ensures
        size == sum_of_sizes(fields),
{
    lemma_layout_size_is_sum_from(fields, size, 0, 0);
}

proof fn lemma_layout_size_is_sum_from<T: AttributeKind>(
    fields: Seq<StructAttribute<T>>,
    size: nat,
    i: int,
    expected: nat,
)
    requires
        0 <= i <= fields.len(),
        layout_consistent_from(fields, size, i, expected),
        forall|k: int| i <= k < fields.len() ==> !(#[trigger] fields[k]).attribute.spec_is_padding(),
    ensures
        size == expected + sum_of_sizes_from(fields, i),
    decreases fields.len() - i,
{
    if i < fields.len() {
        lemma_layout_size_is_sum_from(
            fields,
            size,
            i + 1,
            expected + fields[i].attribute.spec_size(),
        );
    }
}

} // verus!
