//! CPU-side texture storage with verified rectangle blits.

use vstd::prelude::*;

use crate::geom::{UVec2, UVec3};

verus! {

/// Linear texel index of `(x, y, z)` in an image of extent `size`.
pub open spec fn texel_index(size: UVec3, x: int, y: int, z: int) -> int {
    z * (size.x * size.y) + y * size.x + x
}

/// The linear index of an in-range texel is below the texel count.
proof fn lemma_texel_index_bound(size: UVec3, x: int, y: int, z: int)
    requires
        0 <= x < size.x,
        0 <= y < size.y,
        0 <= z < size.z,
    ensures
        0 <= texel_index(size, x, y, z) < size.spec_volume(),
{
    assert(0 <= z * (size.x * size.y) + y * size.x + x < (size.x * size.y * size.z))
        by (nonlinear_arith)
        requires
            0 <= x < size.x,
            0 <= y < size.y,
            0 <= z < size.z,
    ;
}

/// Distinct in-range texel coordinates have distinct linear indices.
proof fn lemma_texel_index_injective(
    size: UVec3,
    x1: int,
    y1: int,
    z1: int,
    x2: int,
    y2: int,
    z2: int,
)
    requires
        0 <= x1 < size.x,
        0 <= y1 < size.y,
        0 <= z1 < size.z,
        0 <= x2 < size.x,
        0 <= y2 < size.y,
        0 <= z2 < size.z,
        texel_index(size, x1, y1, z1) == texel_index(size, x2, y2, z2),
    ensures
        x1 == x2 && y1 == y2 && z1 == z2,
{
    assert(x1 == x2 && y1 == y2 && z1 == z2) by (nonlinear_arith)
        requires
            0 <= x1 < size.x,
            0 <= y1 < size.y,
            0 <= z1 < size.z,
            0 <= x2 < size.x,
            0 <= y2 < size.y,
            0 <= z2 < size.z,
            z1 * (size.x * size.y) + y1 * size.x + x1 == z2 * (size.x * size.y) + y2 * size.x + x2,
    ;
}

/// Texels actually copied along one axis: the requested count, limited by
/// what remains of the source after its offset and of the destination
/// after its offset.
pub open spec fn copy_extent(rect: u32, src_size: u32, src_off: u32, dst_size: u32, dst_off: u32) -> int {
    let src_avail: int = if src_off <= src_size {
        src_size - src_off
    } else {
        0
    };
    let dst_avail: int = if dst_off <= dst_size {
        dst_size - dst_off
    } else {
        0
    };
    let n: int = if rect <= src_avail {
        rect as int
    } else {
        src_avail
    };
    if n <= dst_avail {
        n
    } else {
        dst_avail
    }
}

/// CPU modifiable texture: a linear texel array of a 3D extent (the third
/// component is the layer count).
pub struct TextureData<T> {
    pub pixels: Vec<T>,
    pub size: UVec3,
}

impl<T: Copy> TextureData<T> {
    /// The texel array covers the extent exactly.
    pub open spec fn wf(&self) -> bool {
        self.pixels@.len() == self.size.spec_volume()
    }

    /// Creates a texture of the given extent with every texel set to the
    /// element type's default value.
    pub fn new_empty(size: UVec3) -> (r: Self) where T: Default
        requires
            size.spec_volume() <= usize::MAX,
        ensures
            r.wf(),
            r.size == size,
            forall|j: int| 0 <= j < r.pixels@.len() ==> (#[trigger] r.pixels@[j]) == r.pixels@[0],
    {
        let len = if size.x == 0 || size.y == 0 || size.z == 0 {
            proof {
                assert(size.x * size.y * size.z == 0) by (nonlinear_arith)
                    requires
                        size.x == 0 || size.y == 0 || size.z == 0,
                ;
            }
            0
        } else {
            proof {
                assert((size.x as usize) * (size.y as usize) <= usize::MAX) by (nonlinear_arith)
                    requires
                        size.x * size.y * size.z <= usize::MAX,
                        size.z >= 1,
                ;
            }
            let len_xy = (size.x as usize) * (size.y as usize);
            proof {
                assert(len_xy * (size.z as usize) == size.x * size.y * size.z) by (nonlinear_arith)
                    requires
                        len_xy == (size.x as usize) * (size.y as usize),
                ;
            }
            len_xy * (size.z as usize)
        };
        let fill: T = T::default();
        let mut pixels: Vec<T> = Vec::new();
        let mut j: usize = 0;
        while j < len
            invariant
                j <= len,
                pixels@.len() == j,
                forall|i: int| 0 <= i < j ==> pixels@[i] == fill,
            decreases len - j,
        {
            pixels.push(fill);
            j = j + 1;
        }
        TextureData { pixels, size }
    }

    /// Creates a texture from already-decoded texels, failing (returning
    /// `None`) when their count does not match the extent: a mismatched
    /// texture is rejected when it is defined, not when it is first used.
    pub fn new_from_pixels(pixels: Vec<T>, size: UVec3) -> (r: Option<Self>)
        ensures
            r is Some <==> pixels@.len() == size.spec_volume(),
            r matches Some(t) ==> t.wf() && t.pixels == pixels && t.size == size,
    {
        let n = pixels.len();
        proof {
            assert((size.x as int) * (size.y as int) <= u64::MAX) by (nonlinear_arith)
                requires
                    size.x <= u32::MAX,
                    size.y <= u32::MAX,
            ;
        }
        let xy: u64 = (size.x as u64) * (size.y as u64);
        let z64: u64 = size.z as u64;
        if z64 != 0 && xy > u64::MAX / z64 {
            // the volume exceeds any holdable texel count
            proof {
                assert(xy * z64 > u64::MAX) by (nonlinear_arith)
                    requires
                        z64 != 0,
                        xy > u64::MAX as int / (z64 as int),
                ;
                assert(size.x * size.y * size.z == xy * z64) by (nonlinear_arith)
                    requires
                        xy == size.x * size.y,
                        z64 == size.z,
                ;
                assert(pixels@.len() == n);
            }
            return None;
        }
        proof {
            if z64 == 0 {
                assert(xy * z64 == 0) by (nonlinear_arith)
                    requires
                        z64 == 0,
                ;
            } else {
                assert(xy * z64 <= u64::MAX) by (nonlinear_arith)
                    requires
                        z64 >= 1,
                        xy <= u64::MAX as int / (z64 as int),
                ;
            }
        }
        let vol: u64 = xy * z64;
        proof {
            assert(vol == size.x * size.y * size.z) by (nonlinear_arith)
                requires
                    xy == size.x * size.y,
                    z64 == size.z,
                    vol == xy * z64,
            ;
        }
        if (n as u64) != vol {
            return None;
        }
        Some(TextureData { pixels, size })
    }

    /// Extent of the texture.
    pub fn size(&self) -> (r: UVec3)
        ensures
            r == self.size,
    {
        self.size
    }

    /// Extent of the texture excluding the layer count.
    pub fn size_2d(&self) -> (r: UVec2)
        ensures
            r == (UVec2 { x: self.size.x, y: self.size.y }),
    {
        UVec2 { x: self.size.x, y: self.size.y }
    }

    /// Copies a box of texels from `src`, reading at `src_offset` and
    /// writing at `dst_offset`; the box is clipped to what both textures
    /// can hold.  Texels outside the written box are unchanged.
    pub fn blit_from(
        &mut self,
        src: &Self,
        rect_size: UVec3,
        src_offset: UVec3,
        dst_offset: UVec3,
    )
        requires
            old(self).wf(),
            src.wf(),
            old(self).size.spec_volume() <= usize::MAX,
            src.size.spec_volume() <= usize::MAX,
        ensures
            final(self).wf(),
            final(self).size == old(self).size,
            ({
                let nx = copy_extent(rect_size.x, src.size.x, src_offset.x, old(self).size.x, dst_offset.x);
                let ny = copy_extent(rect_size.y, src.size.y, src_offset.y, old(self).size.y, dst_offset.y);
                let nz = copy_extent(rect_size.z, src.size.z, src_offset.z, old(self).size.z, dst_offset.z);
                &&& forall|x: int, y: int, z: int|
                    #![trigger texel_index(final(self).size, dst_offset.x + x, dst_offset.y + y, dst_offset.z + z)]
                    0 <= x < nx && 0 <= y < ny && 0 <= z < nz ==> final(self).pixels@[texel_index(
                        final(self).size,
                        dst_offset.x + x,
                        dst_offset.y + y,
                        dst_offset.z + z,
                    )] == src.pixels@[texel_index(
                        src.size,
                        src_offset.x + x,
                        src_offset.y + y,
                        src_offset.z + z,
                    )]
                &&& forall|j: int|
                    0 <= j < final(self).pixels@.len() && !(exists|x: int, y: int, z: int|
                        #![trigger texel_index(final(self).size, dst_offset.x + x, dst_offset.y + y, dst_offset.z + z)]
                        0 <= x < nx && 0 <= y < ny && 0 <= z < nz && j == texel_index(
                            final(self).size,
                            dst_offset.x + x,
                            dst_offset.y + y,
                            dst_offset.z + z,
                        )) ==> final(self).pixels@[j] == old(self).pixels@[j]
            }),
    {
        let nx = clipped_extent(rect_size.x, src.size.x, src_offset.x, self.size.x, dst_offset.x);
        let ny = clipped_extent(rect_size.y, src.size.y, src_offset.y, self.size.y, dst_offset.y);
        let nz = clipped_extent(rect_size.z, src.size.z, src_offset.z, self.size.z, dst_offset.z);
        let ghost nxs = nx as int;
        let ghost nys = ny as int;
        let ghost nzs = nz as int;
        let mut z: u32 = 0;
        while z < nz
            invariant
                z <= nz,
                self.wf(),
                src.wf(),
                self.size.spec_volume() <= usize::MAX,
                src.size.spec_volume() <= usize::MAX,
                self.size == old(self).size,
                nxs == copy_extent(rect_size.x, src.size.x, src_offset.x, old(self).size.x, dst_offset.x),
                nys == copy_extent(rect_size.y, src.size.y, src_offset.y, old(self).size.y, dst_offset.y),
                nzs == copy_extent(rect_size.z, src.size.z, src_offset.z, old(self).size.z, dst_offset.z),
                nx == nxs && ny == nys && nz == nzs,
                nx + dst_offset.x <= self.size.x || nx == 0,
                ny + dst_offset.y <= self.size.y || ny == 0,
                nz + dst_offset.z <= self.size.z || nz == 0,
                nx + src_offset.x <= src.size.x || nx == 0,
                ny + src_offset.y <= src.size.y || ny == 0,
                nz + src_offset.z <= src.size.z || nz == 0,
                forall|xi: int, yi: int, zi: int|
                    #![trigger texel_index(self.size, dst_offset.x + xi, dst_offset.y + yi, dst_offset.z + zi)]
                    0 <= xi < nxs && 0 <= yi < nys && 0 <= zi < z ==> self.pixels@[texel_index(
                        self.size,
                        dst_offset.x + xi,
                        dst_offset.y + yi,
                        dst_offset.z + zi,
                    )] == src.pixels@[texel_index(
                        src.size,
                        src_offset.x + xi,
                        src_offset.y + yi,
                        src_offset.z + zi,
                    )],
                forall|j: int|
                    0 <= j < self.pixels@.len() && !(exists|xi: int, yi: int, zi: int|
                        #![trigger texel_index(self.size, dst_offset.x + xi, dst_offset.y + yi, dst_offset.z + zi)]
                        0 <= xi < nxs && 0 <= yi < nys && 0 <= zi < z && j == texel_index(
                            self.size,
                            dst_offset.x + xi,
                            dst_offset.y + yi,
                            dst_offset.z + zi,
                        )) ==> self.pixels@[j] == old(self).pixels@[j],
            decreases nz - z,
        {
            let mut y: u32 = 0;
            while y < ny
                invariant
                    z < nz,
                    y <= ny,
                    self.wf(),
                    src.wf(),
                    self.size.spec_volume() <= usize::MAX,
                    src.size.spec_volume() <= usize::MAX,
                    self.size == old(self).size,
                    nx == nxs && ny == nys && nz == nzs,
                    nx + dst_offset.x <= self.size.x || nx == 0,
                    ny + dst_offset.y <= self.size.y || ny == 0,
                    nz + dst_offset.z <= self.size.z || nz == 0,
                    nx + src_offset.x <= src.size.x || nx == 0,
                    ny + src_offset.y <= src.size.y || ny == 0,
                    nz + src_offset.z <= src.size.z || nz == 0,
                    forall|xi: int, yi: int, zi: int|
                        #![trigger texel_index(self.size, dst_offset.x + xi, dst_offset.y + yi, dst_offset.z + zi)]
                        0 <= xi < nxs && 0 <= yi < nys && 0 <= zi < z ==> self.pixels@[texel_index(
                            self.size,
                            dst_offset.x + xi,
                            dst_offset.y + yi,
                            dst_offset.z + zi,
                        )] == src.pixels@[texel_index(
                            src.size,
                            src_offset.x + xi,
                            src_offset.y + yi,
                            src_offset.z + zi,
                        )],
                    forall|xi: int, yi: int|
                        #![trigger texel_index(self.size, dst_offset.x + xi, dst_offset.y + yi, dst_offset.z + z)]
                        0 <= xi < nxs && 0 <= yi < y ==> self.pixels@[texel_index(
                            self.size,
                            dst_offset.x + xi,
                            dst_offset.y + yi,
                            dst_offset.z + z,
                        )] == src.pixels@[texel_index(
                            src.size,
                            src_offset.x + xi,
                            src_offset.y + yi,
                            src_offset.z + z,
                        )],
                    forall|j: int|
                        0 <= j < self.pixels@.len() && !(exists|xi: int, yi: int, zi: int|
                            #![trigger texel_index(self.size, dst_offset.x + xi, dst_offset.y + yi, dst_offset.z + zi)]
                            0 <= xi < nxs && 0 <= yi < nys && 0 <= zi < z && j == texel_index(
                                self.size,
                                dst_offset.x + xi,
                                dst_offset.y + yi,
                                dst_offset.z + zi,
                            )) && !(exists|xi: int, yi: int|
                            #![trigger texel_index(self.size, dst_offset.x + xi, dst_offset.y + yi, dst_offset.z + z)]
                            0 <= xi < nxs && 0 <= yi < y && j == texel_index(
                                self.size,
                                dst_offset.x + xi,
                                dst_offset.y + yi,
                                dst_offset.z + z,
                            )) ==> self.pixels@[j] == old(self).pixels@[j],
                decreases ny - y,
            {
                let mut x: u32 = 0;
                while x < nx
                    invariant
                        z < nz,
                        y < ny,
                        x <= nx,
                        self.wf(),
                        src.wf(),
                        self.size.spec_volume() <= usize::MAX,
                        src.size.spec_volume() <= usize::MAX,
                        self.size == old(self).size,
                        nx == nxs && ny == nys && nz == nzs,
                        nx + dst_offset.x <= self.size.x || nx == 0,
                        ny + dst_offset.y <= self.size.y || ny == 0,
                        nz + dst_offset.z <= self.size.z || nz == 0,
                        nx + src_offset.x <= src.size.x || nx == 0,
                        ny + src_offset.y <= src.size.y || ny == 0,
                        nz + src_offset.z <= src.size.z || nz == 0,
                        forall|xi: int, yi: int, zi: int|
                            #![trigger texel_index(self.size, dst_offset.x + xi, dst_offset.y + yi, dst_offset.z + zi)]
                            0 <= xi < nxs && 0 <= yi < nys && 0 <= zi < z ==> self.pixels@[
                                texel_index(
                                    self.size,
                                    dst_offset.x + xi,
                                    dst_offset.y + yi,
                                    dst_offset.z + zi,
                                )
                            ] == src.pixels@[texel_index(
                                src.size,
                                src_offset.x + xi,
                                src_offset.y + yi,
                                src_offset.z + zi,
                            )],
                        forall|xi: int, yi: int|
                            #![trigger texel_index(self.size, dst_offset.x + xi, dst_offset.y + yi, dst_offset.z + z)]
                            0 <= xi < nxs && 0 <= yi < y ==> self.pixels@[texel_index(
                                self.size,
                                dst_offset.x + xi,
                                dst_offset.y + yi,
                                dst_offset.z + z,
                            )] == src.pixels@[texel_index(
                                src.size,
                                src_offset.x + xi,
                                src_offset.y + yi,
                                src_offset.z + z,
                            )],
                        forall|xi: int|
                            #![trigger texel_index(self.size, dst_offset.x + xi, dst_offset.y + y, dst_offset.z + z)]
                            0 <= xi < x ==> self.pixels@[texel_index(
                                self.size,
                                dst_offset.x + xi,
                                dst_offset.y + y,
                                dst_offset.z + z,
                            )] == src.pixels@[texel_index(
                                src.size,
                                src_offset.x + xi,
                                src_offset.y + y,
                                src_offset.z + z,
                            )],
                        forall|j: int|
                            0 <= j < self.pixels@.len() && !(exists|xi: int, yi: int, zi: int|
                                #![trigger texel_index(self.size, dst_offset.x + xi, dst_offset.y + yi, dst_offset.z + zi)]
                                0 <= xi < nxs && 0 <= yi < nys && 0 <= zi < z && j == texel_index(
                                    self.size,
                                    dst_offset.x + xi,
                                    dst_offset.y + yi,
                                    dst_offset.z + zi,
                                )) && !(exists|xi: int, yi: int|
                                #![trigger texel_index(self.size, dst_offset.x + xi, dst_offset.y + yi, dst_offset.z + z)]
                                0 <= xi < nxs && 0 <= yi < y && j == texel_index(
                                    self.size,
                                    dst_offset.x + xi,
                                    dst_offset.y + yi,
                                    dst_offset.z + z,
                                )) && !(exists|xi: int|
                                #![trigger texel_index(self.size, dst_offset.x + xi, dst_offset.y + y, dst_offset.z + z)]
                                0 <= xi < x && j == texel_index(
                                    self.size,
                                    dst_offset.x + xi,
                                    dst_offset.y + y,
                                    dst_offset.z + z,
                                )) ==> self.pixels@[j] == old(self).pixels@[j],
                    decreases nx - x,
                {
                    proof {
                        lemma_texel_index_bound(
                            src.size,
                            src_offset.x + x,
                            src_offset.y + y,
                            src_offset.z + z,
                        );
                        lemma_texel_index_bound(
                            self.size,
                            dst_offset.x + x,
                            dst_offset.y + y,
                            dst_offset.z + z,
                        );
                    }
                    let src_idx = linear_index(src.size, src_offset.x + x, src_offset.y + y, src_offset.z + z);
                    let dst_idx = linear_index(self.size, dst_offset.x + x, dst_offset.y + y, dst_offset.z + z);
                    let v = src.pixels[src_idx];
                    self.pixels.set(dst_idx, v);
                    proof {
                        let sz = self.size;
                        let dx = dst_offset.x as int;
                        let dy = dst_offset.y as int;
                        let dz = dst_offset.z as int;
                        assert forall|xi: int, yi: int, zi: int|
                            #![trigger texel_index(sz, dx + xi, dy + yi, dz + zi)]
                            0 <= xi < nxs && 0 <= yi < nys && 0 <= zi < z implies self.pixels@[
                            texel_index(sz, dx + xi, dy + yi, dz + zi)
                        ] == src.pixels@[texel_index(
                            src.size,
                            src_offset.x + xi,
                            src_offset.y + yi,
                            src_offset.z + zi,
                        )] by {
                            lemma_texel_index_bound(sz, dx + xi, dy + yi, dz + zi);
                            lemma_texel_index_bound(sz, dx + x, dy + y, dz + z);
                            if texel_index(sz, dx + xi, dy + yi, dz + zi) == texel_index(
                                sz,
                                dx + x,
                                dy + y,
                                dz + z,
                            ) {
                                lemma_texel_index_injective(
                                    sz,
                                    dx + xi,
                                    dy + yi,
                                    dz + zi,
                                    dx + x,
                                    dy + y,
                                    dz + z,
                                );
                            }
                        }
                        assert forall|xi: int, yi: int|
                            #![trigger texel_index(sz, dx + xi, dy + yi, dz + z)]
                            0 <= xi < nxs && 0 <= yi < y implies self.pixels@[texel_index(
                            sz,
                            dx + xi,
                            dy + yi,
                            dz + z,
                        )] == src.pixels@[texel_index(
                            src.size,
                            src_offset.x + xi,
                            src_offset.y + yi,
                            src_offset.z + z,
                        )] by {
                            lemma_texel_index_bound(sz, dx + xi, dy + yi, dz + z);
                            lemma_texel_index_bound(sz, dx + x, dy + y, dz + z);
                            if texel_index(sz, dx + xi, dy + yi, dz + z) == texel_index(
                                sz,
                                dx + x,
                                dy + y,
                                dz + z,
                            ) {
                                lemma_texel_index_injective(
                                    sz,
                                    dx + xi,
                                    dy + yi,
                                    dz + z,
                                    dx + x,
                                    dy + y,
                                    dz + z,
                                );
                            }
                        }
                        assert forall|xi: int|
                            #![trigger texel_index(sz, dx + xi, dy + y, dz + z)]
                            0 <= xi < x + 1 implies self.pixels@[texel_index(
                            sz,
                            dx + xi,
                            dy + y,
                            dz + z,
                        )] == src.pixels@[texel_index(
                            src.size,
                            src_offset.x + xi,
                            src_offset.y + y,
                            src_offset.z + z,
                        )] by {
                            lemma_texel_index_bound(sz, dx + xi, dy + y, dz + z);
                            lemma_texel_index_bound(sz, dx + x, dy + y, dz + z);
                            if xi < x {
                                if texel_index(sz, dx + xi, dy + y, dz + z) == texel_index(
                                    sz,
                                    dx + x,
                                    dy + y,
                                    dz + z,
                                ) {
                                    lemma_texel_index_injective(
                                        sz,
                                        dx + xi,
                                        dy + y,
                                        dz + z,
                                        dx + x,
                                        dy + y,
                                        dz + z,
                                    );
                                }
                            }
                        }
                    }
                    x = x + 1;
                }
                y = y + 1;
            }
            z = z + 1;
        }
    }
}

/// Texels actually copied along one axis.
fn clipped_extent(rect: u32, src_size: u32, src_off: u32, dst_size: u32, dst_off: u32) -> (r: u32)
    ensures
        r == copy_extent(rect, src_size, src_off, dst_size, dst_off),
        r + src_off <= src_size || r == 0,
        r + dst_off <= dst_size || r == 0,
        r <= rect,
{
    let src_avail = if src_off <= src_size {
        src_size - src_off
    } else {
        0
    };
    let dst_avail = if dst_off <= dst_size {
        dst_size - dst_off
    } else {
        0
    };
    let n = if rect <= src_avail {
        rect
    } else {
        src_avail
    };
    if n <= dst_avail {
        n
    } else {
        dst_avail
    }
}

/// Computes the linear texel index of in-range coordinates.
fn linear_index(size: UVec3, x: u32, y: u32, z: u32) -> (r: usize)
    requires
        x < size.x,
        y < size.y,
        z < size.z,
        size.spec_volume() <= usize::MAX,
    ensures
        r == texel_index(size, x as int, y as int, z as int),
{
    proof {
        lemma_texel_index_bound(size, x as int, y as int, z as int);
        assert((size.x as usize) * (size.y as usize) <= usize::MAX) by (nonlinear_arith)
            requires
                size.x * size.y * size.z <= usize::MAX,
                z < size.z,
        ;
        assert((z as usize) * ((size.x as usize) * (size.y as usize)) + (y as usize) * (
        size.x as usize) + (x as usize) == texel_index(size, x as int, y as int, z as int))
            by (nonlinear_arith)
            requires
                x < size.x,
                y < size.y,
                z < size.z,
        ;
        assert(texel_index(size, x as int, y as int, z as int) <= usize::MAX);
    }
    (z as usize) * ((size.x as usize) * (size.y as usize)) + (y as usize) * (size.x as usize) + (
    x as usize)
}

} // verus!
