use vstd::prelude::*;

use crate::chunk::origin_fits;
use crate::error::VoxelError;
use crate::mesh::Vertex;
use crate::quad::{pt, Color, Point};

verus! {

/// The type tag of one grid cell.
#[derive(Debug, Clone, Copy, PartialEq, Eq, Structural)]
pub enum BlockType {
    Empty,
    Grass,
}

impl BlockType {
    /// Every type but `Empty` is solid for adjacency and meshing.
    pub open spec fn solid(self) -> bool {
        self != BlockType::Empty
    }

    pub fn is_solid(&self) -> (r: bool)
        ensures
            r == self.solid(),
    {
        match self {
            BlockType::Empty => false,
            _ => true,
        }
    }
}

/// One grid cell; its position is implicit in its place in the chunk's grid.
#[derive(Debug, Clone, Copy, PartialEq, Eq, Structural)]
pub struct Voxel {
    pub block_type: BlockType,
}

/// Index pattern of an unculled cube over the eight corners numbered as in
/// `Voxel::get_index_buffer`: twelve triangles, two per cube face.
pub open spec fn cube_index_pattern() -> Seq<u16> {
    seq![
        0, 1, 3, 1, 2, 3,
        4, 0, 7, 0, 3, 7,
        1, 5, 2, 5, 6, 2,
        3, 2, 7, 2, 6, 7,
        4, 5, 0, 5, 1, 0,
        7, 6, 4, 6, 5, 4,
    ]
}

/// Corner `i` of a whole cube, in voxel units from its minimum corner:
/// corners 0..3 go round the low-z face from the low x, low y corner, and
/// corners 4..7 round the high-z face in the same way.
pub open spec fn cube_corner_spec(i: int) -> (int, int, int) {
    if i == 0 {
        (0, 0, 0)
    } else if i == 1 {
        (1, 0, 0)
    } else if i == 2 {
        (1, 1, 0)
    } else if i == 3 {
        (0, 1, 0)
    } else if i == 4 {
        (0, 0, 1)
    } else if i == 5 {
        (1, 0, 1)
    } else if i == 6 {
        (1, 1, 1)
    } else {
        (0, 1, 1)
    }
}

/// The grey of an unculled cube's vertices.
pub open spec fn cube_color_spec() -> Color {
    Color { r: 77, g: 77, b: 77 }
}

impl Voxel {
    pub fn new_empty() -> (r: Self)
        ensures
            r.block_type == BlockType::Empty,
    {
        Voxel { block_type: BlockType::Empty }
    }

    pub fn set_block_type(&mut self, block_type: BlockType)
        ensures
            final(self).block_type == block_type,
    {
        self.block_type = block_type;
    }

    pub fn is_solid(&self) -> (r: bool)
        ensures
            r == self.block_type.solid(),
    {
        self.block_type.is_solid()
    }

    /// Corner `i` of the whole cube whose minimum corner is `(x, y, z)` in
    /// voxel units, as a vertex in half-voxel units; `None` unless `i < 8`.
    pub fn get_vertex(x: i64, y: i64, z: i64, i: usize) -> (r: Option<Vertex>)
        requires
            origin_fits(Point { x, y, z }),
        ensures
            r is Some <==> i < 8,
            r matches Some(v) ==> {
                let c = cube_corner_spec(i as int);
                v.position == pt(2 * (x + c.0), 2 * (y + c.1), 2 * (z + c.2))
                    && v.color == cube_color_spec()
            },
    {
        let (cx, cy, cz): (i64, i64, i64) = if i == 0 {
            (0, 0, 0)
        } else if i == 1 {
            (1, 0, 0)
        } else if i == 2 {
            (1, 1, 0)
        } else if i == 3 {
            (0, 1, 0)
        } else if i == 4 {
            (0, 0, 1)
        } else if i == 5 {
            (1, 0, 1)
        } else if i == 6 {
            (1, 1, 1)
        } else if i == 7 {
            (0, 1, 1)
        } else {
            return None;
        };
        let position = Point { x: 2 * (x + cx), y: 2 * (y + cy), z: 2 * (z + cz) };
        Some(Vertex { position, color: Color { r: 77, g: 77, b: 77 } })
    }

    /// The 36 indices of a whole cube whose corners 0..3 are the face at the
    /// low z and 4..7 the face at the high z, each counter-clockwise from the
    /// low x, low y corner.
    pub fn get_index_buffer(&self) -> (r: [u16; 36])
        ensures
            r@ == cube_index_pattern(),
    {
        let r: [u16; 36] = [
            0, 1, 3, 1, 2, 3,
            4, 0, 7, 0, 3, 7,
            1, 5, 2, 5, 6, 2,
            3, 2, 7, 2, 6, 7,
            4, 5, 0, 5, 1, 0,
            7, 6, 4, 6, 5, 4,
        ];
        assert(r@ =~= cube_index_pattern());
        r
    }
}

/// Bit pattern of the IEEE-754 double nearest to 0.3, the density above
/// which a cell is solid.
pub const DENSITY_THRESHOLD_BITS: u64 = 0x3FD3_3333_3333_3333;

/// Bit pattern of positive infinity; a bit pattern with the sign bit cleared
/// is finite exactly when it lies below this one.
pub const POSITIVE_INFINITY_BITS: u64 = 0x7FF0_0000_0000_0000;

/// The sign bit of an IEEE-754 double.
pub const SIGN_BIT: u64 = 0x8000_0000_0000_0000;

/// Densities are handed over as the bit patterns of IEEE-754 doubles. A
/// double is finite when its exponent field is not all ones, that is when its
/// magnitude bits lie below those of infinity.
pub open spec fn density_finite(bits: u64) -> bool {
    bits % SIGN_BIT < POSITIVE_INFINITY_BITS
}

/// For doubles with the sign bit cleared the order of the values is the order
/// of their bit patterns, and every double with the sign bit set is at most
/// zero. So a finite density exceeds the threshold exactly when its sign bit is
/// clear and its bit pattern is greater than the threshold's.
pub open spec fn density_exceeds_threshold(bits: u64) -> bool {
    bits < SIGN_BIT && bits > DENSITY_THRESHOLD_BITS
}

/// The block type that a finite density gives: strictly above the threshold
/// is `Grass`, anything else `Empty`.
pub open spec fn classify_spec(bits: u64) -> BlockType {
    if density_exceeds_threshold(bits) {
        BlockType::Grass
    } else {
        BlockType::Empty
    }
}

/// Maps a density, given as the bit pattern of a double, to a block type.
/// A density that is not finite is refused.
pub fn classify(density_bits: u64) -> (r: Result<BlockType, VoxelError>)
    ensures
        density_finite(density_bits) ==> r == Ok::<BlockType, VoxelError>(classify_spec(density_bits)),
        !density_finite(density_bits) ==> r == Err::<BlockType, VoxelError>(VoxelError::NoiseDomainError),
{
    if density_bits % SIGN_BIT >= POSITIVE_INFINITY_BITS {
        Err(VoxelError::NoiseDomainError)
    } else if density_bits < SIGN_BIT && density_bits > DENSITY_THRESHOLD_BITS {
        Ok(BlockType::Grass)
    } else {
        Ok(BlockType::Empty)
    }
}

} // verus!
