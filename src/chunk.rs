use vstd::prelude::*;

use crate::error::VoxelError;
use crate::quad::{direction_at, normal_spec, opposite_spec, pt, Direction, Point};
use crate::voxel::{classify, classify_spec, density_finite, BlockType, Voxel};

verus! {

/// Edge length of a chunk, in voxels.
pub const CHUNK_SIZE: usize = 16;

/// Number of voxels in a chunk.
pub const CHUNK_VOLUME: usize = 4096;

/// Largest magnitude of a chunk origin's coordinates, so that every position
/// derived from it, in half-voxel units, fits an `i64`.
pub const ORIGIN_LIMIT: i64 = 0x1000_0000_0000_0000;

pub open spec fn in_bounds(x: int, y: int, z: int) -> bool {
    0 <= x < CHUNK_SIZE && 0 <= y < CHUNK_SIZE && 0 <= z < CHUNK_SIZE
}

/// Place of cell `(x, y, z)` in the flat grid.
pub open spec fn cell_index(x: int, y: int, z: int) -> int {
    x + y * 16 + z * 256
}

pub open spec fn cell_x(i: int) -> int {
    i % 16
}

pub open spec fn cell_y(i: int) -> int {
    (i / 16) % 16
}

pub open spec fn cell_z(i: int) -> int {
    i / 256
}

pub open spec fn origin_fits(p: Point) -> bool {
    -ORIGIN_LIMIT <= p.x <= ORIGIN_LIMIT && -ORIGIN_LIMIT <= p.y <= ORIGIN_LIMIT && -ORIGIN_LIMIT
        <= p.z <= ORIGIN_LIMIT
}

/// World position, in voxel units, of the cell at flat place `i` of a chunk
/// whose minimum corner is `origin`.
pub open spec fn cell_world_spec(origin: Point, i: int) -> Point {
    pt(origin.x + cell_x(i), origin.y + cell_y(i), origin.z + cell_z(i))
}

/// The flat place of a cell and the cell at a flat place are inverse maps.
pub proof fn lemma_cell_index(i: int)
    requires
        0 <= i < CHUNK_VOLUME,
    ensures
        in_bounds(cell_x(i), cell_y(i), cell_z(i)),
        cell_index(cell_x(i), cell_y(i), cell_z(i)) == i,
{
    assert(in_bounds(cell_x(i), cell_y(i), cell_z(i)) && cell_index(cell_x(i), cell_y(i), cell_z(i))
        == i) by (nonlinear_arith)
        requires
            0 <= i < 4096,
    ;
}

pub proof fn lemma_cell_coords(x: int, y: int, z: int)
    requires
        in_bounds(x, y, z),
    ensures
        0 <= cell_index(x, y, z) < CHUNK_VOLUME,
        cell_x(cell_index(x, y, z)) == x,
        cell_y(cell_index(x, y, z)) == y,
        cell_z(cell_index(x, y, z)) == z,
{
    assert(0 <= cell_index(x, y, z) < 4096 && cell_x(cell_index(x, y, z)) == x && cell_y(
        cell_index(x, y, z),
    ) == y && cell_z(cell_index(x, y, z)) == z) by (nonlinear_arith)
        requires
            0 <= x < 16,
            0 <= y < 16,
            0 <= z < 16,
    ;
}

/// One exposed face: a grid cell and the direction in which it is exposed.
#[derive(Debug, Clone, Copy, PartialEq, Eq, Structural)]
pub struct Face {
    pub x: usize,
    pub y: usize,
    pub z: usize,
    pub direction: Direction,
}

/// A cubic grid of `CHUNK_SIZE` voxels a side, stored flat with the cell
/// `(x, y, z)` at `x + y * 16 + z * 256`, and the world position of its
/// minimum corner.
pub struct Chunk {
    pub voxels: Vec<Voxel>,
    pub world_origin: Point,
}

impl Chunk {
    pub open spec fn wf(&self) -> bool {
        self.voxels@.len() == CHUNK_VOLUME && origin_fits(self.world_origin)
    }

    pub open spec fn block_at(&self, x: int, y: int, z: int) -> BlockType {
        self.voxels@[cell_index(x, y, z)].block_type
    }

    /// Whether `(x, y, z)` holds a solid voxel. A cell outside the grid
    /// counts as empty: no neighbouring chunk is consulted.
    pub open spec fn solid_at(&self, x: int, y: int, z: int) -> bool {
        in_bounds(x, y, z) && self.block_at(x, y, z).solid()
    }

    /// The face in direction `d` of cell `(x, y, z)` is drawn: the cell is
    /// solid and its neighbour in that direction is not.
    pub open spec fn face_exposed(&self, x: int, y: int, z: int, d: Direction) -> bool {
        let n = normal_spec(d);
        self.solid_at(x, y, z) && !self.solid_at(x + n.0, y + n.1, z + n.2)
    }

    /// Exposed faces of the cell at flat place `i`, over the first `k`
    /// directions of `direction_at`.
    pub open spec fn cell_faces(&self, i: int, k: int) -> Seq<Face>
        decreases k,
    {
        if k <= 0 {
            seq![]
        } else {
            let prev = self.cell_faces(i, k - 1);
            let d = direction_at(k - 1);
            if self.face_exposed(cell_x(i), cell_y(i), cell_z(i), d) {
                prev.push(
                    Face {
                        x: cell_x(i) as usize,
                        y: cell_y(i) as usize,
                        z: cell_z(i) as usize,
                        direction: d,
                    },
                )
            } else {
                prev
            }
        }
    }

    /// Exposed faces of the first `n` cells in flat order.
    pub open spec fn faces_upto(&self, n: int) -> Seq<Face>
        decreases n,
    {
        if n <= 0 {
            seq![]
        } else {
            self.faces_upto(n - 1) + self.cell_faces(n - 1, 6)
        }
    }

    /// Every exposed face of the chunk: cells in flat order, and the faces of
    /// one cell in the order of `direction_at`.
    pub open spec fn exposed_faces_spec(&self) -> Seq<Face> {
        self.faces_upto(CHUNK_VOLUME as int)
    }

    /// A chunk at the world origin with every voxel empty.
    pub fn new() -> (r: Self)
        ensures
            r.wf(),
            r.world_origin == pt(0, 0, 0),
            forall|i: int| 0 <= i < CHUNK_VOLUME ==> #[trigger] r.voxels@[i].block_type == BlockType::Empty,
    {
        let mut voxels: Vec<Voxel> = Vec::new();
        let mut i: usize = 0;
        while i < CHUNK_VOLUME
            invariant
                i <= CHUNK_VOLUME,
                voxels@.len() == i,
                forall|j: int| 0 <= j < i ==> #[trigger] voxels@[j].block_type == BlockType::Empty,
            decreases CHUNK_VOLUME - i,
        {
            voxels.push(Voxel::new_empty());
            i = i + 1;
        }
        Chunk { voxels, world_origin: Point { x: 0, y: 0, z: 0 } }
    }

    /// The voxel at `(x, y, z)`, or `None` when any one coordinate is outside
    /// the grid.
    pub fn get_voxel(&self, x: usize, y: usize, z: usize) -> (r: Option<Voxel>)
        requires
            self.wf(),
        ensures
            r is Some <==> in_bounds(x as int, y as int, z as int),
            r is Some ==> r == Some(self.voxels@[cell_index(x as int, y as int, z as int)]),
    {
        if x >= CHUNK_SIZE || y >= CHUNK_SIZE || z >= CHUNK_SIZE {
            return None;
        }
        Some(self.voxels[x + y * 16 + z * 256])
    }

    /// The voxel at `(x, y, z)`, or `OutOfBounds` when any one coordinate is
    /// below zero or at least `CHUNK_SIZE`.
    pub fn get(&self, x: i64, y: i64, z: i64) -> (r: Result<Voxel, VoxelError>)
        requires
            self.wf(),
        ensures
            r is Ok <==> in_bounds(x as int, y as int, z as int),
            r is Ok ==> r == Ok::<Voxel, VoxelError>(self.voxels@[cell_index(x as int, y as int, z as int)]),
            r is Err ==> r == Err::<Voxel, VoxelError>(VoxelError::OutOfBounds),
    {
        if x < 0 || x >= 16 || y < 0 || y >= 16 || z < 0 || z >= 16 {
            return Err(VoxelError::OutOfBounds);
        }
        let i = (x + y * 16 + z * 256) as usize;
        Ok(self.voxels[i])
    }

    /// Sets every voxel from the density sampled at its cell: `densities[i]`
    /// is the bit pattern of the density at `cell_world_position(world_origin, i)`.
    /// Fails, leaving the chunk as it was, when any density is not finite.
    pub fn build_voxels(&mut self, world_origin: Point, densities: &Vec<u64>) -> (r: Result<(), VoxelError>)
        requires
            old(self).wf(),
            origin_fits(world_origin),
            densities@.len() == CHUNK_VOLUME,
        ensures
            r is Ok <==> forall|i: int| 0 <= i < CHUNK_VOLUME ==> density_finite(#[trigger] densities@[i]),
            r is Ok ==> final(self).wf() && final(self).world_origin == world_origin,
            r is Ok ==> forall|i: int|
                0 <= i < CHUNK_VOLUME ==> #[trigger] final(self).voxels@[i].block_type == classify_spec(densities@[i]),
            r is Err ==> r == Err::<(), VoxelError>(VoxelError::NoiseDomainError) && *final(self) == *old(self),
    {
        let mut i: usize = 0;
        while i < CHUNK_VOLUME
            invariant
                i <= CHUNK_VOLUME,
                densities@.len() == CHUNK_VOLUME,
                forall|j: int| 0 <= j < i ==> density_finite(#[trigger] densities@[j]),
            decreases CHUNK_VOLUME - i,
        {
            if classify(densities[i]).is_err() {
                return Err(VoxelError::NoiseDomainError);
            }
            i = i + 1;
        }
        self.world_origin = world_origin;
        let mut i: usize = 0;
        while i < CHUNK_VOLUME
            invariant
                i <= CHUNK_VOLUME,
                densities@.len() == CHUNK_VOLUME,
                self.voxels@.len() == CHUNK_VOLUME,
                self.world_origin == world_origin,
                forall|j: int| 0 <= j < CHUNK_VOLUME ==> density_finite(#[trigger] densities@[j]),
                forall|j: int| 0 <= j < i ==> #[trigger] self.voxels@[j].block_type == classify_spec(densities@[j]),
            decreases CHUNK_VOLUME - i,
        {
            let t = match classify(densities[i]) {
                Ok(t) => t,
                Err(_) => BlockType::Empty,
            };
            self.voxels.set(i, Voxel { block_type: t });
            i = i + 1;
        }
        Ok(())
    }

    /// Whether the face in direction `d` of cell `(x, y, z)` is drawn.
    pub fn is_face_exposed(&self, x: usize, y: usize, z: usize, d: Direction) -> (r: bool)
        requires
            self.wf(),
            in_bounds(x as int, y as int, z as int),
        ensures
            r == self.face_exposed(x as int, y as int, z as int, d),
    {
        if !self.voxels[x + y * 16 + z * 256].is_solid() {
            return false;
        }
        let n = d.normal();
        match self.get(x as i64 + n.0, y as i64 + n.1, z as i64 + n.2) {
            Ok(v) => !v.is_solid(),
            Err(_) => true,
        }
    }

    /// Every exposed face, cells in flat order and each cell's faces in the
    /// order of `direction_at`.
    pub fn exposed_faces(&self) -> (r: Vec<Face>)
        requires
            self.wf(),
        ensures
            r@ == self.exposed_faces_spec(),
    {
        let mut r: Vec<Face> = Vec::new();
        let mut i: usize = 0;
        while i < CHUNK_VOLUME
            invariant
                i <= CHUNK_VOLUME,
                self.wf(),
                r@ == self.faces_upto(i as int),
            decreases CHUNK_VOLUME - i,
        {
            let x = i % 16;
            let y = (i / 16) % 16;
            let z = i / 256;
            proof {
                lemma_cell_index(i as int);
            }
            let ghost before = r@;
            let mut k: usize = 0;
            while k < 6
                invariant
                    k <= 6,
                    i < CHUNK_VOLUME,
                    self.wf(),
                    x == cell_x(i as int),
                    y == cell_y(i as int),
                    z == cell_z(i as int),
                    in_bounds(x as int, y as int, z as int),
                    before == self.faces_upto(i as int),
                    r@ == before + self.cell_faces(i as int, k as int),
                decreases 6 - k,
            {
                let d = Direction::from_index(k);
                if self.is_face_exposed(x, y, z, d) {
                    r.push(Face { x, y, z, direction: d });
                    assert(r@ =~= before + self.cell_faces(i as int, k + 1));
                } else {
                    assert(r@ =~= before + self.cell_faces(i as int, k + 1));
                }
                k = k + 1;
            }
            i = i + 1;
        }
        r
    }
}

proof fn lemma_cell_faces_exposed(c: Chunk, i: int, k: int)
    requires
        c.wf(),
        0 <= i < CHUNK_VOLUME,
        0 <= k <= 6,
    ensures
        forall|j: int|
            0 <= j < c.cell_faces(i, k).len() ==> {
                let f = #[trigger] c.cell_faces(i, k)[j];
                f.x == cell_x(i) && f.y == cell_y(i) && f.z == cell_z(i) && c.face_exposed(
                    f.x as int,
                    f.y as int,
                    f.z as int,
                    f.direction,
                )
            },
    decreases k,
{
    lemma_cell_index(i);
    if k > 0 {
        lemma_cell_faces_exposed(c, i, k - 1);
    }
}

/// Empty voxels contribute no faces: every face in the list belongs to a
/// solid voxel inside the grid, and is exposed.
pub proof fn lemma_faces_from_solid_voxels(c: Chunk)
    requires
        c.wf(),
    ensures
        forall|j: int|
            0 <= j < c.exposed_faces_spec().len() ==> {
                let f = #[trigger] c.exposed_faces_spec()[j];
                c.solid_at(f.x as int, f.y as int, f.z as int) && c.face_exposed(
                    f.x as int,
                    f.y as int,
                    f.z as int,
                    f.direction,
                )
            },
{
    lemma_faces_upto_exposed(c, CHUNK_VOLUME as int);
}

proof fn lemma_faces_upto_exposed(c: Chunk, n: int)
    requires
        c.wf(),
        0 <= n <= CHUNK_VOLUME,
    ensures
        forall|j: int|
            0 <= j < c.faces_upto(n).len() ==> {
                let f = #[trigger] c.faces_upto(n)[j];
                c.face_exposed(f.x as int, f.y as int, f.z as int, f.direction)
            },
    decreases n,
{
    if n > 0 {
        lemma_faces_upto_exposed(c, n - 1);
        lemma_cell_faces_exposed(c, n - 1, 6);
        let prev = c.faces_upto(n - 1);
        let cur = c.cell_faces(n - 1, 6);
        assert forall|j: int| 0 <= j < c.faces_upto(n).len() implies {
            let f = #[trigger] c.faces_upto(n)[j];
            c.face_exposed(f.x as int, f.y as int, f.z as int, f.direction)
        } by {
            if j < prev.len() {
                assert(c.faces_upto(n)[j] == prev[j]);
            } else {
                assert(c.faces_upto(n)[j] == cur[j - prev.len()]);
            }
        }
    }
}

/// Place of direction `d` in the order of `direction_at`.
pub open spec fn direction_index(d: Direction) -> int {
    match d {
        Direction::Left => 0,
        Direction::Right => 1,
        Direction::Down => 2,
        Direction::Up => 3,
        Direction::Back => 4,
        Direction::Forward => 5,
    }
}

proof fn lemma_cell_faces_complete(c: Chunk, i: int, k: int, m: int)
    requires
        c.wf(),
        0 <= i < CHUNK_VOLUME,
        0 <= m < k <= 6,
        c.face_exposed(cell_x(i), cell_y(i), cell_z(i), direction_at(m)),
    ensures
        c.cell_faces(i, k).contains(
            Face {
                x: cell_x(i) as usize,
                y: cell_y(i) as usize,
                z: cell_z(i) as usize,
                direction: direction_at(m),
            },
        ),
    decreases k,
{
    let f = Face {
        x: cell_x(i) as usize,
        y: cell_y(i) as usize,
        z: cell_z(i) as usize,
        direction: direction_at(m),
    };
    let s = c.cell_faces(i, k);
    if m == k - 1 {
        assert(s[s.len() - 1] == f);
    } else {
        lemma_cell_faces_complete(c, i, k - 1, m);
        let prev = c.cell_faces(i, k - 1);
        let j = choose|j: int| 0 <= j < prev.len() && prev[j] == f;
        assert(s[j] == f);
    }
}

proof fn lemma_faces_upto_complete(c: Chunk, n: int, i: int, f: Face)
    requires
        c.wf(),
        0 <= i < n <= CHUNK_VOLUME,
        c.cell_faces(i, 6).contains(f),
    ensures
        c.faces_upto(n).contains(f),
    decreases n,
{
    let prev = c.faces_upto(n - 1);
    let s = c.faces_upto(n);
    if i == n - 1 {
        let cur = c.cell_faces(i, 6);
        let j = choose|j: int| 0 <= j < cur.len() && cur[j] == f;
        assert(s[prev.len() + j] == f);
    } else {
        lemma_faces_upto_complete(c, n - 1, i, f);
        let j = choose|j: int| 0 <= j < prev.len() && prev[j] == f;
        assert(s[j] == f);
    }
}

/// Every exposed face of the chunk is in the list of exposed faces.
pub proof fn lemma_exposed_faces_complete(c: Chunk, x: int, y: int, z: int, d: Direction)
    requires
        c.wf(),
        c.face_exposed(x, y, z, d),
    ensures
        c.exposed_faces_spec().contains(Face { x: x as usize, y: y as usize, z: z as usize, direction: d }),
{
    lemma_cell_coords(x, y, z);
    let i = cell_index(x, y, z);
    let m = direction_index(d);
    assert(direction_at(m) == d);
    lemma_cell_faces_complete(c, i, 6, m);
    lemma_faces_upto_complete(
        c,
        CHUNK_VOLUME as int,
        i,
        Face { x: x as usize, y: y as usize, z: z as usize, direction: d },
    );
}

/// Faces between two solid voxels cancel in pairs: when a cell and its
/// neighbour in direction `d` are both solid, neither the cell's face towards
/// the neighbour nor the neighbour's face back towards the cell is listed.
pub proof fn lemma_shared_faces_hidden(c: Chunk, x: int, y: int, z: int, d: Direction)
    requires
        c.wf(),
        c.solid_at(x, y, z),
        c.solid_at(x + normal_spec(d).0, y + normal_spec(d).1, z + normal_spec(d).2),
    ensures
        !c.exposed_faces_spec().contains(Face { x: x as usize, y: y as usize, z: z as usize, direction: d }),
        !c.exposed_faces_spec().contains(
            Face {
                x: (x + normal_spec(d).0) as usize,
                y: (y + normal_spec(d).1) as usize,
                z: (z + normal_spec(d).2) as usize,
                direction: opposite_spec(d),
            },
        ),
{
    lemma_faces_from_solid_voxels(c);
    let n = normal_spec(d);
    let fs = c.exposed_faces_spec();
    let f1 = Face { x: x as usize, y: y as usize, z: z as usize, direction: d };
    let f2 = Face {
        x: (x + n.0) as usize,
        y: (y + n.1) as usize,
        z: (z + n.2) as usize,
        direction: opposite_spec(d),
    };
    if fs.contains(f1) {
        let j = choose|j: int| 0 <= j < fs.len() && fs[j] == f1;
        assert(c.face_exposed(fs[j].x as int, fs[j].y as int, fs[j].z as int, fs[j].direction));
    }
    if fs.contains(f2) {
        let j = choose|j: int| 0 <= j < fs.len() && fs[j] == f2;
        assert(c.face_exposed(fs[j].x as int, fs[j].y as int, fs[j].z as int, fs[j].direction));
    }
}

/// World position, in voxel units, of the cell at flat place `i` of a chunk
/// whose minimum corner is `origin`.
pub fn cell_world_position(origin: Point, i: usize) -> (r: Point)
    requires
        origin_fits(origin),
        i < CHUNK_VOLUME,
    ensures
        r == cell_world_spec(origin, i as int),
{
    let x = (i % 16) as i64;
    let y = ((i / 16) % 16) as i64;
    let z = (i / 256) as i64;
    proof {
        lemma_cell_index(i as int);
    }
    Point { x: origin.x + x, y: origin.y + y, z: origin.z + z }
}

} // verus!
