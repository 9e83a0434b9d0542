use vstd::prelude::*;

use crate::chunk::{Chunk, Face, CHUNK_VOLUME, ORIGIN_LIMIT};
use crate::error::VoxelError;
use crate::quad::{pt, quad_spec, Color, Point, Quad};

verus! {

/// One mesh vertex: a position in half-voxel units and a color.
#[derive(Debug, Clone, Copy, PartialEq, Eq, Structural)]
pub struct Vertex {
    pub position: Point,
    pub color: Color,
}

/// Number of distinct values of a 16-bit index.
pub const INDEX_RANGE: usize = 65536;

/// Offset from a quad's first vertex of index `j` of its two triangles,
/// `{0, 1, 3, 1, 2, 3}`.
pub open spec fn quad_index_offset(j: int) -> int {
    if j == 0 {
        0
    } else if j == 1 {
        1
    } else if j == 2 {
        3
    } else if j == 3 {
        1
    } else if j == 4 {
        2
    } else {
        3
    }
}

/// The four vertices of a quad, its corners in order, each with its color.
pub open spec fn quad_vertices(q: Quad) -> Seq<Vertex> {
    seq![
        Vertex { position: q.corners[0], color: q.color },
        Vertex { position: q.corners[1], color: q.color },
        Vertex { position: q.corners[2], color: q.color },
        Vertex { position: q.corners[3], color: q.color },
    ]
}

/// The six indices of the quad whose first vertex is at `base`.
pub open spec fn quad_indices(base: int) -> Seq<u16> {
    seq![
        (base + quad_index_offset(0)) as u16,
        (base + quad_index_offset(1)) as u16,
        (base + quad_index_offset(2)) as u16,
        (base + quad_index_offset(3)) as u16,
        (base + quad_index_offset(4)) as u16,
        (base + quad_index_offset(5)) as u16,
    ]
}

/// Vertices of the first `n` quads.
pub open spec fn vertices_upto(quads: Seq<Quad>, n: int) -> Seq<Vertex>
    decreases n,
{
    if n <= 0 {
        seq![]
    } else {
        vertices_upto(quads, n - 1) + quad_vertices(quads[n - 1])
    }
}

/// Indices of the first `n` quads, quad `k` starting at vertex `4 * k`.
pub open spec fn indices_upto(n: int) -> Seq<u16>
    decreases n,
{
    if n <= 0 {
        seq![]
    } else {
        indices_upto(n - 1) + quad_indices(4 * (n - 1))
    }
}

pub open spec fn mesh_vertices(quads: Seq<Quad>) -> Seq<Vertex> {
    vertices_upto(quads, quads.len() as int)
}

pub open spec fn mesh_indices(quads: Seq<Quad>) -> Seq<u16> {
    indices_upto(quads.len() as int)
}

/// A mesh of `n` quads has more vertices or indices than 16-bit indices reach.
pub open spec fn mesh_overflows(n: int) -> bool {
    4 * n > INDEX_RANGE || 6 * n > INDEX_RANGE
}

/// The layout of the buffers: vertex `4 * k + j` is corner `j` of quad `k`,
/// and index `6 * k + j` is `4 * k` plus entry `j` of `{0, 1, 3, 1, 2, 3}`.
pub proof fn lemma_mesh_layout(quads: Seq<Quad>, n: int)
    requires
        0 <= n <= quads.len(),
        4 * n <= INDEX_RANGE,
    ensures
        vertices_upto(quads, n).len() == 4 * n,
        indices_upto(n).len() == 6 * n,
        forall|k: int, j: int|
            0 <= k < n && 0 <= j < 4 ==> #[trigger] vertices_upto(quads, n)[4 * k + j] == (Vertex {
                position: quads[k].corners[j],
                color: quads[k].color,
            }),
        forall|k: int, j: int|
            0 <= k < n && 0 <= j < 6 ==> #[trigger] indices_upto(n)[6 * k + j] == 4 * k
                + quad_index_offset(j),
    decreases n,
{
    if n > 0 {
        lemma_mesh_layout(quads, n - 1);
        let vs = vertices_upto(quads, n);
        let is = indices_upto(n);
        assert forall|k: int, j: int| 0 <= k < n && 0 <= j < 4 implies #[trigger] vs[4 * k + j] == (
        Vertex { position: quads[k].corners[j], color: quads[k].color }) by {
            if k < n - 1 {
                assert(vs[4 * k + j] == vertices_upto(quads, n - 1)[4 * k + j]);
            }
        }
        assert forall|k: int, j: int| 0 <= k < n && 0 <= j < 6 implies #[trigger] is[6 * k + j] == 4
            * k + quad_index_offset(j) by {
            if k < n - 1 {
                assert(is[6 * k + j] == indices_upto(n - 1)[6 * k + j]);
            }
        }
    }
}

/// Every mesh that fits 16-bit indices has four vertices and six indices per
/// quad, and every index names one of its vertices.
pub proof fn lemma_mesh_invariant(quads: Seq<Quad>)
    requires
        !mesh_overflows(quads.len() as int),
    ensures
        mesh_vertices(quads).len() == 4 * quads.len(),
        mesh_indices(quads).len() == 6 * quads.len(),
        forall|i: int|
            0 <= i < mesh_indices(quads).len() ==> #[trigger] mesh_indices(quads)[i] < mesh_vertices(
                quads,
            ).len(),
{
    let n = quads.len() as int;
    lemma_mesh_layout(quads, n);
    assert forall|i: int| 0 <= i < mesh_indices(quads).len() implies #[trigger] mesh_indices(quads)[i]
        < mesh_vertices(quads).len() by {
        let k = i / 6;
        let j = i % 6;
        assert(i == 6 * k + j && 0 <= k < n && 0 <= j < 6) by (nonlinear_arith)
            requires
                0 <= i < 6 * n,
                k == i / 6,
                j == i % 6,
        ;
        assert(mesh_indices(quads)[6 * k + j] == 4 * k + quad_index_offset(j));
    }
}

/// Flattens quads into a vertex buffer and a 16-bit index buffer: four new
/// vertices and two triangles per quad. Fails with `IndexOverflow` when the
/// buffers would outgrow the range of a 16-bit index.
pub fn assemble_mesh(quads: &Vec<Quad>) -> (r: Result<(Vec<Vertex>, Vec<u16>), VoxelError>)
    ensures
        r is Err <==> mesh_overflows(quads@.len() as int),
        r is Err ==> r == Err::<(Vec<Vertex>, Vec<u16>), VoxelError>(VoxelError::IndexOverflow),
        r matches Ok((v, i)) ==> v@ == mesh_vertices(quads@) && i@ == mesh_indices(quads@),
{
    let n = quads.len();
    if n > INDEX_RANGE / 6 {
        return Err(VoxelError::IndexOverflow);
    }
    let mut vertices: Vec<Vertex> = Vec::new();
    let mut indices: Vec<u16> = Vec::new();
    let mut base: u32 = 0;
    let mut q: usize = 0;
    while q < n
        invariant
            n == quads@.len(),
            6 * n <= INDEX_RANGE,
            q <= n,
            base == 4 * q,
            vertices@ == vertices_upto(quads@, q as int),
            indices@ == indices_upto(q as int),
        decreases n - q,
    {
        let quad = quads[q];
        let mut j: usize = 0;
        while j < 4
            invariant
                j <= 4,
                vertices@ == vertices_upto(quads@, q as int) + quad_vertices(quad).take(j as int),
            decreases 4 - j,
        {
            vertices.push(Vertex { position: quad.corners[j], color: quad.color });
            assert(quad_vertices(quad).take(j + 1) =~= quad_vertices(quad).take(j as int).push(
                Vertex { position: quad.corners[j as int], color: quad.color },
            ));
            j = j + 1;
        }
        assert(quad_vertices(quad).take(4) =~= quad_vertices(quad));
        let b = base as u16;
        indices.push(b);
        indices.push(b + 1);
        indices.push(b + 3);
        indices.push(b + 1);
        indices.push(b + 2);
        indices.push(b + 3);
        assert(indices@ =~= indices_upto(q + 1));
        base = base + 4;
        q = q + 1;
    }
    Ok((vertices, indices))
}

/// Centre, in half-voxel units, of the voxel at a face's cell in a chunk whose
/// minimum corner is `origin`.
pub open spec fn face_center(origin: Point, f: Face) -> Point {
    pt(2 * (origin.x + f.x) + 1, 2 * (origin.y + f.y) + 1, 2 * (origin.z + f.z) + 1)
}

pub open spec fn face_quad(origin: Point, f: Face) -> Quad {
    quad_spec(f.direction, face_center(origin, f))
}

/// The quads of a chunk's exposed faces, in the order of the faces.
pub open spec fn chunk_quads(c: Chunk) -> Seq<Quad> {
    c.exposed_faces_spec().map_values(|f: Face| face_quad(c.world_origin, f))
}

/// The quads of every exposed face of the chunk, in the order of the faces.
pub fn build_quads(chunk: &Chunk) -> (r: Vec<Quad>)
    requires
        chunk.wf(),
    ensures
        r@ =~= chunk_quads(*chunk),
{
    let faces = chunk.exposed_faces();
    proof {
        crate::chunk::lemma_faces_from_solid_voxels(*chunk);
    }
    let o = chunk.world_origin;
    let mut r: Vec<Quad> = Vec::new();
    let mut k: usize = 0;
    while k < faces.len()
        invariant
            chunk.wf(),
            o == chunk.world_origin,
            faces@ == chunk.exposed_faces_spec(),
            k <= faces@.len(),
            r@.len() == k,
            forall|j: int| 0 <= j < k ==> #[trigger] r@[j] == face_quad(o, faces@[j]),
            forall|j: int|
                0 <= j < faces@.len() ==> {
                    let f = #[trigger] faces@[j];
                    chunk.solid_at(f.x as int, f.y as int, f.z as int)
                },
        decreases faces@.len() - k,
    {
        let f = faces[k];
        assert(chunk.solid_at(f.x as int, f.y as int, f.z as int));
        let center = Point {
            x: 2 * (o.x + f.x as i64) + 1,
            y: 2 * (o.y + f.y as i64) + 1,
            z: 2 * (o.z + f.z as i64) + 1,
        };
        r.push(Quad::new(f.direction, center));
        k = k + 1;
    }
    r
}

/// The CPU-side mesh of one chunk: its vertex and index buffers, the number of
/// indices to draw, and whether the buffers lag behind the chunk's voxels.
pub struct ChunkMesh {
    pub vertices: Vec<Vertex>,
    pub indices: Vec<u16>,
    pub num_indices: u16,
    pub stale: bool,
}

impl ChunkMesh {
    /// The buffers are exactly the mesh of `chunk`'s exposed faces and the
    /// mesh is current.
    pub open spec fn built_from(&self, chunk: Chunk) -> bool {
        &&& self.vertices@ == mesh_vertices(chunk_quads(chunk))
        &&& self.indices@ == mesh_indices(chunk_quads(chunk))
        &&& self.num_indices as int == self.indices@.len()
        &&& !self.stale
    }

    /// An empty mesh that has yet to be built.
    pub fn new() -> (r: Self)
        ensures
            r.vertices@.len() == 0,
            r.indices@.len() == 0,
            r.num_indices == 0,
            r.stale,
    {
        ChunkMesh { vertices: Vec::new(), indices: Vec::new(), num_indices: 0, stale: true }
    }

    /// Marks the mesh as lagging behind its chunk's voxels.
    pub fn invalidate(&mut self)
        ensures
            final(self).stale,
            final(self).vertices@ == old(self).vertices@,
            final(self).indices@ == old(self).indices@,
            final(self).num_indices == old(self).num_indices,
    {
        self.stale = true;
    }

    /// Replaces the buffers by the mesh of `chunk`. When that mesh would
    /// outgrow 16-bit indices, fails with `IndexOverflow` and leaves the
    /// mesh as it was.
    pub fn rebuild(&mut self, chunk: &Chunk) -> (r: Result<(), VoxelError>)
        requires
            chunk.wf(),
        ensures
            r is Err <==> mesh_overflows(chunk_quads(*chunk).len() as int),
            r is Ok ==> final(self).built_from(*chunk),
            r is Err ==> r == Err::<(), VoxelError>(VoxelError::IndexOverflow) && *final(self)
                == *old(self),
    {
        match build_chunk_mesh(chunk) {
            Ok(m) => {
                *self = m;
                Ok(())
            },
            Err(e) => Err(e),
        }
    }
}

/// Builds the mesh of a chunk: its exposed faces, their quads, and the
/// buffers those flatten to.
pub fn build_chunk_mesh(chunk: &Chunk) -> (r: Result<ChunkMesh, VoxelError>)
    requires
        chunk.wf(),
    ensures
        r is Err <==> mesh_overflows(chunk_quads(*chunk).len() as int),
        r is Err ==> r == Err::<ChunkMesh, VoxelError>(VoxelError::IndexOverflow),
        r matches Ok(m) ==> m.built_from(*chunk),
{
    let quads = build_quads(chunk);
    match assemble_mesh(&quads) {
        Ok((vertices, indices)) => {
            proof {
                lemma_mesh_invariant(quads@);
            }
            let num_indices = indices.len() as u16;
            Ok(ChunkMesh { vertices, indices, num_indices, stale: false })
        },
        Err(e) => Err(e),
    }
}

/// Rebuilding is idempotent: two meshes built from the same voxels hold the
/// same vertex and index sequences.
pub proof fn lemma_rebuild_idempotent(chunk: Chunk, a: ChunkMesh, b: ChunkMesh)
    requires
        a.built_from(chunk),
        b.built_from(chunk),
    ensures
        a.vertices@ == b.vertices@,
        a.indices@ == b.indices@,
        a.num_indices == b.num_indices,
{
}

} // verus!
