use vstd::prelude::*;

use crate::chunk::{
    cell_index, cell_x, cell_y, cell_z, direction_index, in_bounds, lemma_cell_coords,
    lemma_cell_index, lemma_faces_from_solid_voxels, Chunk, Face, CHUNK_VOLUME,
};
use crate::quad::{direction_at, normal_spec};
use crate::voxel::BlockType;

verus! {

/// Position of a face in the order in which faces are listed: its cell's
/// flat place, then its direction.
pub open spec fn face_key(f: Face) -> int {
    6 * cell_index(f.x as int, f.y as int, f.z as int) + direction_index(f.direction)
}

/// The keys of `s` strictly increase.
pub open spec fn keys_increasing(s: Seq<Face>) -> bool {
    forall|j1: int, j2: int|
        0 <= j1 < j2 < s.len() ==> #[trigger] face_key(s[j1]) < #[trigger] face_key(s[j2])
}

proof fn lemma_cell_faces_keys(c: Chunk, i: int, k: int)
    requires
        c.wf(),
        0 <= i < CHUNK_VOLUME,
        0 <= k <= 6,
    ensures
        keys_increasing(c.cell_faces(i, k)),
        forall|j: int|
            0 <= j < c.cell_faces(i, k).len() ==> 6 * i <= #[trigger] face_key(c.cell_faces(i, k)[j])
                < 6 * i + k,
    decreases k,
{
    lemma_cell_index(i);
    if k > 0 {
        lemma_cell_faces_keys(c, i, k - 1);
        let d = direction_at(k - 1);
        assert(direction_index(d) == k - 1);
        let prev = c.cell_faces(i, k - 1);
        let s = c.cell_faces(i, k);
        assert forall|j: int| 0 <= j < s.len() implies 6 * i <= #[trigger] face_key(s[j]) < 6 * i
            + k by {
            if j < prev.len() {
                assert(s[j] == prev[j]);
            }
        }
        assert forall|j1: int, j2: int| 0 <= j1 < j2 < s.len() implies #[trigger] face_key(s[j1])
            < #[trigger] face_key(s[j2]) by {
            assert(s[j1] == prev[j1]);
            if j2 < prev.len() {
                assert(s[j2] == prev[j2]);
            }
        }
    }
}

proof fn lemma_faces_upto_keys(c: Chunk, n: int)
    requires
        c.wf(),
        0 <= n <= CHUNK_VOLUME,
    ensures
        keys_increasing(c.faces_upto(n)),
        forall|j: int| 0 <= j < c.faces_upto(n).len() ==> #[trigger] face_key(c.faces_upto(n)[j]) < 6 * n,
    decreases n,
{
    if n > 0 {
        lemma_faces_upto_keys(c, n - 1);
        lemma_cell_faces_keys(c, n - 1, 6);
        let prev = c.faces_upto(n - 1);
        let cur = c.cell_faces(n - 1, 6);
        let s = c.faces_upto(n);
        assert forall|j: int| 0 <= j < s.len() implies #[trigger] face_key(s[j]) < 6 * n by {
            if j < prev.len() {
                assert(s[j] == prev[j]);
            } else {
                assert(s[j] == cur[j - prev.len()]);
            }
        }
        assert forall|j1: int, j2: int| 0 <= j1 < j2 < s.len() implies #[trigger] face_key(s[j1])
            < #[trigger] face_key(s[j2]) by {
            if j2 < prev.len() {
                assert(s[j1] == prev[j1]);
                assert(s[j2] == prev[j2]);
            } else if j1 < prev.len() {
                assert(s[j1] == prev[j1]);
                assert(s[j2] == cur[j2 - prev.len()]);
            } else {
                assert(s[j1] == cur[j1 - prev.len()]);
                assert(s[j2] == cur[j2 - prev.len()]);
            }
        }
    }
}

/// No face is listed twice.
pub proof fn lemma_exposed_faces_distinct(c: Chunk)
    requires
        c.wf(),
    ensures
        forall|j1: int, j2: int|
            0 <= j1 < j2 < c.exposed_faces_spec().len() ==> #[trigger] c.exposed_faces_spec()[j1]
                != #[trigger] c.exposed_faces_spec()[j2],
{
    lemma_faces_upto_keys(c, CHUNK_VOLUME as int);
    let s = c.exposed_faces_spec();
    assert forall|j1: int, j2: int| 0 <= j1 < j2 < s.len() implies #[trigger] s[j1]
        != #[trigger] s[j2] by {
        assert(face_key(s[j1]) < face_key(s[j2]));
    }
}

/// Every voxel of the chunk is solid.
pub open spec fn fully_solid(c: Chunk) -> bool {
    forall|i: int| 0 <= i < CHUNK_VOLUME ==> (#[trigger] c.voxels@[i]).block_type != BlockType::Empty
}

/// Number of a cell's faces on the chunk's surface along one axis.
pub open spec fn edge_count(t: int) -> int {
    if t == 0 || t == 15 {
        1
    } else {
        0
    }
}

/// Sum of `edge_count(t)` over `t < m`, for `m <= 16`.
pub open spec fn edge_prefix(m: int) -> int {
    if m <= 0 {
        0
    } else if m <= 15 {
        1
    } else {
        2
    }
}

/// Number of surface faces of a fully solid chunk among the cells before
/// `(x, y, z)` in flat order.
pub open spec fn surface_prefix(x: int, y: int, z: int) -> int {
    64 * z + 256 * edge_prefix(z) + 2 * y + 16 * edge_prefix(y) + (if edge_count(z) == 1 {
        16 * y
    } else {
        0
    }) + edge_prefix(x) + (if edge_count(y) == 1 {
        x
    } else {
        0
    }) + (if edge_count(z) == 1 {
        x
    } else {
        0
    })
}

proof fn lemma_full_solid_at(c: Chunk, x: int, y: int, z: int)
    requires
        c.wf(),
        fully_solid(c),
    ensures
        c.solid_at(x, y, z) == in_bounds(x, y, z),
{
    if in_bounds(x, y, z) {
        lemma_cell_coords(x, y, z);
        assert(c.voxels@[cell_index(x, y, z)].block_type != BlockType::Empty);
    }
}

proof fn lemma_full_cell_count(c: Chunk, i: int)
    requires
        c.wf(),
        fully_solid(c),
        0 <= i < CHUNK_VOLUME,
    ensures
        c.cell_faces(i, 6).len() == edge_count(cell_x(i)) + edge_count(cell_y(i)) + edge_count(
            cell_z(i),
        ),
{
    lemma_cell_index(i);
    let x = cell_x(i);
    let y = cell_y(i);
    let z = cell_z(i);
    lemma_full_solid_at(c, x, y, z);
    lemma_full_solid_at(c, x - 1, y, z);
    lemma_full_solid_at(c, x + 1, y, z);
    lemma_full_solid_at(c, x, y - 1, z);
    lemma_full_solid_at(c, x, y + 1, z);
    lemma_full_solid_at(c, x, y, z - 1);
    lemma_full_solid_at(c, x, y, z + 1);
    assert(c.cell_faces(i, 0).len() == 0);
    assert(c.cell_faces(i, 1).len() == (if x == 0 { 1int } else { 0 }));
    assert(c.cell_faces(i, 2).len() == edge_count(x));
    assert(c.cell_faces(i, 3).len() == edge_count(x) + (if y == 0 { 1int } else { 0 }));
    assert(c.cell_faces(i, 4).len() == edge_count(x) + edge_count(y));
    assert(c.cell_faces(i, 5).len() == edge_count(x) + edge_count(y) + (if z == 0 { 1int } else { 0 }));
}

proof fn lemma_full_prefix_count(c: Chunk, n: int)
    requires
        c.wf(),
        fully_solid(c),
        0 <= n < CHUNK_VOLUME,
    ensures
        c.faces_upto(n).len() == surface_prefix(cell_x(n), cell_y(n), cell_z(n)),
    decreases n,
{
    lemma_cell_index(n);
    if n > 0 {
        let m = n - 1;
        lemma_full_prefix_count(c, m);
        lemma_full_cell_count(c, m);
        lemma_cell_index(m);
        let (x, y, z) = (cell_x(m), cell_y(m), cell_z(m));
        let (x2, y2, z2) = (cell_x(n), cell_y(n), cell_z(n));
        assert(if x < 15 {
            x2 == x + 1 && y2 == y && z2 == z
        } else if y < 15 {
            x2 == 0 && y2 == y + 1 && z2 == z
        } else {
            x2 == 0 && y2 == 0 && z2 == z + 1
        }) by (nonlinear_arith)
            requires
                x + y * 16 + z * 256 + 1 == x2 + y2 * 16 + z2 * 256,
                0 <= x < 16,
                0 <= y < 16,
                0 <= z < 16,
                0 <= x2 < 16,
                0 <= y2 < 16,
                0 <= z2 < 16,
        ;
    } else {
        assert(cell_x(0) == 0 && cell_y(0) == 0 && cell_z(0) == 0);
    }
}

/// A fully solid chunk lists exactly its surface: `6 * 16 * 16` faces, each
/// once, each with its neighbour outside the chunk; no face between two
/// voxels is listed, and every face with its neighbour outside is.
pub proof fn lemma_full_chunk_surface(c: Chunk)
    requires
        c.wf(),
        fully_solid(c),
    ensures
        c.exposed_faces_spec().len() == 6 * 16 * 16,
        forall|j1: int, j2: int|
            0 <= j1 < j2 < c.exposed_faces_spec().len() ==> #[trigger] c.exposed_faces_spec()[j1]
                != #[trigger] c.exposed_faces_spec()[j2],
        forall|j: int|
            0 <= j < c.exposed_faces_spec().len() ==> {
                let f = #[trigger] c.exposed_faces_spec()[j];
                let n = normal_spec(f.direction);
                in_bounds(f.x as int, f.y as int, f.z as int) && !in_bounds(
                    f.x + n.0,
                    f.y + n.1,
                    f.z + n.2,
                )
            },
{
    let last = CHUNK_VOLUME - 1;
    lemma_full_prefix_count(c, last as int);
    lemma_full_cell_count(c, last as int);
    lemma_cell_index(last as int);
    assert(c.exposed_faces_spec() == c.faces_upto(last as int) + c.cell_faces(last as int, 6));
    lemma_exposed_faces_distinct(c);
    lemma_faces_from_solid_voxels(c);
    let s = c.exposed_faces_spec();
    assert forall|j: int| 0 <= j < s.len() implies {
        let f = #[trigger] s[j];
        let n = normal_spec(f.direction);
        in_bounds(f.x as int, f.y as int, f.z as int) && !in_bounds(f.x + n.0, f.y + n.1, f.z + n.2)
    } by {
        let f = s[j];
        let n = normal_spec(f.direction);
        lemma_full_solid_at(c, f.x + n.0, f.y + n.1, f.z + n.2);
    }
}

} // verus!
