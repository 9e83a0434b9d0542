use voxel_mesh::chunk::{Chunk, CHUNK_SIZE};
use voxel_mesh::error::VoxelError;
use voxel_mesh::mesh::{assemble_mesh, build_chunk_mesh, build_quads, ChunkMesh, Vertex};
use voxel_mesh::quad::{Color, Direction, Point, Quad};
use voxel_mesh::voxel::{BlockType, Voxel};

fn at(x: usize, y: usize, z: usize) -> usize {
    x + y * CHUNK_SIZE + z * CHUNK_SIZE * CHUNK_SIZE
}

fn p(x: i64, y: i64, z: i64) -> Point {
    Point { x, y, z }
}

fn check_buffers(m: &ChunkMesh, quads: usize) {
    assert_eq!(m.vertices.len(), 4 * quads);
    assert_eq!(m.indices.len(), 6 * quads);
    assert_eq!(m.num_indices as usize, 6 * quads);
    assert!(m.indices.iter().all(|&i| (i as usize) < m.vertices.len()));
}

#[test]
fn quad_corners_follow_direction_tables() {
    let c = p(3, 5, 7);
    let q = Quad::new(Direction::Left, c);
    assert_eq!(q.corners, [p(2, 4, 6), p(2, 4, 8), p(2, 6, 8), p(2, 6, 6)]);
    assert_eq!(q.direction, Direction::Left);
    let q = Quad::new(Direction::Right, c);
    assert_eq!(q.corners, [p(4, 4, 6), p(4, 6, 6), p(4, 6, 8), p(4, 4, 8)]);
    let q = Quad::new(Direction::Down, c);
    assert_eq!(q.corners, [p(2, 4, 6), p(4, 4, 6), p(4, 4, 8), p(2, 4, 8)]);
    let q = Quad::new(Direction::Up, c);
    assert_eq!(q.corners, [p(2, 6, 6), p(2, 6, 8), p(4, 6, 8), p(4, 6, 6)]);
    let q = Quad::new(Direction::Back, c);
    assert_eq!(q.corners, [p(2, 4, 6), p(2, 6, 6), p(4, 6, 6), p(4, 4, 6)]);
    let q = Quad::new(Direction::Forward, c);
    assert_eq!(q.corners, [p(2, 4, 8), p(4, 4, 8), p(4, 6, 8), p(2, 6, 8)]);
    assert_eq!(q.color, Color { r: 20, g: 200, b: 20 });
}

#[test]
fn directions_have_opposites_and_normals() {
    assert_eq!(Direction::Left.opposite(), Direction::Right);
    assert_eq!(Direction::Up.opposite(), Direction::Down);
    assert_eq!(Direction::Forward.opposite(), Direction::Back);
    assert_eq!(Direction::Left.normal(), (-1, 0, 0));
    assert_eq!(Direction::Up.normal(), (0, 1, 0));
    assert_eq!(Direction::Back.normal(), (0, 0, -1));
    assert_eq!(Direction::from_index(3), Direction::Up);
}

#[test]
fn single_voxel_mesh_has_six_quads() {
    let mut c = Chunk::new();
    c.voxels[at(0, 0, 0)].set_block_type(BlockType::Grass);
    let m = build_chunk_mesh(&c).unwrap();
    check_buffers(&m, 6);
    assert_eq!(m.vertices.len(), 24);
    assert_eq!(m.indices.len(), 36);
    assert!(!m.stale);
    // the Left face of the voxel centred at (1, 1, 1) in half-voxel units
    let green = Color { r: 20, g: 170, b: 20 };
    assert_eq!(m.vertices[0], Vertex { position: p(0, 0, 0), color: green });
    assert_eq!(m.vertices[1], Vertex { position: p(0, 0, 2), color: green });
    assert_eq!(m.vertices[2], Vertex { position: p(0, 2, 2), color: green });
    assert_eq!(m.vertices[3], Vertex { position: p(0, 2, 0), color: green });
}

#[test]
fn index_pattern_uses_running_base() {
    let mut c = Chunk::new();
    c.voxels[at(0, 0, 0)].set_block_type(BlockType::Grass);
    let m = build_chunk_mesh(&c).unwrap();
    assert_eq!(&m.indices[0..12], &[0, 1, 3, 1, 2, 3, 4, 5, 7, 5, 6, 7]);
    assert_eq!(&m.indices[30..36], &[20, 21, 23, 21, 22, 23]);
}

#[test]
fn adjacent_voxels_mesh_has_ten_quads() {
    let mut c = Chunk::new();
    c.voxels[at(0, 0, 0)].set_block_type(BlockType::Grass);
    c.voxels[at(1, 0, 0)].set_block_type(BlockType::Grass);
    let m = build_chunk_mesh(&c).unwrap();
    check_buffers(&m, 10);
}

#[test]
fn full_chunk_mesh_has_surface_quads_only() {
    let mut c = Chunk::new();
    for v in c.voxels.iter_mut() {
        v.set_block_type(BlockType::Grass);
    }
    let m = build_chunk_mesh(&c).unwrap();
    check_buffers(&m, 6 * 16 * 16);
    assert_eq!(m.vertices.len(), 6144);
    assert_eq!(m.indices.len(), 9216);
}

#[test]
fn checkerboard_chunk_overflows_index_range() {
    let mut c = Chunk::new();
    for z in 0..16 {
        for y in 0..16 {
            for x in 0..16 {
                if (x + y + z) % 2 == 0 {
                    c.voxels[at(x, y, z)].set_block_type(BlockType::Grass);
                }
            }
        }
    }
    assert_eq!(build_quads(&c).len(), 2048 * 6);
    assert!(matches!(build_chunk_mesh(&c), Err(VoxelError::IndexOverflow)));
    let mut m = ChunkMesh::new();
    assert_eq!(m.rebuild(&c), Err(VoxelError::IndexOverflow));
    assert!(m.stale);
    assert!(m.vertices.is_empty());
}

#[test]
fn assemble_mesh_limit() {
    let q = Quad::new(Direction::Up, p(1, 1, 1));
    let fits = vec![q; 10922];
    let (v, i) = assemble_mesh(&fits).unwrap();
    assert_eq!(v.len(), 43688);
    assert_eq!(i.len(), 65532);
    assert_eq!(i[65531], 43687);
    let over = vec![q; 10923];
    assert!(matches!(assemble_mesh(&over), Err(VoxelError::IndexOverflow)));
    let (v, i) = assemble_mesh(&Vec::new()).unwrap();
    assert!(v.is_empty() && i.is_empty());
}

#[test]
fn rebuild_twice_gives_identical_buffers() {
    let mut c = Chunk::new();
    for (k, v) in c.voxels.iter_mut().enumerate() {
        if k % 7 == 0 || k % 11 == 3 {
            v.set_block_type(BlockType::Grass);
        }
    }
    let mut m = ChunkMesh::new();
    assert!(m.stale);
    assert_eq!(m.rebuild(&c), Ok(()));
    let (v1, i1) = (m.vertices.clone(), m.indices.clone());
    assert!(!m.stale);
    assert_eq!(m.rebuild(&c), Ok(()));
    assert_eq!(m.vertices, v1);
    assert_eq!(m.indices, i1);
    assert_eq!(m.num_indices as usize, i1.len());
    assert!(m.indices.iter().all(|&i| (i as usize) < m.vertices.len()));
}

#[test]
fn invalidate_marks_stale_and_keeps_buffers() {
    let mut c = Chunk::new();
    c.voxels[at(4, 4, 4)].set_block_type(BlockType::Grass);
    let mut m = ChunkMesh::new();
    m.rebuild(&c).unwrap();
    m.invalidate();
    assert!(m.stale);
    assert_eq!(m.vertices.len(), 24);
    c.voxels[at(5, 4, 4)].set_block_type(BlockType::Grass);
    m.rebuild(&c).unwrap();
    assert!(!m.stale);
    check_buffers(&m, 10);
}

#[test]
fn mesh_positions_follow_world_origin() {
    let mut c = Chunk::new();
    c.world_origin = p(16, -16, 32);
    c.voxels[at(0, 0, 0)].set_block_type(BlockType::Grass);
    let m = build_chunk_mesh(&c).unwrap();
    // the Left face's first corner is the voxel's minimum corner: 2 * origin
    assert_eq!(m.vertices[0].position, p(32, -32, 64));
}

#[test]
fn cube_index_buffer_is_the_fixed_table() {
    let v = Voxel::new_empty();
    let b = v.get_index_buffer();
    assert_eq!(b.len(), 36);
    assert_eq!(&b[0..6], &[0, 1, 3, 1, 2, 3]);
    assert_eq!(&b[30..36], &[7, 6, 4, 6, 5, 4]);
    assert!(b.iter().all(|&i| i < 8));
}

#[test]
fn cube_vertices_are_the_eight_corners() {
    let c = Voxel::get_vertex(1, 2, 3, 0).unwrap();
    assert_eq!(c.position, p(2, 4, 6));
    assert_eq!(c.color, Color { r: 77, g: 77, b: 77 });
    assert_eq!(Voxel::get_vertex(1, 2, 3, 2).unwrap().position, p(4, 6, 6));
    assert_eq!(Voxel::get_vertex(1, 2, 3, 7).unwrap().position, p(2, 6, 8));
    assert_eq!(Voxel::get_vertex(1, 2, 3, 8), None);
}

#[test]
fn every_face_color_is_grass_green() {
    let dirs = [
        Direction::Left,
        Direction::Right,
        Direction::Down,
        Direction::Up,
        Direction::Back,
        Direction::Forward,
    ];
    for d in dirs.iter() {
        let c = Quad::new(*d, p(1, 1, 1)).color;
        assert!(c.r <= 25 && c.b <= 25, "{:?}", d);
        assert!(c.g >= 153, "{:?}", d);
        assert_eq!(c, d.face_color());
    }
    assert_eq!(Direction::Down.face_color(), Color { r: 10, g: 160, b: 10 });
    assert_eq!(Direction::Back.face_color(), Color { r: 15, g: 155, b: 15 });
}
