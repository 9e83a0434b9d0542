use voxel_mesh::chunk::{cell_world_position, Chunk, Face, CHUNK_SIZE, CHUNK_VOLUME};
use voxel_mesh::error::VoxelError;
use voxel_mesh::quad::{Direction, Point};
use voxel_mesh::voxel::{classify, BlockType, Voxel};

fn at(x: usize, y: usize, z: usize) -> usize {
    x + y * CHUNK_SIZE + z * CHUNK_SIZE * CHUNK_SIZE
}

#[test]
fn new_chunk_is_all_empty() {
    let c = Chunk::new();
    assert_eq!(c.voxels.len(), CHUNK_VOLUME);
    assert!(c.voxels.iter().all(|v| v.block_type == BlockType::Empty));
    assert_eq!(c.world_origin, Point { x: 0, y: 0, z: 0 });
}

#[test]
fn get_single_axis_out_of_range_is_out_of_bounds() {
    let c = Chunk::new();
    assert_eq!(c.get(16, 0, 0), Err(VoxelError::OutOfBounds));
    assert_eq!(c.get(0, 16, 0), Err(VoxelError::OutOfBounds));
    assert_eq!(c.get(0, 0, 16), Err(VoxelError::OutOfBounds));
    assert_eq!(c.get(-1, 5, 5), Err(VoxelError::OutOfBounds));
    assert_eq!(c.get(5, -1, 5), Err(VoxelError::OutOfBounds));
    assert_eq!(c.get(5, 5, -1), Err(VoxelError::OutOfBounds));
    assert_eq!(c.get(-1, -1, -1), Err(VoxelError::OutOfBounds));
}

#[test]
fn get_in_range_is_distinct_from_out_of_bounds() {
    let mut c = Chunk::new();
    c.voxels[at(15, 0, 7)].set_block_type(BlockType::Grass);
    assert_eq!(c.get(15, 0, 7), Ok(Voxel { block_type: BlockType::Grass }));
    assert_eq!(c.get(0, 0, 0), Ok(Voxel::new_empty()));
    assert_eq!(c.get(15, 15, 15), Ok(Voxel::new_empty()));
}

#[test]
fn get_voxel_rejects_any_axis_out_of_range() {
    let mut c = Chunk::new();
    c.voxels[at(3, 4, 5)].set_block_type(BlockType::Grass);
    assert_eq!(c.get_voxel(16, 0, 0), None);
    assert_eq!(c.get_voxel(0, 16, 0), None);
    assert_eq!(c.get_voxel(0, 0, 16), None);
    assert_eq!(c.get_voxel(3, 4, 5), Some(Voxel { block_type: BlockType::Grass }));
    assert_eq!(c.get_voxel(5, 4, 3), Some(Voxel::new_empty()));
}

#[test]
fn classify_threshold_is_strict() {
    assert_eq!(classify(0.3f64.to_bits()), Ok(BlockType::Empty));
    let just_above = f64::from_bits(0.3f64.to_bits() + 1);
    assert!(just_above > 0.3);
    assert_eq!(classify(just_above.to_bits()), Ok(BlockType::Grass));
    assert_eq!(classify(0.29f64.to_bits()), Ok(BlockType::Empty));
    assert_eq!(classify(0.9f64.to_bits()), Ok(BlockType::Grass));
    assert_eq!(classify(1.0e300f64.to_bits()), Ok(BlockType::Grass));
    assert_eq!(classify(0.0f64.to_bits()), Ok(BlockType::Empty));
    assert_eq!(classify((-0.0f64).to_bits()), Ok(BlockType::Empty));
    assert_eq!(classify((-0.9f64).to_bits()), Ok(BlockType::Empty));
}

#[test]
fn classify_refuses_non_finite_density() {
    assert_eq!(classify(f64::NAN.to_bits()), Err(VoxelError::NoiseDomainError));
    assert_eq!(classify(f64::INFINITY.to_bits()), Err(VoxelError::NoiseDomainError));
    assert_eq!(classify(f64::NEG_INFINITY.to_bits()), Err(VoxelError::NoiseDomainError));
    assert_eq!(classify(f64::MAX.to_bits()), Ok(BlockType::Grass));
}

#[test]
fn build_voxels_from_stub_sampler() {
    let origin = Point { x: -32, y: 16, z: 0 };
    let densities: Vec<u64> = (0..CHUNK_VOLUME)
        .map(|i| {
            let p = cell_world_position(origin, i);
            // a plane: solid below world height 20, exactly the threshold at 20
            let d = 0.3 + (20 - p.y) as f64 * 0.05;
            let d = if p.y == 20 { 0.3 } else { d };
            d.to_bits()
        })
        .collect();
    let mut c = Chunk::new();
    assert_eq!(c.build_voxels(origin, &densities), Ok(()));
    assert_eq!(c.world_origin, origin);
    for z in 0..16 {
        for y in 0..16 {
            for x in 0..16 {
                let expected = if 16 + (y as i64) < 20 { BlockType::Grass } else { BlockType::Empty };
                assert_eq!(c.voxels[at(x, y, z)].block_type, expected);
            }
        }
    }
}

#[test]
fn build_voxels_threshold_density_gives_empty() {
    let mut c = Chunk::new();
    let densities = vec![0.3f64.to_bits(); CHUNK_VOLUME];
    assert_eq!(c.build_voxels(Point { x: 0, y: 0, z: 0 }, &densities), Ok(()));
    assert!(c.voxels.iter().all(|v| v.block_type == BlockType::Empty));
    let densities = vec![0.5f64.to_bits(); CHUNK_VOLUME];
    assert_eq!(c.build_voxels(Point { x: 0, y: 0, z: 0 }, &densities), Ok(()));
    assert!(c.voxels.iter().all(|v| v.block_type == BlockType::Grass));
}

#[test]
fn build_voxels_refuses_nan_and_keeps_chunk() {
    let mut c = Chunk::new();
    c.voxels[at(1, 2, 3)].set_block_type(BlockType::Grass);
    let mut densities = vec![0.9f64.to_bits(); CHUNK_VOLUME];
    densities[4000] = f64::NAN.to_bits();
    let origin = Point { x: 16, y: 16, z: 16 };
    assert_eq!(c.build_voxels(origin, &densities), Err(VoxelError::NoiseDomainError));
    assert_eq!(c.world_origin, Point { x: 0, y: 0, z: 0 });
    assert_eq!(c.voxels[at(1, 2, 3)].block_type, BlockType::Grass);
    assert_eq!(c.voxels[at(0, 0, 0)].block_type, BlockType::Empty);
}

#[test]
fn cell_world_position_follows_flat_order() {
    let o = Point { x: 10, y: 20, z: 30 };
    assert_eq!(cell_world_position(o, 0), Point { x: 10, y: 20, z: 30 });
    assert_eq!(cell_world_position(o, 1), Point { x: 11, y: 20, z: 30 });
    assert_eq!(cell_world_position(o, 16), Point { x: 10, y: 21, z: 30 });
    assert_eq!(cell_world_position(o, 256), Point { x: 10, y: 20, z: 31 });
    assert_eq!(cell_world_position(o, 4095), Point { x: 25, y: 35, z: 45 });
}

#[test]
fn isolated_voxel_exposes_all_six_faces() {
    let mut c = Chunk::new();
    c.voxels[at(0, 0, 0)].set_block_type(BlockType::Grass);
    let faces = c.exposed_faces();
    let dirs = [
        Direction::Left,
        Direction::Right,
        Direction::Down,
        Direction::Up,
        Direction::Back,
        Direction::Forward,
    ];
    assert_eq!(faces.len(), 6);
    for (f, d) in faces.iter().zip(dirs.iter()) {
        assert_eq!(*f, Face { x: 0, y: 0, z: 0, direction: *d });
    }
}

#[test]
fn adjacent_voxels_hide_shared_face() {
    let mut c = Chunk::new();
    c.voxels[at(0, 0, 0)].set_block_type(BlockType::Grass);
    c.voxels[at(1, 0, 0)].set_block_type(BlockType::Grass);
    let faces = c.exposed_faces();
    assert_eq!(faces.len(), 10);
    assert!(!faces.contains(&Face { x: 0, y: 0, z: 0, direction: Direction::Right }));
    assert!(!faces.contains(&Face { x: 1, y: 0, z: 0, direction: Direction::Left }));
    assert!(!c.is_face_exposed(0, 0, 0, Direction::Right));
    assert!(!c.is_face_exposed(1, 0, 0, Direction::Left));
    assert!(c.is_face_exposed(0, 0, 0, Direction::Left));
    assert!(c.is_face_exposed(1, 0, 0, Direction::Right));
}

#[test]
fn empty_voxels_expose_nothing() {
    let mut c = Chunk::new();
    assert!(c.exposed_faces().is_empty());
    c.voxels[at(8, 8, 8)].set_block_type(BlockType::Grass);
    assert!(!c.is_face_exposed(8, 9, 8, Direction::Down));
    assert!(!c.is_face_exposed(7, 8, 8, Direction::Right));
    let faces = c.exposed_faces();
    assert_eq!(faces.len(), 6);
    assert!(faces.iter().all(|f| (f.x, f.y, f.z) == (8, 8, 8)));
}

#[test]
fn full_chunk_exposes_only_its_surface() {
    let mut c = Chunk::new();
    for v in c.voxels.iter_mut() {
        v.set_block_type(BlockType::Grass);
    }
    let faces = c.exposed_faces();
    assert_eq!(faces.len(), 6 * CHUNK_SIZE * CHUNK_SIZE);
    let distinct: std::collections::HashSet<(usize, usize, usize, usize)> = faces
        .iter()
        .map(|f| (f.x, f.y, f.z, f.direction as usize))
        .collect();
    assert_eq!(distinct.len(), faces.len());
    for f in faces.iter() {
        let on_surface = match f.direction {
            Direction::Left => f.x == 0,
            Direction::Right => f.x == 15,
            Direction::Down => f.y == 0,
            Direction::Up => f.y == 15,
            Direction::Back => f.z == 0,
            Direction::Forward => f.z == 15,
        };
        assert!(on_surface);
    }
}
