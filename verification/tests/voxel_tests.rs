use unnamed_engine::simulation::chunk::{ChunkManager, ChunkPos};
use unnamed_engine::simulation::voxel::{VoxelDescritpion, VoxelManager, VoxelState};
use unnamed_engine::voxel::{Chunk, ChunkVoxelPosition, Color, CHUNK_SIZE, CHUNK_VOLUME, PALETTE_SIZE};

fn test_chunk() -> Chunk {
    Chunk::new(
        vec![Color { r: 0, g: 0, b: 0, a: 255 }; PALETTE_SIZE],
        vec![0u8; CHUNK_VOLUME],
    )
}

#[test]
fn set_then_get_round_trips() {
    let mut chunk = test_chunk();
    chunk.set(1, 2, 3, 9);
    chunk.set(31, 0, 31, 4);
    assert_eq!(chunk.get(1, 2, 3), 9);
    assert_eq!(chunk.get(31, 0, 31), 4);
    assert_eq!(chunk.get(3, 2, 1), 0);
}

#[test]
fn get_1d_is_row_major_with_x_slowest() {
    assert_eq!(ChunkVoxelPosition { x: 0, y: 0, z: 0 }.get_1d(), 0);
    assert_eq!(ChunkVoxelPosition { x: 0, y: 0, z: 1 }.get_1d(), 1);
    assert_eq!(ChunkVoxelPosition { x: 0, y: 1, z: 0 }.get_1d(), CHUNK_SIZE);
    assert_eq!(ChunkVoxelPosition { x: 1, y: 0, z: 0 }.get_1d(), CHUNK_SIZE * CHUNK_SIZE);
    assert_eq!(
        ChunkVoxelPosition { x: 31, y: 31, z: 31 }.get_1d(),
        CHUNK_VOLUME - 1
    );
}

#[test]
fn iterator_walks_the_whole_chunk_with_y_fastest() {
    let mut chunk = test_chunk();
    chunk.set(0, 1, 0, 5);
    let mut it = chunk.iter();

    let (first_pos, first_val) = it.next().unwrap();
    assert_eq!((first_pos.x, first_pos.y, first_pos.z), (0, 0, 0));
    assert_eq!(first_val, 0);

    let (second_pos, second_val) = it.next().unwrap();
    assert_eq!((second_pos.x, second_pos.y, second_pos.z), (0, 1, 0));
    assert_eq!(second_val, 5);

    let mut count = 2usize;
    while it.next().is_some() {
        count += 1;
    }
    assert_eq!(count, CHUNK_VOLUME);
}

#[test]
fn default_chunk_is_empty_with_full_palette() {
    let chunk = Chunk::default();
    assert_eq!(chunk.voxels.len(), CHUNK_VOLUME);
    assert_eq!(chunk.palette.len(), PALETTE_SIZE);
    assert!(chunk.voxels.iter().all(|v| *v == 0));
}

#[test]
fn voxel_manager_starts_with_the_void_kind() {
    let manager = VoxelManager::new();
    let void = manager.get_voxel(1).unwrap();
    assert_eq!(void.id, 1);
    assert_eq!(void.desc.name, "Void");
    assert!(matches!(void.desc.state, VoxelState::Empty));
    assert!(manager.get_voxel(0).is_none());
    assert!(manager.get_voxel(2).is_none());
}

#[test]
fn registered_voxels_get_sequential_identifiers() {
    let mut manager = VoxelManager::new();
    manager.register_voxel(VoxelDescritpion {
        name: "Stone".to_string(),
        state: VoxelState::Solid,
    });
    manager.register_voxel(VoxelDescritpion {
        name: "Water".to_string(),
        state: VoxelState::Liquid,
    });
    let stone = manager.get_voxel(2).unwrap();
    assert_eq!(stone.id, 2);
    assert_eq!(stone.desc.name, "Stone");
    let water = manager.get_voxel(3).unwrap();
    assert_eq!(water.id, 3);
    assert!(matches!(water.desc.state, VoxelState::Liquid));
    assert!(manager.get_voxel(4).is_none());
}

#[test]
fn chunk_manager_stores_and_finds_chunks_by_position() {
    let mut manager = ChunkManager::new();
    let here = ChunkPos { x: 1, y: 2, z: 3 };
    let there = ChunkPos { x: 7, y: 0, z: 0 };
    manager.create_chunk(here);
    manager.create_chunk(there);

    let chunk = manager.get_chunk(here).unwrap();
    assert_eq!(chunk.position, here);
    assert!(chunk.voxels.iter().all(|v| *v == 1));
    assert!(manager.get_chunk(ChunkPos { x: 9, y: 9, z: 9 }).is_none());
}

#[test]
fn creating_a_chunk_twice_replaces_it_in_place() {
    let mut manager = ChunkManager::new();
    let pos = ChunkPos { x: 4, y: 4, z: 4 };
    manager.create_chunk(pos);
    manager.create_chunk(pos);
    assert!(manager.get_chunk(pos).is_some());
}
