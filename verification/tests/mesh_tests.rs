use unnamed_engine::rendering::{build_mesh, ChunkMesh, Vertex};
use unnamed_engine::voxel::{Chunk, Color, CHUNK_VOLUME, PALETTE_SIZE};

fn cube_volume(size: u32, fill: u8) -> Vec<u8> {
    vec![fill; (size * size * size) as usize]
}

#[test]
fn four_cubed_all_solid_has_512_vertices_and_2304_indices() {
    let voxels = cube_volume(4, 1);
    let mesh = build_mesh(&voxels, 4);
    assert_eq!(mesh.vertices.len(), 512);
    assert_eq!(mesh.indices.len(), 2304);
    assert_eq!(mesh.index_count, 2304);
}

#[test]
fn vertex_and_index_counts_follow_solid_cell_count() {
    // 3x3x3 with 5 solid cells scattered through the volume.
    let mut voxels = cube_volume(3, 0);
    for slot in [0usize, 4, 13, 20, 26] {
        voxels[slot] = 7;
    }
    let mesh = build_mesh(&voxels, 3);
    assert_eq!(mesh.vertices.len(), 5 * 8);
    assert_eq!(mesh.indices.len(), 5 * 36);
}

#[test]
fn empty_volume_produces_empty_mesh() {
    let voxels = cube_volume(4, 0);
    let mesh = build_mesh(&voxels, 4);
    assert_eq!(mesh.vertices.len(), 0);
    assert_eq!(mesh.indices.len(), 0);
    assert_eq!(mesh.index_count, 0);
}

#[test]
fn single_cell_cube_has_unit_corners_and_triangle_pattern() {
    let voxels = vec![9u8];
    let mesh = build_mesh(&voxels, 1);
    assert_eq!(mesh.vertices.len(), 8);
    let corners: Vec<(u32, u32, u32)> = mesh.vertices.iter().map(|v| (v.x, v.y, v.z)).collect();
    assert_eq!(
        corners,
        vec![
            (0, 0, 1),
            (1, 0, 1),
            (0, 1, 1),
            (1, 1, 1),
            (0, 0, 0),
            (1, 0, 0),
            (0, 1, 0),
            (1, 1, 0),
        ]
    );
    assert_eq!(
        mesh.indices,
        vec![
            0u32, 1, 2, 2, 1, 3, 5, 4, 7, 7, 4, 6, 4, 0, 6, 6, 0, 2, 1, 5, 3, 3, 5, 7, 2, 3, 6,
            6, 3, 7, 4, 5, 0, 0, 5, 1,
        ]
    );
}

#[test]
fn second_cube_indices_are_offset_by_eight() {
    // 2x2x2 volume with exactly two solid cells, at slots 0 and 5.
    let mut voxels = cube_volume(2, 0);
    voxels[0] = 1;
    voxels[5] = 1;
    let mesh = build_mesh(&voxels, 2);
    assert_eq!(mesh.vertices.len(), 16);
    assert_eq!(mesh.indices.len(), 72);
    for k in 0..36 {
        assert_eq!(mesh.indices[36 + k], mesh.indices[k] + 8);
    }
    // Slot 5 in a 2x2x2 volume is cell (1, 0, 1).
    let v: &Vertex = &mesh.vertices[8];
    assert_eq!((v.x, v.y, v.z), (1, 0, 2));
}

#[test]
fn cube_vertices_are_translated_to_the_cell() {
    // 3x3x3 with one solid cell at (2, 1, 0): slot 2*9 + 1*3 + 0 = 21.
    let mut voxels = cube_volume(3, 0);
    voxels[21] = 3;
    let mesh = build_mesh(&voxels, 3);
    assert_eq!(mesh.vertices.len(), 8);
    assert_eq!((mesh.vertices[0].x, mesh.vertices[0].y, mesh.vertices[0].z), (2, 1, 1));
    assert_eq!((mesh.vertices[7].x, mesh.vertices[7].y, mesh.vertices[7].z), (3, 2, 0));
}

#[test]
fn corner_colors_follow_the_fixed_pattern() {
    let voxels = vec![1u8];
    let mesh = build_mesh(&voxels, 1);
    let red = Color { r: 255, g: 0, b: 0, a: 255 };
    let green = Color { r: 0, g: 255, b: 0, a: 255 };
    let blue = Color { r: 0, g: 0, b: 255, a: 255 };
    let yellow = Color { r: 255, g: 255, b: 0, a: 255 };
    let cyan = Color { r: 0, g: 255, b: 255, a: 255 };
    let expected = [red, green, blue, yellow, cyan, yellow, red, blue];
    for (v, want) in mesh.vertices.iter().zip(expected.iter()) {
        assert_eq!(v.color, *want);
    }
}

#[test]
fn every_index_points_into_the_vertex_buffer() {
    let mut voxels = cube_volume(5, 0);
    for slot in (0..125).step_by(3) {
        voxels[slot] = 1;
    }
    let mesh = build_mesh(&voxels, 5);
    assert!(!mesh.indices.is_empty());
    for index in &mesh.indices {
        assert!((*index as usize) < mesh.vertices.len());
    }
}

#[test]
fn chunk_mesh_of_default_chunk_is_empty() {
    let chunk = Chunk::default();
    let mesh = ChunkMesh::new(&chunk);
    assert_eq!(mesh.vertices.len(), 0);
    assert_eq!(mesh.indices.len(), 0);
}

#[test]
fn chunk_mesh_counts_solid_cells_of_engine_chunk() {
    let mut chunk = Chunk::new(
        vec![Color { r: 0, g: 0, b: 0, a: 255 }; PALETTE_SIZE],
        vec![0u8; CHUNK_VOLUME],
    );
    chunk.set(0, 0, 0, 1);
    chunk.set(31, 31, 31, 2);
    chunk.set(5, 6, 7, 3);
    let mesh = ChunkMesh::new(&chunk);
    assert_eq!(mesh.vertices.len(), 3 * 8);
    assert_eq!(mesh.indices.len(), 3 * 36);
    assert_eq!(mesh.index_count, 108);
}

#[test]
fn full_engine_chunk_meshes_every_cell() {
    let chunk = Chunk::new(
        vec![Color { r: 10, g: 20, b: 30, a: 255 }; PALETTE_SIZE],
        vec![1u8; CHUNK_VOLUME],
    );
    let mesh = ChunkMesh::new(&chunk);
    assert_eq!(mesh.vertices.len(), CHUNK_VOLUME * 8);
    assert_eq!(mesh.indices.len(), CHUNK_VOLUME * 36);
}
