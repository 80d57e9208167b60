//! Conversion of a dense voxel volume into vertex and index buffers.
//!
//! Every cell whose palette index differs from the empty marker is emitted
//! as a unit cube: 8 vertices translated to the cell's coordinates and 12
//! triangles (36 index entries) offset by the running per-cube vertex
//! count. Cells are scanned in flat storage order. Buffers are rebuilt
//! wholesale on every content change; no partial update exists.

use vstd::prelude::*;
use vstd::arithmetic::div_mod::lemma_mod_multiples_vanish;
use crate::voxel::{Chunk, Color, VoxelIndex, CHUNK_SIZE};

verus! {

/// Largest supported edge length of a volume handed to the builder; keeps
/// every index entry within `u32`.
pub const MAX_MESH_SIZE: u32 = 256;

/// A mesh vertex: a corner of a unit cube on the cell lattice, with the
/// fixed per-corner color of the cube.
#[derive(Debug, Clone, Copy, PartialEq, Eq, Structural)]
pub struct Vertex {
    pub x: u32,
    pub y: u32,
    pub z: u32,
    pub color: Color,
}

/// Number of solid cells among the first `n` slots of the volume.
pub open spec fn solid_count_upto(voxels: Seq<u8>, n: int) -> int
    decreases n,
{
    if n <= 0 {
        0
    } else {
        solid_count_upto(voxels, n - 1) + if voxels[n - 1] != 0 {
            1int
        } else {
            0int
        }
    }
}

/// Number of solid cells in the whole volume.
pub open spec fn solid_count(voxels: Seq<u8>) -> int {
    solid_count_upto(voxels, voxels.len() as int)
}

/// The x coordinate of flat slot `i` in a volume of edge length `size`.
pub open spec fn cell_x(size: int, i: int) -> int {
    i / (size * size)
}

/// The y coordinate of flat slot `i`.
pub open spec fn cell_y(size: int, i: int) -> int {
    (i % (size * size)) / size
}

/// The z coordinate of flat slot `i`.
pub open spec fn cell_z(size: int, i: int) -> int {
    i % size
}

/// Corner `k` of the unit cube, as offsets in `{0, 1}` per axis, in the
/// fixed emission order.
pub open spec fn corner_dx(k: int) -> int {
    if k == 1 || k == 3 || k == 5 || k == 7 {
        1
    } else {
        0
    }
}

/// See [`corner_dx`].
pub open spec fn corner_dy(k: int) -> int {
    if k == 2 || k == 3 || k == 6 || k == 7 {
        1
    } else {
        0
    }
}

/// See [`corner_dx`]. Corners 0 to 3 lie on the far z face.
pub open spec fn corner_dz(k: int) -> int {
    if k <= 3 {
        1
    } else {
        0
    }
}

/// The fixed color of corner `k`.
pub open spec fn corner_color(k: int) -> Color {
    if k == 0 || k == 6 {
        Color { r: 255, g: 0, b: 0, a: 255 }
    } else if k == 1 {
        Color { r: 0, g: 255, b: 0, a: 255 }
    } else if k == 2 || k == 7 {
        Color { r: 0, g: 0, b: 255, a: 255 }
    } else if k == 3 || k == 5 {
        Color { r: 255, g: 255, b: 0, a: 255 }
    } else {
        Color { r: 0, g: 255, b: 255, a: 255 }
    }
}

/// Vertex `k` of the cube emitted for cell `(x, y, z)`.
pub open spec fn cube_vertex(x: int, y: int, z: int, k: int) -> Vertex {
    Vertex {
        x: (x + corner_dx(k)) as u32,
        y: (y + corner_dy(k)) as u32,
        z: (z + corner_dz(k)) as u32,
        color: corner_color(k),
    }
}

/// The 8 vertices of the cube emitted for cell `(x, y, z)`.
pub open spec fn cube_vertices(x: int, y: int, z: int) -> Seq<Vertex> {
    Seq::new(8, |k: int| cube_vertex(x, y, z, k))
}

/// Entry `k` of the 12-triangle index pattern of one cube, before the
/// per-cube offset is added.
pub open spec fn cube_index(k: int) -> int {
    if k == 0 { 0 } else if k == 1 { 1 } else if k == 2 { 2 }
    else if k == 3 { 2 } else if k == 4 { 1 } else if k == 5 { 3 }
    else if k == 6 { 5 } else if k == 7 { 4 } else if k == 8 { 7 }
    else if k == 9 { 7 } else if k == 10 { 4 } else if k == 11 { 6 }
    else if k == 12 { 4 } else if k == 13 { 0 } else if k == 14 { 6 }
    else if k == 15 { 6 } else if k == 16 { 0 } else if k == 17 { 2 }
    else if k == 18 { 1 } else if k == 19 { 5 } else if k == 20 { 3 }
    else if k == 21 { 3 } else if k == 22 { 5 } else if k == 23 { 7 }
    else if k == 24 { 2 } else if k == 25 { 3 } else if k == 26 { 6 }
    else if k == 27 { 6 } else if k == 28 { 3 } else if k == 29 { 7 }
    else if k == 30 { 4 } else if k == 31 { 5 } else if k == 32 { 0 }
    else if k == 33 { 0 } else if k == 34 { 5 } else { 1 }
}

/// The 36 index entries of the cube whose vertices start at slot
/// `8 * cube_number`.
pub open spec fn cube_indices(cube_number: int) -> Seq<u32> {
    Seq::new(36, |k: int| (cube_index(k) + 8 * cube_number) as u32)
}

/// The vertex buffer after scanning the first `n` slots of the volume.
pub open spec fn mesh_vertices(voxels: Seq<u8>, size: int, n: int) -> Seq<Vertex>
    decreases n,
{
    if n <= 0 {
        Seq::empty()
    } else {
        mesh_vertices(voxels, size, n - 1) + if voxels[n - 1] != 0 {
            cube_vertices(cell_x(size, n - 1), cell_y(size, n - 1), cell_z(size, n - 1))
        } else {
            Seq::empty()
        }
    }
}

/// The index buffer after scanning the first `n` slots of the volume.
pub open spec fn mesh_indices(voxels: Seq<u8>, size: int, n: int) -> Seq<u32>
    decreases n,
{
    if n <= 0 {
        Seq::empty()
    } else {
        mesh_indices(voxels, size, n - 1) + if voxels[n - 1] != 0 {
            cube_indices(solid_count_upto(voxels, n - 1))
        } else {
            Seq::empty()
        }
    }
}

/// The vertex buffer grows by exactly 8 entries per solid cell.
pub proof fn lemma_mesh_vertices_len(voxels: Seq<u8>, size: int, n: int)
    ensures
        mesh_vertices(voxels, size, n).len() == 8 * solid_count_upto(voxels, n),
    decreases n,
{
    if n > 0 {
        lemma_mesh_vertices_len(voxels, size, n - 1);
    }
}

/// The index buffer grows by exactly 36 entries per solid cell.
pub proof fn lemma_mesh_indices_len(voxels: Seq<u8>, size: int, n: int)
    ensures
        mesh_indices(voxels, size, n).len() == 36 * solid_count_upto(voxels, n),
    decreases n,
{
    if n > 0 {
        lemma_mesh_indices_len(voxels, size, n - 1);
    }
}

/// At most one solid cell per scanned slot.
pub proof fn lemma_solid_count_bounds(voxels: Seq<u8>, n: int)
    ensures
        0 <= solid_count_upto(voxels, n) <= (if n >= 0 {
            n
        } else {
            0
        }),
    decreases n,
{
    if n > 0 {
        lemma_solid_count_bounds(voxels, n - 1);
    }
}

/// Every index entry points into the vertex buffer: it stays below
/// 8 times the number of emitted cubes.
pub proof fn lemma_mesh_indices_in_range(voxels: Seq<u8>, size: int, n: int)
    requires
        n <= 16777216,
    ensures
        forall|k: int|
            0 <= k < mesh_indices(voxels, size, n).len() ==> (mesh_indices(voxels, size, n)[k]
                as int) < 8 * solid_count_upto(voxels, n),
    decreases n,
{
    if n > 0 {
        lemma_mesh_indices_in_range(voxels, size, n - 1);
        lemma_mesh_indices_len(voxels, size, n - 1);
        lemma_solid_count_bounds(voxels, n - 1);
        assert forall|j: int| 0 <= #[trigger] cube_index(j) <= 7 by {}
    }
}

/// Corner `k` of the cube for cell `(x, y, z)`.
fn corner_vertex(x: u32, y: u32, z: u32, k: usize) -> (v: Vertex)
    requires
        k < 8,
        x < MAX_MESH_SIZE,
        y < MAX_MESH_SIZE,
        z < MAX_MESH_SIZE,
    ensures
        v == cube_vertex(x as int, y as int, z as int, k as int),
{
    let dx: u32 = if k == 1 || k == 3 || k == 5 || k == 7 { 1 } else { 0 };
    let dy: u32 = if k == 2 || k == 3 || k == 6 || k == 7 { 1 } else { 0 };
    let dz: u32 = if k <= 3 { 1 } else { 0 };
    let color: Color = if k == 0 || k == 6 {
        Color { r: 255, g: 0, b: 0, a: 255 }
    } else if k == 1 {
        Color { r: 0, g: 255, b: 0, a: 255 }
    } else if k == 2 || k == 7 {
        Color { r: 0, g: 0, b: 255, a: 255 }
    } else if k == 3 || k == 5 {
        Color { r: 255, g: 255, b: 0, a: 255 }
    } else {
        Color { r: 0, g: 255, b: 255, a: 255 }
    };
    Vertex { x: x + dx, y: y + dy, z: z + dz, color }
}

/// Entry `k` of the per-cube index pattern.
fn pattern_index(k: usize) -> (r: u32)
    requires
        k < 36,
    ensures
        r == cube_index(k as int),
{
    match k {
        0 => 0, 1 => 1, 2 => 2, 3 => 2, 4 => 1, 5 => 3,
        6 => 5, 7 => 4, 8 => 7, 9 => 7, 10 => 4, 11 => 6,
        12 => 4, 13 => 0, 14 => 6, 15 => 6, 16 => 0, 17 => 2,
        18 => 1, 19 => 5, 20 => 3, 21 => 3, 22 => 5, 23 => 7,
        24 => 2, 25 => 3, 26 => 6, 27 => 6, 28 => 3, 29 => 7,
        30 => 4, 31 => 5, 32 => 0, 33 => 0, 34 => 5, _ => 1,
    }
}

/// CPU-side mesh buffers built from one volume. The GPU upload happens
/// outside; these buffers fully replace any previous ones.
pub struct ChunkMesh {
    pub vertices: Vec<Vertex>,
    pub indices: Vec<u32>,
    pub index_count: u32,
}

impl ChunkMesh {
    /// The buffers are exactly the mesh of `voxels` with edge length
    /// `size`, and `index_count` caches the index buffer length.
    pub open spec fn is_mesh_of(&self, voxels: Seq<u8>, size: int) -> bool {
        let volume = size * size * size;
        &&& self.vertices@ == mesh_vertices(voxels, size, volume)
        &&& self.indices@ == mesh_indices(voxels, size, volume)
        &&& self.index_count == self.indices@.len()
    }

    /// Build the mesh of a whole engine chunk.
    pub fn new(chunk: &Chunk) -> (m: ChunkMesh)
        requires
            chunk.wf(),
        ensures
            m.is_mesh_of(chunk.voxels@, CHUNK_SIZE as int),
            m.vertices@.len() == 8 * solid_count(chunk.voxels@),
            m.indices@.len() == 36 * solid_count(chunk.voxels@),
    {
        build_mesh(&chunk.voxels, CHUNK_SIZE as u32)
    }
}

/// Build the mesh of a dense volume with edge length `size`.
pub fn build_mesh(voxels: &Vec<VoxelIndex>, size: u32) -> (m: ChunkMesh)
    requires
        1 <= size <= MAX_MESH_SIZE,
        voxels@.len() == size * size * size,
    ensures
        m.is_mesh_of(voxels@, size as int),
        m.vertices@.len() == 8 * solid_count(voxels@),
        m.indices@.len() == 36 * solid_count(voxels@),
{
    let ghost s: int = size as int;
    let ghost volume: int = s * s * s;
    let mut vertices: Vec<Vertex> = Vec::new();
    let mut indices: Vec<u32> = Vec::new();
    let mut counter: u32 = 0;
    let mut i: usize = 0;
    let mut x: u32 = 0;
    let mut y: u32 = 0;
    let mut z: u32 = 0;

    proof {
        lemma_volume_bound(s);
    }

    while i < voxels.len()
        invariant
            s == size,
            1 <= s <= MAX_MESH_SIZE,
            volume == s * s * s,
            volume <= 16777216,
            voxels@.len() == volume,
            i <= volume,
            i == x * s * s + y * s + z,
            counter == solid_count_upto(voxels@, i as int),
            counter <= i,
            vertices@ == mesh_vertices(voxels@, s, i as int),
            indices@ == mesh_indices(voxels@, s, i as int),
            i < volume ==> x < s && y < s && z < s,
            i == volume ==> x == s && y == 0 && z == 0,
        decreases volume - i,
    {
        proof {
            lemma_cell_coords(s, x as int, y as int, z as int);
        }
        let value: VoxelIndex = voxels[i];
        if value != 0 {
            let mut k: usize = 0;
            while k < 8
                invariant
                    k <= 8,
                    x < s <= MAX_MESH_SIZE,
                    y < s,
                    z < s,
                    vertices@ == mesh_vertices(voxels@, s, i as int) + Seq::new(
                        k as nat,
                        |j: int| cube_vertex(x as int, y as int, z as int, j),
                    ),
                decreases 8 - k,
            {
                let v: Vertex = corner_vertex(x, y, z, k);
                vertices.push(v);
                k = k + 1;
                proof {
                    assert(vertices@ =~= mesh_vertices(voxels@, s, i as int) + Seq::new(
                        k as nat,
                        |j: int| cube_vertex(x as int, y as int, z as int, j),
                    ));
                }
            }
            let mut t: usize = 0;
            while t < 36
                invariant
                    t <= 36,
                    counter <= 16777216,
                    indices@ == mesh_indices(voxels@, s, i as int) + Seq::new(
                        t as nat,
                        |j: int| ((cube_index(j) + 8 * counter) as u32),
                    ),
                decreases 36 - t,
            {
                let base: u32 = pattern_index(t);
                indices.push(base + 8 * counter);
                t = t + 1;
                proof {
                    assert(indices@ =~= mesh_indices(voxels@, s, i as int) + Seq::new(
                        t as nat,
                        |j: int| ((cube_index(j) + 8 * counter) as u32),
                    ));
                }
            }
            counter = counter + 1;
            proof {
                assert(vertices@ =~= mesh_vertices(voxels@, s, i + 1));
                assert(indices@ =~= mesh_indices(voxels@, s, i + 1));
            }
        } else {
            proof {
                assert(vertices@ =~= mesh_vertices(voxels@, s, i + 1));
                assert(indices@ =~= mesh_indices(voxels@, s, i + 1));
            }
        }
        i = i + 1;
        if z + 1 < size {
            z = z + 1;
            proof {
                lemma_flat_bound(s, x as int, y as int, z as int);
            }
        } else if y + 1 < size {
            z = 0;
            y = y + 1;
            proof {
                lemma_scan_carry_y(s, x as int, y as int, i as int);
                lemma_flat_bound(s, x as int, y as int, 0);
            }
        } else {
            z = 0;
            y = 0;
            x = x + 1;
            proof {
                lemma_scan_carry_x(s, x as int, i as int);
            }
        }
    }

    proof {
        lemma_mesh_vertices_len(voxels@, s, volume);
        lemma_mesh_indices_len(voxels@, s, volume);
    }
    let index_count: u32 = counter * 36;
    ChunkMesh { vertices, indices, index_count }
}

/// A volume of edge length at most `MAX_MESH_SIZE` has at most `2^24`
/// cells.
proof fn lemma_volume_bound(s: int)
    requires
        1 <= s <= 256,
    ensures
        s <= s * s <= s * s * s <= 16777216,
{
    assert(s <= s * s <= s * s * s <= 16777216) by (nonlinear_arith)
        requires
            1 <= s <= 256,
    ;
}

/// A cell inside the cube lies before the end of the flat array.
proof fn lemma_flat_bound(s: int, x: int, y: int, z: int)
    requires
        1 <= s,
        0 <= x < s,
        0 <= y < s,
        0 <= z < s,
    ensures
        x * s * s + y * s + z < s * s * s,
{
    assert(x * s * s + y * s + z < s * s * s) by (nonlinear_arith)
        requires
            1 <= s && 0 <= x < s && 0 <= y < s && 0 <= z < s,
    ;
}

/// Scan coordinates agree with the flat decomposition of the slot.
proof fn lemma_cell_coords(s: int, x: int, y: int, z: int)
    requires
        1 <= s,
        0 <= x,
        0 <= y < s,
        0 <= z < s,
    ensures
        cell_x(s, x * s * s + y * s + z) == x,
        cell_y(s, x * s * s + y * s + z) == y,
        cell_z(s, x * s * s + y * s + z) == z,
{
    let i = x * s * s + y * s + z;
    assert(i == x * (s * s) + (y * s + z)) by (nonlinear_arith)
        requires
            i == x * s * s + y * s + z,
    ;
    assert(0 <= y * s + z < s * s) by (nonlinear_arith)
        requires
            1 <= s && 0 <= y < s && 0 <= z < s,
    ;
    vstd::arithmetic::div_mod::lemma_fundamental_div_mod_converse(i, s * s, x, y * s + z);
    vstd::arithmetic::div_mod::lemma_fundamental_div_mod_converse(y * s + z, s, y, z);
    assert(i == s * (x * s) + (y * s + z)) by (nonlinear_arith)
        requires
            i == x * s * s + y * s + z,
    ;
    lemma_mod_multiples_vanish(x * s, y * s + z, s);
}

/// After the last z slot of a row, the scan continues at the next y row.
proof fn lemma_scan_carry_y(s: int, x: int, y1: int, i1: int)
    requires
        1 <= s,
        1 <= y1,
        i1 == x * s * s + (y1 - 1) * s + (s - 1) + 1,
    ensures
        i1 == x * s * s + y1 * s,
{
    assert((y1 - 1) * s + s == y1 * s) by (nonlinear_arith);
}

/// After the last slot of a slice, the scan continues at the next x slice,
/// and reaches the end of the volume exactly on the last slice.
proof fn lemma_scan_carry_x(s: int, x1: int, i1: int)
    requires
        1 <= s,
        1 <= x1 <= s,
        i1 == (x1 - 1) * s * s + (s - 1) * s + (s - 1) + 1,
    ensures
        i1 == x1 * s * s,
        x1 == s ==> i1 == s * s * s,
        x1 < s ==> i1 < s * s * s,
{
    assert((x1 - 1) * s * s + (s - 1) * s + s == x1 * s * s) by (nonlinear_arith);
    assert(x1 < s ==> x1 * s * s < s * s * s) by (nonlinear_arith)
        requires
            1 <= s,
    ;
}

} // verus!
