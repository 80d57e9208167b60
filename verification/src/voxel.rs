//! Dense volumetric chunk data: a fixed-size cube of palette indices plus
//! a small color palette. Addressing is row-major with x varying slowest in
//! memory; every coordinate triple inside the cube maps to exactly one slot.

use vstd::prelude::*;

verus! {

/// Edge length of a chunk, in cells.
pub const CHUNK_SIZE: usize = 32;

/// Cells in one slice of a chunk.
pub const CHUNK_AREA: usize = CHUNK_SIZE * CHUNK_SIZE;

/// Cells in a whole chunk.
pub const CHUNK_VOLUME: usize = CHUNK_AREA * CHUNK_SIZE;

/// Entries in a chunk's color palette.
pub const PALETTE_SIZE: usize = 16;

/// Index into the palette of a chunk. Zero is the empty marker.
pub type VoxelIndex = u8;

/// An RGBA color with 8 bits per channel.
#[derive(Debug, Clone, Copy, PartialEq, Eq, Structural, Default)]
pub struct Color {
    pub r: u8,
    pub g: u8,
    pub b: u8,
    pub a: u8,
}

/// The slot of cell `(x, y, z)` in the flat voxel array.
pub open spec fn flat_index(x: int, y: int, z: int) -> int {
    x * (CHUNK_AREA as int) + y * (CHUNK_SIZE as int) + z
}

/// A dense cube of palette indices together with its palette.
pub struct Chunk {
    pub palette: Vec<Color>,
    pub voxels: Vec<VoxelIndex>,
}

impl Chunk {
    /// The palette holds exactly `PALETTE_SIZE` colors and the voxel array
    /// exactly `CHUNK_VOLUME` cells.
    pub open spec fn wf(&self) -> bool {
        &&& self.palette@.len() == PALETTE_SIZE
        &&& self.voxels@.len() == CHUNK_VOLUME
    }

    pub fn new(palette: Vec<Color>, voxels: Vec<VoxelIndex>) -> (c: Chunk)
        requires
            palette@.len() == PALETTE_SIZE,
            voxels@.len() == CHUNK_VOLUME,
        ensures
            c.wf(),
            c.palette@ == palette@,
            c.voxels@ == voxels@,
    {
        Chunk { palette, voxels }
    }

    /// Store a palette index at cell `(x, y, z)`.
    pub fn set(&mut self, x: u32, y: u32, z: u32, voxel: VoxelIndex)
        requires
            old(self).wf(),
            x < CHUNK_SIZE,
            y < CHUNK_SIZE,
            z < CHUNK_SIZE,
        ensures
            final(self).wf(),
            final(self).voxels@ == old(self).voxels@.update(
                flat_index(x as int, y as int, z as int),
                voxel,
            ),
            final(self).palette@ == old(self).palette@,
    {
        let idx: usize = (x as usize) * CHUNK_AREA + (y as usize) * CHUNK_SIZE + (z as usize);
        self.voxels[idx] = voxel;
    }

    /// Read the palette index at cell `(x, y, z)`.
    pub fn get(&self, x: u32, y: u32, z: u32) -> (voxel: VoxelIndex)
        requires
            self.wf(),
            x < CHUNK_SIZE,
            y < CHUNK_SIZE,
            z < CHUNK_SIZE,
        ensures
            voxel == self.voxels@[flat_index(x as int, y as int, z as int)],
    {
        let idx: usize = (x as usize) * CHUNK_AREA + (y as usize) * CHUNK_SIZE + (z as usize);
        self.voxels[idx]
    }

    /// Walk the cells in the fixed scan order (y fastest, then z, then x).
    pub fn iter(&self) -> (it: ChunkIterator<'_>)
        requires
            self.wf(),
        ensures
            it.chunk == self,
            it.current == (ChunkVoxelPosition { x: 0, y: 0, z: 0 }),
            it.wf(),
    {
        ChunkIterator { chunk: self, current: ChunkVoxelPosition { x: 0, y: 0, z: 0 } }
    }
}

impl Default for Chunk {
    /// An all-empty chunk with an all-default palette.
    fn default() -> (c: Chunk)
        ensures
            c.wf(),
            c.voxels@ == Seq::new(CHUNK_VOLUME as nat, |i: int| 0u8),
            c.palette@ == Seq::new(
                PALETTE_SIZE as nat,
                |i: int| (Color { r: 0, g: 0, b: 0, a: 0 }),
            ),
    {
        let mut palette: Vec<Color> = Vec::new();
        let mut i: usize = 0;
        while i < PALETTE_SIZE
            invariant
                i <= PALETTE_SIZE,
                palette@.len() == i,
                forall|j: int| 0 <= j < i ==> palette@[j] == (Color { r: 0, g: 0, b: 0, a: 0 }),
            decreases PALETTE_SIZE - i,
        {
            palette.push(Color { r: 0, g: 0, b: 0, a: 0 });
            i = i + 1;
        }
        let mut voxels: Vec<VoxelIndex> = Vec::new();
        let mut k: usize = 0;
        while k < CHUNK_VOLUME
            invariant
                k <= CHUNK_VOLUME,
                voxels@.len() == k,
                forall|j: int| 0 <= j < k ==> voxels@[j] == 0u8,
            decreases CHUNK_VOLUME - k,
        {
            voxels.push(0u8);
            k = k + 1;
        }
        proof {
            assert(voxels@ =~= Seq::new(CHUNK_VOLUME as nat, |i: int| 0u8));
            assert(palette@ =~= Seq::new(
                PALETTE_SIZE as nat,
                |i: int| (Color { r: 0, g: 0, b: 0, a: 0 }),
            ));
        }
        Chunk { palette, voxels }
    }
}

/// A cell position inside a chunk.
#[derive(Debug, Clone, Copy, PartialEq, Eq, Structural, Default)]
pub struct ChunkVoxelPosition {
    pub x: usize,
    pub y: usize,
    pub z: usize,
}

impl ChunkVoxelPosition {
    /// The slot that represents this position inside the flat voxel array.
    pub fn get_1d(&self) -> (idx: usize)
        requires
            self.x < CHUNK_SIZE,
            self.y < CHUNK_SIZE,
            self.z < CHUNK_SIZE,
        ensures
            idx == flat_index(self.x as int, self.y as int, self.z as int),
            idx < CHUNK_VOLUME,
    {
        self.x * CHUNK_AREA + self.y * CHUNK_SIZE + self.z
    }
}

/// Iterator over a chunk, yielding `(position, palette index)` pairs in the
/// fixed scan order. `current.x == CHUNK_SIZE` marks exhaustion.
pub struct ChunkIterator<'a> {
    pub chunk: &'a Chunk,
    pub current: ChunkVoxelPosition,
}

/// The position one scan step after `p` (y fastest, then z, then x).
pub open spec fn scan_next(p: ChunkVoxelPosition) -> ChunkVoxelPosition {
    if p.y + 1 < CHUNK_SIZE {
        ChunkVoxelPosition { y: (p.y + 1) as usize, ..p }
    } else if p.z + 1 < CHUNK_SIZE {
        ChunkVoxelPosition { y: 0, z: (p.z + 1) as usize, ..p }
    } else {
        ChunkVoxelPosition { y: 0, z: 0, x: (p.x + 1) as usize }
    }
}

impl<'a> ChunkIterator<'a> {
    /// The cursor stays inside the cube, except that `x` may reach
    /// `CHUNK_SIZE` to mark exhaustion.
    pub open spec fn wf(&self) -> bool {
        &&& self.chunk.wf()
        &&& self.current.x <= CHUNK_SIZE
        &&& self.current.y < CHUNK_SIZE
        &&& self.current.z < CHUNK_SIZE
    }

    /// Yield the cell under the cursor and advance one scan step.
    pub fn next(&mut self) -> (r: Option<(ChunkVoxelPosition, VoxelIndex)>)
        requires
            old(self).wf(),
        ensures
            final(self).wf(),
            final(self).chunk == old(self).chunk,
            old(self).current.x == CHUNK_SIZE ==> r is None && *final(self) == *old(self),
            old(self).current.x < CHUNK_SIZE ==> {
                &&& r == Some(
                    (
                        old(self).current,
                        old(self).chunk.voxels@[flat_index(
                            old(self).current.x as int,
                            old(self).current.y as int,
                            old(self).current.z as int,
                        )],
                    ),
                )
                &&& final(self).current == scan_next(old(self).current)
            },
    {
        if self.current.x >= CHUNK_SIZE {
            return None;
        }

        let position = self.current;
        let value: VoxelIndex = self.chunk.voxels[position.get_1d()];

        if self.current.y + 1 < CHUNK_SIZE {
            self.current.y = self.current.y + 1;
        } else if self.current.z + 1 < CHUNK_SIZE {
            self.current.y = 0;
            self.current.z = self.current.z + 1;
        } else {
            self.current.y = 0;
            self.current.z = 0;
            self.current.x = self.current.x + 1;
        }

        Some((position, value))
    }
}

} // verus!
