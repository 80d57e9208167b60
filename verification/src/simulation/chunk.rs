//! Simulation-side chunks, addressed by their position in the world grid.
//! A manager keeps at most one chunk per position; storing a chunk at an
//! occupied position replaces the old one.

use vstd::prelude::*;

verus! {

/// Edge length of a simulation chunk, in cells.
pub const CHUNK_SIZE: usize = 32;

/// Cells in one slice of a simulation chunk.
pub const CHUNK_AREA: usize = CHUNK_SIZE * CHUNK_SIZE;

/// Cells in a whole simulation chunk.
pub const CHUNK_VOLUME: usize = CHUNK_AREA * CHUNK_SIZE;

/// A chunk's position in the world grid.
#[derive(Debug, PartialEq, Eq, Structural, Hash, Clone, Copy)]
pub struct ChunkPos {
    pub x: u32,
    pub y: u32,
    pub z: u32,
}

/// A dense cube of voxel kind identifiers at a world position.
pub struct Chunk {
    pub position: ChunkPos,
    pub voxels: Vec<u32>,
}

/// A chunk as `Chunk::new` creates it: every cell holds the initial voxel
/// kind, identifier 1.
pub open spec fn is_fresh_chunk(c: Chunk, position: ChunkPos) -> bool {
    &&& c.position == position
    &&& c.voxels@ == Seq::new(CHUNK_VOLUME as nat, |i: int| 1u32)
}

impl Chunk {
    pub fn new(position: ChunkPos) -> (c: Chunk)
        ensures
            is_fresh_chunk(c, position),
    {
        let mut voxels: Vec<u32> = Vec::new();
        let mut i: usize = 0;
        while i < CHUNK_VOLUME
            invariant
                i <= CHUNK_VOLUME,
                voxels@.len() == i,
                forall|j: int| 0 <= j < i ==> voxels@[j] == 1u32,
            decreases CHUNK_VOLUME - i,
        {
            voxels.push(1u32);
            i = i + 1;
        }
        proof {
            assert(voxels@ =~= Seq::new(CHUNK_VOLUME as nat, |i: int| 1u32));
        }
        Self { position, voxels }
    }
}

/// First slot among `s` from index `i` on that holds a chunk at
/// `position`.
pub open spec fn find_pos(s: Seq<Chunk>, position: ChunkPos, i: int) -> Option<int>
    decreases s.len() - i,
{
    if i < 0 || i >= s.len() {
        None
    } else if s[i].position == position {
        Some(i)
    } else {
        find_pos(s, position, i + 1)
    }
}

/// When the search finds nothing, no slot from `i` on matches.
proof fn lemma_find_pos_none(s: Seq<Chunk>, position: ChunkPos, i: int)
    requires
        0 <= i,
        find_pos(s, position, i) is None,
    ensures
        forall|k: int| i <= k < s.len() ==> s[k].position != position,
    decreases s.len() - i,
{
    if i < s.len() {
        lemma_find_pos_none(s, position, i + 1);
    }
}

/// Keeps the chunks of the world, at most one per position.
pub struct ChunkManager {
    chunks: Vec<Chunk>,
}

impl ChunkManager {
    /// No two stored chunks share a position.
    pub closed spec fn wf(&self) -> bool {
        forall|i: int, j: int|
            0 <= i < j < self.chunks@.len() ==> #[trigger] self.chunks@[i].position
                != #[trigger] self.chunks@[j].position
    }

    /// The stored chunks, in insertion order.
    pub closed spec fn stored(&self) -> Seq<Chunk> {
        self.chunks@
    }

    pub fn new() -> (m: ChunkManager)
        ensures
            m.wf(),
            m.stored().len() == 0,
    {
        let chunks: Vec<Chunk> = Vec::new();

        Self { chunks }
    }

    /// Stores a fresh chunk at `position`, replacing any chunk already
    /// there.
    pub fn create_chunk(&mut self, position: ChunkPos)
        requires
            old(self).wf(),
        ensures
            final(self).wf(),
            match find_pos(old(self).stored(), position, 0) {
                Some(i) => {
                    &&& final(self).stored().len() == old(self).stored().len()
                    &&& is_fresh_chunk(final(self).stored()[i], position)
                    &&& forall|j: int|
                        0 <= j < old(self).stored().len() && j != i
                            ==> final(self).stored()[j] == old(self).stored()[j]
                },
                None => {
                    &&& final(self).stored().len() == old(self).stored().len() + 1
                    &&& final(self).stored().subrange(0, old(self).stored().len() as int)
                        == old(self).stored()
                    &&& is_fresh_chunk(final(self).stored().last(), position)
                },
            },
    {
        let chunk = Chunk::new(position);
        let n: usize = self.chunks.len();
        let mut i: usize = 0;
        while i < n
            invariant
                old(self).wf(),
                *self == *old(self),
                is_fresh_chunk(chunk, position),
                n == self.chunks@.len(),
                i <= n,
                find_pos(self.chunks@, position, 0) == find_pos(self.chunks@, position, i as int),
            decreases n - i,
        {
            if self.chunks[i].position == position {
                proof {
                    assert(find_pos(old(self).chunks@, position, 0) == Some(i as int));
                }
                let ghost fresh: Chunk = chunk;
                self.chunks[i] = chunk;
                proof {
                    assert(self.chunks@ == old(self).chunks@.update(i as int, fresh));
                    assert forall|a: int, b: int|
                        0 <= a < b < self.chunks@.len() implies self.chunks@[a].position
                        != self.chunks@[b].position by {
                        assert(self.chunks@[a].position == old(self).chunks@[a].position);
                        assert(self.chunks@[b].position == old(self).chunks@[b].position);
                    }
                }
                return ;
            }
            i = i + 1;
        }
        self.chunks.push(chunk);
        proof {
            lemma_find_pos_none(old(self).chunks@, position, 0);
            assert(self.chunks@.subrange(0, old(self).chunks@.len() as int) =~= old(self).chunks@);
            assert forall|a: int, b: int|
                0 <= a < b < self.chunks@.len() implies self.chunks@[a].position
                != self.chunks@[b].position by {
                if b < old(self).chunks@.len() {
                    assert(old(self).wf());
                } else {
                    assert(self.chunks@[b].position == position);
                    assert(old(self).chunks@[a].position != position);
                }
            }
        }
    }

    /// Looks the chunk at `position` up; answers exactly when one was
    /// created there.
    pub fn get_chunk(&self, position: ChunkPos) -> (r: Option<&Chunk>)
        requires
            self.wf(),
        ensures
            match find_pos(self.stored(), position, 0) {
                Some(i) => r matches Some(c) && *c == self.stored()[i],
                None => r is None,
            },
    {
        let n: usize = self.chunks.len();
        let mut i: usize = 0;
        while i < n
            invariant
                n == self.chunks@.len(),
                i <= n,
                find_pos(self.chunks@, position, 0) == find_pos(self.chunks@, position, i as int),
            decreases n - i,
        {
            if self.chunks[i].position == position {
                proof {
                    assert(find_pos(self.chunks@, position, i as int) == Some(i as int));
                }
                return Some(&self.chunks[i]);
            }
            i = i + 1;
        }
        None
    }
}

} // verus!
