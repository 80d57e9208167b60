//! The registry of voxel kinds. Identifiers are handed out sequentially
//! starting at 1, so the registry can answer a lookup by identifier
//! exactly: identifier `i` names the `i`-th registered kind.

use vstd::prelude::*;

verus! {

broadcast use vstd::string::group_string_axioms;

/// The physical state of a voxel kind.
#[derive(Debug)]
pub enum VoxelState {
    Empty,
    Solid,
    Liquid,
    Gas,
    Plasma,
}

/// What a voxel kind is: its display name and physical state.
#[derive(Debug)]
pub struct VoxelDescritpion {
    pub name: String,
    pub state: VoxelState,
}

/// A registered voxel kind: its identifier and its description.
#[derive(Debug)]
pub struct Voxel {
    pub id: u32,
    pub desc: VoxelDescritpion,
}

impl Voxel {
    pub fn new(id: u32, desc: VoxelDescritpion) -> (v: Voxel)
        ensures
            v.id == id,
            v.desc == desc,
    {
        Self { id, desc }
    }
}

/// Registry of voxel kinds, looked up by identifier.
pub struct VoxelManager {
    map_id: Vec<Voxel>,
    last_id: u32,
}

impl VoxelManager {
    /// Kind `i` of the registry sits at slot `i - 1` and carries
    /// identifier `i`; `last_id` is the number of registered kinds.
    pub closed spec fn wf(&self) -> bool {
        &&& self.last_id == self.map_id@.len()
        &&& forall|i: int| 0 <= i < self.map_id@.len() ==> #[trigger] self.map_id@[i].id == i + 1
    }

    /// The registered kinds, in identifier order.
    pub closed spec fn kinds(&self) -> Seq<Voxel> {
        self.map_id@
    }

    /// Creates the registry with the void kind under identifier 1, so
    /// every chunk has an initial kind to point at.
    pub fn new() -> (m: VoxelManager)
        ensures
            m.wf(),
            m.kinds().len() == 1,
            m.kinds()[0].id == 1,
            m.kinds()[0].desc.name@ == "Void"@,
            m.kinds()[0].desc.state is Empty,
    {
        let mut map_id: Vec<Voxel> = Vec::new();

        let mut last_id: u32 = 0;

        last_id = last_id + 1;
        map_id.push(Voxel::new(
            last_id,
            VoxelDescritpion { name: "Void".to_string(), state: VoxelState::Empty },
        ));

        Self { map_id, last_id }
    }

    /// Registers a kind under the next identifier.
    pub fn register_voxel(&mut self, desc: VoxelDescritpion)
        requires
            old(self).wf(),
            old(self).kinds().len() < u32::MAX,
        ensures
            final(self).wf(),
            final(self).kinds().len() == old(self).kinds().len() + 1,
            final(self).kinds().subrange(0, old(self).kinds().len() as int) == old(self).kinds(),
            final(self).kinds().last().id == old(self).kinds().len() + 1,
            final(self).kinds().last().desc == desc,
    {
        self.last_id = self.last_id + 1;

        let voxel = Voxel::new(self.last_id, desc);
        self.map_id.push(voxel);
        proof {
            assert(self.kinds().subrange(0, old(self).kinds().len() as int) =~= old(
                self,
            ).kinds());
        }
    }

    /// Looks a kind up by identifier; answers for exactly the identifiers
    /// handed out so far.
    pub fn get_voxel(&self, id: u32) -> (r: Option<&Voxel>)
        requires
            self.wf(),
        ensures
            1 <= id <= self.kinds().len() ==> (r matches Some(v) && *v == self.kinds()[id - 1]),
            !(1 <= id <= self.kinds().len()) ==> r is None,
            r matches Some(v) ==> v.id == id,
    {
        if id >= 1 && (id as usize) <= self.map_id.len() {
            Some(&self.map_id[(id - 1) as usize])
        } else {
            None
        }
    }
}

} // verus!
