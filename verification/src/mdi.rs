//! The heap of a scene that is drawn with one indirect multi-draw: where
//! each mesh lies in the shared buffers, which instances show which mesh,
//! and the draw commands that follow from the two.

use std::ops::Range;
use vstd::prelude::*;

verus! {

/// How many vertices the shared vertex buffers have room for.
pub const MAX_VERTICES: u32 = 16384;

/// How many instances the shared instance buffers have room for.
pub const MAX_INSTANCES: u32 = 4096;

/// How many indices the shared index buffer has room for.
pub const MAX_INDICES: u32 = 32768;

/// How many draw commands the command buffer has room for.
pub const MAX_CMDS: u32 = 1024;

#[derive(Debug, Default)]
pub struct HeapInfo {
    // Indexed by mesh
    pub vertex_ranges: Vec<Range<u32>>,
    pub index_ranges: Vec<Range<u32>>,
    // Indexed by instance
    pub instance_ranges: Vec<Range<u32>>,
    pub instance_range_mesh_entry: Vec<u32>,
}

/// One draw of an indirect multi-draw, with the fields in the order in which
/// the GPU reads them.
#[derive(Debug, Default, Copy, Clone, Hash, PartialEq, Eq)]
pub struct GLDrawElementsIndirectCommand {
    pub nb_indices: u32,
    pub nb_instances: u32,
    pub first_index: u32,
    pub base_vertex: u32,
    pub base_instance: u32,
}

impl HeapInfo {
    /// How many draws there are: one for each run of instances that has a
    /// mesh entry.
    pub open spec fn nb_draws(&self) -> int {
        if self.instance_ranges@.len() <= self.instance_range_mesh_entry@.len() {
            self.instance_ranges@.len() as int
        } else {
            self.instance_range_mesh_entry@.len() as int
        }
    }

    /// Every run of instances names a mesh that has its ranges, and no range
    /// ends before it starts.
    pub open spec fn wf(&self) -> bool {
        forall|i: int|
            0 <= i < self.nb_draws() ==> {
                let mesh = #[trigger] self.instance_range_mesh_entry@[i] as int;
                &&& mesh < self.index_ranges@.len()
                &&& mesh < self.vertex_ranges@.len()
                &&& self.instance_ranges@[i].start <= self.instance_ranges@[i].end
                &&& self.index_ranges@[mesh].start <= self.index_ranges@[mesh].end
            }
    }

    /// The draw of the `i`-th run of instances: the run itself, and the
    /// indices and the first vertex of the mesh that it shows.
    pub open spec fn draw_command(&self, i: int) -> GLDrawElementsIndirectCommand {
        let instances = self.instance_ranges@[i];
        let mesh = self.instance_range_mesh_entry@[i] as int;
        let indices = self.index_ranges@[mesh];
        GLDrawElementsIndirectCommand {
            base_instance: instances.start,
            nb_instances: (instances.end - instances.start) as u32,
            first_index: indices.start,
            nb_indices: (indices.end - indices.start) as u32,
            base_vertex: self.vertex_ranges@[mesh].start,
        }
    }

    /// A heap without meshes and without instances.
    pub fn new() -> (heap: Self)
        ensures
            heap.vertex_ranges@.len() == 0,
            heap.index_ranges@.len() == 0,
            heap.instance_ranges@.len() == 0,
            heap.instance_range_mesh_entry@.len() == 0,
            heap.wf(),
    {
        HeapInfo {
            vertex_ranges: Vec::new(),
            index_ranges: Vec::new(),
            instance_ranges: Vec::new(),
            instance_range_mesh_entry: Vec::new(),
        }
    }

    /// Enters the two test meshes, of three vertices and three indices each,
    /// and three instances of each.
    pub fn add_meshes(&mut self)
        ensures
            final(self).vertex_ranges@ == old(self).vertex_ranges@.push(0..3).push(3..6),
            final(self).index_ranges@ == old(self).index_ranges@.push(0..3).push(3..6),
            final(self).instance_ranges@ == old(self).instance_ranges@.push(0..3).push(3..6),
            final(self).instance_range_mesh_entry@ == old(self).instance_range_mesh_entry@.push(
                0,
            ).push(1),
            old(self).vertex_ranges@.len() == 0 && old(self).index_ranges@.len() == 0 && old(
                self,
            ).instance_ranges@.len() == 0 && old(self).instance_range_mesh_entry@.len() == 0
                ==> final(self).wf(),
    {
        self.vertex_ranges.push(0..3);
        self.index_ranges.push(0..3);
        self.vertex_ranges.push(3..6);
        self.index_ranges.push(3..6);
        self.instance_ranges.push(0..3);
        self.instance_range_mesh_entry.push(0);
        self.instance_ranges.push(3..6);
        self.instance_range_mesh_entry.push(1);
    }

    /// Whether the heap is well formed, which `draw_commands` asks for.
    pub fn is_valid(&self) -> (b: bool)
        ensures
            b == self.wf(),
    {
        let n = if self.instance_ranges.len() <= self.instance_range_mesh_entry.len() {
            self.instance_ranges.len()
        } else {
            self.instance_range_mesh_entry.len()
        };
        let mut k: usize = 0;
        while k < n
            invariant
                k <= n,
                n == self.nb_draws(),
                forall|i: int|
                    0 <= i < k ==> {
                        let mesh = #[trigger] self.instance_range_mesh_entry@[i] as int;
                        &&& mesh < self.index_ranges@.len()
                        &&& mesh < self.vertex_ranges@.len()
                        &&& self.instance_ranges@[i].start <= self.instance_ranges@[i].end
                        &&& self.index_ranges@[mesh].start <= self.index_ranges@[mesh].end
                    },
            decreases n - k,
        {
            let mesh = self.instance_range_mesh_entry[k] as usize;
            if mesh >= self.index_ranges.len() || mesh >= self.vertex_ranges.len() {
                return false;
            }
            if self.instance_ranges[k].start > self.instance_ranges[k].end {
                return false;
            }
            if self.index_ranges[mesh].start > self.index_ranges[mesh].end {
                return false;
            }
            k += 1;
        }
        true
    }

    /// The draw commands of a frame, one for each run of instances, in
    /// order.
    pub fn draw_commands(&self) -> (cmds: Vec<GLDrawElementsIndirectCommand>)
        requires
            self.wf(),
        ensures
            cmds@.len() == self.nb_draws(),
            forall|i: int| 0 <= i < self.nb_draws() ==> cmds@[i] == self.draw_command(i),
    {
        let mut cmds: Vec<GLDrawElementsIndirectCommand> = Vec::new();
        let n = if self.instance_ranges.len() <= self.instance_range_mesh_entry.len() {
            self.instance_ranges.len()
        } else {
            self.instance_range_mesh_entry.len()
        };
        let mut k: usize = 0;
        while k < n
            invariant
                k <= n,
                n == self.nb_draws(),
                self.wf(),
                cmds@.len() == k,
                forall|i: int| 0 <= i < k ==> cmds@[i] == self.draw_command(i),
            decreases n - k,
        {
            let mesh = self.instance_range_mesh_entry[k] as usize;
            let i = &self.instance_ranges[k];
            let index_range = &self.index_ranges[mesh];
            let vertex_range = &self.vertex_ranges[mesh];
            cmds.push(
                GLDrawElementsIndirectCommand {
                    base_instance: i.start,
                    nb_instances: i.end - i.start,
                    first_index: index_range.start,  // Offset into the index buffer
                    nb_indices: index_range.end - index_range.start,
                    base_vertex: vertex_range.start,  // Value added to indices for vertex retrieval
                },
            );
            k += 1;
        }
        cmds
    }
}

} // verus!
