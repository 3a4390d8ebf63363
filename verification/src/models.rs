//! The records exchanged with the metadata authority.

use vstd::prelude::*;

verus! {

/// What the metadata authority knows of a file or directory.
#[derive(Debug, PartialEq, Eq)]
pub struct FileData {
    pub id: u64,
    pub name: String,
    pub is_dir: bool,
    pub size: u64,
    pub blocks: Option<Vec<u64>>,
    pub timestamp: String,
}

impl FileData {
    /// How the kind of the entry is shown: `Dir` or `File`.
    pub open spec fn kind_text(&self) -> Seq<char> {
        if self.is_dir {
            "Dir"@
        } else {
            "File"@
        }
    }

    /// The word that tells a user whether this entry is a directory.
    pub fn kind_label(&self) -> (label: &'static str)
        ensures
            label@ == self.kind_text(),
    {
        if self.is_dir {
            "Dir"
        } else {
            "File"
        }
    }
}

/// One block of a plan: its identifier, and the storage nodes that may hold
/// it, in order of preference.
#[derive(Debug, PartialEq, Eq)]
pub struct BlockAssignment {
    pub block_id: String,
    pub datanode_addresses: Vec<String>,
}

/// A `BlockAssignment` as a mathematical value.
pub struct BlockDescriptor {
    pub block_id: Seq<char>,
    pub candidate_addresses: Seq<Seq<char>>,
}

impl BlockDescriptor {
    /// The address a transfer of this block goes to: the first candidate.
    pub open spec fn target(self) -> Option<Seq<char>> {
        if self.candidate_addresses.len() > 0 {
            Some(self.candidate_addresses[0])
        } else {
            None
        }
    }
}

impl View for BlockAssignment {
    type V = BlockDescriptor;

    open spec fn view(&self) -> BlockDescriptor {
        BlockDescriptor {
            block_id: self.block_id@,
            candidate_addresses: self.datanode_addresses.deep_view(),
        }
    }
}

impl BlockAssignment {
    /// The address a transfer of this block goes to: the first candidate, or
    /// `None` when the plan names no storage node for the block.
    pub fn target(&self) -> (address: Option<&String>)
        ensures
            self@.target() == match address {
                Some(a) => Some(a@),
                None => None,
            },
    {
        if self.datanode_addresses.len() > 0 {
            Some(&self.datanode_addresses[0])
        } else {
            None
        }
    }
}

/// The placement plan of a file: its blocks, in file order.
#[derive(Debug, PartialEq, Eq)]
pub struct AllocationResponse {
    pub block_assignments: Vec<BlockAssignment>,
}

/// The descriptors of a sequence of assignments.
pub open spec fn plan_of(blocks: Seq<BlockAssignment>) -> Seq<BlockDescriptor> {
    Seq::new(blocks.len(), |i: int| blocks[i]@)
}

impl View for AllocationResponse {
    type V = Seq<BlockDescriptor>;

    open spec fn view(&self) -> Seq<BlockDescriptor> {
        plan_of(self.block_assignments@)
    }
}

/// No two blocks of the plan share an identifier.
pub open spec fn unique_block_ids(plan: Seq<BlockDescriptor>) -> bool {
    forall|i: int, j: int|
        0 <= i < j < plan.len() ==> (#[trigger] plan[i]).block_id != (#[trigger] plan[j]).block_id
}

/// Every block of the plan names at least one storage node.
pub open spec fn all_blocks_placed(plan: Seq<BlockDescriptor>) -> bool {
    forall|i: int| 0 <= i < plan.len() ==> (#[trigger] plan[i]).candidate_addresses.len() > 0
}

/// A plan that a transfer can carry out in full.
pub open spec fn well_formed_plan(plan: Seq<BlockDescriptor>) -> bool {
    unique_block_ids(plan) && all_blocks_placed(plan)
}

impl AllocationResponse {
    /// Whether the plan can be carried out in full: every block has a
    /// storage node, and no identifier occurs twice.
    pub fn is_well_formed(&self) -> (ok: bool)
        ensures
            ok == well_formed_plan(self@),
    {
        let blocks = &self.block_assignments;
        let mut i: usize = 0;
        while i < blocks.len()
            invariant
                i <= blocks.len(),
                forall|a: int|
                    0 <= a < i ==> (#[trigger] self@[a]).candidate_addresses.len() > 0,
                forall|a: int, b: int|
                    0 <= a < b < i ==> (#[trigger] self@[a]).block_id != (
                    #[trigger] self@[b]).block_id,
                blocks == &self.block_assignments,
            decreases blocks.len() - i,
        {
            if blocks[i].datanode_addresses.len() == 0 {
                assert(self@[i as int].candidate_addresses.len() == 0);
                return false;
            }
            let mut j: usize = 0;
            while j < i
                invariant
                    j <= i < blocks.len(),
                    forall|a: int|
                        0 <= a < j ==> (#[trigger] self@[a]).block_id != self@[i as int].block_id,
                    blocks == &self.block_assignments,
                decreases i - j,
            {
                if blocks[j].block_id == blocks[i].block_id {
                    assert(self@[j as int].block_id == self@[i as int].block_id);
                    return false;
                }
                j = j + 1;
            }
            i = i + 1;
        }
        true
    }
}

} // verus!
