//! The processors of the host, and the choice of one of them to run on.

use vstd::prelude::*;

verus! {

/// The number of processors in one group of the host.
pub const GROUP_SIZE: u8 = 64;

/// One processor: its group, and its number within the group.
#[derive(Clone, Copy, Debug, PartialEq, Eq, Structural)]
pub struct ProcessorNumber {
    pub group: u16,
    pub number: u8,
}

/// A set of processors of one group, one bit for each.
#[derive(Clone, Copy, Debug, PartialEq, Eq, Structural)]
pub struct GroupAffinity {
    pub mask: u64,
    pub group: u16,
}

impl GroupAffinity {
    /// The set that holds no processor.
    pub fn empty() -> (affinity: GroupAffinity)
        ensures
            affinity == (GroupAffinity { mask: 0, group: 0 }),
    {
        GroupAffinity { mask: 0, group: 0 }
    }

    /// The set that holds the given processor and no other: a thread with
    /// this affinity runs on that processor. `None` for a number that no
    /// processor of a group has.
    pub fn single(processor: ProcessorNumber) -> (affinity: Option<GroupAffinity>)
        ensures
            match affinity {
                Some(affinity) => processor.number < GROUP_SIZE && affinity == (GroupAffinity {
                    mask: 1u64 << processor.number,
                    group: processor.group,
                }),
                None => processor.number >= GROUP_SIZE,
            },
    {
        if processor.number >= GROUP_SIZE {
            return None;
        }
        Some(GroupAffinity { mask: 1u64 << processor.number, group: processor.group })
    }

    /// Whether the set holds the processor.
    pub fn contains(&self, processor: ProcessorNumber) -> (held: bool)
        ensures
            held <==> processor.group == self.group && processor.number < GROUP_SIZE && self.mask
                & (1u64 << processor.number) != 0,
    {
        processor.group == self.group && processor.number < GROUP_SIZE && self.mask & (1u64
            << processor.number) != 0
    }
}

/// The set of one processor holds that processor and no other of its group.
pub proof fn lemma_single_holds_one(number: u8, other: u8)
    requires
        number < GROUP_SIZE,
        other < GROUP_SIZE,
    ensures
        ((1u64 << number) & (1u64 << other) != 0) <==> number == other,
{
    assert(((1u64 << number) & (1u64 << other) != 0) <==> number == other) by (bit_vector)
        requires
            number < 64u8,
            other < 64u8,
    ;
}

} // verus!
