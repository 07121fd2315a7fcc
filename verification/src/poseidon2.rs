//! One invocation of the permutation, recorded so that it can be replayed.

use crate::air::zero_block;
use crate::air::Block;
use crate::field::felt_of;
use crate::field::Felt;
use crate::runtime::MemoryAccessKind;
use crate::runtime::MemoryRecord;
use vstd::prelude::*;

verus! {

/// The width of the permutation's state.
pub const WIDTH: usize = 16;

/// One invocation of the permutation.
#[derive(Debug, Clone)]
pub struct Poseidon2Event {
    /// The clock at which the permutation was invoked.
    pub clk: Felt,
    /// Where the result was written.
    pub dst: Felt,
    /// Where the left half of the input was read.
    pub left: Felt,
    /// Where the right half of the input was read.
    pub right: Felt,
    /// The state before the permutation.
    pub input: [Felt; 16],
    /// The state after the permutation.
    pub result_array: [Felt; 16],
    /// How each limb of the input was read.
    pub input_records: [MemoryRecord; 16],
    /// How each limb of the result was written.
    pub result_records: [MemoryRecord; 16],
}

/// The record that stands in for every access of a synthetic event: a read of
/// zero at address zero and time zero.
pub open spec fn dummy_record() -> MemoryRecord {
    MemoryRecord {
        addr: felt_of(0),
        value: zero_block(),
        prev_value: zero_block(),
        timestamp: felt_of(0),
        prev_timestamp: felt_of(0),
        kind: MemoryAccessKind::Read,
    }
}

impl Poseidon2Event {
    /// A synthetic event that carries only an input, for exercising the
    /// permutation on its own. Its memory records describe no real access.
    pub fn dummy_from_input(input: [Felt; 16]) -> (r: Poseidon2Event)
        ensures
            r.clk == felt_of(0),
            r.dst == felt_of(0),
            r.left == felt_of(0),
            r.right == felt_of(0),
            r.input == input,
            forall|i: int| 0 <= i < WIDTH ==> r.result_array[i] == felt_of(0),
            forall|i: int| 0 <= i < WIDTH ==> r.input_records[i] == dummy_record(),
            forall|i: int| 0 <= i < WIDTH ==> r.result_records[i] == dummy_record(),
    {
        let z = Felt::zero();
        let d = MemoryRecord::new_read(z, Block::from_base(z), z, z);
        Poseidon2Event {
            clk: z,
            dst: z,
            left: z,
            right: z,
            input,
            result_array: [z, z, z, z, z, z, z, z, z, z, z, z, z, z, z, z],
            input_records: [d, d, d, d, d, d, d, d, d, d, d, d, d, d, d, d],
            result_records: [d, d, d, d, d, d, d, d, d, d, d, d, d, d, d, d],
        }
    }
}

} // verus!
