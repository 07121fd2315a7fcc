//! The memory-consistency chip: one table for the first touch of every
//! address in a shard, one for the last, and the lookups that tie them to
//! every access in between.

use crate::air::Block;
use crate::field::felt_of;
use crate::field::Felt;
use crate::matrix::lemma_row_of_append;
use crate::matrix::matrix_height;
use crate::matrix::matrix_row;
use crate::matrix::matrix_values;
use crate::matrix::matrix_width;
use crate::matrix::new_matrix;
use crate::matrix::row_of;
use crate::runtime::ExecutionRecord;
use crate::utils::pad_to_power_of_two;
use crate::utils::padded_height;
use crate::utils::repeat;
use p3_matrix::dense::RowMajorMatrix;
use vstd::prelude::*;

verus! {

/// The number of columns of both memory tables.
pub const NUM_MEMORY_INIT_COLS: usize = 7;

/// Which of the two memory tables a chip produces.
#[derive(Clone, Copy, Debug, PartialEq, Eq, Structural)]
pub enum MemoryChipKind {
    Init,
    Finalize,
}

/// The chip for one of the two memory tables.
#[derive(Clone, Copy, Debug, PartialEq, Eq, Structural)]
pub struct MemoryGlobalChip {
    pub kind: MemoryChipKind,
}

/// One row of a memory table.
#[derive(Clone, Copy, Debug)]
pub struct MemoryInitCols<T> {
    pub addr: T,
    pub timestamp: T,
    pub value: Block<T>,
    pub is_real: T,
}

/// What a lookup is about.
#[derive(Clone, Copy, Debug, PartialEq, Eq, Structural)]
pub enum InteractionKind {
    Memory,
    Program,
    Instruction,
    Alu,
    Byte,
    Range,
    Field,
    Syscall,
}

/// One side of a lookup: a tuple, how many times it is counted, and the
/// lookup it belongs to.
#[derive(Clone, Debug)]
pub struct AirInteraction<E> {
    pub values: Vec<E>,
    pub multiplicity: E,
    pub kind: InteractionKind,
}

/// A declared lookup: the tuple is either handed to the lookup or taken from
/// it.
#[derive(Clone, Debug)]
pub enum Lookup<E> {
    Send(AirInteraction<E>),
    Receive(AirInteraction<E>),
}

impl<E> Lookup<E> {
    /// The interaction, whichever way it goes.
    pub open spec fn interaction(self) -> AirInteraction<E> {
        match self {
            Lookup::Send(i) => i,
            Lookup::Receive(i) => i,
        }
    }
}

impl<T> MemoryInitCols<T> {
    /// The row as it lies in the table: address, timestamp, the four limbs of
    /// the value, and the flag.
    pub open spec fn flat(self) -> Seq<T> {
        seq![
            self.addr,
            self.timestamp,
            self.value.0[0],
            self.value.0[1],
            self.value.0[2],
            self.value.0[3],
            self.is_real,
        ]
    }

    /// The tuple that the row contributes to the memory lookup: timestamp,
    /// address, and the four limbs of the value.
    pub open spec fn tuple(self) -> Seq<T> {
        seq![
            self.timestamp,
            self.addr,
            self.value.0[0],
            self.value.0[1],
            self.value.0[2],
            self.value.0[3],
        ]
    }
}

impl<T> MemoryInitCols<T> {
    /// The columns of a row of the table.
    pub open spec fn of_row(row: Seq<T>) -> MemoryInitCols<T> {
        MemoryInitCols {
            addr: row[0],
            timestamp: row[1],
            value: Block([row[2], row[3], row[4], row[5]]),
            is_real: row[6],
        }
    }
}

impl<T: Copy> MemoryInitCols<T> {
    /// Reads the columns of one row of the table.
    pub fn from_row(row: &[T]) -> (cols: MemoryInitCols<T>)
        requires
            row@.len() == NUM_MEMORY_INIT_COLS,
        ensures
            cols == MemoryInitCols::of_row(row@),
            cols.flat() == row@,
    {
        let cols = MemoryInitCols {
            addr: row[0],
            timestamp: row[1],
            value: Block([row[2], row[3], row[4], row[5]]),
            is_real: row[6],
        };
        assert(cols.flat() =~= row@);
        cols
    }

    /// Appends the row to a row-major table.
    pub fn append_to(&self, values: &mut Vec<T>)
        ensures
            final(values)@ == old(values)@ + self.flat(),
    {
        values.push(self.addr);
        values.push(self.timestamp);
        values.push(self.value.0[0]);
        values.push(self.value.0[1]);
        values.push(self.value.0[2]);
        values.push(self.value.0[3]);
        values.push(self.is_real);
        assert(values@ =~= old(values)@ + self.flat());
    }
}

/// The row for the first touch of an address: the value it held at time zero.
pub open spec fn init_cols(entry: (Felt, Block<Felt>)) -> MemoryInitCols<Felt> {
    MemoryInitCols { addr: entry.0, timestamp: felt_of(0), value: entry.1, is_real: felt_of(1) }
}

/// The row for the last touch of an address: when it happened, and the value
/// it left.
pub open spec fn finalize_cols(entry: (Felt, Felt, Block<Felt>)) -> MemoryInitCols<Felt> {
    MemoryInitCols { addr: entry.0, timestamp: entry.1, value: entry.2, is_real: felt_of(1) }
}

/// A padding row: every column zero, the flag included.
pub open spec fn padding_row() -> Seq<Felt> {
    repeat(felt_of(0), NUM_MEMORY_INIT_COLS as nat)
}

impl MemoryGlobalChip {
    /// The chip for the given table.
    pub fn new(kind: MemoryChipKind) -> (r: MemoryGlobalChip)
        ensures
            r.kind == kind,
    {
        Self { kind }
    }

    /// The name under which the chip's table is committed.
    pub fn name(&self) -> (r: String)
        ensures
            r@ == (match self.kind {
                MemoryChipKind::Init => "MemoryInit"@,
                MemoryChipKind::Finalize => "MemoryFinalize"@,
            }),
    {
        match self.kind {
            MemoryChipKind::Init => "MemoryInit".to_owned(),
            MemoryChipKind::Finalize => "MemoryFinalize".to_owned(),
        }
    }

    /// The number of columns of the chip's table.
    pub fn width(&self) -> (r: usize)
        ensures
            r == NUM_MEMORY_INIT_COLS,
    {
        NUM_MEMORY_INIT_COLS
    }

    /// How many real rows the chip has for a shard.
    pub open spec fn num_real_rows(self, input: ExecutionRecord) -> nat {
        match self.kind {
            MemoryChipKind::Init => input.first_memory_record@.len(),
            MemoryChipKind::Finalize => input.last_memory_record@.len(),
        }
    }

    /// Row `r` of the chip's table for a shard: a real row for each entry of
    /// the chip's map, in the map's order, and padding after them.
    pub open spec fn row_spec(self, input: ExecutionRecord, r: int) -> Seq<Felt> {
        if 0 <= r < self.num_real_rows(input) {
            match self.kind {
                MemoryChipKind::Init => init_cols(input.first_memory_record@[r]).flat(),
                MemoryChipKind::Finalize => finalize_cols(input.last_memory_record@[r]).flat(),
            }
        } else {
            padding_row()
        }
    }

    /// The chip takes part in a shard's proof only if its map is not empty.
    pub fn included(&self, shard: &ExecutionRecord) -> (r: bool)
        ensures
            r == (self.num_real_rows(*shard) > 0),
    {
        match self.kind {
            MemoryChipKind::Init => !shard.first_memory_record.is_empty(),
            MemoryChipKind::Finalize => !shard.last_memory_record.is_empty(),
        }
    }

    /// Nothing is derived from one shard for another: the record is complete
    /// when the chips see it.
    pub fn generate_dependencies(&self, input: &ExecutionRecord, output: &mut ExecutionRecord)
        ensures
            *final(output) == *old(output),
    {
    }

    /// The real rows of the chip's table, row after row, without padding.
    fn real_rows(&self, input: &ExecutionRecord) -> (values: Vec<Felt>)
        requires
            self.num_real_rows(*input) * NUM_MEMORY_INIT_COLS <= usize::MAX,
        ensures
            values@.len() == self.num_real_rows(*input) * NUM_MEMORY_INIT_COLS,
            forall|r: int|
                0 <= r < self.num_real_rows(*input) ==> #[trigger] row_of(
                    values@,
                    NUM_MEMORY_INIT_COLS as nat,
                    r,
                ) == self.row_spec(*input, r),
    {
        let mut values: Vec<Felt> = Vec::new();
        let n = match self.kind {
            MemoryChipKind::Init => input.first_memory_record.len(),
            MemoryChipKind::Finalize => input.last_memory_record.len(),
        };
        let mut i: usize = 0;
        while i < n
            invariant
                i <= n,
                n == self.num_real_rows(*input),
                values@.len() == i * NUM_MEMORY_INIT_COLS,
                forall|r: int|
                    0 <= r < i ==> #[trigger] row_of(values@, NUM_MEMORY_INIT_COLS as nat, r)
                        == self.row_spec(*input, r),
            decreases n - i,
        {
            let cols = match self.kind {
                MemoryChipKind::Init => {
                    let entry = input.first_memory_record[i];
                    MemoryInitCols {
                        addr: entry.0,
                        timestamp: Felt::zero(),
                        value: entry.1,
                        is_real: Felt::one(),
                    }
                },
                MemoryChipKind::Finalize => {
                    let entry = input.last_memory_record[i];
                    MemoryInitCols {
                        addr: entry.0,
                        timestamp: entry.1,
                        value: entry.2,
                        is_real: Felt::one(),
                    }
                },
            };
            let ghost before = values@;
            cols.append_to(&mut values);
            proof {
                lemma_row_of_append(before, NUM_MEMORY_INIT_COLS as nat, i as nat, cols.flat());
                assert(cols.flat().subrange(0, NUM_MEMORY_INIT_COLS as int) =~= cols.flat());
                assert(cols.flat() == self.row_spec(*input, i as int));
            }
            i = i + 1;
        }
        values
    }

    /// The chip's table for a shard: its real rows, then zero rows up to the
    /// canonical height.
    pub fn generate_trace(&self, input: &ExecutionRecord, output: &mut ExecutionRecord) -> (trace:
        RowMajorMatrix<Felt>)
        requires
            padded_height(self.num_real_rows(*input)) * NUM_MEMORY_INIT_COLS <= usize::MAX,
        ensures
            *final(output) == *old(output),
            matrix_width(trace) == NUM_MEMORY_INIT_COLS,
            matrix_height(trace) == padded_height(self.num_real_rows(*input)),
            matrix_height(trace) >= self.num_real_rows(*input),
            matrix_values(trace).len() == matrix_height(trace) * NUM_MEMORY_INIT_COLS,
            forall|r: int|
                0 <= r < matrix_height(trace) ==> #[trigger] matrix_row(trace, r) == self.row_spec(
                    *input,
                    r,
                ),
    {
        let ghost n = self.num_real_rows(*input);
        let ghost h = padded_height(n);
        proof {
            crate::utils::lemma_padded_height(n);
            assert(n * NUM_MEMORY_INIT_COLS <= h * NUM_MEMORY_INIT_COLS) by (nonlinear_arith)
                requires
                    n <= h,
            ;
        }
        let mut values = self.real_rows(input);
        let ghost filled = values@;
        proof {
            assert(filled.len() % (NUM_MEMORY_INIT_COLS as nat) == 0 && filled.len() / (
            NUM_MEMORY_INIT_COLS as nat) == n) by (nonlinear_arith)
                requires
                    filled.len() == n * NUM_MEMORY_INIT_COLS,
                    NUM_MEMORY_INIT_COLS == 7,
            ;
        }
        pad_to_power_of_two::<NUM_MEMORY_INIT_COLS>(&mut values);
        let trace = new_matrix(values, NUM_MEMORY_INIT_COLS);
        proof {
            let all = matrix_values(trace);
            let w = NUM_MEMORY_INIT_COLS as nat;
            let zeros = repeat(felt_of(0), (h * w - filled.len()) as nat);
            assert(all == filled + zeros);
            assert(all.len() == h * w);
            assert(matrix_height(trace) == h) by (nonlinear_arith)
                requires
                    matrix_height(trace) == (h * 7) / 7,
            ;
            lemma_row_of_append(filled, w, n, zeros);
            assert forall|r: int| 0 <= r < h implies #[trigger] matrix_row(trace, r)
                == self.row_spec(*input, r) by {
                if r >= n {
                    assert(row_of(all, w, r) =~= padding_row());
                }
            }
        }
        trace
    }

    /// The lookup that a row of the chip's table declares. The first-touch
    /// table hands its tuples to the memory lookup, the last-touch table
    /// takes its tuples from it; a row counts as often as its flag says.
    pub fn eval<T: Copy>(&self, local: &MemoryInitCols<T>) -> (r: Lookup<T>)
        ensures
            r is Send <==> self.kind == MemoryChipKind::Init,
            r.interaction().values@ == local.tuple(),
            r.interaction().multiplicity == local.is_real,
            r.interaction().kind == InteractionKind::Memory,
    {
        let mut values: Vec<T> = Vec::new();
        values.push(local.timestamp);
        values.push(local.addr);
        values.push(local.value.0[0]);
        values.push(local.value.0[1]);
        values.push(local.value.0[2]);
        values.push(local.value.0[3]);
        assert(values@ =~= local.tuple());
        let interaction = AirInteraction {
            values,
            multiplicity: local.is_real,
            kind: InteractionKind::Memory,
        };
        match self.kind {
            MemoryChipKind::Init => Lookup::Send(interaction),
            MemoryChipKind::Finalize => Lookup::Receive(interaction),
        }
    }
}

} // verus!
