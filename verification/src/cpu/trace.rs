//! How the instruction-execution chip fills its table.
//!
//! Every event gives one row, in order. The table is then padded to its
//! canonical height with rows that are no instruction at all and yet keep the
//! clock running: a padding row selects the no-op, flags both operands as
//! immediates, and carries four times its row number as its clock.

use crate::air::ext_inverse_of;
use crate::air::ext_mul_spec;
use crate::air::ext_sub_spec;
use crate::air::one_block;
use crate::air::zero_block;
use crate::air::Block;
use crate::cpu::columns::flag;
use crate::cpu::columns::lemma_flat_layout;
use crate::cpu::columns::BranchCols;
use crate::cpu::columns::CpuCols;
use crate::cpu::columns::InstructionCols;
use crate::cpu::columns::IsExtZeroCols;
use crate::cpu::columns::MemoryAccessCols;
use crate::cpu::columns::MemoryCols;
use crate::cpu::columns::OpcodeSelectorCols;
use crate::cpu::columns::OpcodeSpecificCols;
use crate::cpu::columns::COL_A;
use crate::cpu::columns::COL_CLK;
use crate::cpu::columns::COL_IMM_B;
use crate::cpu::columns::COL_IMM_C;
use crate::cpu::columns::COL_IS_REAL;
use crate::cpu::columns::COL_SELECTORS;
use crate::cpu::columns::NUM_CPU_COLS;
use crate::cpu::CpuChip;
use crate::field::felt_of;
use crate::field::lemma_felt_of_view;
use crate::field::modulus;
use crate::field::Felt;
use crate::field::MODULUS;
use crate::matrix::height_of;
use crate::matrix::lemma_row_of_append;
use crate::matrix::lemma_row_of_update;
use crate::matrix::matrix_height;
use crate::matrix::matrix_row;
use crate::matrix::matrix_values;
use crate::matrix::matrix_width;
use crate::matrix::new_matrix;
use crate::matrix::row_of;
use crate::matrix::set_value;
use crate::runtime::CpuEvent;
use crate::runtime::ExecutionRecord;
use crate::runtime::Opcode;
use crate::runtime::NUM_OPCODES;
use crate::utils::lemma_padded_height;
use crate::utils::pad_rows;
use crate::utils::padded_height;
use p3_matrix::dense::RowMajorMatrix;
use vstd::prelude::*;

verus! {

/// Whether a branch is taken, given the difference of its operands: the
/// equality branch on zero, the two inequality branches on anything else.
pub open spec fn branch_taken(opcode: Opcode, diff: Block<Felt>) -> bool {
    if opcode == Opcode::BEQ {
        diff == zero_block()
    } else {
        diff != zero_block()
    }
}

/// The witness for the comparison: the inverse of the difference, and zero
/// where the difference has none.
pub open spec fn comparison_witness(diff: Block<Felt>) -> Block<Felt> {
    if diff == zero_block() {
        zero_block()
    } else {
        ext_inverse_of(diff)
    }
}

/// The columns of a branch, given the difference of its operands and the
/// witness for it.
pub open spec fn branch_cols_with(
    opcode: Opcode,
    pc: Felt,
    op_c: Block<Felt>,
    diff: Block<Felt>,
    witness: Block<Felt>,
) -> BranchCols {
    BranchCols {
        comparison_diff: IsExtZeroCols { inverse: witness, result: flag(diff == zero_block()) },
        comparison_diff_val: diff,
        do_branch: flag(branch_taken(opcode, diff)),
        next_pc: if branch_taken(opcode, diff) {
            pc.add_spec(op_c.0[0])
        } else {
            pc.add_spec(felt_of(1))
        },
    }
}

/// The columns of a branch on operands `a` and `b`.
pub open spec fn branch_cols(
    opcode: Opcode,
    pc: Felt,
    op_c: Block<Felt>,
    a: Block<Felt>,
    b: Block<Felt>,
) -> BranchCols {
    let diff = ext_sub_spec(a, b);
    branch_cols_with(opcode, pc, op_c, diff, comparison_witness(diff))
}

/// The region of a row that depends on the opcode: the branch columns for a
/// branch, else the memory columns where the event has a memory access, else
/// nothing.
pub open spec fn opcode_specific_cols(event: CpuEvent, a: Block<Felt>, b: Block<Felt>) -> OpcodeSpecificCols {
    if event.instruction.opcode.is_branch_spec() {
        OpcodeSpecificCols::Branch(
            branch_cols(event.instruction.opcode, event.pc, event.instruction.op_c, a, b),
        )
    } else {
        match event.memory_record {
            Some(record) => OpcodeSpecificCols::Memory(
                MemoryCols {
                    memory_addr: record.addr,
                    memory: MemoryAccessCols::of_record(record),
                },
            ),
            None => OpcodeSpecificCols::Unused,
        }
    }
}

/// The row of an event.
pub open spec fn event_cols(event: CpuEvent) -> CpuCols {
    let a = MemoryAccessCols::of_operand(event.a_record, zero_block());
    let b = MemoryAccessCols::of_operand(event.b_record, event.instruction.op_b);
    let c = MemoryAccessCols::of_operand(event.c_record, event.instruction.op_c);
    CpuCols {
        clk: event.clk,
        pc: event.pc,
        fp: event.fp,
        instruction: InstructionCols::of(event.instruction),
        selectors: OpcodeSelectorCols { selected: event.instruction.opcode },
        a,
        b,
        c,
        opcode_specific: opcode_specific_cols(event, a.value, b.value),
        is_real: felt_of(1),
    }
}

/// The row that selects the no-op and is zero everywhere else.
pub open spec fn noop_cols() -> CpuCols {
    CpuCols {
        clk: felt_of(0),
        pc: felt_of(0),
        fp: felt_of(0),
        instruction: InstructionCols {
            op_b: zero_block(),
            op_c: zero_block(),
            imm_b: felt_of(0),
            imm_c: felt_of(0),
        },
        selectors: OpcodeSelectorCols { selected: Opcode::NOOP },
        a: MemoryAccessCols::of_immediate(zero_block()),
        b: MemoryAccessCols::of_immediate(zero_block()),
        c: MemoryAccessCols::of_immediate(zero_block()),
        opcode_specific: OpcodeSpecificCols::Unused,
        is_real: felt_of(0),
    }
}

/// The padding row at position `r` of the table.
pub open spec fn padding_cols(r: int) -> CpuCols {
    CpuCols {
        clk: felt_of((4 * r) % modulus()),
        instruction: InstructionCols {
            op_b: zero_block(),
            op_c: zero_block(),
            imm_b: felt_of(1),
            imm_c: felt_of(1),
        },
        ..noop_cols()
    }
}

impl BranchCols {
    /// The columns of a branch, given the difference of its operands and the
    /// witness for it. Only a branch has such columns.
    pub fn populate_with(
        opcode: Opcode,
        pc: Felt,
        op_c: Block<Felt>,
        diff: Block<Felt>,
        witness: Block<Felt>,
    ) -> (cols: BranchCols)
        requires
            opcode.is_branch_spec(),
        ensures
            cols == branch_cols_with(opcode, pc, op_c, diff, witness),
    {
        let is_zero = diff.is_zero();
        let do_branch = match opcode {
            Opcode::BEQ => is_zero,
            _ => !is_zero,
        };
        let next_pc = if do_branch {
            pc.add(op_c.0[0])
        } else {
            pc.add(Felt::one())
        };
        BranchCols {
            comparison_diff: IsExtZeroCols { inverse: witness, result: Felt::from_bool(is_zero) },
            comparison_diff_val: diff,
            do_branch: Felt::from_bool(do_branch),
            next_pc,
        }
    }

    /// The columns of a branch on operands `a` and `b`. Where the operands
    /// differ, the witness is the inverse of their difference.
    pub fn populate(opcode: Opcode, pc: Felt, op_c: Block<Felt>, a: Block<Felt>, b: Block<Felt>) -> (cols:
        BranchCols)
        requires
            opcode.is_branch_spec(),
        ensures
            cols == branch_cols(opcode, pc, op_c, a, b),
            cols.comparison_diff_val != zero_block() ==> ext_mul_spec(
                cols.comparison_diff_val,
                cols.comparison_diff.inverse,
            ) == one_block(),
    {
        let diff = a.ext_sub(&b);
        let witness = if diff.is_zero() {
            Block::zero()
        } else {
            diff.ext_inverse()
        };
        BranchCols::populate_with(opcode, pc, op_c, diff, witness)
    }
}

impl CpuCols {
    /// The row of an event.
    pub fn from_event(event: &CpuEvent) -> (cols: CpuCols)
        ensures
            cols == event_cols(*event),
    {
        let a = MemoryAccessCols::operand(&event.a_record, Block::zero());
        let b = MemoryAccessCols::operand(&event.b_record, event.instruction.op_b);
        let c = MemoryAccessCols::operand(&event.c_record, event.instruction.op_c);
        let opcode_specific = if event.instruction.opcode.is_branch() {
            OpcodeSpecificCols::Branch(
                BranchCols::populate(
                    event.instruction.opcode,
                    event.pc,
                    event.instruction.op_c,
                    a.value,
                    b.value,
                ),
            )
        } else {
            match &event.memory_record {
                Some(record) => OpcodeSpecificCols::Memory(
                    MemoryCols {
                        memory_addr: record.addr,
                        memory: MemoryAccessCols::populate(record),
                    },
                ),
                None => OpcodeSpecificCols::Unused,
            }
        };
        CpuCols {
            clk: event.clk,
            pc: event.pc,
            fp: event.fp,
            instruction: InstructionCols::populate(&event.instruction),
            selectors: OpcodeSelectorCols::populate(&event.instruction),
            a,
            b,
            c,
            opcode_specific,
            is_real: Felt::one(),
        }
    }

    /// The row that selects the no-op and is zero everywhere else.
    pub fn noop() -> (cols: CpuCols)
        ensures
            cols == noop_cols(),
    {
        let z = Felt::zero();
        let zb = Block::zero();
        CpuCols {
            clk: z,
            pc: z,
            fp: z,
            instruction: InstructionCols { op_b: zb, op_c: zb, imm_b: z, imm_c: z },
            selectors: OpcodeSelectorCols { selected: Opcode::NOOP },
            a: MemoryAccessCols::immediate(zb),
            b: MemoryAccessCols::immediate(zb),
            c: MemoryAccessCols::immediate(zb),
            opcode_specific: OpcodeSpecificCols::Unused,
            is_real: z,
        }
    }
}

/// Writing the clock and the two immediate flags into the no-op row gives the
/// padding row.
proof fn lemma_padding_row(r: int)
    ensures
        noop_cols().flat().update(COL_CLK as int, felt_of((4 * r) % modulus())).update(
            COL_IMM_B as int,
            felt_of(1),
        ).update(COL_IMM_C as int, felt_of(1)) == padding_cols(r).flat(),
{
    lemma_flat_layout(noop_cols());
    lemma_flat_layout(padding_cols(r));
    let written = noop_cols().flat().update(COL_CLK as int, felt_of((4 * r) % modulus())).update(
        COL_IMM_B as int,
        felt_of(1),
    ).update(COL_IMM_C as int, felt_of(1));
    assert(written =~= padding_cols(r).flat());
}

/// Lays typed rows out as one row-major table.
fn flatten(rows: &Vec<CpuCols>) -> (values: Vec<Felt>)
    requires
        rows@.len() * NUM_CPU_COLS <= usize::MAX,
    ensures
        values@.len() == rows@.len() * NUM_CPU_COLS,
        forall|r: int|
            0 <= r < rows@.len() ==> #[trigger] row_of(values@, NUM_CPU_COLS as nat, r)
                == rows@[r].flat(),
{
    let mut values: Vec<Felt> = Vec::new();
    let mut i: usize = 0;
    while i < rows.len()
        invariant
            i <= rows@.len(),
            values@.len() == i * NUM_CPU_COLS,
            forall|r: int|
                0 <= r < i ==> #[trigger] row_of(values@, NUM_CPU_COLS as nat, r)
                    == rows@[r].flat(),
        decreases rows@.len() - i,
    {
        let ghost before = values@;
        rows[i].append_to(&mut values);
        proof {
            let row = rows@[i as int].flat();
            lemma_flat_layout(rows@[i as int]);
            lemma_row_of_append(before, NUM_CPU_COLS as nat, i as nat, row);
            assert(row.subrange(0, NUM_CPU_COLS as int) =~= row);
        }
        i = i + 1;
    }
    values
}

impl CpuChip {
    /// The name under which the chip's table is committed.
    pub fn name(&self) -> (r: String)
        ensures
            r@ == "CPU"@,
    {
        "CPU".to_owned()
    }

    /// The chip takes part in every shard's proof.
    pub fn included(&self, shard: &ExecutionRecord) -> (r: bool)
        ensures
            r,
    {
        true
    }

    /// Nothing is derived from one shard for another: the record is complete
    /// when the chips see it.
    pub fn generate_dependencies(&self, input: &ExecutionRecord, output: &mut ExecutionRecord)
        ensures
            *final(output) == *old(output),
    {
    }

    /// Row `r` of the chip's table for a shard: the row of the `r`-th event,
    /// and a padding row after the last event.
    pub open spec fn row_spec(input: ExecutionRecord, r: int) -> Seq<Felt> {
        if 0 <= r < input.cpu_events@.len() {
            event_cols(input.cpu_events@[r]).flat()
        } else {
            padding_cols(r).flat()
        }
    }

    /// The typed rows of the events, in order.
    fn event_rows(input: &ExecutionRecord) -> (rows: Vec<CpuCols>)
        ensures
            rows@.len() == input.cpu_events@.len(),
            forall|r: int| 0 <= r < rows@.len() ==> rows@[r] == event_cols(input.cpu_events@[r]),
    {
        let mut rows: Vec<CpuCols> = Vec::new();
        let mut i: usize = 0;
        while i < input.cpu_events.len()
            invariant
                i <= input.cpu_events@.len(),
                rows@.len() == i,
                forall|r: int| 0 <= r < i ==> rows@[r] == event_cols(input.cpu_events@[r]),
            decreases input.cpu_events@.len() - i,
        {
            rows.push(CpuCols::from_event(&input.cpu_events[i]));
            i = i + 1;
        }
        rows
    }

    /// The chip's table for a shard: one row per event, in order, then
    /// padding rows up to the canonical height.
    pub fn generate_trace(&self, input: &ExecutionRecord, output: &mut ExecutionRecord) -> (trace:
        RowMajorMatrix<Felt>)
        requires
            padded_height(input.cpu_events@.len()) * NUM_CPU_COLS <= usize::MAX,
            padded_height(input.cpu_events@.len()) <= MODULUS,
        ensures
            *final(output) == *old(output),
            matrix_width(trace) == NUM_CPU_COLS,
            matrix_height(trace) == padded_height(input.cpu_events@.len()),
            matrix_height(trace) >= input.cpu_events@.len(),
            matrix_values(trace).len() == matrix_height(trace) * NUM_CPU_COLS,
            forall|r: int|
                0 <= r < matrix_height(trace) ==> #[trigger] matrix_row(trace, r)
                    == CpuChip::row_spec(*input, r),
    {
        let n = input.cpu_events.len();
        let ghost h = padded_height(n as nat);
        let ghost w = NUM_CPU_COLS as nat;
        proof {
            lemma_padded_height(n as nat);
            assert(h <= h * NUM_CPU_COLS) by (nonlinear_arith)
                requires
                    h >= 0,
            ;
        }
        let mut rows = CpuChip::event_rows(input);
        pad_rows(&mut rows, CpuCols::noop());
        let values = flatten(&rows);
        let mut trace = new_matrix(values, NUM_CPU_COLS);
        let height = height_of(&trace);
        proof {
            assert(height == h) by (nonlinear_arith)
                requires
                    height == (h * 69) / 69,
            ;
            assert forall|r: int| 0 <= r < h implies #[trigger] matrix_row(trace, r) == (if r < n {
                event_cols(input.cpu_events@[r]).flat()
            } else {
                noop_cols().flat()
            }) by {
                assert(matrix_row(trace, r) == rows@[r].flat());
            }
        }
        let mut i: usize = n;
        while i < height
            invariant
                n <= i <= height,
                height == h,
                h <= MODULUS,
                w == NUM_CPU_COLS,
                n == input.cpu_events@.len(),
                matrix_width(trace) == NUM_CPU_COLS,
                matrix_values(trace).len() == h * NUM_CPU_COLS,
                h * NUM_CPU_COLS <= usize::MAX,
                forall|r: int|
                    0 <= r < i ==> #[trigger] row_of(matrix_values(trace), w, r)
                        == CpuChip::row_spec(*input, r),
                forall|r: int|
                    i <= r < h ==> #[trigger] row_of(matrix_values(trace), w, r)
                        == noop_cols().flat(),
            decreases height - i,
        {
            let clk = Felt::from_canonical_u32(4).mul(Felt::from_canonical_usize(i));
            let one = Felt::from_canonical_u32(1);
            let ghost v0 = matrix_values(trace);
            let ghost at = i as int;
            proof {
                lemma_felt_of_view(4);
                lemma_felt_of_view(at);
                assert(clk == felt_of((4 * at) % modulus()));
                assert(row_of(v0, w, at) == noop_cols().flat());
                lemma_flat_layout(noop_cols());
                lemma_row_of_update(v0, w, h, at, COL_CLK as int, clk);
            }
            set_value(&mut trace, i * NUM_CPU_COLS + COL_CLK, clk);
            let ghost v1 = matrix_values(trace);
            proof {
                assert(v1 == v0.update(at * w + COL_CLK as int, clk));
                lemma_row_of_update(v1, w, h, at, COL_IMM_B as int, one);
            }
            set_value(&mut trace, i * NUM_CPU_COLS + COL_IMM_B, one);
            let ghost v2 = matrix_values(trace);
            proof {
                assert(v2 == v1.update(at * w + COL_IMM_B as int, one));
                lemma_row_of_update(v2, w, h, at, COL_IMM_C as int, one);
            }
            set_value(&mut trace, i * NUM_CPU_COLS + COL_IMM_C, one);
            proof {
                let v3 = matrix_values(trace);
                assert(v3 == v2.update(at * w + COL_IMM_C as int, one));
                lemma_padding_row(at);
                assert(row_of(v1, w, at) == noop_cols().flat().update(COL_CLK as int, clk));
                assert(row_of(v2, w, at) == row_of(v1, w, at).update(COL_IMM_B as int, one));
                assert(row_of(v3, w, at) == row_of(v2, w, at).update(COL_IMM_C as int, one));
                assert(row_of(v3, w, at) == padding_cols(at).flat());
                assert forall|r: int| 0 <= r < h && r != at implies #[trigger] row_of(v3, w, r)
                    == row_of(v0, w, r) by {
                    assert(row_of(v1, w, r) == row_of(v0, w, r));
                    assert(row_of(v2, w, r) == row_of(v1, w, r));
                }
                assert forall|r: int| 0 <= r < at + 1 implies #[trigger] row_of(v3, w, r)
                    == CpuChip::row_spec(*input, r) by {
                    if r != at {
                        assert(row_of(v3, w, r) == row_of(v0, w, r));
                    }
                }
                assert forall|r: int| at + 1 <= r < h implies #[trigger] row_of(v3, w, r)
                    == noop_cols().flat() by {
                    assert(row_of(v3, w, r) == row_of(v0, w, r));
                }
            }
            i = i + 1;
        }
        trace
    }
}

/// A real row has its flag set, a padding row has it cleared.
pub proof fn lemma_is_real_flag(event: CpuEvent, r: int)
    ensures
        event_cols(event).flat()[COL_IS_REAL as int] == felt_of(1),
        padding_cols(r).flat()[COL_IS_REAL as int] == felt_of(0),
        event_cols(event).flat().len() == NUM_CPU_COLS,
        padding_cols(r).flat().len() == NUM_CPU_COLS,
{
    lemma_flat_layout(event_cols(event));
    lemma_flat_layout(padding_cols(r));
}

/// A padding row selects the no-op, flags both operands as immediates, and
/// is zero in every other column but its clock.
pub proof fn lemma_padding_shape(r: int)
    ensures
        padding_cols(r).flat()[COL_IMM_B as int] == felt_of(1),
        padding_cols(r).flat()[COL_IMM_C as int] == felt_of(1),
        padding_cols(r).flat()[COL_SELECTORS + Opcode::NOOP.index_spec()] == felt_of(1),
        forall|c: int|
            0 <= c < NUM_CPU_COLS && c != COL_CLK && c != COL_IMM_B && c != COL_IMM_C && c
                != COL_SELECTORS + Opcode::NOOP.index_spec() ==> #[trigger] padding_cols(
                r,
            ).flat()[c] == felt_of(0),
{
    lemma_flat_layout(padding_cols(r));
}

/// The clock of a padding row is four times its row number, so from one
/// padding row to the next the clock grows by exactly four, wherever the
/// real rows ended.
pub proof fn lemma_padding_clock(r: int)
    requires
        0 <= r,
    ensures
        padding_cols(r).flat()[COL_CLK as int]@ == (4 * r) % modulus(),
        4 * r < modulus() ==> padding_cols(r).flat()[COL_CLK as int]@ == 4 * r,
        padding_cols(r + 1).flat()[COL_CLK as int] == padding_cols(r).flat()[COL_CLK as int].add_spec(
            felt_of(4),
        ),
{
    lemma_flat_layout(padding_cols(r));
    lemma_flat_layout(padding_cols(r + 1));
    lemma_felt_of_view(4);
    lemma_felt_of_view((4 * r) % modulus());
    vstd::arithmetic::div_mod::lemma_add_mod_noop(4 * r, 4, modulus());
    vstd::arithmetic::div_mod::lemma_small_mod(4, modulus() as nat);
    assert(4 * (r + 1) == 4 * r + 4);
    if 4 * r < modulus() {
        vstd::arithmetic::div_mod::lemma_small_mod((4 * r) as nat, modulus() as nat);
    }
}

/// A branch on equal operands: the equality branch is taken and goes to the
/// program counter plus the immediate of operand `c`; an inequality branch
/// is not taken and goes to the next instruction.
pub proof fn lemma_branch_on_equal_operands(
    opcode: Opcode,
    pc: Felt,
    op_c: Block<Felt>,
    a: Block<Felt>,
)
    requires
        opcode.is_branch_spec(),
    ensures
        opcode == Opcode::BEQ ==> branch_cols(opcode, pc, op_c, a, a).do_branch == felt_of(1)
            && branch_cols(opcode, pc, op_c, a, a).next_pc == pc.add_spec(op_c.0[0]),
        opcode != Opcode::BEQ ==> branch_cols(opcode, pc, op_c, a, a).do_branch == felt_of(0)
            && branch_cols(opcode, pc, op_c, a, a).next_pc == pc.add_spec(felt_of(1)),
{
    assert(ext_sub_spec(a, a) == zero_block());
}

/// The region that depends on the opcode never holds both a memory access
/// and a branch: a branch has the branch columns, and any other instruction
/// the memory columns exactly where it accessed memory.
pub proof fn lemma_opcode_specific_exclusive(event: CpuEvent)
    ensures
        event_cols(event).opcode_specific is Branch <==> event.instruction.opcode.is_branch_spec(),
        event_cols(event).opcode_specific is Memory <==> !event.instruction.opcode.is_branch_spec()
            && event.memory_record is Some,
{
}

/// Every row of the table, real or padding, selects exactly one opcode: a
/// real row that of its instruction, a padding row the no-op.
pub proof fn lemma_one_selector_per_row(input: ExecutionRecord, r: int)
    requires
        0 <= r,
    ensures
        forall|j: int|
            0 <= j < NUM_OPCODES ==> #[trigger] CpuChip::row_spec(input, r)[COL_SELECTORS + j]
                == flag(
                j == (if r < input.cpu_events@.len() {
                    input.cpu_events@[r].instruction.opcode.index_spec()
                } else {
                    Opcode::NOOP.index_spec()
                }),
            ),
{
    let cols = if r < input.cpu_events@.len() {
        event_cols(input.cpu_events@[r])
    } else {
        padding_cols(r)
    };
    lemma_flat_layout(cols);
    assert forall|j: int| 0 <= j < NUM_OPCODES implies #[trigger] cols.flat()[COL_SELECTORS + j]
        == cols.selectors.flat()[j] by {
        assert(cols.flat().subrange(COL_SELECTORS as int, COL_A as int)[j] == cols.flat()[
            COL_SELECTORS + j
        ]);
    }
}

} // verus!
