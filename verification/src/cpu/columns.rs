//! The columns of the instruction-execution table.
//!
//! A row is held as a typed value and laid out flat only when it enters the
//! table. The region that depends on the opcode is a tagged union: a row
//! carries the columns of a memory access, or those of a branch, or neither.

use crate::air::block_flat;
use crate::air::zero_block;
use crate::air::Block;
use crate::field::felt_of;
use crate::field::Felt;
use crate::runtime::Instruction;
use crate::runtime::MemoryRecord;
use crate::runtime::Opcode;
use crate::runtime::NUM_OPCODES;
use crate::utils::repeat;
use vstd::prelude::*;

verus! {

/// The width of the instruction-execution table.
pub const NUM_CPU_COLS: usize = 69;

/// The column of the clock.
pub const COL_CLK: usize = 0;

/// The column of the program counter.
pub const COL_PC: usize = 1;

/// The column of the frame pointer.
pub const COL_FP: usize = 2;

/// The first column of the instruction.
pub const COL_INSTRUCTION: usize = 3;

/// The column of the flag that operand `b` is an immediate.
pub const COL_IMM_B: usize = 11;

/// The column of the flag that operand `c` is an immediate.
pub const COL_IMM_C: usize = 12;

/// The first selector column.
pub const COL_SELECTORS: usize = 13;

/// The first column of operand `a`.
pub const COL_A: usize = 30;

/// The first column of operand `b`.
pub const COL_B: usize = 39;

/// The first column of operand `c`.
pub const COL_C: usize = 48;

/// The first column of the region that depends on the opcode.
pub const COL_OPCODE_SPECIFIC: usize = 57;

/// The width of the region that depends on the opcode.
pub const NUM_OPCODE_SPECIFIC_COLS: usize = 11;

/// The column of the flag that tells real rows from padding.
pub const COL_IS_REAL: usize = 68;

/// The columns of an instruction: the two immediates and their flags.
#[derive(Clone, Copy, Debug)]
pub struct InstructionCols {
    pub op_b: Block<Felt>,
    pub op_c: Block<Felt>,
    pub imm_b: Felt,
    pub imm_c: Felt,
}

/// The selector columns: one per opcode, exactly one of them set.
#[derive(Clone, Copy, Debug)]
pub struct OpcodeSelectorCols {
    /// The opcode whose selector is set.
    pub selected: Opcode,
}

/// The columns of one access: the value, and what was there before and when.
#[derive(Clone, Copy, Debug)]
pub struct MemoryAccessCols {
    pub value: Block<Felt>,
    pub prev_value: Block<Felt>,
    pub prev_timestamp: Felt,
}

/// The columns of a load or a store.
#[derive(Clone, Copy, Debug)]
pub struct MemoryCols {
    pub memory_addr: Felt,
    pub memory: MemoryAccessCols,
}

/// The columns that show whether an extension-field element is zero: its
/// inverse where it has one, and the verdict.
#[derive(Clone, Copy, Debug)]
pub struct IsExtZeroCols {
    pub inverse: Block<Felt>,
    pub result: Felt,
}

/// The columns of a branch.
#[derive(Clone, Copy, Debug)]
pub struct BranchCols {
    /// The witness for the comparison.
    pub comparison_diff: IsExtZeroCols,
    /// The difference of the two operands.
    pub comparison_diff_val: Block<Felt>,
    /// Whether the branch is taken.
    pub do_branch: Felt,
    /// The program counter after the instruction.
    pub next_pc: Felt,
}

/// The region that depends on the opcode.
#[derive(Clone, Copy, Debug)]
pub enum OpcodeSpecificCols {
    /// The instruction neither accesses memory nor branches.
    Unused,
    /// The instruction is a load or a store.
    Memory(MemoryCols),
    /// The instruction is a branch.
    Branch(BranchCols),
}

/// One row of the instruction-execution table.
#[derive(Clone, Copy, Debug)]
pub struct CpuCols {
    pub clk: Felt,
    pub pc: Felt,
    pub fp: Felt,
    pub instruction: InstructionCols,
    pub selectors: OpcodeSelectorCols,
    pub a: MemoryAccessCols,
    pub b: MemoryAccessCols,
    pub c: MemoryAccessCols,
    pub opcode_specific: OpcodeSpecificCols,
    pub is_real: Felt,
}

/// The field element for a flag.
pub open spec fn flag(b: bool) -> Felt {
    felt_of(if b { 1 } else { 0 })
}

impl InstructionCols {
    /// The columns as they lie in the table.
    pub open spec fn flat(self) -> Seq<Felt> {
        block_flat(self.op_b) + block_flat(self.op_c) + seq![self.imm_b, self.imm_c]
    }

    /// The columns of an instruction.
    pub open spec fn of(instruction: Instruction) -> InstructionCols {
        InstructionCols {
            op_b: instruction.op_b,
            op_c: instruction.op_c,
            imm_b: flag(instruction.imm_b),
            imm_c: flag(instruction.imm_c),
        }
    }

    /// The columns of an instruction.
    pub fn populate(instruction: &Instruction) -> (cols: InstructionCols)
        ensures
            cols == InstructionCols::of(*instruction),
    {
        InstructionCols {
            op_b: instruction.op_b,
            op_c: instruction.op_c,
            imm_b: Felt::from_bool(instruction.imm_b),
            imm_c: Felt::from_bool(instruction.imm_c),
        }
    }

    /// Appends the columns to a row-major table.
    pub fn append_to(&self, values: &mut Vec<Felt>)
        ensures
            final(values)@ == old(values)@ + self.flat(),
    {
        self.op_b.append_to(values);
        self.op_c.append_to(values);
        values.push(self.imm_b);
        values.push(self.imm_c);
        assert(values@ =~= old(values)@ + self.flat());
    }
}

impl OpcodeSelectorCols {
    /// The columns as they lie in the table: one where the position is that
    /// of the selected opcode, zero elsewhere.
    pub open spec fn flat(self) -> Seq<Felt> {
        Seq::new(NUM_OPCODES as nat, |j: int| flag(j == self.selected.index_spec()))
    }

    /// The selectors of an instruction.
    pub fn populate(instruction: &Instruction) -> (cols: OpcodeSelectorCols)
        ensures
            cols.selected == instruction.opcode,
    {
        OpcodeSelectorCols { selected: instruction.opcode }
    }

    /// Appends the columns to a row-major table.
    pub fn append_to(&self, values: &mut Vec<Felt>)
        ensures
            final(values)@ == old(values)@ + self.flat(),
    {
        let hot = self.selected.index();
        let mut j: usize = 0;
        while j < NUM_OPCODES
            invariant
                j <= NUM_OPCODES,
                hot == self.selected.index_spec(),
                values@ == old(values)@ + self.flat().subrange(0, j as int),
            decreases NUM_OPCODES - j,
        {
            values.push(Felt::from_bool(j == hot));
            j = j + 1;
            assert(values@ =~= old(values)@ + self.flat().subrange(0, j as int));
        }
        assert(self.flat().subrange(0, NUM_OPCODES as int) =~= self.flat());
    }
}

impl MemoryAccessCols {
    /// The columns as they lie in the table.
    pub open spec fn flat(self) -> Seq<Felt> {
        block_flat(self.value) + block_flat(self.prev_value) + seq![self.prev_timestamp]
    }

    /// The columns of an operand that was read or written in memory.
    pub open spec fn of_record(record: MemoryRecord) -> MemoryAccessCols {
        MemoryAccessCols {
            value: record.value,
            prev_value: record.prev_value,
            prev_timestamp: record.prev_timestamp,
        }
    }

    /// The columns of an operand given as an immediate: the value, and no
    /// earlier access.
    pub open spec fn of_immediate(value: Block<Felt>) -> MemoryAccessCols {
        MemoryAccessCols { value, prev_value: zero_block(), prev_timestamp: felt_of(0) }
    }

    /// The columns of an operand: from its record where it has one, else from
    /// the immediate.
    pub open spec fn of_operand(record: Option<MemoryRecord>, immediate: Block<Felt>) -> MemoryAccessCols {
        match record {
            Some(r) => MemoryAccessCols::of_record(r),
            None => MemoryAccessCols::of_immediate(immediate),
        }
    }

    /// The columns of an operand that was read or written in memory.
    pub fn populate(record: &MemoryRecord) -> (cols: MemoryAccessCols)
        ensures
            cols == MemoryAccessCols::of_record(*record),
    {
        MemoryAccessCols {
            value: record.value,
            prev_value: record.prev_value,
            prev_timestamp: record.prev_timestamp,
        }
    }

    /// The columns of an operand given as an immediate.
    pub fn immediate(value: Block<Felt>) -> (cols: MemoryAccessCols)
        ensures
            cols == MemoryAccessCols::of_immediate(value),
    {
        MemoryAccessCols { value, prev_value: Block::zero(), prev_timestamp: Felt::zero() }
    }

    /// The columns of an operand: from its record where it has one, else from
    /// the immediate.
    pub fn operand(record: &Option<MemoryRecord>, immediate: Block<Felt>) -> (cols:
        MemoryAccessCols)
        ensures
            cols == MemoryAccessCols::of_operand(*record, immediate),
    {
        match record {
            Some(r) => MemoryAccessCols::populate(r),
            None => MemoryAccessCols::immediate(immediate),
        }
    }

    /// Appends the columns to a row-major table.
    pub fn append_to(&self, values: &mut Vec<Felt>)
        ensures
            final(values)@ == old(values)@ + self.flat(),
    {
        self.value.append_to(values);
        self.prev_value.append_to(values);
        values.push(self.prev_timestamp);
        assert(values@ =~= old(values)@ + self.flat());
    }
}

impl MemoryCols {
    /// The columns as they lie in the region, which they fill but for its
    /// last column.
    pub open spec fn flat(self) -> Seq<Felt> {
        seq![self.memory_addr] + self.memory.flat() + seq![felt_of(0)]
    }
}

impl BranchCols {
    /// The columns as they lie in the region.
    pub open spec fn flat(self) -> Seq<Felt> {
        block_flat(self.comparison_diff.inverse) + seq![self.comparison_diff.result] + block_flat(
            self.comparison_diff_val,
        ) + seq![self.do_branch, self.next_pc]
    }
}

impl OpcodeSpecificCols {
    /// The region as it lies in the table.
    pub open spec fn flat(self) -> Seq<Felt> {
        match self {
            OpcodeSpecificCols::Unused => repeat(felt_of(0), NUM_OPCODE_SPECIFIC_COLS as nat),
            OpcodeSpecificCols::Memory(m) => m.flat(),
            OpcodeSpecificCols::Branch(b) => b.flat(),
        }
    }

    /// Appends the region to a row-major table.
    pub fn append_to(&self, values: &mut Vec<Felt>)
        ensures
            final(values)@ == old(values)@ + self.flat(),
    {
        match self {
            OpcodeSpecificCols::Unused => {
                let z = Felt::zero();
                let mut j: usize = 0;
                while j < NUM_OPCODE_SPECIFIC_COLS
                    invariant
                        j <= NUM_OPCODE_SPECIFIC_COLS,
                        z == felt_of(0),
                        values@ == old(values)@ + repeat(z, j as nat),
                    decreases NUM_OPCODE_SPECIFIC_COLS - j,
                {
                    values.push(z);
                    j = j + 1;
                    assert(values@ =~= old(values)@ + repeat(z, j as nat));
                }
            },
            OpcodeSpecificCols::Memory(m) => {
                values.push(m.memory_addr);
                m.memory.append_to(values);
                values.push(Felt::zero());
                assert(values@ =~= old(values)@ + m.flat());
            },
            OpcodeSpecificCols::Branch(b) => {
                b.comparison_diff.inverse.append_to(values);
                values.push(b.comparison_diff.result);
                b.comparison_diff_val.append_to(values);
                values.push(b.do_branch);
                values.push(b.next_pc);
                assert(values@ =~= old(values)@ + b.flat());
            },
        }
    }
}

impl CpuCols {
    /// The row as it lies in the table.
    pub open spec fn flat(self) -> Seq<Felt> {
        seq![self.clk, self.pc, self.fp] + self.instruction.flat() + self.selectors.flat()
            + self.a.flat() + self.b.flat() + self.c.flat() + self.opcode_specific.flat()
            + seq![self.is_real]
    }

    /// Appends the row to a row-major table.
    pub fn append_to(&self, values: &mut Vec<Felt>)
        ensures
            final(values)@ == old(values)@ + self.flat(),
    {
        values.push(self.clk);
        values.push(self.pc);
        values.push(self.fp);
        self.instruction.append_to(values);
        self.selectors.append_to(values);
        self.a.append_to(values);
        self.b.append_to(values);
        self.c.append_to(values);
        self.opcode_specific.append_to(values);
        values.push(self.is_real);
        assert(values@ =~= old(values)@ + self.flat());
    }
}

/// Every row has the width of the table, and the columns lie where the
/// column constants say.
pub proof fn lemma_flat_layout(cols: CpuCols)
    ensures
        cols.flat().len() == NUM_CPU_COLS,
        cols.flat()[COL_CLK as int] == cols.clk,
        cols.flat()[COL_PC as int] == cols.pc,
        cols.flat()[COL_FP as int] == cols.fp,
        cols.flat().subrange(COL_INSTRUCTION as int, COL_SELECTORS as int)
            == cols.instruction.flat(),
        cols.flat()[COL_IMM_B as int] == cols.instruction.imm_b,
        cols.flat()[COL_IMM_C as int] == cols.instruction.imm_c,
        cols.flat().subrange(COL_SELECTORS as int, COL_A as int) == cols.selectors.flat(),
        cols.flat().subrange(COL_A as int, COL_B as int) == cols.a.flat(),
        cols.flat().subrange(COL_B as int, COL_C as int) == cols.b.flat(),
        cols.flat().subrange(COL_C as int, COL_OPCODE_SPECIFIC as int) == cols.c.flat(),
        cols.flat().subrange(COL_OPCODE_SPECIFIC as int, COL_IS_REAL as int)
            == cols.opcode_specific.flat(),
        cols.flat()[COL_IS_REAL as int] == cols.is_real,
{
    let f = cols.flat();
    assert(cols.opcode_specific.flat().len() == NUM_OPCODE_SPECIFIC_COLS);
    assert(f.len() == NUM_CPU_COLS);
    assert(f.subrange(COL_INSTRUCTION as int, COL_SELECTORS as int) =~= cols.instruction.flat());
    assert(f.subrange(COL_SELECTORS as int, COL_A as int) =~= cols.selectors.flat());
    assert(f.subrange(COL_A as int, COL_B as int) =~= cols.a.flat());
    assert(f.subrange(COL_B as int, COL_C as int) =~= cols.b.flat());
    assert(f.subrange(COL_C as int, COL_OPCODE_SPECIFIC as int) =~= cols.c.flat());
    assert(f.subrange(COL_OPCODE_SPECIFIC as int, COL_IS_REAL as int)
        =~= cols.opcode_specific.flat());
}

} // verus!
