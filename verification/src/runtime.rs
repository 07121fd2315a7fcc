//! What one shard of an execution leaves behind: the events that the chips
//! turn into rows.

use crate::air::Block;
use crate::field::Felt;
use crate::poseidon2::Poseidon2Event;
use vstd::prelude::*;

verus! {

/// The closed set of operations of the machine.
#[derive(Clone, Copy, Debug, PartialEq, Eq, Structural)]
pub enum Opcode {
    ADD,
    SUB,
    MUL,
    DIV,
    EADD,
    ESUB,
    EMUL,
    EDIV,
    LW,
    SW,
    BEQ,
    BNE,
    BNEINC,
    JAL,
    JALR,
    TRAP,
    NOOP,
}

/// How many opcodes there are, and so how many selector columns.
pub const NUM_OPCODES: usize = 17;

impl Opcode {
    /// The position of the opcode in the enumeration, which is also the
    /// position of its selector column.
    pub open spec fn index_spec(self) -> int {
        match self {
            Opcode::ADD => 0,
            Opcode::SUB => 1,
            Opcode::MUL => 2,
            Opcode::DIV => 3,
            Opcode::EADD => 4,
            Opcode::ESUB => 5,
            Opcode::EMUL => 6,
            Opcode::EDIV => 7,
            Opcode::LW => 8,
            Opcode::SW => 9,
            Opcode::BEQ => 10,
            Opcode::BNE => 11,
            Opcode::BNEINC => 12,
            Opcode::JAL => 13,
            Opcode::JALR => 14,
            Opcode::TRAP => 15,
            Opcode::NOOP => 16,
        }
    }

    /// The position of the opcode in the enumeration.
    pub fn index(self) -> (r: usize)
        ensures
            r == self.index_spec(),
            r < NUM_OPCODES,
    {
        match self {
            Opcode::ADD => 0,
            Opcode::SUB => 1,
            Opcode::MUL => 2,
            Opcode::DIV => 3,
            Opcode::EADD => 4,
            Opcode::ESUB => 5,
            Opcode::EMUL => 6,
            Opcode::EDIV => 7,
            Opcode::LW => 8,
            Opcode::SW => 9,
            Opcode::BEQ => 10,
            Opcode::BNE => 11,
            Opcode::BNEINC => 12,
            Opcode::JAL => 13,
            Opcode::JALR => 14,
            Opcode::TRAP => 15,
            Opcode::NOOP => 16,
        }
    }

    /// Whether the opcode is one of the three branches.
    pub open spec fn is_branch_spec(self) -> bool {
        self == Opcode::BEQ || self == Opcode::BNE || self == Opcode::BNEINC
    }

    /// Whether the opcode is one of the three branches.
    pub fn is_branch(self) -> (r: bool)
        ensures
            r == self.is_branch_spec(),
    {
        match self {
            Opcode::BEQ | Opcode::BNE | Opcode::BNEINC => true,
            _ => false,
        }
    }
}

/// One instruction of the program.
#[derive(Clone, Copy, Debug, PartialEq, Eq)]
pub struct Instruction {
    /// What the instruction does.
    pub opcode: Opcode,
    /// The immediate for operand `b`, read where `imm_b` is set.
    pub op_b: Block<Felt>,
    /// The immediate for operand `c`, read where `imm_c` is set.
    pub op_c: Block<Felt>,
    /// Whether operand `b` is an immediate.
    pub imm_b: bool,
    /// Whether operand `c` is an immediate.
    pub imm_c: bool,
}

/// Whether a memory access read or wrote.
#[derive(Clone, Copy, Debug, PartialEq, Eq, Structural)]
pub enum MemoryAccessKind {
    Read,
    Write,
}

/// One access to one address.
#[derive(Clone, Copy, Debug, PartialEq, Eq)]
pub struct MemoryRecord {
    /// The address.
    pub addr: Felt,
    /// The value at the address after the access.
    pub value: Block<Felt>,
    /// The value at the address before the access.
    pub prev_value: Block<Felt>,
    /// When the access happened.
    pub timestamp: Felt,
    /// When the address was last accessed before.
    pub prev_timestamp: Felt,
    /// Whether this was a read or a write.
    pub kind: MemoryAccessKind,
}

impl MemoryRecord {
    /// A read: the value is what was there before.
    pub fn new_read(addr: Felt, value: Block<Felt>, timestamp: Felt, prev_timestamp: Felt) -> (r:
        MemoryRecord)
        ensures
            r == (MemoryRecord {
                addr,
                value,
                prev_value: value,
                timestamp,
                prev_timestamp,
                kind: MemoryAccessKind::Read,
            }),
    {
        MemoryRecord {
            addr,
            value,
            prev_value: value,
            timestamp,
            prev_timestamp,
            kind: MemoryAccessKind::Read,
        }
    }

    /// A write of `value` over `prev_value`.
    pub fn new_write(
        addr: Felt,
        value: Block<Felt>,
        timestamp: Felt,
        prev_value: Block<Felt>,
        prev_timestamp: Felt,
    ) -> (r: MemoryRecord)
        ensures
            r == (MemoryRecord {
                addr,
                value,
                prev_value,
                timestamp,
                prev_timestamp,
                kind: MemoryAccessKind::Write,
            }),
    {
        MemoryRecord { addr, value, prev_value, timestamp, prev_timestamp, kind: MemoryAccessKind::Write }
    }
}

/// One executed instruction.
#[derive(Clone, Copy, Debug, PartialEq, Eq)]
pub struct CpuEvent {
    /// The clock at which the instruction ran.
    pub clk: Felt,
    /// The program counter of the instruction.
    pub pc: Felt,
    /// The frame pointer.
    pub fp: Felt,
    /// The instruction.
    pub instruction: Instruction,
    /// How operand `a` was accessed.
    pub a_record: Option<MemoryRecord>,
    /// How operand `b` was accessed; `None` where it is an immediate.
    pub b_record: Option<MemoryRecord>,
    /// How operand `c` was accessed; `None` where it is an immediate.
    pub c_record: Option<MemoryRecord>,
    /// The access of a load or a store.
    pub memory_record: Option<MemoryRecord>,
}

/// Everything recorded while one shard ran.
#[derive(Clone, Debug)]
pub struct ExecutionRecord {
    /// The executed instructions, in order.
    pub cpu_events: Vec<CpuEvent>,
    /// The invocations of the permutation, in order.
    pub poseidon2_events: Vec<Poseidon2Event>,
    /// For each address touched in the shard, the value it held before.
    pub first_memory_record: Vec<(Felt, Block<Felt>)>,
    /// For each address touched in the shard, the time of its last access and
    /// the value it held after.
    pub last_memory_record: Vec<(Felt, Felt, Block<Felt>)>,
}

impl ExecutionRecord {
    /// The record of a shard in which nothing happened.
    pub fn new() -> (r: ExecutionRecord)
        ensures
            r.cpu_events@.len() == 0,
            r.poseidon2_events@.len() == 0,
            r.first_memory_record@.len() == 0,
            r.last_memory_record@.len() == 0,
    {
        ExecutionRecord {
            cpu_events: Vec::new(),
            poseidon2_events: Vec::new(),
            first_memory_record: Vec::new(),
            last_memory_record: Vec::new(),
        }
    }
}

} // verus!
