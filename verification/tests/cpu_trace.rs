use p3_baby_bear::BabyBear;
use p3_field::extension::BinomialExtensionField;
use p3_field::AbstractExtensionField;
use p3_field::AbstractField;
use p3_field::Field;
use p3_field::PrimeField32;
use p3_matrix::Matrix;
use recursion_core::air::Block;
use recursion_core::cpu::columns::BranchCols;
use recursion_core::cpu::columns::CpuCols;
use recursion_core::cpu::columns::OpcodeSpecificCols;
use recursion_core::cpu::columns::COL_A;
use recursion_core::cpu::columns::COL_B;
use recursion_core::cpu::columns::COL_C;
use recursion_core::cpu::columns::COL_CLK;
use recursion_core::cpu::columns::COL_FP;
use recursion_core::cpu::columns::COL_IMM_B;
use recursion_core::cpu::columns::COL_IMM_C;
use recursion_core::cpu::columns::COL_INSTRUCTION;
use recursion_core::cpu::columns::COL_IS_REAL;
use recursion_core::cpu::columns::COL_OPCODE_SPECIFIC;
use recursion_core::cpu::columns::COL_PC;
use recursion_core::cpu::columns::COL_SELECTORS;
use recursion_core::cpu::columns::NUM_CPU_COLS;
use recursion_core::cpu::CpuChip;
use recursion_core::field::Felt;
use recursion_core::field::MODULUS;
use recursion_core::runtime::CpuEvent;
use recursion_core::runtime::ExecutionRecord;
use recursion_core::runtime::Instruction;
use recursion_core::runtime::MemoryRecord;
use recursion_core::runtime::Opcode;

fn felt(n: u32) -> Felt {
    Felt::new(n).unwrap()
}

fn block(a: u32, b: u32, c: u32, d: u32) -> Block<Felt> {
    Block([felt(a), felt(b), felt(c), felt(d)])
}

fn raw(row: &[Felt]) -> Vec<u32> {
    row.iter().map(|f| f.as_canonical_u32()).collect()
}

fn instruction(opcode: Opcode) -> Instruction {
    Instruction { opcode, op_b: block(0, 0, 0, 0), op_c: block(0, 0, 0, 0), imm_b: false, imm_c: false }
}

fn event(opcode: Opcode) -> CpuEvent {
    CpuEvent {
        clk: felt(0),
        pc: felt(0),
        fp: felt(0),
        instruction: instruction(opcode),
        a_record: None,
        b_record: None,
        c_record: None,
        memory_record: None,
    }
}

fn branch_event(opcode: Opcode, a: Block<Felt>, b: Block<Felt>) -> CpuEvent {
    CpuEvent {
        clk: felt(40),
        pc: felt(100),
        fp: felt(7),
        instruction: Instruction {
            opcode,
            op_b: block(0, 0, 0, 0),
            op_c: block(25, 0, 0, 0),
            imm_b: false,
            imm_c: true,
        },
        a_record: Some(MemoryRecord::new_read(felt(1), a, felt(40), felt(3))),
        b_record: Some(MemoryRecord::new_read(felt(2), b, felt(41), felt(4))),
        c_record: None,
        memory_record: None,
    }
}

fn trace_of(events: Vec<CpuEvent>) -> (Vec<Vec<u32>>, usize) {
    let mut input = ExecutionRecord::new();
    input.cpu_events = events;
    let mut output = ExecutionRecord::new();
    let trace = CpuChip::default().generate_trace(&input, &mut output);
    assert_eq!(trace.width, NUM_CPU_COLS);
    assert_eq!(trace.values.len(), trace.height() * NUM_CPU_COLS);
    let rows = trace.values.chunks(NUM_CPU_COLS).map(raw).collect();
    (rows, trace.height())
}

fn expected_padding(r: usize) -> Vec<u32> {
    let mut row = vec![0u32; NUM_CPU_COLS];
    row[COL_CLK] = (4 * r) as u32;
    row[COL_IMM_B] = 1;
    row[COL_IMM_C] = 1;
    row[COL_SELECTORS + 16] = 1;
    row
}

fn branch_region(row: &[u32]) -> &[u32] {
    &row[COL_OPCODE_SPECIFIC..COL_IS_REAL]
}

#[test]
fn chip_name_and_inclusion() {
    let chip = CpuChip::default();
    assert_eq!(chip.name(), "CPU");
    assert!(chip.included(&ExecutionRecord::new()));
}

#[test]
fn layout_constants_add_up() {
    assert_eq!(NUM_CPU_COLS, 69);
    assert_eq!((COL_CLK, COL_PC, COL_FP, COL_INSTRUCTION), (0, 1, 2, 3));
    assert_eq!((COL_IMM_B, COL_IMM_C, COL_SELECTORS), (11, 12, 13));
    assert_eq!((COL_A, COL_B, COL_C), (30, 39, 48));
    assert_eq!((COL_OPCODE_SPECIFIC, COL_IS_REAL), (57, 68));
}

#[test]
fn empty_record_gives_sixteen_padding_rows() {
    let (rows, height) = trace_of(vec![]);
    assert_eq!(height, 16);
    for (r, row) in rows.iter().enumerate() {
        assert_eq!(row, &expected_padding(r));
    }
}

#[test]
fn padding_clock_grows_by_four_after_the_last_real_row() {
    let mut first = event(Opcode::ADD);
    first.clk = felt(1000);
    let (rows, height) = trace_of(vec![first, event(Opcode::MUL), event(Opcode::SUB)]);
    assert_eq!(height, 16);
    assert_eq!(rows[0][COL_CLK], 1000);
    assert_eq!(rows[3][COL_CLK], 12);
    for r in 3..15 {
        assert_eq!(rows[r + 1][COL_CLK], rows[r][COL_CLK] + 4);
        assert_eq!(rows[r], expected_padding(r));
    }
    assert_eq!(rows[15][COL_CLK], 60);
}

#[test]
fn real_rows_are_flagged_and_padding_rows_are_not() {
    let (rows, height) = trace_of(vec![event(Opcode::ADD); 5]);
    assert_eq!(height, 16);
    for r in 0..5 {
        assert_eq!(rows[r][COL_IS_REAL], 1);
    }
    for r in 5..16 {
        assert_eq!(rows[r][COL_IS_REAL], 0);
    }
}

#[test]
fn height_is_the_next_power_of_two_and_sixteen_at_least() {
    assert_eq!(trace_of(vec![event(Opcode::ADD); 1]).1, 16);
    assert_eq!(trace_of(vec![event(Opcode::ADD); 16]).1, 16);
    let (rows, height) = trace_of(vec![event(Opcode::ADD); 17]);
    assert_eq!(height, 32);
    assert_eq!(rows[16][COL_IS_REAL], 1);
    assert_eq!(rows[17], expected_padding(17));
    assert_eq!(rows[31], expected_padding(31));
    assert_eq!(trace_of(vec![event(Opcode::ADD); 33]).1, 64);
}

#[test]
fn row_of_an_event_with_records_and_an_immediate() {
    let e = CpuEvent {
        clk: felt(8),
        pc: felt(2),
        fp: felt(77),
        instruction: Instruction {
            opcode: Opcode::SW,
            op_b: block(500, 501, 502, 503),
            op_c: block(600, 601, 602, 603),
            imm_b: false,
            imm_c: true,
        },
        a_record: Some(MemoryRecord::new_write(
            felt(10),
            block(1, 2, 3, 4),
            felt(8),
            block(5, 6, 7, 8),
            felt(6),
        )),
        b_record: Some(MemoryRecord::new_read(felt(11), block(9, 10, 11, 12), felt(9), felt(5))),
        c_record: None,
        memory_record: Some(MemoryRecord::new_write(
            felt(900),
            block(21, 22, 23, 24),
            felt(10),
            block(31, 32, 33, 34),
            felt(4),
        )),
    };
    let (rows, _) = trace_of(vec![e]);
    let row = &rows[0];
    assert_eq!(&row[0..3], &[8, 2, 77]);
    assert_eq!(&row[COL_INSTRUCTION..COL_SELECTORS], &[500, 501, 502, 503, 600, 601, 602, 603, 0, 1]);
    let mut selectors = [0u32; 17];
    selectors[9] = 1;
    assert_eq!(&row[COL_SELECTORS..COL_A], &selectors);
    assert_eq!(&row[COL_A..COL_B], &[1, 2, 3, 4, 5, 6, 7, 8, 6]);
    assert_eq!(&row[COL_B..COL_C], &[9, 10, 11, 12, 9, 10, 11, 12, 5]);
    assert_eq!(&row[COL_C..COL_OPCODE_SPECIFIC], &[600, 601, 602, 603, 0, 0, 0, 0, 0]);
    assert_eq!(branch_region(row), &[900, 21, 22, 23, 24, 31, 32, 33, 34, 4, 0]);
    assert_eq!(row[COL_IS_REAL], 1);
}

#[test]
fn missing_records_leave_zeros_and_immediates() {
    let mut e = event(Opcode::ADD);
    e.instruction.op_b = block(3, 0, 0, 0);
    e.instruction.imm_b = true;
    let (rows, _) = trace_of(vec![e]);
    let row = &rows[0];
    assert_eq!(&row[COL_A..COL_B], &[0; 9]);
    assert_eq!(&row[COL_B..COL_C], &[3, 0, 0, 0, 0, 0, 0, 0, 0]);
    assert_eq!(branch_region(row), &[0; 11]);
    assert_eq!(row[COL_IMM_B], 1);
    assert_eq!(row[COL_IMM_C], 0);
    assert_eq!(row[COL_SELECTORS], 1);
}

#[test]
fn every_opcode_sets_its_own_selector() {
    let opcodes = [
        Opcode::ADD,
        Opcode::SUB,
        Opcode::MUL,
        Opcode::DIV,
        Opcode::EADD,
        Opcode::ESUB,
        Opcode::EMUL,
        Opcode::EDIV,
        Opcode::LW,
        Opcode::SW,
        Opcode::BEQ,
        Opcode::BNE,
        Opcode::BNEINC,
        Opcode::JAL,
        Opcode::JALR,
        Opcode::TRAP,
        Opcode::NOOP,
    ];
    let (rows, _) = trace_of(opcodes.iter().map(|o| event(*o)).collect());
    for (i, opcode) in opcodes.iter().enumerate() {
        assert_eq!(opcode.index(), i);
        assert_eq!(opcode.is_branch(), (10..13).contains(&i));
        for j in 0..17 {
            assert_eq!(rows[i][COL_SELECTORS + j], (i == j) as u32);
        }
    }
}

#[test]
fn equality_branch_on_equal_operands_is_taken() {
    let v = block(5, 6, 7, 8);
    let (rows, _) = trace_of(vec![branch_event(Opcode::BEQ, v, v)]);
    assert_eq!(branch_region(&rows[0]), &[0, 0, 0, 0, 1, 0, 0, 0, 0, 1, 125]);
}

#[test]
fn inequality_branch_on_equal_operands_is_not_taken() {
    let v = block(5, 6, 7, 8);
    let (rows, _) = trace_of(vec![branch_event(Opcode::BNE, v, v)]);
    assert_eq!(branch_region(&rows[0]), &[0, 0, 0, 0, 1, 0, 0, 0, 0, 0, 101]);
    let (rows, _) = trace_of(vec![branch_event(Opcode::BNEINC, v, v)]);
    assert_eq!(branch_region(&rows[0]), &[0, 0, 0, 0, 1, 0, 0, 0, 0, 0, 101]);
}

#[test]
fn branches_on_different_operands() {
    let a = block(5, 6, 7, 8);
    let b = block(6, 6, 9, 8);
    let (rows, _) = trace_of(vec![
        branch_event(Opcode::BEQ, a, b),
        branch_event(Opcode::BNE, a, b),
        branch_event(Opcode::BNEINC, a, b),
    ]);
    let diff = [MODULUS - 1, 0, MODULUS - 2, 0];
    for (r, (taken, next_pc)) in [(0, 101), (1, 125), (1, 125)].iter().enumerate() {
        let region = branch_region(&rows[r]);
        assert_eq!(region[4], 0);
        assert_eq!(&region[5..9], &diff);
        assert_eq!(region[9], *taken);
        assert_eq!(region[10], *next_pc);
        let d = BinomialExtensionField::<BabyBear, 4>::from_base_slice(
            &diff.map(BabyBear::from_canonical_u32),
        );
        let w = BinomialExtensionField::<BabyBear, 4>::from_base_slice(&[
            BabyBear::from_canonical_u32(region[0]),
            BabyBear::from_canonical_u32(region[1]),
            BabyBear::from_canonical_u32(region[2]),
            BabyBear::from_canonical_u32(region[3]),
        ]);
        assert_eq!(d * w, BinomialExtensionField::<BabyBear, 4>::one());
    }
}

#[test]
fn next_program_counter_wraps_in_the_field() {
    let v = block(1, 0, 0, 0);
    let mut taken = branch_event(Opcode::BEQ, v, v);
    taken.pc = felt(MODULUS - 5);
    let mut not_taken = branch_event(Opcode::BNE, v, v);
    not_taken.pc = felt(MODULUS - 1);
    let (rows, _) = trace_of(vec![taken, not_taken]);
    assert_eq!(branch_region(&rows[0])[10], 20);
    assert_eq!(branch_region(&rows[1])[10], 0);
    let expected = (BabyBear::from_canonical_u32(MODULUS - 5) + BabyBear::from_canonical_u32(25))
        .as_canonical_u32();
    assert_eq!(branch_region(&rows[0])[10], expected);
}

#[test]
fn a_branch_takes_the_region_even_beside_a_memory_record() {
    let v = block(5, 6, 7, 8);
    let mut e = branch_event(Opcode::BEQ, v, v);
    e.memory_record = Some(MemoryRecord::new_read(felt(900), v, felt(1), felt(0)));
    let (rows, _) = trace_of(vec![e]);
    assert_eq!(branch_region(&rows[0]), &[0, 0, 0, 0, 1, 0, 0, 0, 0, 1, 125]);
}

#[test]
fn branch_columns_from_a_given_witness() {
    let diff = block(1, 0, 0, 0);
    let witness = block(1, 0, 0, 0);
    let cols = BranchCols::populate_with(Opcode::BNE, felt(9), block(4, 0, 0, 0), diff, witness);
    assert_eq!(cols.comparison_diff.inverse, witness);
    assert_eq!(cols.comparison_diff.result, felt(0));
    assert_eq!(cols.comparison_diff_val, diff);
    assert_eq!(cols.do_branch, felt(1));
    assert_eq!(cols.next_pc, felt(13));
    let cols = BranchCols::populate_with(Opcode::BEQ, felt(9), block(4, 0, 0, 0), diff, witness);
    assert_eq!(cols.do_branch, felt(0));
    assert_eq!(cols.next_pc, felt(10));
}

#[test]
fn branch_witness_is_the_inverse_of_the_difference() {
    let cols = BranchCols::populate(
        Opcode::BNE,
        felt(0),
        block(0, 0, 0, 0),
        block(3, 0, 0, 0),
        block(1, 0, 0, 0),
    );
    assert_eq!(cols.comparison_diff_val, block(2, 0, 0, 0));
    let half = BabyBear::from_canonical_u32(2).inverse().as_canonical_u32();
    assert_eq!(half, (MODULUS + 1) / 2);
    assert_eq!(cols.comparison_diff.inverse, block(half, 0, 0, 0));
}

#[test]
fn typed_row_lies_flat_as_the_table_holds_it() {
    let e = branch_event(Opcode::BEQ, block(1, 2, 3, 4), block(1, 2, 3, 4));
    let cols = CpuCols::from_event(&e);
    assert!(matches!(cols.opcode_specific, OpcodeSpecificCols::Branch(_)));
    let mut flat = Vec::new();
    cols.append_to(&mut flat);
    let (rows, _) = trace_of(vec![e]);
    assert_eq!(raw(&flat), rows[0]);
    let mut noop = Vec::new();
    CpuCols::noop().append_to(&mut noop);
    let mut expected = vec![0u32; NUM_CPU_COLS];
    expected[COL_SELECTORS + 16] = 1;
    assert_eq!(raw(&noop), expected);
}

#[test]
fn generating_a_trace_leaves_the_output_record_alone() {
    let mut input = ExecutionRecord::new();
    input.cpu_events = vec![event(Opcode::ADD)];
    let mut output = ExecutionRecord::new();
    output.cpu_events = vec![event(Opcode::MUL)];
    let chip = CpuChip::default();
    chip.generate_dependencies(&input, &mut output);
    let _ = chip.generate_trace(&input, &mut output);
    assert_eq!(output.cpu_events, vec![event(Opcode::MUL)]);
    assert!(output.first_memory_record.is_empty());
}
