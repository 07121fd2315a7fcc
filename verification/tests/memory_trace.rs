use p3_matrix::Matrix;
use recursion_core::air::Block;
use recursion_core::field::Felt;
use recursion_core::memory::AirInteraction;
use recursion_core::memory::InteractionKind;
use recursion_core::memory::Lookup;
use recursion_core::memory::MemoryChipKind;
use recursion_core::memory::MemoryGlobalChip;
use recursion_core::memory::MemoryInitCols;
use recursion_core::memory::NUM_MEMORY_INIT_COLS;
use recursion_core::runtime::ExecutionRecord;

fn felt(n: u32) -> Felt {
    Felt::new(n).unwrap()
}

fn block(a: u32, b: u32, c: u32, d: u32) -> Block<Felt> {
    Block([felt(a), felt(b), felt(c), felt(d)])
}

fn rows_of(chip: &MemoryGlobalChip, input: &ExecutionRecord) -> Vec<Vec<u32>> {
    let mut output = ExecutionRecord::new();
    let trace = chip.generate_trace(input, &mut output);
    assert_eq!(trace.width, NUM_MEMORY_INIT_COLS);
    assert_eq!(trace.values.len(), trace.height() * NUM_MEMORY_INIT_COLS);
    trace
        .values
        .chunks(NUM_MEMORY_INIT_COLS)
        .map(|row| row.iter().map(|f| f.as_canonical_u32()).collect())
        .collect()
}

fn shard() -> ExecutionRecord {
    let mut input = ExecutionRecord::new();
    input.first_memory_record = vec![(felt(10), block(1, 2, 3, 4)), (felt(20), block(5, 6, 7, 8))];
    input.last_memory_record =
        vec![(felt(20), felt(90), block(50, 60, 70, 80)), (felt(10), felt(80), block(1, 2, 3, 9))];
    input
}

fn tuples(lookups: Vec<(Lookup<u32>, bool)>) -> Vec<Vec<u32>> {
    let mut out = Vec::new();
    for (lookup, want_send) in lookups {
        let (interaction, is_send) = match lookup {
            Lookup::Send(i) => (i, true),
            Lookup::Receive(i) => (i, false),
        };
        assert_eq!(is_send, want_send);
        assert_eq!(interaction.kind, InteractionKind::Memory);
        for _ in 0..interaction.multiplicity {
            out.push(interaction.values.clone());
        }
    }
    out.sort();
    out
}

fn table_lookups(chip: &MemoryGlobalChip, input: &ExecutionRecord) -> Vec<(Lookup<u32>, bool)> {
    rows_of(chip, input)
        .iter()
        .map(|row| (chip.eval(&MemoryInitCols::from_row(row)), chip.kind == MemoryChipKind::Init))
        .collect()
}

#[test]
fn chip_names_and_width() {
    let init = MemoryGlobalChip::new(MemoryChipKind::Init);
    let finalize = MemoryGlobalChip::new(MemoryChipKind::Finalize);
    assert_eq!(init.kind, MemoryChipKind::Init);
    assert_eq!(finalize.kind, MemoryChipKind::Finalize);
    assert_eq!(init.name(), "MemoryInit");
    assert_eq!(finalize.name(), "MemoryFinalize");
    assert_eq!(init.width(), 7);
    assert_eq!(finalize.width(), 7);
}

#[test]
fn init_rows_carry_time_zero() {
    let rows = rows_of(&MemoryGlobalChip::new(MemoryChipKind::Init), &shard());
    assert_eq!(rows.len(), 16);
    assert_eq!(rows[0], vec![10, 0, 1, 2, 3, 4, 1]);
    assert_eq!(rows[1], vec![20, 0, 5, 6, 7, 8, 1]);
    for r in 2..16 {
        assert_eq!(rows[r], vec![0; 7]);
    }
}

#[test]
fn finalize_rows_carry_the_last_timestamp() {
    let rows = rows_of(&MemoryGlobalChip::new(MemoryChipKind::Finalize), &shard());
    assert_eq!(rows.len(), 16);
    assert_eq!(rows[0], vec![20, 90, 50, 60, 70, 80, 1]);
    assert_eq!(rows[1], vec![10, 80, 1, 2, 3, 9, 1]);
    for r in 2..16 {
        assert_eq!(rows[r], vec![0; 7]);
    }
}

#[test]
fn memory_height_is_the_next_power_of_two_and_sixteen_at_least() {
    let chip = MemoryGlobalChip::new(MemoryChipKind::Init);
    let mut input = ExecutionRecord::new();
    for n in [0usize, 1, 16, 17, 32, 33] {
        input.first_memory_record = (0..n).map(|i| (felt(i as u32), block(1, 1, 1, 1))).collect();
        let rows = rows_of(&chip, &input);
        let expected = [(0, 16), (1, 16), (16, 16), (17, 32), (32, 32), (33, 64)];
        let height = expected.iter().find(|(k, _)| *k == n).unwrap().1;
        assert_eq!(rows.len(), height);
        assert!(rows.len() >= n);
        for (r, row) in rows.iter().enumerate() {
            assert_eq!(row[6], (r < n) as u32);
        }
    }
}

#[test]
fn a_chip_is_included_only_for_a_map_that_is_not_empty() {
    let init = MemoryGlobalChip::new(MemoryChipKind::Init);
    let finalize = MemoryGlobalChip::new(MemoryChipKind::Finalize);
    let mut input = ExecutionRecord::new();
    assert!(!init.included(&input));
    assert!(!finalize.included(&input));
    input.first_memory_record = vec![(felt(1), block(0, 0, 0, 0))];
    assert!(init.included(&input));
    assert!(!finalize.included(&input));
    input.last_memory_record = vec![(felt(1), felt(2), block(0, 0, 0, 0))];
    assert!(finalize.included(&input));
}

#[test]
fn dependencies_and_traces_leave_the_output_record_alone() {
    let chip = MemoryGlobalChip::new(MemoryChipKind::Init);
    let mut output = shard();
    chip.generate_dependencies(&shard(), &mut output);
    let _ = chip.generate_trace(&shard(), &mut output);
    assert_eq!(output.first_memory_record, shard().first_memory_record);
    assert_eq!(output.last_memory_record, shard().last_memory_record);
}

#[test]
fn a_row_declares_timestamp_address_and_value() {
    let cols = MemoryInitCols { addr: 'a', timestamp: 't', value: Block(['w', 'x', 'y', 'z']), is_real: 'r' };
    match MemoryGlobalChip::new(MemoryChipKind::Init).eval(&cols) {
        Lookup::Send(AirInteraction { values, multiplicity, kind }) => {
            assert_eq!(values, vec!['t', 'a', 'w', 'x', 'y', 'z']);
            assert_eq!(multiplicity, 'r');
            assert_eq!(kind, InteractionKind::Memory);
        }
        Lookup::Receive(_) => panic!("the first-touch table sends"),
    }
    match MemoryGlobalChip::new(MemoryChipKind::Finalize).eval(&cols) {
        Lookup::Receive(AirInteraction { values, multiplicity, kind }) => {
            assert_eq!(values, vec!['t', 'a', 'w', 'x', 'y', 'z']);
            assert_eq!(multiplicity, 'r');
            assert_eq!(kind, InteractionKind::Memory);
        }
        Lookup::Send(_) => panic!("the last-touch table receives"),
    }
}

#[test]
fn columns_read_from_a_row_lie_flat_again() {
    let row = [1u8, 2, 3, 4, 5, 6, 7];
    let cols = MemoryInitCols::from_row(&row);
    assert_eq!((cols.addr, cols.timestamp, cols.value, cols.is_real), (1, 2, Block([3, 4, 5, 6]), 7));
    let mut flat = vec![0u8];
    cols.append_to(&mut flat);
    assert_eq!(flat, vec![0, 1, 2, 3, 4, 5, 6, 7]);
}

#[test]
fn padding_rows_contribute_nothing_to_the_lookup() {
    let chip = MemoryGlobalChip::new(MemoryChipKind::Init);
    let lookups = table_lookups(&chip, &shard());
    assert_eq!(lookups.len(), 16);
    for (lookup, _) in &lookups[2..] {
        match lookup {
            Lookup::Send(i) => {
                assert_eq!(i.multiplicity, 0);
                assert_eq!(i.values, vec![0; 6]);
            }
            Lookup::Receive(_) => panic!("the first-touch table sends"),
        }
    }
    assert_eq!(
        tuples(lookups),
        vec![vec![0, 10, 1, 2, 3, 4], vec![0, 20, 5, 6, 7, 8]]
    );
}

#[test]
fn memory_lookup_balances_with_the_accesses_in_between() {
    let input = shard();
    let mut sends = tuples(table_lookups(&MemoryGlobalChip::new(MemoryChipKind::Init), &input));
    let mut receives = tuples(table_lookups(&MemoryGlobalChip::new(MemoryChipKind::Finalize), &input));
    // (previous timestamp, previous value) -> (timestamp, value), per access.
    let accesses: [(u32, [u32; 4], [u32; 4], u32, [u32; 4], u32); 3] = [
        (10, [0, 0, 0, 0], [1, 2, 3, 4], 0, [1, 2, 3, 4], 30),
        (20, [0, 0, 0, 0], [5, 6, 7, 8], 0, [50, 60, 70, 80], 90),
        (10, [0, 0, 0, 0], [1, 2, 3, 4], 30, [1, 2, 3, 9], 80),
    ];
    for (addr, _, prev, prev_ts, value, ts) in accesses {
        receives.push(vec![prev_ts, addr, prev[0], prev[1], prev[2], prev[3]]);
        sends.push(vec![ts, addr, value[0], value[1], value[2], value[3]]);
    }
    sends.sort();
    receives.sort();
    assert_eq!(sends, receives);
}

#[test]
fn untouched_memory_balances_on_its_own() {
    let mut input = ExecutionRecord::new();
    input.first_memory_record = vec![(felt(10), block(1, 2, 3, 4)), (felt(20), block(5, 6, 7, 8))];
    input.last_memory_record =
        vec![(felt(20), felt(0), block(5, 6, 7, 8)), (felt(10), felt(0), block(1, 2, 3, 4))];
    let sends = tuples(table_lookups(&MemoryGlobalChip::new(MemoryChipKind::Init), &input));
    let receives = tuples(table_lookups(&MemoryGlobalChip::new(MemoryChipKind::Finalize), &input));
    assert_eq!(sends, receives);
    assert_eq!(sends.len(), 2);
}
