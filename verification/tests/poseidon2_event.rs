use recursion_core::air::Block;
use recursion_core::field::Felt;
use recursion_core::poseidon2::Poseidon2Event;
use recursion_core::poseidon2::WIDTH;
use recursion_core::runtime::MemoryAccessKind;
use recursion_core::runtime::MemoryRecord;

fn felt(n: u32) -> Felt {
    Felt::new(n).unwrap()
}

#[test]
fn dummy_event_carries_only_its_input() {
    let mut input = [Felt::zero(); WIDTH];
    for i in 0..WIDTH {
        input[i] = felt(100 + i as u32);
    }
    let event = Poseidon2Event::dummy_from_input(input);
    assert_eq!(event.clk, Felt::zero());
    assert_eq!(event.dst, Felt::zero());
    assert_eq!(event.left, Felt::zero());
    assert_eq!(event.right, Felt::zero());
    assert_eq!(event.input, input);
    assert_eq!(event.result_array, [Felt::zero(); WIDTH]);
    let zero_read = MemoryRecord {
        addr: Felt::zero(),
        value: Block([Felt::zero(); 4]),
        prev_value: Block([Felt::zero(); 4]),
        timestamp: Felt::zero(),
        prev_timestamp: Felt::zero(),
        kind: MemoryAccessKind::Read,
    };
    for i in 0..WIDTH {
        assert_eq!(event.input_records[i], zero_read);
        assert_eq!(event.result_records[i], zero_read);
    }
}

#[test]
fn dummy_record_is_a_read_built_by_new_read() {
    let z = Felt::zero();
    let event = Poseidon2Event::dummy_from_input([z; WIDTH]);
    assert_eq!(event.input_records[0], MemoryRecord::new_read(z, Block::from_base(z), z, z));
    assert_eq!(event.result_records[WIDTH - 1].kind, MemoryAccessKind::Read);
}
