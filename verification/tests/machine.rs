use recursion_core::cpu::CpuChip;
use recursion_core::memory::MemoryChipKind;
use recursion_core::memory::MemoryGlobalChip;
use recursion_core::stark::FriFoldChip;
use recursion_core::stark::Poseidon2WideChip;
use recursion_core::stark::ProgramChip;
use recursion_core::stark::RangeCheckChip;
use recursion_core::stark::RecursionAir;
use recursion_core::stark::RecursionAirSkinnyDeg7;
use recursion_core::stark::RecursionAirWideDeg3;
use recursion_core::stark::NUM_CHIPS;
use recursion_core::stark::PROOF_MAX_NUM_PVS;

#[test]
fn every_chip_once_in_the_fixed_order() {
    let chips = RecursionAir::<3>::get_all();
    assert_eq!(
        chips,
        vec![
            RecursionAir::Program(ProgramChip {}),
            RecursionAir::Cpu(CpuChip {}),
            RecursionAir::MemoryInit(MemoryGlobalChip { kind: MemoryChipKind::Init }),
            RecursionAir::MemoryFinalize(MemoryGlobalChip { kind: MemoryChipKind::Finalize }),
            RecursionAir::Poseidon2(Poseidon2WideChip::<3> {}),
            RecursionAir::FriFold(FriFoldChip {}),
            RecursionAir::RangeCheck(RangeCheckChip {}),
        ]
    );
    assert_eq!(chips.len(), NUM_CHIPS);
}

#[test]
fn enumeration_is_the_same_on_every_call() {
    let first = RecursionAirWideDeg3::get_all();
    for _ in 0..10 {
        assert_eq!(RecursionAirWideDeg3::get_all(), first);
    }
    let skinny = RecursionAirSkinnyDeg7::get_all();
    assert_eq!(skinny.len(), first.len());
    assert_eq!(skinny, RecursionAir::<5>::get_all());
}

#[test]
fn machine_holds_configuration_chips_and_the_public_value_bound() {
    let machine = RecursionAirSkinnyDeg7::machine("configuration");
    assert_eq!(machine.config, "configuration");
    assert_eq!(machine.chips, RecursionAirSkinnyDeg7::get_all());
    assert_eq!(machine.num_pv_elts, PROOF_MAX_NUM_PVS);
    assert_eq!(PROOF_MAX_NUM_PVS, 370);
    assert_eq!(PROOF_MAX_NUM_PVS, sp1_core::stark::PROOF_MAX_NUM_PVS);
}
