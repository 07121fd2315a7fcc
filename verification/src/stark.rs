//! The fixed set of chips that make up one provable machine.
//!
//! The order of the chips is part of the machine: it decides where each
//! chip's public values lie, and prover and verifier must agree on it.

use crate::cpu::CpuChip;
use crate::memory::MemoryChipKind;
use crate::memory::MemoryGlobalChip;
use vstd::prelude::*;

verus! {

/// The largest number of public values that a proof of the machine carries.
pub const PROOF_MAX_NUM_PVS: usize = 370;

/// The number of chips of the machine.
pub const NUM_CHIPS: usize = 7;

/// The chip that loads the program.
#[derive(Clone, Copy, Debug, Default, PartialEq, Eq, Structural)]
pub struct ProgramChip {}

/// The chip of the permutation, built for constraints of degree `DEGREE`.
#[derive(Clone, Copy, Debug, Default, PartialEq, Eq)]
pub struct Poseidon2WideChip<const DEGREE: usize> {}

/// The chip that folds queries.
#[derive(Clone, Copy, Debug, Default, PartialEq, Eq, Structural)]
pub struct FriFoldChip {}

/// The chip that checks ranges.
#[derive(Clone, Copy, Debug, Default, PartialEq, Eq, Structural)]
pub struct RangeCheckChip {}

/// One chip of the machine.
#[derive(Clone, Copy, Debug, PartialEq, Eq)]
pub enum RecursionAir<const DEGREE: usize> {
    Program(ProgramChip),
    Cpu(CpuChip),
    MemoryInit(MemoryGlobalChip),
    MemoryFinalize(MemoryGlobalChip),
    Poseidon2(Poseidon2WideChip<DEGREE>),
    FriFold(FriFoldChip),
    RangeCheck(RangeCheckChip),
}

/// The machine with wide tables and constraints of low degree.
pub type RecursionAirWideDeg3 = RecursionAir<3>;

/// The machine with narrow tables and constraints of higher degree.
pub type RecursionAirSkinnyDeg7 = RecursionAir<5>;

/// A machine: its chips, the configuration it is proved under, and the bound
/// on the public values of its proofs.
pub struct Machine<SC, const DEGREE: usize> {
    /// The cryptographic configuration.
    pub config: SC,
    /// The chips, in their fixed order.
    pub chips: Vec<RecursionAir<DEGREE>>,
    /// The bound on the number of public values.
    pub num_pv_elts: usize,
}

/// The chips of the machine, in their fixed order.
pub open spec fn all_chips<const DEGREE: usize>() -> Seq<RecursionAir<DEGREE>> {
    seq![
        RecursionAir::Program(ProgramChip {  }),
        RecursionAir::Cpu(CpuChip {  }),
        RecursionAir::MemoryInit(MemoryGlobalChip { kind: MemoryChipKind::Init }),
        RecursionAir::MemoryFinalize(MemoryGlobalChip { kind: MemoryChipKind::Finalize }),
        RecursionAir::Poseidon2(Poseidon2WideChip {  }),
        RecursionAir::FriFold(FriFoldChip {  }),
        RecursionAir::RangeCheck(RangeCheckChip {  }),
    ]
}

impl<const DEGREE: usize> RecursionAir<DEGREE> {
    /// One of each chip, in the fixed order.
    pub fn get_all() -> (chips: Vec<RecursionAir<DEGREE>>)
        ensures
            chips@ == all_chips::<DEGREE>(),
    {
        let mut chips: Vec<RecursionAir<DEGREE>> = Vec::new();
        chips.push(RecursionAir::Program(ProgramChip {  }));
        chips.push(RecursionAir::Cpu(CpuChip {  }));
        chips.push(RecursionAir::MemoryInit(MemoryGlobalChip::new(MemoryChipKind::Init)));
        chips.push(RecursionAir::MemoryFinalize(MemoryGlobalChip::new(MemoryChipKind::Finalize)));
        chips.push(RecursionAir::Poseidon2(Poseidon2WideChip {  }));
        chips.push(RecursionAir::FriFold(FriFoldChip {  }));
        chips.push(RecursionAir::RangeCheck(RangeCheckChip {  }));
        assert(chips@ =~= all_chips::<DEGREE>());
        chips
    }

    /// The machine of all the chips under the given configuration.
    pub fn machine<SC>(config: SC) -> (m: Machine<SC, DEGREE>)
        ensures
            m.config == config,
            m.chips@ == all_chips::<DEGREE>(),
            m.num_pv_elts == PROOF_MAX_NUM_PVS,
    {
        let chips = Self::get_all();
        Machine { config, chips, num_pv_elts: PROOF_MAX_NUM_PVS }
    }
}

/// Two enumerations of the chips agree: in number, in kind and in order.
pub proof fn lemma_get_all_stable<const DEGREE: usize>(
    first: Seq<RecursionAir<DEGREE>>,
    second: Seq<RecursionAir<DEGREE>>,
)
    requires
        first == all_chips::<DEGREE>(),
        second == all_chips::<DEGREE>(),
    ensures
        first == second,
        first.len() == NUM_CHIPS,
        first[0] is Program,
        first[1] is Cpu,
        first[2] == RecursionAir::<DEGREE>::MemoryInit(MemoryGlobalChip { kind: MemoryChipKind::Init }),
        first[3] == RecursionAir::<DEGREE>::MemoryFinalize(
            MemoryGlobalChip { kind: MemoryChipKind::Finalize },
        ),
        first[4] is Poseidon2,
        first[5] is FriFold,
        first[6] is RangeCheck,
{
}

} // verus!
