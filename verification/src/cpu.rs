//! The instruction-execution chip: one row for every executed instruction.

pub mod columns;
pub mod trace;

use vstd::prelude::*;

verus! {

/// The chip that turns executed instructions into rows.
#[derive(Clone, Copy, Debug, Default, PartialEq, Eq, Structural)]
pub struct CpuChip {}

} // verus!
