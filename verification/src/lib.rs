//! Trace generation for a small recursive virtual machine over the Baby Bear field.

pub mod air;
pub mod cpu;
pub mod field;
pub mod lookup;
pub mod matrix;
pub mod memory;
pub mod poseidon2;
pub mod runtime;
pub mod stark;
pub mod utils;
