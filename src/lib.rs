//! Combinational logic built up from a single NAND gate: scalar gates, bus
//! gates, wide selectors, ripple-carry adders and a 16-bit ALU.
use vstd::prelude::*;

pub mod bus;
pub mod nand;
pub mod basic_gates;
pub mod multibit_basic_gates;
pub mod multiway_basic_gates;
pub mod adders;
pub mod alu;

verus! {

/// A 16-bit bus, most significant bit at index 0.
pub type Arr16 = [bool; 16];

/// An 8-bit bus, most significant bit at index 0.
pub type Arr8 = [bool; 8];

/// A 4-bit bus, most significant bit at index 0.
pub type Arr4 = [bool; 4];

} // verus!
