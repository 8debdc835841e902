//! The four conditions that jumps, calls and returns can test.

use vstd::prelude::*;
use crate::cpu::CPU;
use crate::registers::{Flag, Registers};

verus! {

#[derive(Clone, Copy, Debug, Hash, PartialEq, Eq, Structural)]
pub enum Condition {
    C,
    Z,
    NC,
    NZ,
}

impl Condition {
    /// Whether the condition holds of the flags in `registers`.
    pub open spec fn spec_holds(self, registers: Registers) -> bool {
        match self {
            Condition::C => registers.spec_read_flag(Flag::C),
            Condition::Z => registers.spec_read_flag(Flag::Z),
            Condition::NC => !registers.spec_read_flag(Flag::C),
            Condition::NZ => !registers.spec_read_flag(Flag::Z),
        }
    }

    pub fn holds(&self, cpu: &CPU) -> (holds: bool)
        ensures
            holds == self.spec_holds(cpu@.registers),
    {
        match self {
            Condition::C => cpu.registers.read_flag(Flag::C),
            Condition::Z => cpu.registers.read_flag(Flag::Z),
            Condition::NC => !cpu.registers.read_flag(Flag::C),
            Condition::NZ => !cpu.registers.read_flag(Flag::Z),
        }
    }
}

} // verus!
