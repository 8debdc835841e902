//! The joypad register.

use vstd::prelude::*;

verus! {

#[derive(Clone, Copy, Debug, PartialEq, Eq, Structural)]
pub struct Inputs {
    pub inputs_register: u8,
}

impl Inputs {
    pub open spec fn spec_new() -> Inputs {
        Inputs { inputs_register: 0 }
    }

    /// Only the upper nibble takes the written value; the lower one is read-only.
    pub open spec fn spec_write(self, value: u8) -> Inputs {
        Inputs { inputs_register: (value & 0xF0) | (self.inputs_register & 0x0F) }
    }

    pub fn new() -> (inputs: Self)
        ensures
            inputs == Self::spec_new(),
    {
        Inputs { inputs_register: 0 }
    }

    pub fn read(&self) -> (value: u8)
        ensures
            value == self.inputs_register,
    {
        self.inputs_register
    }

    pub fn write(&mut self, value: u8)
        ensures
            *final(self) == old(self).spec_write(value),
    {
        self.inputs_register = (value & 0xF0) | (self.inputs_register & 0x0F);
    }
}

/// A write keeps the lower nibble of the register and takes the upper nibble
/// of the written value.
pub proof fn lemma_inputs_write(inputs: Inputs, value: u8)
    ensures
        inputs.spec_write(value).inputs_register % 16 == inputs.inputs_register % 16,
        inputs.spec_write(value).inputs_register / 16 == value / 16,
{
    let r = inputs.inputs_register;
    assert(((value & 0xF0) | (r & 0x0F)) % 16 == r % 16 && ((value & 0xF0) | (r & 0x0F)) / 16
        == value / 16) by (bit_vector);
}

} // verus!
