//! The values that stand for instructions and their operands.

use vstd::prelude::*;
use crate::conditions::Condition;
use crate::fault::Fault;
use crate::machine::{Machine, MachineView};
use crate::registers::{
    higher_u8, lower_u8, spec_higher_u8, spec_lower_u8, spec_u16_from_u8s, u16_from_u8s, R16, R8,
};

verus! {

/// A 16-bit operand as it lies in memory: lower byte first.
#[derive(Clone, Copy, Debug, PartialEq, Eq, Structural)]
pub struct Immediate16 {
    pub lower_byte: u8,
    pub higher_byte: u8,
}

impl Immediate16 {
    pub open spec fn spec_as_u16(self) -> u16 {
        spec_u16_from_u8s(self.higher_byte, self.lower_byte)
    }

    pub open spec fn spec_from_u16(word: u16) -> Immediate16 {
        Immediate16 { lower_byte: spec_lower_u8(word), higher_byte: spec_higher_u8(word) }
    }

    /// The operand held at `address` and the address after it, which wraps
    /// at the top of the address space.
    pub open spec fn spec_from_memory(machine: MachineView, address: u16) -> Result<
        Immediate16,
        Fault,
    > {
        match machine.spec_read_u8(address) {
            Err(fault) => Err(fault),
            Ok(lower_byte) => match machine.spec_read_u8(address.wrapping_add(1)) {
                Err(fault) => Err(fault),
                Ok(higher_byte) => Ok(Immediate16 { lower_byte, higher_byte }),
            },
        }
    }

    pub fn as_u16(&self) -> (word: u16)
        ensures
            word == self.spec_as_u16(),
    {
        u16_from_u8s(self.higher_byte, self.lower_byte)
    }

    pub fn from_u16(word: u16) -> (immediate: Self)
        ensures
            immediate == Self::spec_from_u16(word),
            immediate.spec_as_u16() == word,
    {
        proof {
            crate::registers::lemma_halves(0, 0, word);
        }
        Immediate16 { lower_byte: lower_u8(word), higher_byte: higher_u8(word) }
    }

    pub fn from_memory(machine: &Machine, address: u16) -> (immediate: Result<Immediate16, Fault>)
        ensures
            immediate == Self::spec_from_memory(machine@, address),
    {
        let lower_byte = machine.read_u8(address)?;
        let higher_byte = machine.read_u8(address.wrapping_add(1))?;
        Ok(Immediate16 { lower_byte, higher_byte })
    }
}

/// One variant for each operation, with its operands.
#[derive(Clone, Copy, Debug, PartialEq, Eq, Structural)]
#[allow(non_camel_case_types)]
pub enum Instruction {
    ADC_A_mHL,
    ADC_A_r8(R8),
    ADC_A_u8(u8),
    ADD_A_mHL,
    ADD_A_r8(R8),
    ADD_A_u8(u8),
    ADD_HL_r16(R16),
    ADD_SP_i8(i8),
    AND_A_mHL,
    AND_A_r8(R8),
    AND_u8(u8),
    BIT_u3_mHL(u8),
    BIT_u3_r8(u8, R8),
    CALL_a16(Immediate16),
    CALL_cc_u16(Condition, Immediate16),
    CCF,
    CP_A_mHL,
    CP_A_r8(R8),
    CP_A_u8(u8),
    CPL,
    DAA,
    DEC_mHL,
    DEC_r16(R16),
    DEC_r8(R8),
    DI,
    EI,
    HALT,
    Illegal(u8),
    INC_mHL,
    INC_r16(R16),
    INC_r8(R8),
    JP_cc_u16(Condition, Immediate16),
    JP_HL,
    JP_u16(Immediate16),
    JR_cc_i8(Condition, i8),
    JR_i8(i8),
    JR_r8(R8),
    LD_A_FFC,
    LD_A_FFu8(u8),
    LD_A_mHLdec,
    LD_A_mHLinc,
    LD_A_mr16(R16),
    LD_A_mu16(Immediate16),
    LD_FFC_A,
    LD_FFu8_A(u8),
    LD_H_mHL,
    LD_HL_SP_i8(i8),
    LD_L_mHL,
    LD_mHL_u8(u8),
    LD_mHLdec_A,
    LD_mHLinc_A,
    LD_mr16_r8(R16, R8),
    LD_mu16_A(Immediate16),
    LD_mu16_SP(Immediate16),
    LD_r16_d16(R16, Immediate16),
    LD_r8_mr16(R8, R16),
    LD_r8_r8(R8, R8),
    LD_r8_u8(R8, u8),
    LD_SP_HL,
    LD_SP_u16(Immediate16),
    NOP,
    OR_A_mHL,
    OR_A_r8(R8),
    OR_A_u8(u8),
    POP_r16(R16),
    PUSH_r16(R16),
    RES_u3_mHL(u8),
    RES_u3_r8(u8, R8),
    RET,
    RET_cc(Condition),
    RETI,
    RL_mHL,
    RL_r8(R8),
    /// Unlike `RL A`, this clears the zero flag.
    RLA,
    RLC_mHL,
    RLC_r8(R8),
    RLCA,
    RR_mHL,
    RR_r8(R8),
    /// Unlike `RR A`, this clears the zero flag.
    RRA,
    RRC_mHL,
    RRC_r8(R8),
    RRCA,
    RST(Immediate16),
    SBC_A_mHL,
    SBC_A_r8(R8),
    SBC_A_u8(u8),
    SCF,
    SET_u3_mHL(u8),
    SET_u3_r8(u8, R8),
    SLA_mHL,
    SLA_r8(R8),
    SRA_mHL,
    SRA_r8(R8),
    SRL_mHL,
    SRL_r8(R8),
    STOP,
    SUB_A_mHL,
    SUB_A_r8(R8),
    SUB_A_u8(u8),
    SWAP_mHL,
    SWAP_r8(R8),
    XOR_A_mHL,
    XOR_A_r8(R8),
    XOR_A_u8(u8),
}

impl Instruction {
    /// Every bit number among the operands is one of a byte's eight.
    pub open spec fn spec_wf(self) -> bool {
        match self {
            Instruction::BIT_u3_mHL(bit) => bit < 8,
            Instruction::BIT_u3_r8(bit, _) => bit < 8,
            Instruction::RES_u3_mHL(bit) => bit < 8,
            Instruction::RES_u3_r8(bit, _) => bit < 8,
            Instruction::SET_u3_mHL(bit) => bit < 8,
            Instruction::SET_u3_r8(bit, _) => bit < 8,
            _ => true,
        }
    }

    /// Whether the instruction names the program counter as an operand, which
    /// no decoded instruction does.
    pub open spec fn spec_names_pc(self) -> bool {
        match self {
            Instruction::ADD_HL_r16(r16) => r16 == R16::PC,
            Instruction::DEC_r16(r16) => r16 == R16::PC,
            Instruction::INC_r16(r16) => r16 == R16::PC,
            Instruction::LD_A_mr16(r16) => r16 == R16::PC,
            Instruction::LD_mr16_r8(r16, _) => r16 == R16::PC,
            Instruction::LD_r16_d16(r16, _) => r16 == R16::PC,
            Instruction::LD_r8_mr16(_, r16) => r16 == R16::PC,
            Instruction::POP_r16(r16) => r16 == R16::PC,
            Instruction::PUSH_r16(r16) => r16 == R16::PC,
            _ => false,
        }
    }

    /// Whether the instruction may move the program counter elsewhere than to
    /// the instruction after it: jumps, calls, returns and restarts.
    pub open spec fn spec_is_control_transfer(self) -> bool {
        match self {
            Instruction::CALL_a16(_) => true,
            Instruction::CALL_cc_u16(_, _) => true,
            Instruction::JP_cc_u16(_, _) => true,
            Instruction::JP_HL => true,
            Instruction::JP_u16(_) => true,
            Instruction::JR_cc_i8(_, _) => true,
            Instruction::JR_i8(_) => true,
            Instruction::JR_r8(_) => true,
            Instruction::RET => true,
            Instruction::RET_cc(_) => true,
            Instruction::RETI => true,
            Instruction::RST(_) => true,
            _ => false,
        }
    }
}

} // verus!
