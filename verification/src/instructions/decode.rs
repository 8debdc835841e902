//! The decoder: from the bytes at an address to an instruction and its size.
//!
//! An opcode is read as three fields, x in its two upper bits, y in the
//! three middle ones and z in the three lower ones; y in turn splits into p,
//! its two upper bits, and q, its lowest.

use vstd::prelude::*;
use crate::conditions::Condition;
use crate::fault::Fault;
use crate::instructions::type_def::{Immediate16, Instruction};
use crate::machine::{Machine, MachineView};
use crate::registers::{R16, R8};
use crate::text::{push_hex_u8, spec_hex_u8};
use vstd::string::StringExecFns;

verus! {

pub struct DecodedInstruction {
    pub address: u16,
    pub instruction: Instruction,
    pub instruction_size: u8,
    pub raw: Vec<u8>,
}

pub ghost struct DecodedInstructionView {
    pub address: u16,
    pub instruction: Instruction,
    pub instruction_size: u8,
    pub raw: Seq<u8>,
}

impl View for DecodedInstruction {
    type V = DecodedInstructionView;

    open spec fn view(&self) -> DecodedInstructionView {
        DecodedInstructionView {
            address: self.address,
            instruction: self.instruction,
            instruction_size: self.instruction_size,
            raw: self.raw@,
        }
    }
}

/// The opcode that announces an operation of the second table.
pub const PREFIX_OPCODE: u8 = 0xCB;

/// The 8-bit register that a three-bit field names; none for 6, which names
/// the byte that HL points to.
pub open spec fn spec_r8_operand(index: u8) -> Option<R8> {
    if index == 0 {
        Some(R8::B)
    } else if index == 1 {
        Some(R8::C)
    } else if index == 2 {
        Some(R8::D)
    } else if index == 3 {
        Some(R8::E)
    } else if index == 4 {
        Some(R8::H)
    } else if index == 5 {
        Some(R8::L)
    } else if index == 6 {
        None
    } else {
        Some(R8::A)
    }
}

/// The register pair that a two-bit field names; the last is SP, or AF for
/// pushes and pops.
pub open spec fn spec_r16_operand(index: u8, stack: bool) -> R16 {
    if index == 0 {
        R16::BC
    } else if index == 1 {
        R16::DE
    } else if index == 2 {
        R16::HL
    } else if stack {
        R16::AF
    } else {
        R16::SP
    }
}

/// The condition that a two-bit field names.
pub open spec fn spec_condition_operand(index: u8) -> Condition {
    if index == 0 {
        Condition::NZ
    } else if index == 1 {
        Condition::Z
    } else if index == 2 {
        Condition::NC
    } else {
        Condition::C
    }
}

/// A byte read as a signed number in two's complement.
pub open spec fn spec_as_i8(byte: u8) -> i8 {
    if byte < 128 {
        byte as i8
    } else {
        (byte - 256) as i8
    }
}

/// The arithmetic or logic operation `y` on A and a register.
pub open spec fn spec_alu_register(y: u8, r8: R8) -> Instruction {
    if y == 0 {
        Instruction::ADD_A_r8(r8)
    } else if y == 1 {
        Instruction::ADC_A_r8(r8)
    } else if y == 2 {
        Instruction::SUB_A_r8(r8)
    } else if y == 3 {
        Instruction::SBC_A_r8(r8)
    } else if y == 4 {
        Instruction::AND_A_r8(r8)
    } else if y == 5 {
        Instruction::XOR_A_r8(r8)
    } else if y == 6 {
        Instruction::OR_A_r8(r8)
    } else {
        Instruction::CP_A_r8(r8)
    }
}

/// The arithmetic or logic operation `y` on A and the byte that HL points to.
pub open spec fn spec_alu_memory(y: u8) -> Instruction {
    if y == 0 {
        Instruction::ADD_A_mHL
    } else if y == 1 {
        Instruction::ADC_A_mHL
    } else if y == 2 {
        Instruction::SUB_A_mHL
    } else if y == 3 {
        Instruction::SBC_A_mHL
    } else if y == 4 {
        Instruction::AND_A_mHL
    } else if y == 5 {
        Instruction::XOR_A_mHL
    } else if y == 6 {
        Instruction::OR_A_mHL
    } else {
        Instruction::CP_A_mHL
    }
}

/// The arithmetic or logic operation `y` on A and an immediate byte.
pub open spec fn spec_alu_immediate(y: u8, operand: u8) -> Instruction {
    if y == 0 {
        Instruction::ADD_A_u8(operand)
    } else if y == 1 {
        Instruction::ADC_A_u8(operand)
    } else if y == 2 {
        Instruction::SUB_A_u8(operand)
    } else if y == 3 {
        Instruction::SBC_A_u8(operand)
    } else if y == 4 {
        Instruction::AND_u8(operand)
    } else if y == 5 {
        Instruction::XOR_A_u8(operand)
    } else if y == 6 {
        Instruction::OR_A_u8(operand)
    } else {
        Instruction::CP_A_u8(operand)
    }
}

/// The operation of the second table that a byte stands for.
pub open spec fn spec_decode_prefixed(operation: u8) -> Instruction {
    let x = operation / 64;
    let y = (operation / 8) % 8;
    match spec_r8_operand(operation % 8) {
        Some(r8) => if x == 1 {
            Instruction::BIT_u3_r8(y, r8)
        } else if x == 2 {
            Instruction::RES_u3_r8(y, r8)
        } else if x == 3 {
            Instruction::SET_u3_r8(y, r8)
        } else if y == 0 {
            Instruction::RLC_r8(r8)
        } else if y == 1 {
            Instruction::RRC_r8(r8)
        } else if y == 2 {
            Instruction::RL_r8(r8)
        } else if y == 3 {
            Instruction::RR_r8(r8)
        } else if y == 4 {
            Instruction::SLA_r8(r8)
        } else if y == 5 {
            Instruction::SRA_r8(r8)
        } else if y == 6 {
            Instruction::SWAP_r8(r8)
        } else {
            Instruction::SRL_r8(r8)
        },
        None => if x == 1 {
            Instruction::BIT_u3_mHL(y)
        } else if x == 2 {
            Instruction::RES_u3_mHL(y)
        } else if x == 3 {
            Instruction::SET_u3_mHL(y)
        } else if y == 0 {
            Instruction::RLC_mHL
        } else if y == 1 {
            Instruction::RRC_mHL
        } else if y == 2 {
            Instruction::RL_mHL
        } else if y == 3 {
            Instruction::RR_mHL
        } else if y == 4 {
            Instruction::SLA_mHL
        } else if y == 5 {
            Instruction::SRA_mHL
        } else if y == 6 {
            Instruction::SWAP_mHL
        } else {
            Instruction::SRL_mHL
        },
    }
}

/// The instructions whose opcode has x = 0.
pub open spec fn spec_decode_block_0(opcode: u8, operand1: u8, operand2: u8) -> Instruction {
    let y = (opcode / 8) % 8;
    let z = opcode % 8;
    let p = y / 2;
    let q = y % 2;
    let immediate = Immediate16 { lower_byte: operand1, higher_byte: operand2 };
    if z == 0 {
        if y == 0 {
            Instruction::NOP
        } else if y == 1 {
            Instruction::LD_mu16_SP(immediate)
        } else if y == 2 {
            Instruction::STOP
        } else if y == 3 {
            Instruction::JR_i8(spec_as_i8(operand1))
        } else {
            Instruction::JR_cc_i8(spec_condition_operand((y - 4) as u8), spec_as_i8(operand1))
        }
    } else if z == 1 {
        if q == 0 {
            if p == 3 {
                Instruction::LD_SP_u16(immediate)
            } else {
                Instruction::LD_r16_d16(spec_r16_operand(p, false), immediate)
            }
        } else {
            Instruction::ADD_HL_r16(spec_r16_operand(p, false))
        }
    } else if z == 2 {
        if q == 0 {
            if p == 0 {
                Instruction::LD_mr16_r8(R16::BC, R8::A)
            } else if p == 1 {
                Instruction::LD_mr16_r8(R16::DE, R8::A)
            } else if p == 2 {
                Instruction::LD_mHLinc_A
            } else {
                Instruction::LD_mHLdec_A
            }
        } else {
            if p == 0 {
                Instruction::LD_r8_mr16(R8::A, R16::BC)
            } else if p == 1 {
                Instruction::LD_r8_mr16(R8::A, R16::DE)
            } else if p == 2 {
                Instruction::LD_A_mHLinc
            } else {
                Instruction::LD_A_mHLdec
            }
        }
    } else if z == 3 {
        if q == 0 {
            Instruction::INC_r16(spec_r16_operand(p, false))
        } else {
            Instruction::DEC_r16(spec_r16_operand(p, false))
        }
    } else if z == 4 {
        match spec_r8_operand(y) {
            Some(r8) => Instruction::INC_r8(r8),
            None => Instruction::INC_mHL,
        }
    } else if z == 5 {
        match spec_r8_operand(y) {
            Some(r8) => Instruction::DEC_r8(r8),
            None => Instruction::DEC_mHL,
        }
    } else if z == 6 {
        match spec_r8_operand(y) {
            Some(r8) => Instruction::LD_r8_u8(r8, operand1),
            None => Instruction::LD_mHL_u8(operand1),
        }
    } else {
        if y == 0 {
            Instruction::RLCA
        } else if y == 1 {
            Instruction::RRCA
        } else if y == 2 {
            Instruction::RLA
        } else if y == 3 {
            Instruction::RRA
        } else if y == 4 {
            Instruction::DAA
        } else if y == 5 {
            Instruction::CPL
        } else if y == 6 {
            Instruction::SCF
        } else {
            Instruction::CCF
        }
    }
}

/// The instructions whose opcode has x = 1: loads between registers and the
/// byte that HL points to, and HALT where both would be that byte.
pub open spec fn spec_decode_block_1(opcode: u8) -> Instruction {
    match (spec_r8_operand((opcode / 8) % 8), spec_r8_operand(opcode % 8)) {
        (Some(to), Some(from)) => Instruction::LD_r8_r8(to, from),
        (Some(to), None) => Instruction::LD_r8_mr16(to, R16::HL),
        (None, Some(from)) => Instruction::LD_mr16_r8(R16::HL, from),
        (None, None) => Instruction::HALT,
    }
}

/// The instructions whose opcode has x = 3.
pub open spec fn spec_decode_block_3(opcode: u8, operand1: u8, operand2: u8) -> Instruction {
    let y = (opcode / 8) % 8;
    let z = opcode % 8;
    let p = y / 2;
    let q = y % 2;
    let immediate = Immediate16 { lower_byte: operand1, higher_byte: operand2 };
    if z == 0 {
        if y < 4 {
            Instruction::RET_cc(spec_condition_operand(y))
        } else if y == 4 {
            Instruction::LD_FFu8_A(operand1)
        } else if y == 5 {
            Instruction::ADD_SP_i8(spec_as_i8(operand1))
        } else if y == 6 {
            Instruction::LD_A_FFu8(operand1)
        } else {
            Instruction::LD_HL_SP_i8(spec_as_i8(operand1))
        }
    } else if z == 1 {
        if q == 0 {
            Instruction::POP_r16(spec_r16_operand(p, true))
        } else if p == 0 {
            Instruction::RET
        } else if p == 1 {
            Instruction::RETI
        } else if p == 2 {
            Instruction::JP_HL
        } else {
            Instruction::LD_SP_HL
        }
    } else if z == 2 {
        if y < 4 {
            Instruction::JP_cc_u16(spec_condition_operand(y), immediate)
        } else if y == 4 {
            Instruction::LD_FFC_A
        } else if y == 5 {
            Instruction::LD_mu16_A(immediate)
        } else if y == 6 {
            Instruction::LD_A_FFC
        } else {
            Instruction::LD_A_mu16(immediate)
        }
    } else if z == 3 {
        if y == 0 {
            Instruction::JP_u16(immediate)
        } else if y == 1 {
            spec_decode_prefixed(operand1)
        } else if y == 6 {
            Instruction::DI
        } else if y == 7 {
            Instruction::EI
        } else {
            Instruction::Illegal(opcode)
        }
    } else if z == 4 {
        if y < 4 {
            Instruction::CALL_cc_u16(spec_condition_operand(y), immediate)
        } else {
            Instruction::Illegal(opcode)
        }
    } else if z == 5 {
        if q == 0 {
            Instruction::PUSH_r16(spec_r16_operand(p, true))
        } else if p == 0 {
            Instruction::CALL_a16(immediate)
        } else {
            Instruction::Illegal(opcode)
        }
    } else if z == 6 {
        spec_alu_immediate(y, operand1)
    } else {
        Instruction::RST(Immediate16 { lower_byte: (y * 8) as u8, higher_byte: 0 })
    }
}

/// The instruction that an opcode and the two bytes after it stand for. An
/// instruction shorter than three bytes does not depend on the bytes beyond
/// its size.
pub open spec fn spec_decode(opcode: u8, operand1: u8, operand2: u8) -> Instruction {
    let x = opcode / 64;
    if x == 0 {
        spec_decode_block_0(opcode, operand1, operand2)
    } else if x == 1 {
        spec_decode_block_1(opcode)
    } else if x == 2 {
        match spec_r8_operand(opcode % 8) {
            Some(r8) => spec_alu_register((opcode / 8) % 8, r8),
            None => spec_alu_memory((opcode / 8) % 8),
        }
    } else {
        spec_decode_block_3(opcode, operand1, operand2)
    }
}

/// The number of bytes of the instruction that starts with `opcode`.
pub open spec fn spec_instruction_size(opcode: u8) -> u8 {
    let x = opcode / 64;
    let y = (opcode / 8) % 8;
    let z = opcode % 8;
    if x == 0 {
        if z == 0 {
            if y == 0 {
                1
            } else if y == 1 {
                3
            } else {
                2
            }
        } else if z == 1 {
            if y % 2 == 0 {
                3
            } else {
                1
            }
        } else if z == 6 {
            2
        } else {
            1
        }
    } else if x == 3 {
        if z == 0 {
            if y >= 4 {
                2
            } else {
                1
            }
        } else if z == 2 {
            if y < 4 || y == 5 || y == 7 {
                3
            } else {
                1
            }
        } else if z == 3 {
            if y == 0 {
                3
            } else if y == 1 {
                2
            } else {
                1
            }
        } else if z == 4 {
            if y < 4 {
                3
            } else {
                1
            }
        } else if z == 5 {
            if y == 1 {
                3
            } else {
                1
            }
        } else if z == 6 {
            2
        } else {
            1
        }
    } else {
        1
    }
}

impl DecodedInstructionView {
    /// What decoding at `address` gives: the opcode there says how many bytes
    /// the instruction has, and only that many are read, each from the
    /// address after the one before, wrapping at the top of the address
    /// space. A byte that cannot be read is the fault of the decoding.
    #[verifier::opaque]
    pub open spec fn spec_decode_at(machine: MachineView, address: u16) -> Result<
        DecodedInstructionView,
        Fault,
    > {
        match machine.spec_read_u8(address) {
            Err(fault) => Err(fault),
            Ok(opcode) => {
                let instruction_size = spec_instruction_size(opcode);
                if instruction_size == 1 {
                    Ok(
                        DecodedInstructionView {
                            address,
                            instruction: spec_decode(opcode, 0, 0),
                            instruction_size,
                            raw: seq![opcode],
                        },
                    )
                } else {
                    match machine.spec_read_u8(address.wrapping_add(1)) {
                        Err(fault) => Err(fault),
                        Ok(operand1) => if instruction_size == 2 {
                            Ok(
                                DecodedInstructionView {
                                    address,
                                    instruction: spec_decode(opcode, operand1, 0),
                                    instruction_size,
                                    raw: seq![opcode, operand1],
                                },
                            )
                        } else {
                            match machine.spec_read_u8(address.wrapping_add(2)) {
                                Err(fault) => Err(fault),
                                Ok(operand2) => Ok(
                                    DecodedInstructionView {
                                        address,
                                        instruction: spec_decode(opcode, operand1, operand2),
                                        instruction_size,
                                        raw: seq![opcode, operand1, operand2],
                                    },
                                ),
                            }
                        },
                    }
                }
            },
        }
    }
}

fn r8_operand(index: u8) -> (r8: Option<R8>)
    ensures
        r8 == spec_r8_operand(index),
{
    if index == 0 {
        Some(R8::B)
    } else if index == 1 {
        Some(R8::C)
    } else if index == 2 {
        Some(R8::D)
    } else if index == 3 {
        Some(R8::E)
    } else if index == 4 {
        Some(R8::H)
    } else if index == 5 {
        Some(R8::L)
    } else if index == 6 {
        None
    } else {
        Some(R8::A)
    }
}

fn r16_operand(index: u8, stack: bool) -> (r16: R16)
    ensures
        r16 == spec_r16_operand(index, stack),
{
    if index == 0 {
        R16::BC
    } else if index == 1 {
        R16::DE
    } else if index == 2 {
        R16::HL
    } else if stack {
        R16::AF
    } else {
        R16::SP
    }
}

fn condition_operand(index: u8) -> (condition: Condition)
    ensures
        condition == spec_condition_operand(index),
{
    if index == 0 {
        Condition::NZ
    } else if index == 1 {
        Condition::Z
    } else if index == 2 {
        Condition::NC
    } else {
        Condition::C
    }
}

/// Reads a byte as a signed number in two's complement.
pub fn as_i8(byte: u8) -> (signed: i8)
    ensures
        signed == spec_as_i8(byte),
{
    if byte < 128 {
        byte as i8
    } else {
        (byte as i16 - 256) as i8
    }
}

fn alu_register(y: u8, r8: R8) -> (instruction: Instruction)
    ensures
        instruction == spec_alu_register(y, r8),
{
    if y == 0 {
        Instruction::ADD_A_r8(r8)
    } else if y == 1 {
        Instruction::ADC_A_r8(r8)
    } else if y == 2 {
        Instruction::SUB_A_r8(r8)
    } else if y == 3 {
        Instruction::SBC_A_r8(r8)
    } else if y == 4 {
        Instruction::AND_A_r8(r8)
    } else if y == 5 {
        Instruction::XOR_A_r8(r8)
    } else if y == 6 {
        Instruction::OR_A_r8(r8)
    } else {
        Instruction::CP_A_r8(r8)
    }
}

fn alu_memory(y: u8) -> (instruction: Instruction)
    ensures
        instruction == spec_alu_memory(y),
{
    if y == 0 {
        Instruction::ADD_A_mHL
    } else if y == 1 {
        Instruction::ADC_A_mHL
    } else if y == 2 {
        Instruction::SUB_A_mHL
    } else if y == 3 {
        Instruction::SBC_A_mHL
    } else if y == 4 {
        Instruction::AND_A_mHL
    } else if y == 5 {
        Instruction::XOR_A_mHL
    } else if y == 6 {
        Instruction::OR_A_mHL
    } else {
        Instruction::CP_A_mHL
    }
}

fn alu_immediate(y: u8, operand: u8) -> (instruction: Instruction)
    ensures
        instruction == spec_alu_immediate(y, operand),
{
    if y == 0 {
        Instruction::ADD_A_u8(operand)
    } else if y == 1 {
        Instruction::ADC_A_u8(operand)
    } else if y == 2 {
        Instruction::SUB_A_u8(operand)
    } else if y == 3 {
        Instruction::SBC_A_u8(operand)
    } else if y == 4 {
        Instruction::AND_u8(operand)
    } else if y == 5 {
        Instruction::XOR_A_u8(operand)
    } else if y == 6 {
        Instruction::OR_A_u8(operand)
    } else {
        Instruction::CP_A_u8(operand)
    }
}

fn decode_prefixed(operation: u8) -> (instruction: Instruction)
    ensures
        instruction == spec_decode_prefixed(operation),
{
    let x = operation / 64;
    let y = (operation / 8) % 8;
    match r8_operand(operation % 8) {
        Some(r8) => if x == 1 {
            Instruction::BIT_u3_r8(y, r8)
        } else if x == 2 {
            Instruction::RES_u3_r8(y, r8)
        } else if x == 3 {
            Instruction::SET_u3_r8(y, r8)
        } else if y == 0 {
            Instruction::RLC_r8(r8)
        } else if y == 1 {
            Instruction::RRC_r8(r8)
        } else if y == 2 {
            Instruction::RL_r8(r8)
        } else if y == 3 {
            Instruction::RR_r8(r8)
        } else if y == 4 {
            Instruction::SLA_r8(r8)
        } else if y == 5 {
            Instruction::SRA_r8(r8)
        } else if y == 6 {
            Instruction::SWAP_r8(r8)
        } else {
            Instruction::SRL_r8(r8)
        },
        None => if x == 1 {
            Instruction::BIT_u3_mHL(y)
        } else if x == 2 {
            Instruction::RES_u3_mHL(y)
        } else if x == 3 {
            Instruction::SET_u3_mHL(y)
        } else if y == 0 {
            Instruction::RLC_mHL
        } else if y == 1 {
            Instruction::RRC_mHL
        } else if y == 2 {
            Instruction::RL_mHL
        } else if y == 3 {
            Instruction::RR_mHL
        } else if y == 4 {
            Instruction::SLA_mHL
        } else if y == 5 {
            Instruction::SRA_mHL
        } else if y == 6 {
            Instruction::SWAP_mHL
        } else {
            Instruction::SRL_mHL
        },
    }
}

fn decode_block_0(opcode: u8, operand1: u8, operand2: u8) -> (instruction: Instruction)
    requires
        opcode < 64,
    ensures
        instruction == spec_decode_block_0(opcode, operand1, operand2),
{
    let y = (opcode / 8) % 8;
    let z = opcode % 8;
    let p = y / 2;
    let q = y % 2;
    let immediate = Immediate16 { lower_byte: operand1, higher_byte: operand2 };
    if z == 0 {
        if y == 0 {
            Instruction::NOP
        } else if y == 1 {
            Instruction::LD_mu16_SP(immediate)
        } else if y == 2 {
            Instruction::STOP
        } else if y == 3 {
            Instruction::JR_i8(as_i8(operand1))
        } else {
            Instruction::JR_cc_i8(condition_operand(y - 4), as_i8(operand1))
        }
    } else if z == 1 {
        if q == 0 {
            if p == 3 {
                Instruction::LD_SP_u16(immediate)
            } else {
                Instruction::LD_r16_d16(r16_operand(p, false), immediate)
            }
        } else {
            Instruction::ADD_HL_r16(r16_operand(p, false))
        }
    } else if z == 2 {
        if q == 0 {
            if p == 0 {
                Instruction::LD_mr16_r8(R16::BC, R8::A)
            } else if p == 1 {
                Instruction::LD_mr16_r8(R16::DE, R8::A)
            } else if p == 2 {
                Instruction::LD_mHLinc_A
            } else {
                Instruction::LD_mHLdec_A
            }
        } else {
            if p == 0 {
                Instruction::LD_r8_mr16(R8::A, R16::BC)
            } else if p == 1 {
                Instruction::LD_r8_mr16(R8::A, R16::DE)
            } else if p == 2 {
                Instruction::LD_A_mHLinc
            } else {
                Instruction::LD_A_mHLdec
            }
        }
    } else if z == 3 {
        if q == 0 {
            Instruction::INC_r16(r16_operand(p, false))
        } else {
            Instruction::DEC_r16(r16_operand(p, false))
        }
    } else if z == 4 {
        match r8_operand(y) {
            Some(r8) => Instruction::INC_r8(r8),
            None => Instruction::INC_mHL,
        }
    } else if z == 5 {
        match r8_operand(y) {
            Some(r8) => Instruction::DEC_r8(r8),
            None => Instruction::DEC_mHL,
        }
    } else if z == 6 {
        match r8_operand(y) {
            Some(r8) => Instruction::LD_r8_u8(r8, operand1),
            None => Instruction::LD_mHL_u8(operand1),
        }
    } else {
        if y == 0 {
            Instruction::RLCA
        } else if y == 1 {
            Instruction::RRCA
        } else if y == 2 {
            Instruction::RLA
        } else if y == 3 {
            Instruction::RRA
        } else if y == 4 {
            Instruction::DAA
        } else if y == 5 {
            Instruction::CPL
        } else if y == 6 {
            Instruction::SCF
        } else {
            Instruction::CCF
        }
    }
}

fn decode_block_1(opcode: u8) -> (instruction: Instruction)
    ensures
        instruction == spec_decode_block_1(opcode),
{
    match (r8_operand((opcode / 8) % 8), r8_operand(opcode % 8)) {
        (Some(to), Some(from)) => Instruction::LD_r8_r8(to, from),
        (Some(to), None) => Instruction::LD_r8_mr16(to, R16::HL),
        (None, Some(from)) => Instruction::LD_mr16_r8(R16::HL, from),
        (None, None) => Instruction::HALT,
    }
}

fn decode_block_3(opcode: u8, operand1: u8, operand2: u8) -> (instruction: Instruction)
    ensures
        instruction == spec_decode_block_3(opcode, operand1, operand2),
{
    let y = (opcode / 8) % 8;
    let z = opcode % 8;
    let p = y / 2;
    let q = y % 2;
    let immediate = Immediate16 { lower_byte: operand1, higher_byte: operand2 };
    if z == 0 {
        if y < 4 {
            Instruction::RET_cc(condition_operand(y))
        } else if y == 4 {
            Instruction::LD_FFu8_A(operand1)
        } else if y == 5 {
            Instruction::ADD_SP_i8(as_i8(operand1))
        } else if y == 6 {
            Instruction::LD_A_FFu8(operand1)
        } else {
            Instruction::LD_HL_SP_i8(as_i8(operand1))
        }
    } else if z == 1 {
        if q == 0 {
            Instruction::POP_r16(r16_operand(p, true))
        } else if p == 0 {
            Instruction::RET
        } else if p == 1 {
            Instruction::RETI
        } else if p == 2 {
            Instruction::JP_HL
        } else {
            Instruction::LD_SP_HL
        }
    } else if z == 2 {
        if y < 4 {
            Instruction::JP_cc_u16(condition_operand(y), immediate)
        } else if y == 4 {
            Instruction::LD_FFC_A
        } else if y == 5 {
            Instruction::LD_mu16_A(immediate)
        } else if y == 6 {
            Instruction::LD_A_FFC
        } else {
            Instruction::LD_A_mu16(immediate)
        }
    } else if z == 3 {
        if y == 0 {
            Instruction::JP_u16(immediate)
        } else if y == 1 {
            decode_prefixed(operand1)
        } else if y == 6 {
            Instruction::DI
        } else if y == 7 {
            Instruction::EI
        } else {
            Instruction::Illegal(opcode)
        }
    } else if z == 4 {
        if y < 4 {
            Instruction::CALL_cc_u16(condition_operand(y), immediate)
        } else {
            Instruction::Illegal(opcode)
        }
    } else if z == 5 {
        if q == 0 {
            Instruction::PUSH_r16(r16_operand(p, true))
        } else if p == 0 {
            Instruction::CALL_a16(immediate)
        } else {
            Instruction::Illegal(opcode)
        }
    } else if z == 6 {
        alu_immediate(y, operand1)
    } else {
        Instruction::RST(Immediate16 { lower_byte: y * 8, higher_byte: 0 })
    }
}

/// The instruction that an opcode and the two bytes after it stand for.
pub fn decode_bytes(opcode: u8, operand1: u8, operand2: u8) -> (instruction: Instruction)
    ensures
        instruction == spec_decode(opcode, operand1, operand2),
{
    let x = opcode / 64;
    if x == 0 {
        decode_block_0(opcode, operand1, operand2)
    } else if x == 1 {
        decode_block_1(opcode)
    } else if x == 2 {
        match r8_operand(opcode % 8) {
            Some(r8) => alu_register((opcode / 8) % 8, r8),
            None => alu_memory((opcode / 8) % 8),
        }
    } else {
        decode_block_3(opcode, operand1, operand2)
    }
}

/// The number of bytes of the instruction that starts with `opcode`.
pub fn instruction_size(opcode: u8) -> (size: u8)
    ensures
        size == spec_instruction_size(opcode),
        1 <= size <= 3,
{
    let x = opcode / 64;
    let y = (opcode / 8) % 8;
    let z = opcode % 8;
    if x == 0 {
        if z == 0 {
            if y == 0 {
                1
            } else if y == 1 {
                3
            } else {
                2
            }
        } else if z == 1 {
            if y % 2 == 0 {
                3
            } else {
                1
            }
        } else if z == 6 {
            2
        } else {
            1
        }
    } else if x == 3 {
        if z == 0 {
            if y >= 4 {
                2
            } else {
                1
            }
        } else if z == 2 {
            if y < 4 || y == 5 || y == 7 {
                3
            } else {
                1
            }
        } else if z == 3 {
            if y == 0 {
                3
            } else if y == 1 {
                2
            } else {
                1
            }
        } else if z == 4 {
            if y < 4 {
                3
            } else {
                1
            }
        } else if z == 5 {
            if y == 1 {
                3
            } else {
                1
            }
        } else if z == 6 {
            2
        } else {
            1
        }
    } else {
        1
    }
}

/// Decodes the instruction at `address`. Its size is 1, 2 or 3, `raw` holds
/// that many bytes, and no byte beyond them is read.
pub fn decode_instruction_at_address(machine: &Machine, address: u16) -> (decoded: Result<
    DecodedInstruction,
    Fault,
>)
    ensures
        match DecodedInstructionView::spec_decode_at(machine@, address) {
            Ok(view) => decoded is Ok && decoded->Ok_0@ == view,
            Err(fault) => decoded is Err && decoded->Err_0 == fault,
        },
        decoded is Ok ==> {
            &&& 1 <= decoded->Ok_0.instruction_size <= 3
            &&& decoded->Ok_0.raw@.len() == decoded->Ok_0.instruction_size
            &&& decoded->Ok_0.address == address
            &&& decoded->Ok_0.instruction.spec_wf()
            &&& !decoded->Ok_0.instruction.spec_names_pc()
        },
{
    reveal(DecodedInstructionView::spec_decode_at);
    let opcode = machine.read_u8(address)?;
    let size = instruction_size(opcode);
    let mut raw: Vec<u8> = Vec::new();
    raw.push(opcode);
    let mut operand1: u8 = 0;
    let mut operand2: u8 = 0;
    if size >= 2 {
        operand1 = machine.read_u8(address.wrapping_add(1))?;
        raw.push(operand1);
    }
    if size == 3 {
        operand2 = machine.read_u8(address.wrapping_add(2))?;
        raw.push(operand2);
    }
    let instruction = decode_bytes(opcode, operand1, operand2);
    proof {
        lemma_decode_shape(opcode, operand1, operand2);
        if size == 1 {
            assert(raw@ =~= seq![opcode]);
        } else if size == 2 {
            assert(raw@ =~= seq![opcode, operand1]);
        } else {
            assert(raw@ =~= seq![opcode, operand1, operand2]);
        }
    }
    Ok(DecodedInstruction { address, instruction, instruction_size: size, raw })
}

/// The eleven opcodes that the instruction set leaves undefined.
pub open spec fn spec_is_illegal_opcode(opcode: u8) -> bool {
    ||| opcode == 0xD3
    ||| opcode == 0xDB
    ||| opcode == 0xDD
    ||| opcode == 0xE3
    ||| opcode == 0xE4
    ||| opcode == 0xEB
    ||| opcode == 0xEC
    ||| opcode == 0xED
    ||| opcode == 0xF4
    ||| opcode == 0xFC
    ||| opcode == 0xFD
}

/// Every opcode decodes to an instruction of 1, 2 or 3 bytes whose bit
/// numbers are in range, that does not name the program counter, that does not
/// depend on bytes beyond its size, and that is an illegal instruction
/// exactly for the eleven undefined opcodes, and never one without semantics.
pub proof fn lemma_decode_shape(opcode: u8, operand1: u8, operand2: u8)
    ensures
        1 <= spec_instruction_size(opcode) <= 3,
        spec_decode(opcode, operand1, operand2).spec_wf(),
        !spec_decode(opcode, operand1, operand2).spec_names_pc(),
        spec_instruction_size(opcode) == 1 ==> spec_decode(opcode, operand1, operand2)
            == spec_decode(opcode, 0, 0),
        spec_instruction_size(opcode) == 2 ==> spec_decode(opcode, operand1, operand2)
            == spec_decode(opcode, operand1, 0),
        spec_decode(opcode, operand1, operand2) is Illegal <==> spec_is_illegal_opcode(opcode),
        spec_decode(opcode, operand1, operand2) is Illegal ==> spec_decode(
            opcode,
            operand1,
            operand2,
        )->Illegal_0 == opcode,
        !(spec_decode(opcode, operand1, operand2) is JR_r8),
        !(spec_decode(opcode, operand1, operand2) is LD_H_mHL),
        !(spec_decode(opcode, operand1, operand2) is LD_L_mHL),
{
    let x = opcode / 64;
    let y = (opcode / 8) % 8;
    let z = opcode % 8;
    assert(opcode == x * 64 + y * 8 + z);
    if x == 3 && z == 3 && y == 1 {
        let yy = (operand1 / 8) % 8;
        assert(yy < 8);
    }
}


impl Clone for DecodedInstruction {
    fn clone(&self) -> (copy: Self)
        ensures
            copy@ == self@,
    {
        DecodedInstruction {
            address: self.address,
            instruction: self.instruction,
            instruction_size: self.instruction_size,
            raw: self.raw.clone(),
        }
    }
}


/// The bytes of an instruction in two hexadecimal digits each, every one
/// followed by a space.
pub open spec fn spec_display_raw(raw: Seq<u8>) -> Seq<char>
    decreases raw.len(),
{
    if raw.len() == 0 {
        Seq::empty()
    } else {
        spec_display_raw(raw.drop_last()) + spec_hex_u8(raw.last()) + " "@
    }
}

impl DecodedInstruction {
    pub fn display_raw(&self) -> (text: String)
        ensures
            text@ == spec_display_raw(self.raw@),
    {
        let mut res = String::new();
        let mut i: usize = 0;
        while i < self.raw.len()
            invariant
                i <= self.raw@.len(),
                res@ == spec_display_raw(self.raw@.subrange(0, i as int)),
            decreases self.raw@.len() - i,
        {
            push_hex_u8(&mut res, self.raw[i]);
            res.append(" ");
            proof {
                let longer = self.raw@.subrange(0, i + 1);
                assert(longer.drop_last() =~= self.raw@.subrange(0, i as int));
                assert(longer.last() == self.raw@[i as int]);
            }
            i = i + 1;
        }
        assert(self.raw@.subrange(0, i as int) =~= self.raw@);
        res
    }
}

} // verus!
