//! Instructions as text, for listings.

use vstd::prelude::*;
use vstd::string::StringExecFns;
use crate::conditions::Condition;
use crate::instructions::decode::{DecodedInstruction, DecodedInstructionView};
use crate::instructions::semantics::{as_u8, spec_as_u8, Family};
use crate::instructions::type_def::Instruction;
use crate::machine::MachineView;
use crate::registers::{R16, R8};
use crate::text::{
    push_decimal, push_decimal_i8, push_hex_u16, push_hex_u8, spec_decimal, spec_decimal_i8,
    spec_hex_u16, spec_hex_u8,
};

verus! {

pub open spec fn spec_r8_name(r8: R8) -> Seq<char> {
    match r8 {
        R8::A => "A"@,
        R8::B => "B"@,
        R8::C => "C"@,
        R8::D => "D"@,
        R8::E => "E"@,
        R8::F => "F"@,
        R8::H => "H"@,
        R8::L => "L"@,
    }
}

pub open spec fn spec_r16_name(r16: R16) -> Seq<char> {
    match r16 {
        R16::AF => "AF"@,
        R16::BC => "BC"@,
        R16::DE => "DE"@,
        R16::HL => "HL"@,
        R16::SP => "SP"@,
        R16::PC => "PC"@,
    }
}

pub open spec fn spec_condition_name(condition: Condition) -> Seq<char> {
    match condition {
        Condition::C => "C"@,
        Condition::Z => "Z"@,
        Condition::NC => "NC"@,
        Condition::NZ => "NZ"@,
    }
}

pub fn r8_name(r8: R8) -> (name: &'static str)
    ensures
        name@ == spec_r8_name(r8),
{
    match r8 {
        R8::A => "A",
        R8::B => "B",
        R8::C => "C",
        R8::D => "D",
        R8::E => "E",
        R8::F => "F",
        R8::H => "H",
        R8::L => "L",
    }
}

pub fn r16_name(r16: R16) -> (name: &'static str)
    ensures
        name@ == spec_r16_name(r16),
{
    match r16 {
        R16::AF => "AF",
        R16::BC => "BC",
        R16::DE => "DE",
        R16::HL => "HL",
        R16::SP => "SP",
        R16::PC => "PC",
    }
}

pub fn condition_name(condition: Condition) -> (name: &'static str)
    ensures
        name@ == spec_condition_name(condition),
{
    match condition {
        Condition::C => "C",
        Condition::Z => "Z",
        Condition::NC => "NC",
        Condition::NZ => "NZ",
    }
}

impl DecodedInstructionView {
    /// The address that a relative jump of this instruction leads to: the
    /// address after the instruction plus the signed offset, modulo 65536.
    pub open spec fn spec_resolve_relative(self, offset: i8) -> u16 {
        self.address.wrapping_add(self.instruction_size as u16).wrapping_add_signed(offset as i16)
    }

    /// The instruction as text: its mnemonic and its operands, bytes and
    /// words in hexadecimal.
    pub open spec fn spec_as_string(self) -> Seq<char> {
        match self.instruction.spec_family() {
            Family::Arithmetic => self.spec_as_string_arithmetic(),
            Family::Rotate => self.spec_as_string_rotate(),
            Family::Shift => self.spec_as_string_shift(),
            Family::Load => self.spec_as_string_load(),
            Family::Control => self.spec_as_string_control(),
            Family::Other => self.spec_as_string_other(),
        }
    }

    /// The text of the 8-bit arithmetic and logic on the accumulator.
    #[verifier::opaque]
    pub open spec fn spec_as_string_arithmetic(self) -> Seq<char> {
        match self.instruction {
            Instruction::ADC_A_mHL => "ADC A [HL]"@,
            Instruction::ADC_A_r8(r8) => "ADC A, "@ + spec_r8_name(r8),
            Instruction::ADC_A_u8(byte) => "ADC A, 0x"@ + spec_hex_u8(byte),
            Instruction::ADD_A_mHL => "ADD A [HL]"@,
            Instruction::ADD_A_r8(r8) => "ADD A, "@ + spec_r8_name(r8),
            Instruction::ADD_A_u8(byte) => "ADD A, 0x"@ + spec_hex_u8(byte),
            Instruction::AND_A_mHL => "AND A, [HL]"@,
            Instruction::AND_A_r8(r8) => "AND A, "@ + spec_r8_name(r8),
            Instruction::AND_u8(byte) => "AND A, 0x"@ + spec_hex_u8(byte),
            Instruction::CP_A_mHL => "CP A, [HL]"@,
            Instruction::CP_A_r8(r8) => "CP A, "@ + spec_r8_name(r8),
            Instruction::CP_A_u8(byte) => "CP A, 0x"@ + spec_hex_u8(byte) + " (= "@
                + spec_decimal(byte as nat) + ")"@,
            Instruction::OR_A_mHL => "OR A, [HL]"@,
            Instruction::OR_A_r8(r8) => "OR A, "@ + spec_r8_name(r8),
            Instruction::OR_A_u8(byte) => "OR A, 0x"@ + spec_hex_u8(byte),
            Instruction::SBC_A_mHL => "SBC A, [HL]"@,
            Instruction::SBC_A_r8(r8) => "SBC A, "@ + spec_r8_name(r8),
            Instruction::SBC_A_u8(byte) => "SBC A, 0x"@ + spec_hex_u8(byte),
            Instruction::SUB_A_mHL => "SUB A, [HL]"@,
            Instruction::SUB_A_r8(r8) => "SUB A, "@ + spec_r8_name(r8),
            Instruction::SUB_A_u8(byte) => "SUB A, 0x"@ + spec_hex_u8(byte),
            Instruction::XOR_A_mHL => "XOR A, [HL]"@,
            Instruction::XOR_A_r8(r8) => "XOR A, "@ + spec_r8_name(r8),
            Instruction::XOR_A_u8(byte) => "XOR A, 0x"@ + spec_hex_u8(byte),
            _ => Seq::empty(),
        }
    }

    /// The text of the rotations.
    #[verifier::opaque]
    pub open spec fn spec_as_string_rotate(self) -> Seq<char> {
        match self.instruction {
            Instruction::RL_mHL => "RL [HL]"@,
            Instruction::RL_r8(r8) => "RL "@ + spec_r8_name(r8),
            Instruction::RLA => "RLA"@,
            Instruction::RLC_mHL => "RLC [HL]"@,
            Instruction::RLC_r8(r8) => "RLC "@ + spec_r8_name(r8),
            Instruction::RLCA => "RLCA"@,
            Instruction::RR_mHL => "RR [HL]"@,
            Instruction::RR_r8(r8) => "RRL "@ + spec_r8_name(r8),
            Instruction::RRA => "RRA"@,
            Instruction::RRC_mHL => "RRC [HL]"@,
            Instruction::RRC_r8(r8) => "RRC "@ + spec_r8_name(r8),
            Instruction::RRCA => "RRCA"@,
            _ => Seq::empty(),
        }
    }

    /// The text of the shifts, nibble swaps and single-bit operations.
    #[verifier::opaque]
    pub open spec fn spec_as_string_shift(self) -> Seq<char> {
        match self.instruction {
            Instruction::BIT_u3_mHL(bit) => "BIT "@ + spec_decimal(bit as nat) + ", [HL]"@,
            Instruction::BIT_u3_r8(bit, r8) => "BIT "@ + spec_decimal(bit as nat) + ", "@
                + spec_r8_name(r8),
            Instruction::RES_u3_mHL(bit) => "RES "@ + spec_decimal(bit as nat) + ", [HL]"@,
            Instruction::RES_u3_r8(bit, r8) => "RES "@ + spec_decimal(bit as nat) + ", "@
                + spec_r8_name(r8),
            Instruction::SET_u3_mHL(bit) => "SET "@ + spec_decimal(bit as nat) + ", [HL]"@,
            Instruction::SET_u3_r8(bit, r8) => "SET "@ + spec_decimal(bit as nat) + ", "@
                + spec_r8_name(r8),
            Instruction::SLA_mHL => "SLA [HL]"@,
            Instruction::SLA_r8(r8) => "SLA "@ + spec_r8_name(r8),
            Instruction::SRA_mHL => "SRA [HL]"@,
            Instruction::SRA_r8(r8) => "SRA "@ + spec_r8_name(r8),
            Instruction::SRL_mHL => "SRL [HL]"@,
            Instruction::SRL_r8(r8) => "SRL "@ + spec_r8_name(r8),
            Instruction::SWAP_mHL => "SWAP [HL]"@,
            Instruction::SWAP_r8(r8) => "SWAP "@ + spec_r8_name(r8),
            _ => Seq::empty(),
        }
    }

    /// The text of the loads and stores.
    #[verifier::opaque]
    pub open spec fn spec_as_string_load(self) -> Seq<char> {
        match self.instruction {
            Instruction::LD_A_FFC => "LD A, [0xFF00 + C]"@,
            Instruction::LD_A_FFu8(byte) => "LD A, [0x"@
                + spec_hex_u16(MachineView::spec_high_page(byte)) + "]"@,
            Instruction::LD_A_mHLdec => "LD A [HL-]"@,
            Instruction::LD_A_mHLinc => "LD A [HL+]"@,
            Instruction::LD_A_mr16(r16) => "LD A ["@ + spec_r16_name(r16) + "]"@,
            Instruction::LD_A_mu16(imm16) => "LD A, [0x"@ + spec_hex_u16(imm16.spec_as_u16())
                + "]"@,
            Instruction::LD_FFC_A => "LD [0xFF00 + C], A"@,
            Instruction::LD_FFu8_A(byte) => "LD [0x"@
                + spec_hex_u16(MachineView::spec_high_page(byte)) + "], A"@,
            Instruction::LD_H_mHL => "LD H, [HL]"@,
            Instruction::LD_L_mHL => "LD L, [HL]"@,
            Instruction::LD_mHL_u8(byte) => "LD [HL], 0x"@ + spec_hex_u8(byte),
            Instruction::LD_mHLdec_A => "LD [HL-], A"@,
            Instruction::LD_mHLinc_A => "LD [HL+], A"@,
            Instruction::LD_mr16_r8(r16, r8) => "LD ["@ + spec_r16_name(r16) + "] "@
                + spec_r8_name(r8),
            Instruction::LD_mu16_A(imm16) => "LD [0x"@ + spec_hex_u16(imm16.spec_as_u16())
                + "], A"@,
            Instruction::LD_mu16_SP(imm16) => "LD [0x"@ + spec_hex_u16(imm16.spec_as_u16())
                + "] SP"@,
            Instruction::LD_r16_d16(r16, imm16) => "LD "@ + spec_r16_name(r16) + " 0x"@
                + spec_hex_u16(imm16.spec_as_u16()) + " (= "@
                + spec_decimal(imm16.spec_as_u16() as nat) + ")"@,
            Instruction::LD_r8_mr16(r8, r16) => "LD "@ + spec_r8_name(r8) + " ["@
                + spec_r16_name(r16) + "]"@,
            Instruction::LD_r8_r8(to, from) => "LD "@ + spec_r8_name(to) + ", "@
                + spec_r8_name(from),
            Instruction::LD_r8_u8(r8, byte) => "LD "@ + spec_r8_name(r8) + ", 0x"@
                + spec_hex_u8(byte) + " (= "@ + spec_decimal(byte as nat) + ")"@,
            Instruction::LD_SP_HL => "LD SP, HL"@,
            Instruction::LD_SP_u16(imm16) => "LD SP 0x"@ + spec_hex_u16(imm16.spec_as_u16())
                + " (= "@ + spec_decimal(imm16.spec_as_u16() as nat) + ")"@,
            _ => Seq::empty(),
        }
    }

    /// The text of the jumps, calls, returns and stack transfers.
    #[verifier::opaque]
    pub open spec fn spec_as_string_control(self) -> Seq<char> {
        match self.instruction {
            Instruction::CALL_a16(imm16) => "CALL 0x"@ + spec_hex_u16(imm16.spec_as_u16()),
            Instruction::CALL_cc_u16(cc, imm16) => "CALL "@ + spec_condition_name(cc) + ", 0x"@
                + spec_hex_u16(imm16.spec_as_u16()),
            Instruction::JP_cc_u16(cc, imm16) => "JP "@ + spec_condition_name(cc) + ", 0x"@
                + spec_hex_u16(imm16.spec_as_u16()),
            Instruction::JP_HL => "JP HL"@,
            Instruction::JP_u16(imm16) => "JP 0x"@ + spec_hex_u16(imm16.spec_as_u16()),
            Instruction::JR_cc_i8(cc, offset) => "JR "@ + spec_condition_name(cc) + ", "@
                + spec_decimal_i8(offset) + " (=0x"@
                + spec_hex_u16(self.spec_resolve_relative(offset)) + ")"@,
            Instruction::JR_i8(offset) => "JR 0x"@ + spec_hex_u8(spec_as_u8(offset)),
            Instruction::JR_r8(r8) => "JP "@ + spec_r8_name(r8),
            Instruction::POP_r16(r16) => "POP "@ + spec_r16_name(r16),
            Instruction::PUSH_r16(r16) => "PUSH "@ + spec_r16_name(r16),
            Instruction::RET => "RET"@,
            Instruction::RET_cc(cc) => "RET "@ + spec_condition_name(cc),
            Instruction::RETI => "RETI"@,
            Instruction::RST(imm16) => "RST 0x"@ + spec_hex_u16(imm16.spec_as_u16()),
            _ => Seq::empty(),
        }
    }

    /// The text of the other instructions.
    #[verifier::opaque]
    pub open spec fn spec_as_string_other(self) -> Seq<char> {
        match self.instruction {
            Instruction::ADD_HL_r16(r16) => "ADD HL, "@ + spec_r16_name(r16),
            Instruction::ADD_SP_i8(offset) => "ADD SP, 0x"@ + spec_hex_u8(spec_as_u8(offset)),
            Instruction::CCF => "CCF"@,
            Instruction::CPL => "CPL"@,
            Instruction::DAA => "DAA"@,
            Instruction::DEC_mHL => "DEC [HL]"@,
            Instruction::DEC_r16(r16) => "DEC "@ + spec_r16_name(r16),
            Instruction::DEC_r8(r8) => "DEC "@ + spec_r8_name(r8),
            Instruction::DI => "DI"@,
            Instruction::EI => "EI"@,
            Instruction::HALT => "HALT"@,
            Instruction::Illegal(opcode) => "ILLEGAL 0x"@ + spec_hex_u8(opcode),
            Instruction::INC_mHL => "INC [HL]"@,
            Instruction::INC_r16(r16) => "INC "@ + spec_r16_name(r16),
            Instruction::INC_r8(r8) => "INC "@ + spec_r8_name(r8),
            Instruction::LD_HL_SP_i8(offset) => "LD HL, SP+"@ + spec_hex_u8(spec_as_u8(offset)),
            Instruction::NOP => "NOP"@,
            Instruction::SCF => "SCF"@,
            Instruction::STOP => "STOP"@,
            _ => Seq::empty(),
        }
    }

}

impl DecodedInstruction {
    pub fn resolve_relative(&self, offset: i8) -> (target: u16)
        ensures
            target == self@.spec_resolve_relative(offset),
    {
        self.address.wrapping_add(self.instruction_size as u16).wrapping_add_signed(offset as i16)
    }

    #[verifier::rlimit(50)]
    fn as_string_arithmetic(&self) -> (text: String)
        requires
            self.instruction.spec_family() == Family::Arithmetic,
        ensures
            text@ == self@.spec_as_string_arithmetic(),
    {
        reveal(DecodedInstructionView::spec_as_string_arithmetic);
        match &self.instruction {
            Instruction::ADC_A_mHL => {
                return String::from_str("ADC A [HL]");
            },
            Instruction::ADC_A_r8(r8) => {
                let mut text = String::from_str("ADC A, ");
                text.append(r8_name(*r8));
                return text;
            },
            Instruction::ADC_A_u8(byte) => {
                let mut text = String::from_str("ADC A, 0x");
                push_hex_u8(&mut text, *byte);
                return text;
            },
            Instruction::ADD_A_mHL => {
                return String::from_str("ADD A [HL]");
            },
            Instruction::ADD_A_r8(r8) => {
                let mut text = String::from_str("ADD A, ");
                text.append(r8_name(*r8));
                return text;
            },
            Instruction::ADD_A_u8(byte) => {
                let mut text = String::from_str("ADD A, 0x");
                push_hex_u8(&mut text, *byte);
                return text;
            },
            Instruction::AND_A_mHL => {
                return String::from_str("AND A, [HL]");
            },
            Instruction::AND_A_r8(r8) => {
                let mut text = String::from_str("AND A, ");
                text.append(r8_name(*r8));
                return text;
            },
            Instruction::AND_u8(byte) => {
                let mut text = String::from_str("AND A, 0x");
                push_hex_u8(&mut text, *byte);
                return text;
            },
            Instruction::CP_A_mHL => {
                return String::from_str("CP A, [HL]");
            },
            Instruction::CP_A_r8(r8) => {
                let mut text = String::from_str("CP A, ");
                text.append(r8_name(*r8));
                return text;
            },
            Instruction::CP_A_u8(byte) => {
                let mut text = String::from_str("CP A, 0x");
                push_hex_u8(&mut text, *byte);
                text.append(" (= ");
                push_decimal(&mut text, *byte as u16);
                text.append(")");
                return text;
            },
            Instruction::OR_A_mHL => {
                return String::from_str("OR A, [HL]");
            },
            Instruction::OR_A_r8(r8) => {
                let mut text = String::from_str("OR A, ");
                text.append(r8_name(*r8));
                return text;
            },
            Instruction::OR_A_u8(byte) => {
                let mut text = String::from_str("OR A, 0x");
                push_hex_u8(&mut text, *byte);
                return text;
            },
            Instruction::SBC_A_mHL => {
                return String::from_str("SBC A, [HL]");
            },
            Instruction::SBC_A_r8(r8) => {
                let mut text = String::from_str("SBC A, ");
                text.append(r8_name(*r8));
                return text;
            },
            Instruction::SBC_A_u8(byte) => {
                let mut text = String::from_str("SBC A, 0x");
                push_hex_u8(&mut text, *byte);
                return text;
            },
            Instruction::SUB_A_mHL => {
                return String::from_str("SUB A, [HL]");
            },
            Instruction::SUB_A_r8(r8) => {
                let mut text = String::from_str("SUB A, ");
                text.append(r8_name(*r8));
                return text;
            },
            Instruction::SUB_A_u8(byte) => {
                let mut text = String::from_str("SUB A, 0x");
                push_hex_u8(&mut text, *byte);
                return text;
            },
            Instruction::XOR_A_mHL => {
                return String::from_str("XOR A, [HL]");
            },
            Instruction::XOR_A_r8(r8) => {
                let mut text = String::from_str("XOR A, ");
                text.append(r8_name(*r8));
                return text;
            },
            Instruction::XOR_A_u8(byte) => {
                let mut text = String::from_str("XOR A, 0x");
                push_hex_u8(&mut text, *byte);
                return text;
            },
            _ => {
                return String::new();
            },
        }
    }

    #[verifier::rlimit(50)]
    fn as_string_rotate(&self) -> (text: String)
        requires
            self.instruction.spec_family() == Family::Rotate,
        ensures
            text@ == self@.spec_as_string_rotate(),
    {
        reveal(DecodedInstructionView::spec_as_string_rotate);
        match &self.instruction {
            Instruction::RL_mHL => {
                return String::from_str("RL [HL]");
            },
            Instruction::RL_r8(r8) => {
                let mut text = String::from_str("RL ");
                text.append(r8_name(*r8));
                return text;
            },
            Instruction::RLA => {
                return String::from_str("RLA");
            },
            Instruction::RLC_mHL => {
                return String::from_str("RLC [HL]");
            },
            Instruction::RLC_r8(r8) => {
                let mut text = String::from_str("RLC ");
                text.append(r8_name(*r8));
                return text;
            },
            Instruction::RLCA => {
                return String::from_str("RLCA");
            },
            Instruction::RR_mHL => {
                return String::from_str("RR [HL]");
            },
            Instruction::RR_r8(r8) => {
                let mut text = String::from_str("RRL ");
                text.append(r8_name(*r8));
                return text;
            },
            Instruction::RRA => {
                return String::from_str("RRA");
            },
            Instruction::RRC_mHL => {
                return String::from_str("RRC [HL]");
            },
            Instruction::RRC_r8(r8) => {
                let mut text = String::from_str("RRC ");
                text.append(r8_name(*r8));
                return text;
            },
            Instruction::RRCA => {
                return String::from_str("RRCA");
            },
            _ => {
                return String::new();
            },
        }
    }

    #[verifier::rlimit(50)]
    fn as_string_shift(&self) -> (text: String)
        requires
            self.instruction.spec_family() == Family::Shift,
        ensures
            text@ == self@.spec_as_string_shift(),
    {
        reveal(DecodedInstructionView::spec_as_string_shift);
        match &self.instruction {
            Instruction::BIT_u3_mHL(bit) => {
                let mut text = String::from_str("BIT ");
                push_decimal(&mut text, *bit as u16);
                text.append(", [HL]");
                return text;
            },
            Instruction::BIT_u3_r8(bit, r8) => {
                let mut text = String::from_str("BIT ");
                push_decimal(&mut text, *bit as u16);
                text.append(", ");
                text.append(r8_name(*r8));
                return text;
            },
            Instruction::RES_u3_mHL(bit) => {
                let mut text = String::from_str("RES ");
                push_decimal(&mut text, *bit as u16);
                text.append(", [HL]");
                return text;
            },
            Instruction::RES_u3_r8(bit, r8) => {
                let mut text = String::from_str("RES ");
                push_decimal(&mut text, *bit as u16);
                text.append(", ");
                text.append(r8_name(*r8));
                return text;
            },
            Instruction::SET_u3_mHL(bit) => {
                let mut text = String::from_str("SET ");
                push_decimal(&mut text, *bit as u16);
                text.append(", [HL]");
                return text;
            },
            Instruction::SET_u3_r8(bit, r8) => {
                let mut text = String::from_str("SET ");
                push_decimal(&mut text, *bit as u16);
                text.append(", ");
                text.append(r8_name(*r8));
                return text;
            },
            Instruction::SLA_mHL => {
                return String::from_str("SLA [HL]");
            },
            Instruction::SLA_r8(r8) => {
                let mut text = String::from_str("SLA ");
                text.append(r8_name(*r8));
                return text;
            },
            Instruction::SRA_mHL => {
                return String::from_str("SRA [HL]");
            },
            Instruction::SRA_r8(r8) => {
                let mut text = String::from_str("SRA ");
                text.append(r8_name(*r8));
                return text;
            },
            Instruction::SRL_mHL => {
                return String::from_str("SRL [HL]");
            },
            Instruction::SRL_r8(r8) => {
                let mut text = String::from_str("SRL ");
                text.append(r8_name(*r8));
                return text;
            },
            Instruction::SWAP_mHL => {
                return String::from_str("SWAP [HL]");
            },
            Instruction::SWAP_r8(r8) => {
                let mut text = String::from_str("SWAP ");
                text.append(r8_name(*r8));
                return text;
            },
            _ => {
                return String::new();
            },
        }
    }

    #[verifier::rlimit(50)]
    fn as_string_load(&self) -> (text: String)
        requires
            self.instruction.spec_family() == Family::Load,
        ensures
            text@ == self@.spec_as_string_load(),
    {
        reveal(DecodedInstructionView::spec_as_string_load);
        match &self.instruction {
            Instruction::LD_A_FFC => {
                return String::from_str("LD A, [0xFF00 + C]");
            },
            Instruction::LD_A_FFu8(byte) => {
                let mut text = String::from_str("LD A, [0x");
                push_hex_u16(&mut text, 0xFF00 + (*byte as u16));
                text.append("]");
                return text;
            },
            Instruction::LD_A_mHLdec => {
                return String::from_str("LD A [HL-]");
            },
            Instruction::LD_A_mHLinc => {
                return String::from_str("LD A [HL+]");
            },
            Instruction::LD_A_mr16(r16) => {
                let mut text = String::from_str("LD A [");
                text.append(r16_name(*r16));
                text.append("]");
                return text;
            },
            Instruction::LD_A_mu16(imm16) => {
                let mut text = String::from_str("LD A, [0x");
                push_hex_u16(&mut text, imm16.as_u16());
                text.append("]");
                return text;
            },
            Instruction::LD_FFC_A => {
                return String::from_str("LD [0xFF00 + C], A");
            },
            Instruction::LD_FFu8_A(byte) => {
                let mut text = String::from_str("LD [0x");
                push_hex_u16(&mut text, 0xFF00 + (*byte as u16));
                text.append("], A");
                return text;
            },
            Instruction::LD_H_mHL => {
                return String::from_str("LD H, [HL]");
            },
            Instruction::LD_L_mHL => {
                return String::from_str("LD L, [HL]");
            },
            Instruction::LD_mHL_u8(byte) => {
                let mut text = String::from_str("LD [HL], 0x");
                push_hex_u8(&mut text, *byte);
                return text;
            },
            Instruction::LD_mHLdec_A => {
                return String::from_str("LD [HL-], A");
            },
            Instruction::LD_mHLinc_A => {
                return String::from_str("LD [HL+], A");
            },
            Instruction::LD_mr16_r8(r16, r8) => {
                let mut text = String::from_str("LD [");
                text.append(r16_name(*r16));
                text.append("] ");
                text.append(r8_name(*r8));
                return text;
            },
            Instruction::LD_mu16_A(imm16) => {
                let mut text = String::from_str("LD [0x");
                push_hex_u16(&mut text, imm16.as_u16());
                text.append("], A");
                return text;
            },
            Instruction::LD_mu16_SP(imm16) => {
                let mut text = String::from_str("LD [0x");
                push_hex_u16(&mut text, imm16.as_u16());
                text.append("] SP");
                return text;
            },
            Instruction::LD_r16_d16(r16, imm16) => {
                let mut text = String::from_str("LD ");
                text.append(r16_name(*r16));
                text.append(" 0x");
                push_hex_u16(&mut text, imm16.as_u16());
                text.append(" (= ");
                push_decimal(&mut text, imm16.as_u16());
                text.append(")");
                return text;
            },
            Instruction::LD_r8_mr16(r8, r16) => {
                let mut text = String::from_str("LD ");
                text.append(r8_name(*r8));
                text.append(" [");
                text.append(r16_name(*r16));
                text.append("]");
                return text;
            },
            Instruction::LD_r8_r8(to, from) => {
                let mut text = String::from_str("LD ");
                text.append(r8_name(*to));
                text.append(", ");
                text.append(r8_name(*from));
                return text;
            },
            Instruction::LD_r8_u8(r8, byte) => {
                let mut text = String::from_str("LD ");
                text.append(r8_name(*r8));
                text.append(", 0x");
                push_hex_u8(&mut text, *byte);
                text.append(" (= ");
                push_decimal(&mut text, *byte as u16);
                text.append(")");
                return text;
            },
            Instruction::LD_SP_HL => {
                return String::from_str("LD SP, HL");
            },
            Instruction::LD_SP_u16(imm16) => {
                let mut text = String::from_str("LD SP 0x");
                push_hex_u16(&mut text, imm16.as_u16());
                text.append(" (= ");
                push_decimal(&mut text, imm16.as_u16());
                text.append(")");
                return text;
            },
            _ => {
                return String::new();
            },
        }
    }

    #[verifier::rlimit(50)]
    fn as_string_control(&self) -> (text: String)
        requires
            self.instruction.spec_family() == Family::Control,
        ensures
            text@ == self@.spec_as_string_control(),
    {
        reveal(DecodedInstructionView::spec_as_string_control);
        match &self.instruction {
            Instruction::CALL_a16(imm16) => {
                let mut text = String::from_str("CALL 0x");
                push_hex_u16(&mut text, imm16.as_u16());
                return text;
            },
            Instruction::CALL_cc_u16(cc, imm16) => {
                let mut text = String::from_str("CALL ");
                text.append(condition_name(*cc));
                text.append(", 0x");
                push_hex_u16(&mut text, imm16.as_u16());
                return text;
            },
            Instruction::JP_cc_u16(cc, imm16) => {
                let mut text = String::from_str("JP ");
                text.append(condition_name(*cc));
                text.append(", 0x");
                push_hex_u16(&mut text, imm16.as_u16());
                return text;
            },
            Instruction::JP_HL => {
                return String::from_str("JP HL");
            },
            Instruction::JP_u16(imm16) => {
                let mut text = String::from_str("JP 0x");
                push_hex_u16(&mut text, imm16.as_u16());
                return text;
            },
            Instruction::JR_cc_i8(cc, offset) => {
                let mut text = String::from_str("JR ");
                text.append(condition_name(*cc));
                text.append(", ");
                push_decimal_i8(&mut text, *offset);
                text.append(" (=0x");
                push_hex_u16(&mut text, self.resolve_relative(*offset));
                text.append(")");
                return text;
            },
            Instruction::JR_i8(offset) => {
                let mut text = String::from_str("JR 0x");
                push_hex_u8(&mut text, as_u8(*offset));
                return text;
            },
            Instruction::JR_r8(r8) => {
                let mut text = String::from_str("JP ");
                text.append(r8_name(*r8));
                return text;
            },
            Instruction::POP_r16(r16) => {
                let mut text = String::from_str("POP ");
                text.append(r16_name(*r16));
                return text;
            },
            Instruction::PUSH_r16(r16) => {
                let mut text = String::from_str("PUSH ");
                text.append(r16_name(*r16));
                return text;
            },
            Instruction::RET => {
                return String::from_str("RET");
            },
            Instruction::RET_cc(cc) => {
                let mut text = String::from_str("RET ");
                text.append(condition_name(*cc));
                return text;
            },
            Instruction::RETI => {
                return String::from_str("RETI");
            },
            Instruction::RST(imm16) => {
                let mut text = String::from_str("RST 0x");
                push_hex_u16(&mut text, imm16.as_u16());
                return text;
            },
            _ => {
                return String::new();
            },
        }
    }

    #[verifier::rlimit(50)]
    fn as_string_other(&self) -> (text: String)
        requires
            self.instruction.spec_family() == Family::Other,
        ensures
            text@ == self@.spec_as_string_other(),
    {
        reveal(DecodedInstructionView::spec_as_string_other);
        match &self.instruction {
            Instruction::ADD_HL_r16(r16) => {
                let mut text = String::from_str("ADD HL, ");
                text.append(r16_name(*r16));
                return text;
            },
            Instruction::ADD_SP_i8(offset) => {
                let mut text = String::from_str("ADD SP, 0x");
                push_hex_u8(&mut text, as_u8(*offset));
                return text;
            },
            Instruction::CCF => {
                return String::from_str("CCF");
            },
            Instruction::CPL => {
                return String::from_str("CPL");
            },
            Instruction::DAA => {
                return String::from_str("DAA");
            },
            Instruction::DEC_mHL => {
                return String::from_str("DEC [HL]");
            },
            Instruction::DEC_r16(r16) => {
                let mut text = String::from_str("DEC ");
                text.append(r16_name(*r16));
                return text;
            },
            Instruction::DEC_r8(r8) => {
                let mut text = String::from_str("DEC ");
                text.append(r8_name(*r8));
                return text;
            },
            Instruction::DI => {
                return String::from_str("DI");
            },
            Instruction::EI => {
                return String::from_str("EI");
            },
            Instruction::HALT => {
                return String::from_str("HALT");
            },
            Instruction::Illegal(opcode) => {
                let mut text = String::from_str("ILLEGAL 0x");
                push_hex_u8(&mut text, *opcode);
                return text;
            },
            Instruction::INC_mHL => {
                return String::from_str("INC [HL]");
            },
            Instruction::INC_r16(r16) => {
                let mut text = String::from_str("INC ");
                text.append(r16_name(*r16));
                return text;
            },
            Instruction::INC_r8(r8) => {
                let mut text = String::from_str("INC ");
                text.append(r8_name(*r8));
                return text;
            },
            Instruction::LD_HL_SP_i8(offset) => {
                let mut text = String::from_str("LD HL, SP+");
                push_hex_u8(&mut text, as_u8(*offset));
                return text;
            },
            Instruction::NOP => {
                return String::from_str("NOP");
            },
            Instruction::SCF => {
                return String::from_str("SCF");
            },
            Instruction::STOP => {
                return String::from_str("STOP");
            },
            _ => {
                return String::new();
            },
        }
    }

    /// The instruction as text.
    pub fn as_string(&self) -> (text: String)
        ensures
            text@ == self@.spec_as_string(),
    {
        match self.instruction.family() {
            Family::Arithmetic => self.as_string_arithmetic(),
            Family::Rotate => self.as_string_rotate(),
            Family::Shift => self.as_string_shift(),
            Family::Load => self.as_string_load(),
            Family::Control => self.as_string_control(),
            Family::Other => self.as_string_other(),
        }
    }
}

} // verus!
