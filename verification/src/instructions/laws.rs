//! What holds of every instruction: where the program counter ends up, and
//! what the arithmetic does to the flags.

use vstd::prelude::*;
use crate::cpu::interrupts::Interrupts;

use crate::fault::Fault;
use crate::instructions::decode::{lemma_decode_shape, DecodedInstructionView};
use crate::instructions::semantics::{spec_add_produces_carry, spec_bit_of, spec_sub_borrows, Family};
use crate::instructions::type_def::{Immediate16, Instruction};
use crate::machine::{lemma_read_ignores_registers, lemma_write_frame, MachineView};
use crate::registers::{
    lemma_halves, lemma_write_flag, lemma_write_flag_frame, lemma_write_r8_frame,
    lemma_write_r8_then_read, lemma_znhc, lemma_znhc_frame, spec_higher_u8, spec_lower_u8, Flag,
    Registers, R16, R8,
};

verus! {

/// Subtracting a byte from itself always leaves zero in A, with Z and N set
/// and H and C clear.
pub proof fn lemma_sub_self(registers: Registers, a: u8)
    ensures
        registers.spec_subc(a, a, false).spec_read_a() == 0,
        registers.spec_subc(a, a, false).spec_read_flag(Flag::Z),
        registers.spec_subc(a, a, false).spec_read_flag(Flag::N),
        !registers.spec_subc(a, a, false).spec_read_flag(Flag::H),
        !registers.spec_subc(a, a, false).spec_read_flag(Flag::C),
{
    reveal(spec_sub_borrows);
    let written = registers.spec_write_r8(R8::A, 0);
    lemma_write_r8_then_read(registers, R8::A, 0, R8::A);
    lemma_znhc(written, true, true, false, false);
}

/// An addition with carry leaves the sum modulo 256 in A; Z is set exactly
/// when that is zero, N is clear, H is the carry out of bit 3 and C the carry
/// out of bit 7.
pub proof fn lemma_adc_flags(registers: Registers, a: u8, b: u8, c: bool)
    ensures
        registers.spec_adc(a, b, c).spec_read_a() == (a + b + spec_bit_of(c)) % 256,
        registers.spec_adc(a, b, c).spec_read_flag(Flag::Z) == ((a + b + spec_bit_of(c)) % 256
            == 0),
        !registers.spec_adc(a, b, c).spec_read_flag(Flag::N),
        registers.spec_adc(a, b, c).spec_read_flag(Flag::H) == (a % 16 + b % 16 + spec_bit_of(c)
            > 15),
        registers.spec_adc(a, b, c).spec_read_flag(Flag::C) == (a + b + spec_bit_of(c) > 255),
        registers.spec_adc(a, b, c).spec_read_f() % 16 == 0,
{
    reveal(spec_add_produces_carry);
    let res = a.wrapping_add(b).wrapping_add(spec_bit_of(c));
    let written = registers.spec_write_r8(R8::A, res);
    lemma_write_r8_then_read(registers, R8::A, res, R8::A);
    lemma_znhc(
        written,
        res == 0,
        false,
        spec_add_produces_carry(a as u16, b as u16, c, 4),
        spec_add_produces_carry(a as u16, b as u16, c, 8),
    );
}

/// A subtraction with borrow leaves the difference modulo 256 in A; Z is set
/// exactly when that is zero, N is set, H is the borrow out of bit 4 and C
/// the borrow out of bit 8.
pub proof fn lemma_subc_flags(registers: Registers, a: u8, b: u8, c: bool)
    ensures
        registers.spec_subc(a, b, c).spec_read_a() == (a - b - spec_bit_of(c)) % 256,
        registers.spec_subc(a, b, c).spec_read_flag(Flag::Z) == ((a - b - spec_bit_of(c)) % 256
            == 0),
        registers.spec_subc(a, b, c).spec_read_flag(Flag::N),
        registers.spec_subc(a, b, c).spec_read_flag(Flag::H) == (a % 16 < b % 16 + spec_bit_of(c)),
        registers.spec_subc(a, b, c).spec_read_flag(Flag::C) == (a < b + spec_bit_of(c)),
        registers.spec_subc(a, b, c).spec_read_f() % 16 == 0,
{
    reveal(spec_sub_borrows);
    let res = a.wrapping_sub(b).wrapping_sub(spec_bit_of(c));
    let written = registers.spec_write_r8(R8::A, res);
    lemma_write_r8_then_read(registers, R8::A, res, R8::A);
    lemma_znhc(
        written,
        res == 0,
        true,
        spec_sub_borrows(a as u16, b as u16, c, 4),
        spec_sub_borrows(a as u16, b as u16, c, 8),
    );
}

/// A comparison leaves A as it was; Z is set exactly when the two bytes are
/// equal, N is set, H is the borrow out of bit 4 and C the borrow out of
/// bit 8.
pub proof fn lemma_compare_flags(registers: Registers, a: u8, b: u8)
    ensures
        registers.spec_compare(a, b).spec_read_a() == registers.spec_read_a(),
        registers.spec_compare(a, b).spec_read_flag(Flag::Z) == (a == b),
        registers.spec_compare(a, b).spec_read_flag(Flag::N),
        registers.spec_compare(a, b).spec_read_flag(Flag::H) == (a % 16 < b % 16),
        registers.spec_compare(a, b).spec_read_flag(Flag::C) == (a < b),
{
    reveal(spec_sub_borrows);
    lemma_znhc(
        registers,
        a == b,
        true,
        spec_sub_borrows(a as u16, b as u16, false, 4),
        spec_sub_borrows(a as u16, b as u16, false, 8),
    );
}

/// A 16-bit addition leaves the sum modulo 65536 in HL; N is clear, H is the
/// carry out of bit 11, C is the carry out of bit 15, and Z stays as it was.
pub proof fn lemma_add_hl_flags(registers: Registers, r16: R16)
    ensures
        registers.spec_add_hl(r16).hl == (registers.hl + registers.spec_read_r16(r16)) % 65536,
        !registers.spec_add_hl(r16).spec_read_flag(Flag::N),
        registers.spec_add_hl(r16).spec_read_flag(Flag::H) == (registers.hl % 4096
            + registers.spec_read_r16(r16) % 4096 > 4095),
        registers.spec_add_hl(r16).spec_read_flag(Flag::C) == (registers.hl
            + registers.spec_read_r16(r16) > 65535),
        registers.spec_add_hl(r16).spec_read_flag(Flag::Z) == registers.spec_read_flag(Flag::Z),
        registers.spec_add_hl(r16).spec_read_a() == registers.spec_read_a(),
{
    reveal(spec_add_produces_carry);
    reveal(Registers::spec_read_flag);
    let a = registers.hl;
    let b = registers.spec_read_r16(r16);
    let summed = registers.spec_write_r16(R16::HL, a.wrapping_add(b));
    let cleared = summed.spec_write_flag(Flag::N, false);
    let halved = cleared.spec_write_flag(Flag::H, spec_add_produces_carry(a, b, false, 12));
    let h = spec_add_produces_carry(a, b, false, 12);
    let c = spec_add_produces_carry(a, b, false, 16);
    lemma_write_flag(summed, Flag::N, false, Flag::N);
    lemma_write_flag(summed, Flag::N, false, Flag::Z);
    lemma_write_flag(cleared, Flag::H, h, Flag::N);
    lemma_write_flag(cleared, Flag::H, h, Flag::Z);
    lemma_write_flag(cleared, Flag::H, h, Flag::H);
    lemma_write_flag(halved, Flag::C, c, Flag::N);
    lemma_write_flag(halved, Flag::C, c, Flag::Z);
    lemma_write_flag(halved, Flag::C, c, Flag::H);
    lemma_write_flag(halved, Flag::C, c, Flag::C);
}

/// An increment of an 8-bit register other than F leaves its value plus one,
/// modulo 256, there; Z is set exactly when that is zero, N is clear, H is the
/// carry out of bit 3, and C stays as it was.
pub proof fn lemma_inc_r8_flags(registers: Registers, r8: R8)
    requires
        r8 != R8::F,
    ensures
        registers.spec_inc_r8(r8).spec_read_flag(Flag::Z) == (registers.spec_read_r8(r8) == 255),
        !registers.spec_inc_r8(r8).spec_read_flag(Flag::N),
        registers.spec_inc_r8(r8).spec_read_flag(Flag::H) == (registers.spec_read_r8(r8) % 16
            == 15),
        registers.spec_inc_r8(r8).spec_read_flag(Flag::C) == registers.spec_read_flag(Flag::C),
        r8 != R8::A ==> registers.spec_inc_r8(r8).spec_read_a() == registers.spec_read_a(),
        r8 == R8::A ==> registers.spec_inc_r8(r8).spec_read_a() == (registers.spec_read_a() + 1)
            % 256,
{
    reveal(spec_add_produces_carry);
    reveal(Registers::spec_read_flag);
    let value = registers.spec_read_r8(r8);
    let written = registers.spec_write_r8(r8, value.wrapping_add(1));
    let h = spec_add_produces_carry(value as u16, 1, false, 4);
    let zeroed = written.spec_write_flag(Flag::Z, value == 255);
    let cleared = zeroed.spec_write_flag(Flag::N, false);
    lemma_write_r8_then_read(registers, r8, value.wrapping_add(1), R8::F);
    lemma_write_r8_then_read(registers, r8, value.wrapping_add(1), R8::A);
    lemma_write_flag(written, Flag::Z, value == 255, Flag::Z);
    lemma_write_flag(written, Flag::Z, value == 255, Flag::C);
    lemma_write_flag(zeroed, Flag::N, false, Flag::Z);
    lemma_write_flag(zeroed, Flag::N, false, Flag::N);
    lemma_write_flag(zeroed, Flag::N, false, Flag::C);
    lemma_write_flag(cleared, Flag::H, h, Flag::Z);
    lemma_write_flag(cleared, Flag::H, h, Flag::N);
    lemma_write_flag(cleared, Flag::H, h, Flag::H);
    lemma_write_flag(cleared, Flag::H, h, Flag::C);
}

/// With the stack in work RAM, a push succeeds and leaves the higher byte of
/// the word just below where the stack pointer was and the lower byte below
/// that, with the stack pointer two lower; and a pop that follows hands the
/// word back and puts the stack pointer where it was.
pub proof fn lemma_push_then_pop(machine: MachineView, word: u16, r16: R16)
    requires
        machine.ppu.wram_0.len() == crate::ppu::WRAM_SIZE,
        machine.ppu.wram_1.len() == crate::ppu::WRAM_SIZE,
        0xC002 <= machine.cpu.registers.sp <= 0xE000,
        r16 != R16::SP,
    ensures
        machine.spec_push_imm16(Immediate16::spec_from_u16(word)) is Ok,
        ({
            let pushed = machine.spec_push_imm16(Immediate16::spec_from_u16(word))->Ok_0;
            let sp = machine.cpu.registers.sp;
            &&& pushed.cpu.registers.sp == sp - 2
            &&& pushed.spec_read_u8((sp - 1) as u16) == Ok::<u8, Fault>(spec_higher_u8(word))
            &&& pushed.spec_read_u8((sp - 2) as u16) == Ok::<u8, Fault>(spec_lower_u8(word))
            &&& pushed.spec_pop_r16(r16) is Ok
            &&& pushed.spec_pop_r16(r16)->Ok_0.cpu.registers.spec_read_r16(r16) == word
            &&& pushed.spec_pop_r16(r16)->Ok_0.cpu.registers.sp == sp
        }),
{
    reveal(MachineView::spec_write_u8);
    reveal(MachineView::spec_read_u8);
    lemma_halves(0, 0, word);
}

/// Whether two states of a machine hold the same ROMs, for the same
/// cartridge, and have counted the same t-cycles.
pub open spec fn spec_same_cartridge(before: MachineView, after: MachineView) -> bool {
    &&& after.cpu.memory.game_rom == before.cpu.memory.game_rom
    &&& after.cpu.memory.boot_rom == before.cpu.memory.boot_rom
    &&& after.rom_information == before.rom_information
    &&& after.t_cycle_count == before.t_cycle_count
}

/// Whether an outcome, if it is one, kept the ROMs and the count of t-cycles
/// of `machine`.
pub open spec fn spec_keeps_cartridge(
    outcome: Result<(MachineView, (u8, u8)), Fault>,
    machine: MachineView,
) -> bool {
    outcome is Ok ==> spec_same_cartridge(machine, outcome->Ok_0.0)
}

/// Whether an outcome, if it is one, has the program counter of `machine`.
pub open spec fn spec_keeps_pc(
    outcome: Result<(MachineView, (u8, u8)), Fault>,
    machine: MachineView,
) -> bool {
    outcome is Ok ==> outcome->Ok_0.0.cpu.registers.pc == machine.cpu.registers.pc
}

#[verifier::rlimit(50)]
proof fn lemma_arithmetic_keeps_pc(instruction: Instruction, machine: MachineView)
    requires
        instruction.spec_family() == Family::Arithmetic,
    ensures
        spec_keeps_pc(instruction.spec_execute_arithmetic(machine), machine),
        spec_keeps_cartridge(instruction.spec_execute_arithmetic(machine), machine),
{
    reveal(Instruction::spec_execute_arithmetic);
    broadcast use lemma_write_r8_frame, lemma_znhc_frame, lemma_write_flag_frame;

}

#[verifier::rlimit(50)]
proof fn lemma_rotate_keeps_pc(instruction: Instruction, machine: MachineView)
    requires
        instruction.spec_family() == Family::Rotate,
    ensures
        spec_keeps_pc(instruction.spec_execute_rotate(machine), machine),
        spec_keeps_cartridge(instruction.spec_execute_rotate(machine), machine),
{
    reveal(Instruction::spec_execute_rotate);
    broadcast use
        lemma_write_r8_frame,
        lemma_znhc_frame,
        lemma_write_flag_frame,
        lemma_write_frame,
    ;

}

#[verifier::rlimit(50)]
proof fn lemma_shift_keeps_pc(instruction: Instruction, machine: MachineView)
    requires
        instruction.spec_family() == Family::Shift,
    ensures
        spec_keeps_pc(instruction.spec_execute_shift(machine), machine),
        spec_keeps_cartridge(instruction.spec_execute_shift(machine), machine),
{
    reveal(Instruction::spec_execute_shift);
    broadcast use
        lemma_write_r8_frame,
        lemma_znhc_frame,
        lemma_write_flag_frame,
        lemma_write_frame,
    ;

}

#[verifier::rlimit(50)]
proof fn lemma_load_keeps_pc(instruction: Instruction, machine: MachineView)
    requires
        instruction.spec_family() == Family::Load,
        !instruction.spec_names_pc(),
    ensures
        spec_keeps_pc(instruction.spec_execute_load(machine), machine),
        spec_keeps_cartridge(instruction.spec_execute_load(machine), machine),
{
    reveal(Instruction::spec_execute_load);
    broadcast use lemma_write_r8_frame, lemma_write_frame;

}

#[verifier::rlimit(50)]
proof fn lemma_other_keeps_pc(instruction: Instruction, machine: MachineView)
    requires
        instruction.spec_family() == Family::Other,
        !instruction.spec_names_pc(),
    ensures
        spec_keeps_pc(instruction.spec_execute_other(machine), machine),
        spec_keeps_cartridge(instruction.spec_execute_other(machine), machine),
{
    reveal(Instruction::spec_execute_other);
    reveal(Registers::spec_daa);
    broadcast use
        lemma_write_r8_frame,
        lemma_znhc_frame,
        lemma_write_flag_frame,
        lemma_write_frame,
    ;

}

/// The word that a return would pop: its lower byte where the stack pointer
/// points, its higher byte at the address above.
pub open spec fn spec_return_address(machine: MachineView) -> Option<u16> {
    let sp = machine.cpu.registers.sp;
    match (machine.spec_read_u8(sp), machine.spec_read_u8(sp.wrapping_add(1))) {
        (Ok(lower), Ok(higher)) => Some(
            (Immediate16 { lower_byte: lower, higher_byte: higher }).spec_as_u16(),
        ),
        _ => None,
    }
}

impl Instruction {
    /// Where the instruction sends the program counter, given the machine
    /// as it is once the instruction is fetched; none where it lets the
    /// program go on with the instruction after it.
    pub open spec fn spec_jump_target(self, fetched: MachineView) -> Option<u16> {
        let r = fetched.cpu.registers;
        match self {
            Instruction::CALL_a16(imm16) => Some(imm16.spec_as_u16()),
            Instruction::CALL_cc_u16(cc, imm16) => if cc.spec_holds(r) {
                Some(imm16.spec_as_u16())
            } else {
                None
            },
            Instruction::JP_cc_u16(cc, imm16) => if cc.spec_holds(r) {
                Some(imm16.spec_as_u16())
            } else {
                None
            },
            Instruction::JP_HL => Some(r.hl),
            Instruction::JP_u16(imm16) => Some(imm16.spec_as_u16()),
            Instruction::JR_cc_i8(cc, offset) => if cc.spec_holds(r) {
                Some(r.pc.wrapping_add_signed(offset as i16))
            } else {
                None
            },
            Instruction::JR_i8(offset) => Some(r.pc.wrapping_add_signed(offset as i16)),
            Instruction::RET => spec_return_address(fetched),
            Instruction::RET_cc(cc) => if cc.spec_holds(r) {
                spec_return_address(fetched)
            } else {
                None
            },
            Instruction::RETI => spec_return_address(
                MachineView {
                    interrupts: Interrupts {
                        interrupt_master_enable: true,
                        ..fetched.interrupts
                    },
                    ..fetched
                },
            ),
            Instruction::RST(imm16) => Some(imm16.spec_as_u16()),
            _ => None,
        }
    }
}

/// A pop into the program counter succeeds exactly when both bytes of the
/// return address can be read, and leaves that address there.
proof fn lemma_pop_pc(machine: MachineView)
    ensures
        machine.spec_pop_r16(R16::PC) is Ok <==> spec_return_address(machine) is Some,
        machine.spec_pop_r16(R16::PC) is Ok ==> machine.spec_pop_r16(R16::PC)->Ok_0.cpu.registers.pc
            == spec_return_address(machine)->Some_0,
{
    broadcast use lemma_read_ignores_registers;

    let sp = machine.cpu.registers.sp;
    let first = machine.spec_with_registers(
        machine.cpu.registers.spec_write_r16(R16::SP, sp.wrapping_add(1)),
    );
    assert(first.spec_read_u8(sp.wrapping_add(1)) == machine.spec_read_u8(sp.wrapping_add(1)));
}

/// A pop into another pair than the program counter leaves the program
/// counter alone.
proof fn lemma_pop_keeps_pc(machine: MachineView, r16: R16)
    requires
        r16 != R16::PC,
    ensures
        machine.spec_pop_r16(r16) is Ok ==> machine.spec_pop_r16(r16)->Ok_0.cpu.registers.pc
            == machine.cpu.registers.pc,
{
}

/// A push leaves the program counter alone.
pub proof fn lemma_push_keeps_pc(machine: MachineView, imm16: Immediate16)
    ensures
        machine.spec_push_imm16(imm16) is Ok ==> machine.spec_push_imm16(
            imm16,
        )->Ok_0.cpu.registers.pc == machine.cpu.registers.pc,
        machine.spec_push_imm16(imm16) is Ok ==> spec_same_cartridge(
            machine,
            machine.spec_push_imm16(imm16)->Ok_0,
        ),
{
    broadcast use lemma_write_frame;

}

#[verifier::rlimit(50)]
proof fn lemma_control_sets_pc(instruction: Instruction, machine: MachineView)
    requires
        instruction.spec_family() == Family::Control,
        !instruction.spec_names_pc(),
    ensures
        instruction.spec_execute_control(machine) is Ok ==> instruction.spec_execute_control(
            machine,
        )->Ok_0.0.cpu.registers.pc == match instruction.spec_jump_target(machine) {
            Some(target) => target,
            None => machine.cpu.registers.pc,
        },
        instruction.spec_execute_control(machine) is Ok && instruction.spec_is_control_transfer()
            && instruction.spec_jump_target(machine) is None ==> instruction is CALL_cc_u16
            || instruction is JP_cc_u16 || instruction is JR_cc_i8 || instruction is RET_cc,
        spec_keeps_cartridge(instruction.spec_execute_control(machine), machine),
{
    reveal(Instruction::spec_execute_control);
    let r = machine.cpu.registers;
    match instruction {
        Instruction::CALL_a16(_) | Instruction::CALL_cc_u16(_, _) | Instruction::RST(_) => {
            lemma_push_keeps_pc(machine, Immediate16::spec_from_u16(r.pc));
        },
        Instruction::PUSH_r16(r16) => {
            lemma_push_keeps_pc(
                machine,
                Immediate16::spec_from_u16(
                    if r16 == R16::AF {
                        r.af & 0xFFF0
                    } else {
                        r.spec_read_r16(r16)
                    },
                ),
            );
        },
        Instruction::POP_r16(r16) => {
            lemma_pop_keeps_pc(machine, r16);
        },
        Instruction::RET | Instruction::RET_cc(_) => {
            lemma_pop_pc(machine);
        },
        Instruction::RETI => {
            lemma_pop_pc(
                MachineView {
                    interrupts: Interrupts { interrupt_master_enable: true, ..machine.interrupts },
                    ..machine
                },
            );
        },
        _ => {},
    }
}

/// An instruction that is carried out leaves the program counter at its
/// target if it is a jump, call, return or restart that is taken, and else
/// just past its own bytes: at the address it was decoded at plus its size,
/// modulo 65536. A halted CPU that idles leaves the program counter alone.
pub proof fn lemma_pc_advance(machine: MachineView)
    ensures
        match machine.spec_execute_one_instruction() {
            Ok(after) => match after.1 {
                Some(decoded) => {
                    let next = machine.cpu.registers.pc.wrapping_add(
                        decoded.instruction_size as u16,
                    );
                    let fetched = machine.spec_awake().spec_with_registers(
                        machine.cpu.registers.spec_write_r16(R16::PC, next),
                    );
                    &&& decoded.address == machine.cpu.registers.pc
                    &&& 1 <= decoded.instruction_size <= 3
                    &&& decoded.raw.len() == decoded.instruction_size
                    &&& !decoded.instruction.spec_is_control_transfer()
                        ==> after.0.cpu.registers.pc == next
                    &&& after.0.cpu.registers.pc == match decoded.instruction.spec_jump_target(
                        fetched.spec_resolve_delayed_enable(),
                    ) {
                        Some(target) => target,
                        None => next,
                    }
                },
                None => after.0 == machine,
            },
            Err(_) => true,
        },
{
    reveal(MachineView::spec_execute_one_instruction);
    reveal(DecodedInstructionView::spec_decode_at);
    if !(machine.cpu.low_power_mode && !machine.interrupts.spec_is_interrupt_pending()) {
        let awake = machine.spec_awake();
        let pc = awake.cpu.registers.pc;
        match DecodedInstructionView::spec_decode_at(awake, pc) {
            Ok(decoded) => {
                let opcode = decoded.raw[0];
                let operand1 = if decoded.instruction_size >= 2 {
                    decoded.raw[1]
                } else {
                    0
                };
                let operand2 = if decoded.instruction_size == 3 {
                    decoded.raw[2]
                } else {
                    0
                };
                lemma_decode_shape(opcode, operand1, operand2);
                let instruction = decoded.instruction;
                let fetched = awake.spec_with_registers(
                    awake.cpu.registers.spec_write_r16(
                        R16::PC,
                        pc.wrapping_add(decoded.instruction_size as u16),
                    ),
                );
                let resolved = fetched.spec_resolve_delayed_enable();
                match instruction.spec_family() {
                    Family::Arithmetic => lemma_arithmetic_keeps_pc(instruction, resolved),
                    Family::Rotate => lemma_rotate_keeps_pc(instruction, resolved),
                    Family::Shift => lemma_shift_keeps_pc(instruction, resolved),
                    Family::Load => lemma_load_keeps_pc(instruction, resolved),
                    Family::Control => lemma_control_sets_pc(instruction, resolved),
                    Family::Other => lemma_other_keeps_pc(instruction, resolved),
                }
            },
            Err(_) => {},
        }
    }
}

/// No instruction changes a byte of either ROM, nor the count of t-cycles:
/// that count moves with the clock alone.
pub proof fn lemma_execute_keeps_cartridge(instruction: Instruction, machine: MachineView)
    requires
        !instruction.spec_names_pc(),
    ensures
        spec_keeps_cartridge(instruction.spec_execute(machine), machine),
{
    let resolved = machine.spec_resolve_delayed_enable();
    match instruction.spec_family() {
        Family::Arithmetic => lemma_arithmetic_keeps_pc(instruction, resolved),
        Family::Rotate => lemma_rotate_keeps_pc(instruction, resolved),
        Family::Shift => lemma_shift_keeps_pc(instruction, resolved),
        Family::Load => lemma_load_keeps_pc(instruction, resolved),
        Family::Control => lemma_control_sets_pc(instruction, resolved),
        Family::Other => lemma_other_keeps_pc(instruction, resolved),
    }
}

/// The CPU's part of a step changes no byte of either ROM, nor the count of
/// t-cycles.
pub proof fn lemma_execute_one_keeps_cartridge(machine: MachineView)
    ensures
        machine.spec_execute_one_instruction() is Ok ==> spec_same_cartridge(
            machine,
            machine.spec_execute_one_instruction()->Ok_0.0,
        ),
{
    reveal(MachineView::spec_execute_one_instruction);
    reveal(DecodedInstructionView::spec_decode_at);
    if !(machine.cpu.low_power_mode && !machine.interrupts.spec_is_interrupt_pending()) {
        let awake = machine.spec_awake();
        let pc = awake.cpu.registers.pc;
        match DecodedInstructionView::spec_decode_at(awake, pc) {
            Ok(decoded) => {
                let operand1 = if decoded.instruction_size >= 2 {
                    decoded.raw[1]
                } else {
                    0
                };
                let operand2 = if decoded.instruction_size == 3 {
                    decoded.raw[2]
                } else {
                    0
                };
                lemma_decode_shape(decoded.raw[0], operand1, operand2);
                let fetched = awake.spec_with_registers(
                    awake.cpu.registers.spec_write_r16(
                        R16::PC,
                        pc.wrapping_add(decoded.instruction_size as u16),
                    ),
                );
                lemma_execute_keeps_cartridge(decoded.instruction, fetched);
            },
            Err(_) => {},
        }
    }
}

/// A step changes no byte of either ROM, and adds its cost to the count of
/// t-cycles, which therefore never goes down; the count stops at the largest
/// number it can hold.
pub proof fn lemma_step_counts_cycles(machine: MachineView)
    ensures
        match machine.spec_step() {
            Ok(after) => {
                &&& after.0.cpu.memory.game_rom == machine.cpu.memory.game_rom
                &&& after.0.cpu.memory.boot_rom == machine.cpu.memory.boot_rom
                &&& after.0.rom_information == machine.rom_information
                &&& after.0.t_cycle_count == machine.t_cycle_count.saturating_add(after.2 as u64)
                &&& after.0.t_cycle_count >= machine.t_cycle_count
            },
            Err(_) => true,
        },
{
    reveal(MachineView::spec_handle_interrupts);
    reveal(MachineView::spec_advance_clock);
    match machine.interrupts.spec_should_handle_interrupt() {
        None => {
            lemma_execute_one_keeps_cartridge(machine);
        },
        Some(interrupt) => {
            let acknowledged = (MachineView {
                interrupts: machine.interrupts.spec_acknowledge(interrupt),
                ..machine
            }).spec_awake();
            lemma_push_keeps_pc(
                acknowledged,
                Immediate16::spec_from_u16(acknowledged.cpu.registers.pc),
            );
            match machine.spec_dispatch(interrupt) {
                Ok(vectored) => {
                    lemma_execute_one_keeps_cartridge(vectored);
                    match vectored.spec_execute_one_instruction() {
                        Ok(executed) => {
                            lemma_execute_one_keeps_cartridge(executed.0);
                        },
                        Err(_) => {},
                    }
                },
                Err(_) => {},
            }
        },
    }
}

} // verus!
