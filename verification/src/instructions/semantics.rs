//! What each instruction does to the machine, and what it costs.

use vstd::prelude::*;
use crate::cpu::{CPU, CPUView};
use crate::cpu::interrupts::Interrupts;
use crate::fault::Fault;
use crate::instructions::type_def::{Immediate16, Instruction};
use crate::machine::{Machine, MachineView};
use crate::registers::{spec_higher_u8, spec_lower_u8, Flag, Registers, R16, R8};
use crate::utils::{spec_is_bit_set, spec_set_bit, spec_unset_bit};

verus! {

/// Whether adding the low `bit` bits of `a` and `b`, and a carry-in, carries
/// into bit `bit`. Defined for the bits 4, 8, 12 and 16.
#[verifier::opaque]
pub open spec fn spec_add_produces_carry(a: u16, b: u16, c: bool, bit: u8) -> bool {
    let carry_in: int = if c {
        1
    } else {
        0
    };
    if bit == 4 {
        a % 16 + b % 16 + carry_in >= 16
    } else if bit == 8 {
        a % 256 + b % 256 + carry_in >= 256
    } else if bit == 12 {
        a % 4096 + b % 4096 + carry_in >= 4096
    } else {
        a + b + carry_in >= 65536
    }
}

/// Whether subtracting the low `bit` bits of `b`, and a borrow-in, from those
/// of `a` borrows from bit `bit`. Defined for the bits 4, 8, 12 and 16.
#[verifier::opaque]
pub open spec fn spec_sub_borrows(a: u16, b: u16, c: bool, bit: u8) -> bool {
    let borrow_in: int = if c {
        1
    } else {
        0
    };
    if bit == 4 {
        a % 16 < b % 16 + borrow_in
    } else if bit == 8 {
        a % 256 < b % 256 + borrow_in
    } else if bit == 12 {
        a % 4096 < b % 4096 + borrow_in
    } else {
        a < b + borrow_in
    }
}

/// The byte whose two's complement reading is `value`.
#[verifier::opaque]
pub open spec fn spec_as_u8(value: i8) -> u8 {
    if value >= 0 {
        value as u8
    } else {
        (value + 256) as u8
    }
}

/// A carry flag as the number it adds.
pub open spec fn spec_bit_of(flag: bool) -> u8 {
    if flag {
        1
    } else {
        0
    }
}

impl Registers {
    /// A + b + carry, modulo 256, into A: Z from the result, N clear, H from
    /// the carry out of bit 3, C from the carry out of bit 7.
    pub open spec fn spec_adc(self, a: u8, b: u8, c: bool) -> Registers {
        let res = a.wrapping_add(b).wrapping_add(spec_bit_of(c));
        self.spec_write_r8(R8::A, res).spec_znhc(
            res == 0,
            false,
            spec_add_produces_carry(a as u16, b as u16, c, 4),
            spec_add_produces_carry(a as u16, b as u16, c, 8),
        )
    }

    /// A - b - borrow, modulo 256, into A: Z from the result, N set, H from
    /// the borrow out of bit 4, C from the borrow out of bit 8.
    pub open spec fn spec_subc(self, a: u8, b: u8, c: bool) -> Registers {
        let res = a.wrapping_sub(b).wrapping_sub(spec_bit_of(c));
        self.spec_write_r8(R8::A, res).spec_znhc(
            res == 0,
            true,
            spec_sub_borrows(a as u16, b as u16, c, 4),
            spec_sub_borrows(a as u16, b as u16, c, 8),
        )
    }

    /// The flags of a - b, with no register but F changed.
    pub open spec fn spec_compare(self, a: u8, b: u8) -> Registers {
        self.spec_znhc(
            a == b,
            true,
            spec_sub_borrows(a as u16, b as u16, false, 4),
            spec_sub_borrows(a as u16, b as u16, false, 8),
        )
    }

    pub open spec fn spec_and(self, a: u8, b: u8) -> Registers {
        self.spec_write_r8(R8::A, a & b).spec_znhc(a & b == 0, false, true, false)
    }

    pub open spec fn spec_or(self, a: u8, b: u8) -> Registers {
        self.spec_write_r8(R8::A, a | b).spec_znhc(a | b == 0, false, false, false)
    }

    pub open spec fn spec_xor(self, a: u8, b: u8) -> Registers {
        self.spec_write_r8(R8::A, a ^ b).spec_znhc(a ^ b == 0, false, false, false)
    }

    /// The flags of a decrement of `a`: Z from the result, N set, H from the
    /// borrow out of bit 4, C kept.
    pub open spec fn spec_dec(self, a: u8) -> Registers {
        self.spec_write_flag(Flag::Z, a == 1).spec_write_flag(Flag::N, true).spec_write_flag(
            Flag::H,
            spec_sub_borrows(a as u16, 1, false, 4),
        )
    }

    /// An 8-bit register incremented: Z from the result, N clear, H from the
    /// carry out of bit 3, C kept.
    pub open spec fn spec_inc_r8(self, r8: R8) -> Registers {
        let value = self.spec_read_r8(r8);
        self.spec_write_r8(r8, value.wrapping_add(1)).spec_write_flag(
            Flag::Z,
            value == 255,
        ).spec_write_flag(Flag::N, false).spec_write_flag(
            Flag::H,
            spec_add_produces_carry(value as u16, 1, false, 4),
        )
    }

    /// HL + the pair, modulo 65536, into HL: N clear, H from the carry out of
    /// bit 11, C from the carry out of bit 15, Z kept.
    pub open spec fn spec_add_hl(self, r16: R16) -> Registers {
        let a = self.hl;
        let b = self.spec_read_r16(r16);
        self.spec_write_r16(R16::HL, a.wrapping_add(b)).spec_write_flag(
            Flag::N,
            false,
        ).spec_write_flag(Flag::H, spec_add_produces_carry(a, b, false, 12)).spec_write_flag(
            Flag::C,
            spec_add_produces_carry(a, b, false, 16),
        )
    }

    /// SP + a signed byte into `target`: Z and N clear, H and C from adding
    /// the byte, unsigned, to the lower byte of SP.
    pub open spec fn spec_add_sp(self, target: R16, offset: i8) -> Registers {
        let a = self.sp;
        self.spec_write_r16(target, a.wrapping_add_signed(offset as i16)).spec_znhc(
            false,
            false,
            spec_add_produces_carry(a, spec_as_u8(offset) as u16, false, 4),
            spec_add_produces_carry(a, spec_as_u8(offset) as u16, false, 8),
        )
    }

    /// The flags after a bit test: Z set when the bit is clear, N clear, H
    /// set, C kept.
    pub open spec fn spec_bit_complement(self, value: bool) -> Registers {
        self.spec_write_flag(Flag::Z, !value).spec_write_flag(Flag::N, false).spec_write_flag(
            Flag::H,
            true,
        )
    }

    /// The flags after a shift or rotation: Z from the result, N and H clear,
    /// C the bit that left the byte.
    pub open spec fn spec_shifted(self, res: u8, carry: bool) -> Registers {
        self.spec_znhc(res == 0, false, false, carry)
    }

    /// The accumulator adjusted to packed decimal after an addition or a
    /// subtraction, as N, H and C say.
    #[verifier::opaque]
    pub open spec fn spec_daa(self) -> Registers {
        let a = self.spec_read_a() as u16;
        let n = self.spec_read_flag(Flag::N);
        let h = self.spec_read_flag(Flag::H);
        let c = self.spec_read_flag(Flag::C);
        let low_adjusted = if n {
            if h {
                a.wrapping_sub(0x06)
            } else {
                a
            }
        } else if h || a % 16 > 0x09 {
            a.wrapping_add(0x06)
        } else {
            a
        };
        let half_carry = h || (!n && a % 16 > 0x09);
        let adjusted = if n {
            if c {
                low_adjusted.wrapping_sub(0x60)
            } else {
                low_adjusted
            }
        } else if c || low_adjusted % 512 > 0x9F {
            low_adjusted.wrapping_add(0x60)
        } else {
            low_adjusted
        };
        let carry = c || (!n && low_adjusted % 512 > 0x9F);
        self.spec_write_r8(R8::A, (adjusted % 256) as u8).spec_write_flag(
            Flag::Z,
            adjusted == 0,
        ).spec_write_flag(Flag::H, half_carry).spec_write_flag(Flag::C, carry)
    }
}

/// `value` moved one bit to the left, with `new_bit` in bit 0.
pub open spec fn spec_rotate_left_with(value: u8, new_bit: bool) -> u8 {
    (value << 1u8) | spec_bit_of(new_bit)
}

/// `value` moved one bit to the right, with `new_bit` in bit 7.
pub open spec fn spec_rotate_right_with(value: u8, new_bit: bool) -> u8 {
    (value >> 1u8) | (spec_bit_of(new_bit) << 7u8)
}

/// `value` moved one bit to the right, bit 7 staying as it was.
pub open spec fn spec_shift_right_arithmetically(value: u8) -> u8 {
    (value >> 1u8) | (value & 0x80)
}

/// `value` with its two nibbles exchanged.
pub open spec fn spec_swap(value: u8) -> u8 {
    ((value & 0x0F) << 4u8) | (value >> 4u8)
}

/// Bit 7 of a byte.
pub open spec fn spec_top_bit(value: u8) -> bool {
    value >> 7u8 == 1
}

/// Bit 0 of a byte.
pub open spec fn spec_low_bit(value: u8) -> bool {
    value & 1 == 1
}

pub fn add_produces_carry(a: u16, b: u16, c: bool, bit: u8) -> (carry: bool)
    requires
        bit == 4 || bit == 8 || bit == 12 || bit == 16,
    ensures
        carry == spec_add_produces_carry(a, b, c, bit),
{
    reveal(spec_add_produces_carry);
    let carry_in: u32 = if c {
        1
    } else {
        0
    };
    let a = a as u32;
    let b = b as u32;
    if bit == 4 {
        a % 16 + b % 16 + carry_in >= 16
    } else if bit == 8 {
        a % 256 + b % 256 + carry_in >= 256
    } else if bit == 12 {
        a % 4096 + b % 4096 + carry_in >= 4096
    } else {
        a + b + carry_in >= 65536
    }
}

pub fn sub_borrows(a: u16, b: u16, c: bool, bit: u8) -> (borrow: bool)
    requires
        bit == 4 || bit == 8 || bit == 12 || bit == 16,
    ensures
        borrow == spec_sub_borrows(a, b, c, bit),
{
    reveal(spec_sub_borrows);
    let borrow_in: u32 = if c {
        1
    } else {
        0
    };
    let a = a as u32;
    let b = b as u32;
    if bit == 4 {
        a % 16 < b % 16 + borrow_in
    } else if bit == 8 {
        a % 256 < b % 256 + borrow_in
    } else if bit == 12 {
        a % 4096 < b % 4096 + borrow_in
    } else {
        a < b + borrow_in
    }
}

/// The byte whose two's complement reading is `value`.
pub fn as_u8(value: i8) -> (byte: u8)
    ensures
        byte == spec_as_u8(value),
{
    reveal(spec_as_u8);
    if value >= 0 {
        value as u8
    } else {
        (value as i16 + 256) as u8
    }
}

fn bit_of(flag: bool) -> (bit: u8)
    ensures
        bit == spec_bit_of(flag),
{
    if flag {
        1
    } else {
        0
    }
}

pub fn compare(cpu: &mut CPU, a: u8, b: u8)
    ensures
        final(cpu)@ == (CPUView { registers: old(cpu)@.registers.spec_compare(a, b), ..old(cpu)@ }),
{
    cpu.registers.znhc(
        a == b,
        true,
        sub_borrows(a as u16, b as u16, false, 4),
        sub_borrows(a as u16, b as u16, false, 8),
    );
}

pub fn adc(cpu: &mut CPU, a: u8, b: u8, c: bool)
    ensures
        final(cpu)@ == (CPUView { registers: old(cpu)@.registers.spec_adc(a, b, c), ..old(cpu)@ }),
{
    let res = a.wrapping_add(b).wrapping_add(bit_of(c));
    cpu.registers.write_a(res).znhc(
        res == 0,
        false,
        add_produces_carry(a as u16, b as u16, c, 4),
        add_produces_carry(a as u16, b as u16, c, 8),
    );
}

pub fn add(cpu: &mut CPU, a: u8, b: u8)
    ensures
        final(cpu)@ == (CPUView {
            registers: old(cpu)@.registers.spec_adc(a, b, false),
            ..old(cpu)@
        }),
{
    adc(cpu, a, b, false)
}

pub fn and(cpu: &mut CPU, a: u8, b: u8)
    ensures
        final(cpu)@ == (CPUView { registers: old(cpu)@.registers.spec_and(a, b), ..old(cpu)@ }),
{
    let res = a & b;
    cpu.registers.write_a(res).znhc(res == 0, false, true, false);
}

pub fn or(cpu: &mut CPU, a: u8, b: u8)
    ensures
        final(cpu)@ == (CPUView { registers: old(cpu)@.registers.spec_or(a, b), ..old(cpu)@ }),
{
    let res = a | b;
    cpu.registers.write_a(res).znhc(res == 0, false, false, false);
}

/// Sets the flags of a decrement and hands the result back; the caller
/// stores it.
pub fn dec(cpu: &mut CPU, a: u8) -> (res: u8)
    ensures
        final(cpu)@ == (CPUView { registers: old(cpu)@.registers.spec_dec(a), ..old(cpu)@ }),
        res == a.wrapping_sub(1),
{
    let res = a.wrapping_sub(1);
    cpu.registers.write_flag(Flag::Z, res == 0).set_flag(Flag::N).write_flag(
        Flag::H,
        sub_borrows(a as u16, 1, false, 4),
    );
    res
}

pub fn subc(cpu: &mut CPU, a: u8, b: u8, c: bool)
    ensures
        final(cpu)@ == (CPUView { registers: old(cpu)@.registers.spec_subc(a, b, c), ..old(cpu)@ }),
{
    let res = a.wrapping_sub(b).wrapping_sub(bit_of(c));
    cpu.registers.write_a(res).znhc(
        res == 0,
        true,
        sub_borrows(a as u16, b as u16, c, 4),
        sub_borrows(a as u16, b as u16, c, 8),
    );
}

pub fn sub(cpu: &mut CPU, a: u8, b: u8)
    ensures
        final(cpu)@ == (CPUView {
            registers: old(cpu)@.registers.spec_subc(a, b, false),
            ..old(cpu)@
        }),
{
    subc(cpu, a, b, false)
}

pub fn xor(cpu: &mut CPU, a: u8, b: u8)
    ensures
        final(cpu)@ == (CPUView { registers: old(cpu)@.registers.spec_xor(a, b), ..old(cpu)@ }),
{
    let res = a ^ b;
    cpu.registers.write_a(res).znhc(res == 0, false, false, false);
}

pub fn rotate_left_with(cpu: &mut CPU, value: u8, new_bit: bool) -> (res: u8)
    ensures
        res == spec_rotate_left_with(value, new_bit),
        final(cpu)@ == (CPUView {
            registers: old(cpu)@.registers.spec_shifted(res, spec_top_bit(value)),
            ..old(cpu)@
        }),
{
    let carry = value >> 7u8;
    let res = (value << 1u8) | bit_of(new_bit);
    cpu.registers.znhc(res == 0, false, false, carry == 1);
    res
}

pub fn rotate_left_through_carry(cpu: &mut CPU, value: u8) -> (res: u8)
    ensures
        res == spec_rotate_left_with(value, old(cpu)@.registers.spec_read_flag(Flag::C)),
        final(cpu)@ == (CPUView {
            registers: old(cpu)@.registers.spec_shifted(res, spec_top_bit(value)),
            ..old(cpu)@
        }),
{
    let new_bit = cpu.registers.read_flag(Flag::C);
    rotate_left_with(cpu, value, new_bit)
}

pub fn rotate_left(cpu: &mut CPU, value: u8) -> (res: u8)
    ensures
        res == spec_rotate_left_with(value, spec_top_bit(value)),
        final(cpu)@ == (CPUView {
            registers: old(cpu)@.registers.spec_shifted(res, spec_top_bit(value)),
            ..old(cpu)@
        }),
{
    let new_bit = (value >> 7u8) == 1;
    rotate_left_with(cpu, value, new_bit)
}

pub fn rotate_right_with(cpu: &mut CPU, value: u8, new_bit: bool) -> (res: u8)
    ensures
        res == spec_rotate_right_with(value, new_bit),
        final(cpu)@ == (CPUView {
            registers: old(cpu)@.registers.spec_shifted(res, spec_low_bit(value)),
            ..old(cpu)@
        }),
{
    let carry = value & 1;
    let res = (value >> 1u8) | (bit_of(new_bit) << 7u8);
    cpu.registers.znhc(res == 0, false, false, carry == 1);
    res
}

pub fn rotate_right_through_carry(cpu: &mut CPU, value: u8) -> (res: u8)
    ensures
        res == spec_rotate_right_with(value, old(cpu)@.registers.spec_read_flag(Flag::C)),
        final(cpu)@ == (CPUView {
            registers: old(cpu)@.registers.spec_shifted(res, spec_low_bit(value)),
            ..old(cpu)@
        }),
{
    let new_bit = cpu.registers.read_flag(Flag::C);
    rotate_right_with(cpu, value, new_bit)
}

pub fn rotate_right(cpu: &mut CPU, value: u8) -> (res: u8)
    ensures
        res == spec_rotate_right_with(value, spec_low_bit(value)),
        final(cpu)@ == (CPUView {
            registers: old(cpu)@.registers.spec_shifted(res, spec_low_bit(value)),
            ..old(cpu)@
        }),
{
    let new_bit = (value & 1) == 1;
    rotate_right_with(cpu, value, new_bit)
}

pub fn shift_right_arithmetically(cpu: &mut CPU, value: u8) -> (res: u8)
    ensures
        res == spec_shift_right_arithmetically(value),
        final(cpu)@ == (CPUView {
            registers: old(cpu)@.registers.spec_shifted(res, spec_low_bit(value)),
            ..old(cpu)@
        }),
{
    let carry = value & 1;
    let bit7 = value & 0x80;
    let res = (value >> 1u8) | bit7;
    cpu.registers.znhc(res == 0, false, false, carry == 1);
    res
}

pub fn shift_right_logically(cpu: &mut CPU, value: u8) -> (res: u8)
    ensures
        res == spec_rotate_right_with(value, false),
        final(cpu)@ == (CPUView {
            registers: old(cpu)@.registers.spec_shifted(res, spec_low_bit(value)),
            ..old(cpu)@
        }),
{
    rotate_right_with(cpu, value, false)
}

pub fn swap(cpu: &mut CPU, value: u8) -> (res: u8)
    ensures
        res == spec_swap(value),
        final(cpu)@ == (CPUView {
            registers: old(cpu)@.registers.spec_shifted(res, false),
            ..old(cpu)@
        }),
{
    let new_low = value >> 4u8;
    let new_high = (value & 0x0F) << 4u8;
    let res = new_high | new_low;
    cpu.registers.znhc(res == 0, false, false, false);
    res
}

pub fn bit_complement(cpu: &mut CPU, value: bool)
    ensures
        final(cpu)@ == (CPUView {
            registers: old(cpu)@.registers.spec_bit_complement(value),
            ..old(cpu)@
        }),
{
    cpu.registers.write_flag(Flag::Z, !value).unset_flag(Flag::N).set_flag(Flag::H);
}

pub fn bit_reset(value: u8, bit_position: u8) -> (res: u8)
    requires
        bit_position < 8,
    ensures
        res == spec_unset_bit(value, bit_position),
{
    value & !(1u8 << bit_position)
}

pub fn bit_set(value: u8, bit_position: u8) -> (res: u8)
    requires
        bit_position < 8,
    ensures
        res == spec_set_bit(value, bit_position),
{
    value | (1u8 << bit_position)
}

/// Adjusts the accumulator to packed decimal.
fn decimal_adjust(cpu: &mut CPU)
    ensures
        final(cpu)@ == (CPUView { registers: old(cpu)@.registers.spec_daa(), ..old(cpu)@ }),
{
    reveal(Registers::spec_daa);
    let mut data: u16 = cpu.registers.read_a() as u16;
    let subtraction_flag = cpu.registers.read_flag(Flag::N);
    let mut half_carry = cpu.registers.read_flag(Flag::H);
    let mut carry = cpu.registers.read_flag(Flag::C);
    if subtraction_flag {
        if half_carry {
            data = data.wrapping_sub(0x06);
        }
        if carry {
            data = data.wrapping_sub(0x60);
        }
    } else {
        if half_carry || (data % 16) > 0x09 {
            data = data.wrapping_add(0x06);
            half_carry = true;
        }
        if carry || (data % 512) > 0x9F {
            data = data.wrapping_add(0x60);
            carry = true;
        }
    }
    cpu.registers.write_a((data % 256) as u8).write_flag(Flag::Z, data == 0).write_flag(
        Flag::H,
        half_carry,
    ).write_flag(Flag::C, carry);
}

impl MachineView {
    /// The machine once an enabling of interrupts that was put off by one
    /// instruction has taken effect.
    pub open spec fn spec_resolve_delayed_enable(self) -> MachineView {
        if self.interrupts.interrupt_master_enable_delayed {
            MachineView {
                interrupts: Interrupts {
                    interrupt_master_enable_delayed: false,
                    interrupt_master_enable: true,
                    ..self.interrupts
                },
                ..self
            }
        } else {
            self
        }
    }

    /// An instruction that ends with the register file as given.
    pub open spec fn spec_finish(self, registers: Registers, t: u8, m: u8) -> Result<
        (MachineView, (u8, u8)),
        Fault,
    > {
        Ok((self.spec_with_registers(registers), (t, m)))
    }

    /// An instruction that ends with a write.
    pub open spec fn spec_store(self, address: u16, value: u8, t: u8, m: u8) -> Result<
        (MachineView, (u8, u8)),
        Fault,
    > {
        match self.spec_write_u8(address, value) {
            Ok(machine) => Ok((machine, (t, m))),
            Err(fault) => Err(fault),
        }
    }

    /// An instruction that ends with a byte of memory loaded into a register.
    pub open spec fn spec_load(self, r8: R8, address: u16, t: u8, m: u8) -> Result<
        (MachineView, (u8, u8)),
        Fault,
    > {
        match self.spec_read_u8(address) {
            Ok(byte) => self.spec_finish(self.cpu.registers.spec_write_r8(r8, byte), t, m),
            Err(fault) => Err(fault),
        }
    }

    /// The machine after a call: the program counter is pushed, then set.
    pub open spec fn spec_call(self, address: u16, t: u8, m: u8) -> Result<
        (MachineView, (u8, u8)),
        Fault,
    > {
        match self.spec_push_imm16(Immediate16::spec_from_u16(self.cpu.registers.pc)) {
            Ok(pushed) => pushed.spec_finish(
                pushed.cpu.registers.spec_write_r16(R16::PC, address),
                t,
                m,
            ),
            Err(fault) => Err(fault),
        }
    }

    /// The machine after a return: the program counter is popped.
    pub open spec fn spec_return(self, t: u8, m: u8) -> Result<(MachineView, (u8, u8)), Fault> {
        match self.spec_pop_r16(R16::PC) {
            Ok(popped) => Ok((popped, (t, m))),
            Err(fault) => Err(fault),
        }
    }

    /// The byte that HL points to.
    pub open spec fn spec_read_hl(self) -> Result<u8, Fault> {
        self.spec_read_u8(self.cpu.registers.hl)
    }

    /// An instruction that has computed flags and a byte from the byte that
    /// HL points to, and ends by storing the byte back there.
    pub open spec fn spec_modify_hl(self, registers: Registers, res: u8, t: u8, m: u8) -> Result<
        (MachineView, (u8, u8)),
        Fault,
    > {
        self.spec_with_registers(registers).spec_store(self.cpu.registers.hl, res, t, m)
    }

    /// The address in the last page that a byte selects.
    pub open spec fn spec_high_page(offset: u8) -> u16 {
        (0xFF00 + offset) as u16
    }
}

impl Instruction {
    /// The machine after the instruction, and its cost in t-cycles and
    /// m-cycles; or the fault that stops it. The program counter is taken to
    /// point past the instruction already. An enabling of interrupts that was
    /// put off takes effect first.
    pub open spec fn spec_execute(self, before: MachineView) -> Result<
        (MachineView, (u8, u8)),
        Fault,
    > {
        self.spec_execute_resolved(before.spec_resolve_delayed_enable())
    }

    /// The machine after the instruction and its cost, or the fault that
    /// stops it, once a put-off enabling of interrupts has taken effect.
    pub open spec fn spec_execute_resolved(self, machine: MachineView) -> Result<
        (MachineView, (u8, u8)),
        Fault,
    > {
        match self.spec_family() {
            Family::Arithmetic => self.spec_execute_arithmetic(machine),
            Family::Rotate => self.spec_execute_rotate(machine),
            Family::Shift => self.spec_execute_shift(machine),
            Family::Load => self.spec_execute_load(machine),
            Family::Control => self.spec_execute_control(machine),
            Family::Other => self.spec_execute_other(machine),
        }
    }

    /// What the 8-bit arithmetic and logic on the accumulator does.
    #[verifier::opaque]
    pub open spec fn spec_execute_arithmetic(self, machine: MachineView) -> Result<
        (MachineView, (u8, u8)),
        Fault,
    > {
        let r = machine.cpu.registers;
        let a = r.spec_read_a();
        let carry = r.spec_read_flag(Flag::C);
        match self {
            Instruction::ADC_A_mHL => match machine.spec_read_hl() {
                Ok(b) => machine.spec_finish(r.spec_adc(a, b, carry), 8, 2),
                Err(fault) => Err(fault),
            },
            Instruction::ADC_A_r8(r8) => machine.spec_finish(
                r.spec_adc(a, r.spec_read_r8(r8), carry),
                4,
                1,
            ),
            Instruction::ADC_A_u8(b) => machine.spec_finish(r.spec_adc(a, b, carry), 8, 2),
            Instruction::ADD_A_mHL => match machine.spec_read_hl() {
                Ok(b) => machine.spec_finish(r.spec_adc(a, b, false), 8, 2),
                Err(fault) => Err(fault),
            },
            Instruction::ADD_A_r8(r8) => machine.spec_finish(
                r.spec_adc(a, r.spec_read_r8(r8), false),
                4,
                1,
            ),
            Instruction::ADD_A_u8(b) => machine.spec_finish(r.spec_adc(a, b, false), 8, 2),
            Instruction::AND_A_mHL => match machine.spec_read_hl() {
                Ok(b) => machine.spec_finish(r.spec_and(a, b), 8, 2),
                Err(fault) => Err(fault),
            },
            Instruction::AND_A_r8(r8) => machine.spec_finish(
                r.spec_and(a, r.spec_read_r8(r8)),
                4,
                1,
            ),
            Instruction::AND_u8(b) => machine.spec_finish(r.spec_and(a, b), 8, 2),
            Instruction::CP_A_mHL => match machine.spec_read_hl() {
                Ok(b) => machine.spec_finish(r.spec_compare(a, b), 8, 2),
                Err(fault) => Err(fault),
            },
            Instruction::CP_A_r8(r8) => machine.spec_finish(
                r.spec_compare(a, r.spec_read_r8(r8)),
                4,
                1,
            ),
            Instruction::CP_A_u8(b) => machine.spec_finish(r.spec_compare(a, b), 8, 2),
            Instruction::OR_A_mHL => match machine.spec_read_hl() {
                Ok(b) => machine.spec_finish(r.spec_or(a, b), 8, 2),
                Err(fault) => Err(fault),
            },
            Instruction::OR_A_r8(r8) => machine.spec_finish(r.spec_or(a, r.spec_read_r8(r8)), 4, 1),
            Instruction::OR_A_u8(b) => machine.spec_finish(r.spec_or(a, b), 8, 2),
            Instruction::SBC_A_mHL => match machine.spec_read_hl() {
                Ok(b) => machine.spec_finish(r.spec_subc(a, b, carry), 8, 2),
                Err(fault) => Err(fault),
            },
            Instruction::SBC_A_r8(r8) => machine.spec_finish(
                r.spec_subc(a, r.spec_read_r8(r8), carry),
                4,
                1,
            ),
            Instruction::SBC_A_u8(b) => machine.spec_finish(r.spec_subc(a, b, carry), 8, 2),
            Instruction::SUB_A_mHL => match machine.spec_read_hl() {
                Ok(b) => machine.spec_finish(r.spec_subc(a, b, false), 8, 2),
                Err(fault) => Err(fault),
            },
            Instruction::SUB_A_r8(r8) => machine.spec_finish(
                r.spec_subc(a, r.spec_read_r8(r8), false),
                4,
                1,
            ),
            Instruction::SUB_A_u8(b) => machine.spec_finish(r.spec_subc(a, b, false), 8, 2),
            Instruction::XOR_A_mHL => match machine.spec_read_hl() {
                Ok(b) => machine.spec_finish(r.spec_xor(a, b), 8, 2),
                Err(fault) => Err(fault),
            },
            Instruction::XOR_A_r8(r8) => machine.spec_finish(
                r.spec_xor(a, r.spec_read_r8(r8)),
                4,
                1,
            ),
            Instruction::XOR_A_u8(b) => machine.spec_finish(r.spec_xor(a, b), 8, 2),
            _ => Err(Fault::NotImplemented),
        }
    }

    /// What the rotations do.
    #[verifier::opaque]
    pub open spec fn spec_execute_rotate(self, machine: MachineView) -> Result<
        (MachineView, (u8, u8)),
        Fault,
    > {
        let r = machine.cpu.registers;
        let a = r.spec_read_a();
        let carry = r.spec_read_flag(Flag::C);
        match self {
            Instruction::RL_mHL => match machine.spec_read_hl() {
                Ok(b) => machine.spec_modify_hl(
                    r.spec_shifted(spec_rotate_left_with(b, carry), spec_top_bit(b)),
                    spec_rotate_left_with(b, carry),
                    16,
                    4,
                ),
                Err(fault) => Err(fault),
            },
            Instruction::RL_r8(r8) => machine.spec_finish(
                r.spec_shifted(
                    spec_rotate_left_with(r.spec_read_r8(r8), carry),
                    spec_top_bit(r.spec_read_r8(r8)),
                ).spec_write_r8(r8, spec_rotate_left_with(r.spec_read_r8(r8), carry)),
                8,
                2,
            ),
            Instruction::RLA => machine.spec_finish(
                r.spec_shifted(spec_rotate_left_with(a, carry), spec_top_bit(a)).spec_write_r8(
                    R8::A,
                    spec_rotate_left_with(a, carry),
                ).spec_write_flag(Flag::Z, false),
                4,
                1,
            ),
            Instruction::RLC_mHL => match machine.spec_read_hl() {
                Ok(b) => machine.spec_modify_hl(
                    r.spec_shifted(spec_rotate_left_with(b, spec_top_bit(b)), spec_top_bit(b)),
                    spec_rotate_left_with(b, spec_top_bit(b)),
                    16,
                    4,
                ),
                Err(fault) => Err(fault),
            },
            Instruction::RLC_r8(r8) => machine.spec_finish(
                r.spec_shifted(
                    spec_rotate_left_with(r.spec_read_r8(r8), spec_top_bit(r.spec_read_r8(r8))),
                    spec_top_bit(r.spec_read_r8(r8)),
                ).spec_write_r8(
                    r8,
                    spec_rotate_left_with(r.spec_read_r8(r8), spec_top_bit(r.spec_read_r8(r8))),
                ),
                8,
                2,
            ),
            Instruction::RLCA => machine.spec_finish(
                r.spec_shifted(
                    spec_rotate_left_with(a, spec_top_bit(a)),
                    spec_top_bit(a),
                ).spec_write_r8(R8::A, spec_rotate_left_with(a, spec_top_bit(a))).spec_write_flag(
                    Flag::Z,
                    false,
                ),
                4,
                1,
            ),
            Instruction::RR_mHL => match machine.spec_read_hl() {
                Ok(b) => machine.spec_modify_hl(
                    r.spec_shifted(spec_rotate_right_with(b, carry), spec_low_bit(b)),
                    spec_rotate_right_with(b, carry),
                    16,
                    4,
                ),
                Err(fault) => Err(fault),
            },
            Instruction::RR_r8(r8) => machine.spec_finish(
                r.spec_shifted(
                    spec_rotate_right_with(r.spec_read_r8(r8), carry),
                    spec_low_bit(r.spec_read_r8(r8)),
                ).spec_write_r8(r8, spec_rotate_right_with(r.spec_read_r8(r8), carry)),
                8,
                2,
            ),
            Instruction::RRA => machine.spec_finish(
                r.spec_shifted(spec_rotate_right_with(a, carry), spec_low_bit(a)).spec_write_r8(
                    R8::A,
                    spec_rotate_right_with(a, carry),
                ).spec_write_flag(Flag::Z, false),
                4,
                1,
            ),
            Instruction::RRC_mHL => match machine.spec_read_hl() {
                Ok(b) => machine.spec_modify_hl(
                    r.spec_shifted(spec_rotate_right_with(b, spec_low_bit(b)), spec_low_bit(b)),
                    spec_rotate_right_with(b, spec_low_bit(b)),
                    16,
                    4,
                ),
                Err(fault) => Err(fault),
            },
            Instruction::RRC_r8(r8) => machine.spec_finish(
                r.spec_shifted(
                    spec_rotate_right_with(r.spec_read_r8(r8), spec_low_bit(r.spec_read_r8(r8))),
                    spec_low_bit(r.spec_read_r8(r8)),
                ).spec_write_r8(
                    r8,
                    spec_rotate_right_with(r.spec_read_r8(r8), spec_low_bit(r.spec_read_r8(r8))),
                ),
                8,
                2,
            ),
            Instruction::RRCA => machine.spec_finish(
                r.spec_shifted(
                    spec_rotate_right_with(a, spec_low_bit(a)),
                    spec_low_bit(a),
                ).spec_write_r8(R8::A, spec_rotate_right_with(a, spec_low_bit(a))).spec_write_flag(
                    Flag::Z,
                    false,
                ),
                4,
                1,
            ),
            _ => Err(Fault::NotImplemented),
        }
    }

    /// What the shifts, nibble swaps and single-bit operations do.
    #[verifier::opaque]
    pub open spec fn spec_execute_shift(self, machine: MachineView) -> Result<
        (MachineView, (u8, u8)),
        Fault,
    > {
        let r = machine.cpu.registers;
        let a = r.spec_read_a();
        let carry = r.spec_read_flag(Flag::C);
        match self {
            Instruction::BIT_u3_mHL(bit) => match machine.spec_read_hl() {
                Ok(b) => machine.spec_finish(
                    r.spec_bit_complement(spec_is_bit_set(b, bit)),
                    12,
                    3,
                ),
                Err(fault) => Err(fault),
            },
            Instruction::BIT_u3_r8(bit, r8) => machine.spec_finish(
                r.spec_bit_complement(r.spec_get_bit(r8, bit)),
                8,
                2,
            ),
            Instruction::RES_u3_mHL(bit) => match machine.spec_read_hl() {
                Ok(b) => machine.spec_store(r.hl, spec_unset_bit(b, bit), 16, 4),
                Err(fault) => Err(fault),
            },
            Instruction::RES_u3_r8(bit, r8) => machine.spec_finish(
                r.spec_write_r8(r8, spec_unset_bit(r.spec_read_r8(r8), bit)),
                8,
                2,
            ),
            Instruction::SET_u3_mHL(bit) => match machine.spec_read_hl() {
                Ok(b) => machine.spec_store(r.hl, spec_set_bit(b, bit), 16, 4),
                Err(fault) => Err(fault),
            },
            Instruction::SET_u3_r8(bit, r8) => machine.spec_finish(
                r.spec_write_r8(r8, spec_set_bit(r.spec_read_r8(r8), bit)),
                8,
                2,
            ),
            Instruction::SLA_mHL => match machine.spec_read_hl() {
                Ok(b) => machine.spec_modify_hl(
                    r.spec_shifted(spec_rotate_left_with(b, false), spec_top_bit(b)),
                    spec_rotate_left_with(b, false),
                    16,
                    4,
                ),
                Err(fault) => Err(fault),
            },
            Instruction::SLA_r8(r8) => machine.spec_finish(
                r.spec_shifted(
                    spec_rotate_left_with(r.spec_read_r8(r8), false),
                    spec_top_bit(r.spec_read_r8(r8)),
                ).spec_write_r8(r8, spec_rotate_left_with(r.spec_read_r8(r8), false)),
                8,
                2,
            ),
            Instruction::SRA_mHL => match machine.spec_read_hl() {
                Ok(b) => machine.spec_modify_hl(
                    r.spec_shifted(spec_shift_right_arithmetically(b), spec_low_bit(b)),
                    spec_shift_right_arithmetically(b),
                    16,
                    4,
                ),
                Err(fault) => Err(fault),
            },
            Instruction::SRA_r8(r8) => machine.spec_finish(
                r.spec_shifted(
                    spec_shift_right_arithmetically(r.spec_read_r8(r8)),
                    spec_low_bit(r.spec_read_r8(r8)),
                ).spec_write_r8(r8, spec_shift_right_arithmetically(r.spec_read_r8(r8))),
                8,
                2,
            ),
            Instruction::SRL_mHL => match machine.spec_read_hl() {
                Ok(b) => machine.spec_modify_hl(
                    r.spec_shifted(spec_rotate_right_with(b, false), spec_low_bit(b)),
                    spec_rotate_right_with(b, false),
                    16,
                    4,
                ),
                Err(fault) => Err(fault),
            },
            Instruction::SRL_r8(r8) => machine.spec_finish(
                r.spec_shifted(
                    spec_rotate_right_with(r.spec_read_r8(r8), false),
                    spec_low_bit(r.spec_read_r8(r8)),
                ).spec_write_r8(r8, spec_rotate_right_with(r.spec_read_r8(r8), false)),
                8,
                2,
            ),
            Instruction::SWAP_mHL => match machine.spec_read_hl() {
                Ok(b) => machine.spec_modify_hl(
                    r.spec_shifted(spec_swap(b), false),
                    spec_swap(b),
                    16,
                    4,
                ),
                Err(fault) => Err(fault),
            },
            Instruction::SWAP_r8(r8) => machine.spec_finish(
                r.spec_shifted(spec_swap(r.spec_read_r8(r8)), false).spec_write_r8(
                    r8,
                    spec_swap(r.spec_read_r8(r8)),
                ),
                8,
                2,
            ),
            _ => Err(Fault::NotImplemented),
        }
    }

    /// What the loads and stores do.
    #[verifier::opaque]
    pub open spec fn spec_execute_load(self, machine: MachineView) -> Result<
        (MachineView, (u8, u8)),
        Fault,
    > {
        let r = machine.cpu.registers;
        let a = r.spec_read_a();
        let carry = r.spec_read_flag(Flag::C);
        match self {
            Instruction::LD_A_FFC => machine.spec_load(
                R8::A,
                MachineView::spec_high_page(r.spec_read_c()),
                8,
                2,
            ),
            Instruction::LD_A_FFu8(offset) => machine.spec_load(
                R8::A,
                MachineView::spec_high_page(offset),
                12,
                3,
            ),
            Instruction::LD_A_mHLdec => match machine.spec_read_hl() {
                Ok(b) => machine.spec_finish(
                    r.spec_write_r8(R8::A, b).spec_write_r16(R16::HL, r.hl.wrapping_sub(1)),
                    8,
                    2,
                ),
                Err(fault) => Err(fault),
            },
            Instruction::LD_A_mHLinc => match machine.spec_read_hl() {
                Ok(b) => machine.spec_finish(
                    r.spec_write_r8(R8::A, b).spec_write_r16(R16::HL, r.hl.wrapping_add(1)),
                    8,
                    2,
                ),
                Err(fault) => Err(fault),
            },
            Instruction::LD_A_mr16(r16) => machine.spec_load(R8::A, r.spec_read_r16(r16), 8, 2),
            Instruction::LD_A_mu16(imm16) => machine.spec_load(R8::A, imm16.spec_as_u16(), 16, 4),
            Instruction::LD_FFC_A => machine.spec_store(
                MachineView::spec_high_page(r.spec_read_c()),
                a,
                8,
                2,
            ),
            Instruction::LD_FFu8_A(offset) => machine.spec_store(
                MachineView::spec_high_page(offset),
                a,
                12,
                3,
            ),
            Instruction::LD_H_mHL => Err(Fault::NotImplemented),
            Instruction::LD_L_mHL => Err(Fault::NotImplemented),
            Instruction::LD_mHL_u8(b) => machine.spec_store(r.hl, b, 12, 3),
            Instruction::LD_mHLdec_A => match machine.spec_write_u8(r.hl, a) {
                Ok(stored) => stored.spec_finish(
                    stored.cpu.registers.spec_write_r16(
                        R16::HL,
                        stored.cpu.registers.hl.wrapping_sub(1),
                    ),
                    8,
                    2,
                ),
                Err(fault) => Err(fault),
            },
            Instruction::LD_mHLinc_A => match machine.spec_write_u8(r.hl, a) {
                Ok(stored) => stored.spec_finish(
                    stored.cpu.registers.spec_write_r16(
                        R16::HL,
                        stored.cpu.registers.hl.wrapping_add(1),
                    ),
                    8,
                    2,
                ),
                Err(fault) => Err(fault),
            },
            Instruction::LD_mr16_r8(r16, r8) => machine.spec_store(
                r.spec_read_r16(r16),
                r.spec_read_r8(r8),
                8,
                2,
            ),
            Instruction::LD_mu16_A(imm16) => machine.spec_store(imm16.spec_as_u16(), a, 16, 4),
            Instruction::LD_mu16_SP(imm16) => match machine.spec_write_u8(
                imm16.spec_as_u16(),
                spec_lower_u8(r.sp),
            ) {
                Ok(stored) => stored.spec_store(
                    imm16.spec_as_u16().wrapping_add(1),
                    spec_higher_u8(r.sp),
                    20,
                    5,
                ),
                Err(fault) => Err(fault),
            },
            Instruction::LD_r16_d16(r16, imm16) => machine.spec_finish(
                r.spec_write_r16(r16, imm16.spec_as_u16()),
                12,
                3,
            ),
            Instruction::LD_r8_mr16(r8, r16) => machine.spec_load(r8, r.spec_read_r16(r16), 8, 2),
            Instruction::LD_r8_r8(to, from) => machine.spec_finish(
                r.spec_write_r8(to, r.spec_read_r8(from)),
                4,
                1,
            ),
            Instruction::LD_r8_u8(r8, b) => machine.spec_finish(r.spec_write_r8(r8, b), 8, 2),
            Instruction::LD_SP_HL => machine.spec_finish(r.spec_write_r16(R16::SP, r.hl), 8, 2),
            Instruction::LD_SP_u16(imm16) => machine.spec_finish(
                r.spec_write_r16(R16::SP, imm16.spec_as_u16()),
                12,
                3,
            ),
            _ => Err(Fault::NotImplemented),
        }
    }

    /// What the jumps, calls, returns and stack transfers do.
    #[verifier::opaque]
    pub open spec fn spec_execute_control(self, machine: MachineView) -> Result<
        (MachineView, (u8, u8)),
        Fault,
    > {
        let r = machine.cpu.registers;
        let a = r.spec_read_a();
        let carry = r.spec_read_flag(Flag::C);
        match self {
            Instruction::CALL_a16(imm16) => machine.spec_call(imm16.spec_as_u16(), 24, 6),
            Instruction::CALL_cc_u16(cc, imm16) => if cc.spec_holds(r) {
                machine.spec_call(imm16.spec_as_u16(), 24, 6)
            } else {
                Ok((machine, (12u8, 3u8)))
            },
            Instruction::JP_cc_u16(cc, imm16) => if cc.spec_holds(r) {
                machine.spec_finish(r.spec_write_r16(R16::PC, imm16.spec_as_u16()), 16, 4)
            } else {
                Ok((machine, (12u8, 3u8)))
            },
            Instruction::JP_HL => machine.spec_finish(r.spec_write_r16(R16::PC, r.hl), 4, 1),
            Instruction::JP_u16(imm16) => machine.spec_finish(
                r.spec_write_r16(R16::PC, imm16.spec_as_u16()),
                16,
                4,
            ),
            Instruction::JR_cc_i8(cc, offset) => if cc.spec_holds(r) {
                machine.spec_finish(
                    r.spec_write_r16(R16::PC, r.pc.wrapping_add_signed(offset as i16)),
                    12,
                    3,
                )
            } else {
                Ok((machine, (8u8, 2u8)))
            },
            Instruction::JR_i8(offset) => machine.spec_finish(
                r.spec_write_r16(R16::PC, r.pc.wrapping_add_signed(offset as i16)),
                12,
                3,
            ),
            Instruction::JR_r8(_) => Err(Fault::NotImplemented),
            Instruction::POP_r16(r16) => match machine.spec_pop_r16(r16) {
                Ok(popped) => if r16 == R16::AF {
                    popped.spec_finish(
                        popped.cpu.registers.spec_write_r16(
                            R16::AF,
                            popped.cpu.registers.af & 0xFFF0,
                        ),
                        12,
                        3,
                    )
                } else {
                    Ok((popped, (12u8, 3u8)))
                },
                Err(fault) => Err(fault),
            },
            Instruction::PUSH_r16(r16) => match machine.spec_push_imm16(
                Immediate16::spec_from_u16(
                    if r16 == R16::AF {
                        r.af & 0xFFF0
                    } else {
                        r.spec_read_r16(r16)
                    },
                ),
            ) {
                Ok(pushed) => Ok((pushed, (16u8, 4u8))),
                Err(fault) => Err(fault),
            },
            Instruction::RET => machine.spec_return(16, 4),
            Instruction::RET_cc(cc) => if cc.spec_holds(r) {
                machine.spec_return(20, 5)
            } else {
                Ok((machine, (8u8, 2u8)))
            },
            Instruction::RETI => (MachineView {
                interrupts: Interrupts { interrupt_master_enable: true, ..machine.interrupts },
                ..machine
            }).spec_return(16, 4),
            Instruction::RST(imm16) => machine.spec_call(imm16.spec_as_u16(), 16, 4),
            _ => Err(Fault::NotImplemented),
        }
    }

    /// What the increments and decrements, the 16-bit arithmetic, and the instructions on the flags, the interrupts and the clock do.
    #[verifier::opaque]
    pub open spec fn spec_execute_other(self, machine: MachineView) -> Result<
        (MachineView, (u8, u8)),
        Fault,
    > {
        let r = machine.cpu.registers;
        let a = r.spec_read_a();
        let carry = r.spec_read_flag(Flag::C);
        match self {
            Instruction::ADD_HL_r16(r16) => machine.spec_finish(r.spec_add_hl(r16), 8, 2),
            Instruction::ADD_SP_i8(offset) => machine.spec_finish(
                r.spec_add_sp(R16::SP, offset),
                16,
                4,
            ),
            Instruction::CCF => machine.spec_finish(
                r.spec_write_flag(Flag::N, false).spec_write_flag(Flag::H, false).spec_write_flag(
                    Flag::C,
                    !carry,
                ),
                4,
                1,
            ),
            Instruction::CPL => machine.spec_finish(
                r.spec_write_r8(R8::A, !a).spec_write_flag(Flag::N, true).spec_write_flag(
                    Flag::H,
                    true,
                ),
                4,
                1,
            ),
            Instruction::DAA => machine.spec_finish(r.spec_daa(), 4, 1),
            Instruction::DEC_mHL => match machine.spec_read_hl() {
                Ok(b) => machine.spec_modify_hl(r.spec_dec(b), b.wrapping_sub(1), 12, 3),
                Err(fault) => Err(fault),
            },
            Instruction::DEC_r16(r16) => machine.spec_finish(
                r.spec_write_r16(r16, r.spec_read_r16(r16).wrapping_sub(1)),
                8,
                2,
            ),
            Instruction::DEC_r8(r8) => machine.spec_finish(
                r.spec_dec(r.spec_read_r8(r8)).spec_write_r8(
                    r8,
                    r.spec_read_r8(r8).wrapping_sub(1),
                ),
                4,
                1,
            ),
            Instruction::DI => Ok(
                (
                    MachineView {
                        interrupts: Interrupts {
                            interrupt_master_enable: false,
                            ..machine.interrupts
                        },
                        ..machine
                    },
                    (4u8, 1u8),
                ),
            ),
            Instruction::EI => Ok(
                (
                    MachineView {
                        interrupts: Interrupts {
                            interrupt_master_enable_delayed: true,
                            ..machine.interrupts
                        },
                        ..machine
                    },
                    (4u8, 1u8),
                ),
            ),
            Instruction::HALT => Ok(
                (
                    MachineView { cpu: CPUView { low_power_mode: true, ..machine.cpu }, ..machine },
                    (4u8, 1u8),
                ),
            ),
            Instruction::Illegal(opcode) => Err(Fault::IllegalOpcode { opcode }),
            Instruction::INC_mHL => match machine.spec_read_hl() {
                Ok(b) => machine.spec_store(r.hl, b.wrapping_add(1), 12, 3),
                Err(fault) => Err(fault),
            },
            Instruction::INC_r16(r16) => machine.spec_finish(
                r.spec_write_r16(r16, r.spec_read_r16(r16).wrapping_add(1)),
                8,
                2,
            ),
            Instruction::INC_r8(r8) => machine.spec_finish(r.spec_inc_r8(r8), 4, 1),
            Instruction::LD_HL_SP_i8(offset) => machine.spec_finish(
                r.spec_add_sp(R16::HL, offset),
                12,
                3,
            ),
            Instruction::NOP => Ok((machine, (4u8, 1u8))),
            Instruction::SCF => machine.spec_finish(
                r.spec_write_flag(Flag::N, false).spec_write_flag(Flag::H, false).spec_write_flag(
                    Flag::C,
                    true,
                ),
                4,
                1,
            ),
            Instruction::STOP => Ok((machine, (4u8, 1u8))),
            _ => Err(Fault::NotImplemented),
        }
    }

}

/// Pushes the program counter and jumps.
pub fn call(machine: &mut Machine, address: u16) -> (called: Result<(), Fault>)
    ensures
        match old(machine)@.spec_call(address, 0, 0) {
            Ok(after) => called is Ok && final(machine)@ == after.0,
            Err(fault) => called == Err::<(), Fault>(fault),
        },
        called is Ok && old(machine)@.wf() ==> final(machine)@.wf(),
{
    let pc = machine.cpu.registers.pc;
    CPU::push_imm16(machine, Immediate16::from_u16(pc))?;
    machine.cpu.registers.pc = address;
    Ok(())
}

/// The address in the last page that a byte selects.
fn high_page(offset: u8) -> (address: u16)
    ensures
        address == MachineView::spec_high_page(offset),
{
    0xFF00 + (offset as u16)
}

/// The groups in which the instructions are carried out.
#[derive(Clone, Copy, Debug, PartialEq, Eq, Structural)]
pub enum Family {
    Arithmetic,
    Rotate,
    Shift,
    Load,
    Control,
    Other,
}

impl Instruction {
    pub open spec fn spec_family(self) -> Family {
        match self {
            Instruction::ADC_A_mHL => Family::Arithmetic,
            Instruction::ADC_A_r8(_) => Family::Arithmetic,
            Instruction::ADC_A_u8(_) => Family::Arithmetic,
            Instruction::ADD_A_mHL => Family::Arithmetic,
            Instruction::ADD_A_r8(_) => Family::Arithmetic,
            Instruction::ADD_A_u8(_) => Family::Arithmetic,
            Instruction::ADD_HL_r16(_) => Family::Other,
            Instruction::ADD_SP_i8(_) => Family::Other,
            Instruction::AND_A_mHL => Family::Arithmetic,
            Instruction::AND_A_r8(_) => Family::Arithmetic,
            Instruction::AND_u8(_) => Family::Arithmetic,
            Instruction::BIT_u3_mHL(_) => Family::Shift,
            Instruction::BIT_u3_r8(_, _) => Family::Shift,
            Instruction::CALL_a16(_) => Family::Control,
            Instruction::CALL_cc_u16(_, _) => Family::Control,
            Instruction::CCF => Family::Other,
            Instruction::CP_A_mHL => Family::Arithmetic,
            Instruction::CP_A_r8(_) => Family::Arithmetic,
            Instruction::CP_A_u8(_) => Family::Arithmetic,
            Instruction::CPL => Family::Other,
            Instruction::DAA => Family::Other,
            Instruction::DEC_mHL => Family::Other,
            Instruction::DEC_r16(_) => Family::Other,
            Instruction::DEC_r8(_) => Family::Other,
            Instruction::DI => Family::Other,
            Instruction::EI => Family::Other,
            Instruction::HALT => Family::Other,
            Instruction::Illegal(_) => Family::Other,
            Instruction::INC_mHL => Family::Other,
            Instruction::INC_r16(_) => Family::Other,
            Instruction::INC_r8(_) => Family::Other,
            Instruction::JP_cc_u16(_, _) => Family::Control,
            Instruction::JP_HL => Family::Control,
            Instruction::JP_u16(_) => Family::Control,
            Instruction::JR_cc_i8(_, _) => Family::Control,
            Instruction::JR_i8(_) => Family::Control,
            Instruction::JR_r8(_) => Family::Control,
            Instruction::LD_A_FFC => Family::Load,
            Instruction::LD_A_FFu8(_) => Family::Load,
            Instruction::LD_A_mHLdec => Family::Load,
            Instruction::LD_A_mHLinc => Family::Load,
            Instruction::LD_A_mr16(_) => Family::Load,
            Instruction::LD_A_mu16(_) => Family::Load,
            Instruction::LD_FFC_A => Family::Load,
            Instruction::LD_FFu8_A(_) => Family::Load,
            Instruction::LD_H_mHL => Family::Load,
            Instruction::LD_HL_SP_i8(_) => Family::Other,
            Instruction::LD_L_mHL => Family::Load,
            Instruction::LD_mHL_u8(_) => Family::Load,
            Instruction::LD_mHLdec_A => Family::Load,
            Instruction::LD_mHLinc_A => Family::Load,
            Instruction::LD_mr16_r8(_, _) => Family::Load,
            Instruction::LD_mu16_A(_) => Family::Load,
            Instruction::LD_mu16_SP(_) => Family::Load,
            Instruction::LD_r16_d16(_, _) => Family::Load,
            Instruction::LD_r8_mr16(_, _) => Family::Load,
            Instruction::LD_r8_r8(_, _) => Family::Load,
            Instruction::LD_r8_u8(_, _) => Family::Load,
            Instruction::LD_SP_HL => Family::Load,
            Instruction::LD_SP_u16(_) => Family::Load,
            Instruction::NOP => Family::Other,
            Instruction::OR_A_mHL => Family::Arithmetic,
            Instruction::OR_A_r8(_) => Family::Arithmetic,
            Instruction::OR_A_u8(_) => Family::Arithmetic,
            Instruction::POP_r16(_) => Family::Control,
            Instruction::PUSH_r16(_) => Family::Control,
            Instruction::RES_u3_mHL(_) => Family::Shift,
            Instruction::RES_u3_r8(_, _) => Family::Shift,
            Instruction::RET => Family::Control,
            Instruction::RET_cc(_) => Family::Control,
            Instruction::RETI => Family::Control,
            Instruction::RL_mHL => Family::Rotate,
            Instruction::RL_r8(_) => Family::Rotate,
            Instruction::RLA => Family::Rotate,
            Instruction::RLC_mHL => Family::Rotate,
            Instruction::RLC_r8(_) => Family::Rotate,
            Instruction::RLCA => Family::Rotate,
            Instruction::RR_mHL => Family::Rotate,
            Instruction::RR_r8(_) => Family::Rotate,
            Instruction::RRA => Family::Rotate,
            Instruction::RRC_mHL => Family::Rotate,
            Instruction::RRC_r8(_) => Family::Rotate,
            Instruction::RRCA => Family::Rotate,
            Instruction::RST(_) => Family::Control,
            Instruction::SBC_A_mHL => Family::Arithmetic,
            Instruction::SBC_A_r8(_) => Family::Arithmetic,
            Instruction::SBC_A_u8(_) => Family::Arithmetic,
            Instruction::SCF => Family::Other,
            Instruction::SET_u3_mHL(_) => Family::Shift,
            Instruction::SET_u3_r8(_, _) => Family::Shift,
            Instruction::SLA_mHL => Family::Shift,
            Instruction::SLA_r8(_) => Family::Shift,
            Instruction::SRA_mHL => Family::Shift,
            Instruction::SRA_r8(_) => Family::Shift,
            Instruction::SRL_mHL => Family::Shift,
            Instruction::SRL_r8(_) => Family::Shift,
            Instruction::STOP => Family::Other,
            Instruction::SUB_A_mHL => Family::Arithmetic,
            Instruction::SUB_A_r8(_) => Family::Arithmetic,
            Instruction::SUB_A_u8(_) => Family::Arithmetic,
            Instruction::SWAP_mHL => Family::Shift,
            Instruction::SWAP_r8(_) => Family::Shift,
            Instruction::XOR_A_mHL => Family::Arithmetic,
            Instruction::XOR_A_r8(_) => Family::Arithmetic,
            Instruction::XOR_A_u8(_) => Family::Arithmetic,
        }
    }

    pub fn family(&self) -> (family: Family)
        ensures
            family == self.spec_family(),
    {
        match self {
            Instruction::ADC_A_mHL => Family::Arithmetic,
            Instruction::ADC_A_r8(_) => Family::Arithmetic,
            Instruction::ADC_A_u8(_) => Family::Arithmetic,
            Instruction::ADD_A_mHL => Family::Arithmetic,
            Instruction::ADD_A_r8(_) => Family::Arithmetic,
            Instruction::ADD_A_u8(_) => Family::Arithmetic,
            Instruction::ADD_HL_r16(_) => Family::Other,
            Instruction::ADD_SP_i8(_) => Family::Other,
            Instruction::AND_A_mHL => Family::Arithmetic,
            Instruction::AND_A_r8(_) => Family::Arithmetic,
            Instruction::AND_u8(_) => Family::Arithmetic,
            Instruction::BIT_u3_mHL(_) => Family::Shift,
            Instruction::BIT_u3_r8(_, _) => Family::Shift,
            Instruction::CALL_a16(_) => Family::Control,
            Instruction::CALL_cc_u16(_, _) => Family::Control,
            Instruction::CCF => Family::Other,
            Instruction::CP_A_mHL => Family::Arithmetic,
            Instruction::CP_A_r8(_) => Family::Arithmetic,
            Instruction::CP_A_u8(_) => Family::Arithmetic,
            Instruction::CPL => Family::Other,
            Instruction::DAA => Family::Other,
            Instruction::DEC_mHL => Family::Other,
            Instruction::DEC_r16(_) => Family::Other,
            Instruction::DEC_r8(_) => Family::Other,
            Instruction::DI => Family::Other,
            Instruction::EI => Family::Other,
            Instruction::HALT => Family::Other,
            Instruction::Illegal(_) => Family::Other,
            Instruction::INC_mHL => Family::Other,
            Instruction::INC_r16(_) => Family::Other,
            Instruction::INC_r8(_) => Family::Other,
            Instruction::JP_cc_u16(_, _) => Family::Control,
            Instruction::JP_HL => Family::Control,
            Instruction::JP_u16(_) => Family::Control,
            Instruction::JR_cc_i8(_, _) => Family::Control,
            Instruction::JR_i8(_) => Family::Control,
            Instruction::JR_r8(_) => Family::Control,
            Instruction::LD_A_FFC => Family::Load,
            Instruction::LD_A_FFu8(_) => Family::Load,
            Instruction::LD_A_mHLdec => Family::Load,
            Instruction::LD_A_mHLinc => Family::Load,
            Instruction::LD_A_mr16(_) => Family::Load,
            Instruction::LD_A_mu16(_) => Family::Load,
            Instruction::LD_FFC_A => Family::Load,
            Instruction::LD_FFu8_A(_) => Family::Load,
            Instruction::LD_H_mHL => Family::Load,
            Instruction::LD_HL_SP_i8(_) => Family::Other,
            Instruction::LD_L_mHL => Family::Load,
            Instruction::LD_mHL_u8(_) => Family::Load,
            Instruction::LD_mHLdec_A => Family::Load,
            Instruction::LD_mHLinc_A => Family::Load,
            Instruction::LD_mr16_r8(_, _) => Family::Load,
            Instruction::LD_mu16_A(_) => Family::Load,
            Instruction::LD_mu16_SP(_) => Family::Load,
            Instruction::LD_r16_d16(_, _) => Family::Load,
            Instruction::LD_r8_mr16(_, _) => Family::Load,
            Instruction::LD_r8_r8(_, _) => Family::Load,
            Instruction::LD_r8_u8(_, _) => Family::Load,
            Instruction::LD_SP_HL => Family::Load,
            Instruction::LD_SP_u16(_) => Family::Load,
            Instruction::NOP => Family::Other,
            Instruction::OR_A_mHL => Family::Arithmetic,
            Instruction::OR_A_r8(_) => Family::Arithmetic,
            Instruction::OR_A_u8(_) => Family::Arithmetic,
            Instruction::POP_r16(_) => Family::Control,
            Instruction::PUSH_r16(_) => Family::Control,
            Instruction::RES_u3_mHL(_) => Family::Shift,
            Instruction::RES_u3_r8(_, _) => Family::Shift,
            Instruction::RET => Family::Control,
            Instruction::RET_cc(_) => Family::Control,
            Instruction::RETI => Family::Control,
            Instruction::RL_mHL => Family::Rotate,
            Instruction::RL_r8(_) => Family::Rotate,
            Instruction::RLA => Family::Rotate,
            Instruction::RLC_mHL => Family::Rotate,
            Instruction::RLC_r8(_) => Family::Rotate,
            Instruction::RLCA => Family::Rotate,
            Instruction::RR_mHL => Family::Rotate,
            Instruction::RR_r8(_) => Family::Rotate,
            Instruction::RRA => Family::Rotate,
            Instruction::RRC_mHL => Family::Rotate,
            Instruction::RRC_r8(_) => Family::Rotate,
            Instruction::RRCA => Family::Rotate,
            Instruction::RST(_) => Family::Control,
            Instruction::SBC_A_mHL => Family::Arithmetic,
            Instruction::SBC_A_r8(_) => Family::Arithmetic,
            Instruction::SBC_A_u8(_) => Family::Arithmetic,
            Instruction::SCF => Family::Other,
            Instruction::SET_u3_mHL(_) => Family::Shift,
            Instruction::SET_u3_r8(_, _) => Family::Shift,
            Instruction::SLA_mHL => Family::Shift,
            Instruction::SLA_r8(_) => Family::Shift,
            Instruction::SRA_mHL => Family::Shift,
            Instruction::SRA_r8(_) => Family::Shift,
            Instruction::SRL_mHL => Family::Shift,
            Instruction::SRL_r8(_) => Family::Shift,
            Instruction::STOP => Family::Other,
            Instruction::SUB_A_mHL => Family::Arithmetic,
            Instruction::SUB_A_r8(_) => Family::Arithmetic,
            Instruction::SUB_A_u8(_) => Family::Arithmetic,
            Instruction::SWAP_mHL => Family::Shift,
            Instruction::SWAP_r8(_) => Family::Shift,
            Instruction::XOR_A_mHL => Family::Arithmetic,
            Instruction::XOR_A_r8(_) => Family::Arithmetic,
            Instruction::XOR_A_u8(_) => Family::Arithmetic,
        }
    }

    /// Whether every bit number among the operands is in range.
    pub fn wf(&self) -> (wf: bool)
        ensures
            wf == self.spec_wf(),
    {
        match self {
            Instruction::BIT_u3_mHL(bit) => *bit < 8,
            Instruction::BIT_u3_r8(bit, _) => *bit < 8,
            Instruction::RES_u3_mHL(bit) => *bit < 8,
            Instruction::RES_u3_r8(bit, _) => *bit < 8,
            Instruction::SET_u3_mHL(bit) => *bit < 8,
            Instruction::SET_u3_r8(bit, _) => *bit < 8,
            _ => true,
        }
    }

    /// The 8-bit arithmetic and logic on the accumulator.
    #[verifier::rlimit(50)]
    fn execute_arithmetic(&self, machine: &mut Machine) -> (cycles: Result<(u8, u8), Fault>)
        requires
            self.spec_wf(),
            self.spec_family() == Family::Arithmetic,
        ensures
            match self.spec_execute_arithmetic(old(machine)@) {
                Ok(after) => cycles == Ok::<(u8, u8), Fault>(after.1) && final(machine)@ == after.0,
                Err(fault) => cycles == Err::<(u8, u8), Fault>(fault),
            },
            cycles is Ok && old(machine)@.wf() ==> final(machine)@.wf(),
            cycles is Ok ==> 4 <= cycles->Ok_0.0 <= 24 && cycles->Ok_0.0 == 4 * cycles->Ok_0.1,
    {
        reveal(Instruction::spec_execute_arithmetic);
        match self {
            Instruction::ADC_A_mHL => {
                let a = machine.cpu.registers.read_a();
                let b = machine.read_u8(machine.cpu.registers.hl)?;
                let c = machine.cpu.registers.read_flag(Flag::C);
                adc(&mut machine.cpu, a, b, c);
                return Ok((8, 2));
            },
            Instruction::ADC_A_r8(r8) => {
                let a = machine.cpu.registers.read_a();
                let b = machine.cpu.registers.read_r8(r8);
                let c = machine.cpu.registers.read_flag(Flag::C);
                adc(&mut machine.cpu, a, b, c);
                return Ok((4, 1));
            },
            Instruction::ADC_A_u8(u8) => {
                let a = machine.cpu.registers.read_a();
                let c = machine.cpu.registers.read_flag(Flag::C);
                adc(&mut machine.cpu, a, *u8, c);
                return Ok((8, 2));
            },
            Instruction::ADD_A_mHL => {
                let a = machine.cpu.registers.read_a();
                let b = machine.read_u8(machine.cpu.registers.hl)?;
                self::add(&mut machine.cpu, a, b);
                return Ok((8, 2));
            },
            Instruction::ADD_A_r8(r8) => {
                let a = machine.cpu.registers.read_a();
                let b = machine.cpu.registers.read_r8(r8);
                self::add(&mut machine.cpu, a, b);
                return Ok((4, 1));
            },
            Instruction::ADD_A_u8(u8) => {
                let a = machine.cpu.registers.read_a();
                self::add(&mut machine.cpu, a, *u8);
                return Ok((8, 2));
            },
            Instruction::AND_A_mHL => {
                let a = machine.cpu.registers.read_a();
                let b = machine.read_u8(machine.cpu.registers.hl)?;
                and(&mut machine.cpu, a, b);
                return Ok((8, 2));
            },
            Instruction::AND_A_r8(r8) => {
                let a = machine.cpu.registers.read_a();
                let b = machine.cpu.registers.read_r8(r8);
                and(&mut machine.cpu, a, b);
                return Ok((4, 1));
            },
            Instruction::AND_u8(u8) => {
                let a = machine.cpu.registers.read_a();
                and(&mut machine.cpu, a, *u8);
                return Ok((8, 2));
            },
            Instruction::CP_A_r8(r8) => {
                let a = machine.cpu.registers.read_a();
                let b = machine.cpu.registers.read_r8(r8);
                compare(&mut machine.cpu, a, b);
                return Ok((4, 1));
            },
            Instruction::CP_A_u8(u8) => {
                let a = machine.cpu.registers.read_a();
                compare(&mut machine.cpu, a, *u8);
                return Ok((8, 2));
            },
            Instruction::CP_A_mHL => {
                let a = machine.cpu.registers.read_a();
                let address = machine.cpu.registers.read_r16(&R16::HL);
                let b = machine.read_u8(address)?;
                compare(&mut machine.cpu, a, b);
                return Ok((8, 2));
            },
            Instruction::OR_A_mHL => {
                let a = machine.cpu.registers.read_a();
                let b = machine.read_u8(machine.cpu.registers.hl)?;
                or(&mut machine.cpu, a, b);
                return Ok((8, 2));
            },
            Instruction::OR_A_r8(r8) => {
                let a = machine.cpu.registers.read_a();
                let b = machine.cpu.registers.read_r8(r8);
                or(&mut machine.cpu, a, b);
                return Ok((4, 1));
            },
            Instruction::OR_A_u8(u8) => {
                let a = machine.cpu.registers.read_a();
                or(&mut machine.cpu, a, *u8);
                return Ok((8, 2));
            },
            Instruction::SBC_A_mHL => {
                let a = machine.cpu.registers.read_a();
                let b = machine.read_u8(machine.cpu.registers.hl)?;
                let c = machine.cpu.registers.read_flag(Flag::C);
                subc(&mut machine.cpu, a, b, c);
                return Ok((8, 2));
            },
            Instruction::SBC_A_r8(r8) => {
                let a = machine.cpu.registers.read_a();
                let b = machine.cpu.registers.read_r8(r8);
                let c = machine.cpu.registers.read_flag(Flag::C);
                subc(&mut machine.cpu, a, b, c);
                return Ok((4, 1));
            },
            Instruction::SBC_A_u8(u8) => {
                let a = machine.cpu.registers.read_a();
                let c = machine.cpu.registers.read_flag(Flag::C);
                subc(&mut machine.cpu, a, *u8, c);
                return Ok((8, 2));
            },
            Instruction::SUB_A_mHL => {
                let a = machine.cpu.registers.read_a();
                let b = machine.read_u8(machine.cpu.registers.hl)?;
                self::sub(&mut machine.cpu, a, b);
                return Ok((8, 2));
            },
            Instruction::SUB_A_r8(r8) => {
                let a = machine.cpu.registers.read_a();
                let b = machine.cpu.registers.read_r8(r8);
                self::sub(&mut machine.cpu, a, b);
                return Ok((4, 1));
            },
            Instruction::SUB_A_u8(u8) => {
                let a = machine.cpu.registers.read_a();
                self::sub(&mut machine.cpu, a, *u8);
                return Ok((8, 2));
            },
            Instruction::XOR_A_r8(r8) => {
                let a = machine.cpu.registers.read_a();
                let b = machine.cpu.registers.read_r8(r8);
                xor(&mut machine.cpu, a, b);
                return Ok((4, 1));
            },
            Instruction::XOR_A_u8(u8) => {
                let a = machine.cpu.registers.read_a();
                xor(&mut machine.cpu, a, *u8);
                return Ok((8, 2));
            },
            Instruction::XOR_A_mHL => {
                let a = machine.cpu.registers.read_a();
                let b = machine.read_u8(machine.cpu.registers.hl)?;
                xor(&mut machine.cpu, a, b);
                return Ok((8, 2));
            },
            _ => Err(Fault::NotImplemented),
        }
    }

    /// The rotations.
    #[verifier::rlimit(50)]
    fn execute_rotate(&self, machine: &mut Machine) -> (cycles: Result<(u8, u8), Fault>)
        requires
            self.spec_wf(),
            self.spec_family() == Family::Rotate,
        ensures
            match self.spec_execute_rotate(old(machine)@) {
                Ok(after) => cycles == Ok::<(u8, u8), Fault>(after.1) && final(machine)@ == after.0,
                Err(fault) => cycles == Err::<(u8, u8), Fault>(fault),
            },
            cycles is Ok && old(machine)@.wf() ==> final(machine)@.wf(),
            cycles is Ok ==> 4 <= cycles->Ok_0.0 <= 24 && cycles->Ok_0.0 == 4 * cycles->Ok_0.1,
    {
        reveal(Instruction::spec_execute_rotate);
        match self {
            Instruction::RL_mHL => {
                let address = machine.cpu.registers.hl;
                let a = machine.read_u8(address)?;
                let res = rotate_left_through_carry(&mut machine.cpu, a);
                machine.write_u8(address, res)?;
                return Ok((16, 4));
            },
            Instruction::RL_r8(r8) => {
                let a = machine.cpu.registers.read_r8(r8);
                let res = rotate_left_through_carry(&mut machine.cpu, a);
                machine.cpu.registers.write_r8(r8, res);
                return Ok((8, 2));
            },
            Instruction::RLA => {
                let a = machine.cpu.registers.read_a();
                let res = rotate_left_through_carry(&mut machine.cpu, a);
                machine.cpu.registers.write_a(res);
                machine.cpu.registers.unset_flag(Flag::Z);
                return Ok((4, 1));
            },
            Instruction::RLCA => {
                let a = machine.cpu.registers.read_a();
                let res = rotate_left(&mut machine.cpu, a);
                machine.cpu.registers.write_a(res);
                machine.cpu.registers.unset_flag(Flag::Z);
                return Ok((4, 1));
            },
            Instruction::RLC_mHL => {
                let address = machine.cpu.registers.hl;
                let a = machine.read_u8(address)?;
                let res = rotate_left(&mut machine.cpu, a);
                machine.write_u8(address, res)?;
                return Ok((16, 4));
            },
            Instruction::RLC_r8(r8) => {
                let a = machine.cpu.registers.read_r8(r8);
                let res = rotate_left(&mut machine.cpu, a);
                machine.cpu.registers.write_r8(r8, res);
                return Ok((8, 2));
            },
            Instruction::RRA => {
                let a = machine.cpu.registers.read_a();
                let res = rotate_right_through_carry(&mut machine.cpu, a);
                machine.cpu.registers.write_a(res);
                machine.cpu.registers.unset_flag(Flag::Z);
                return Ok((4, 1));
            },
            Instruction::RR_mHL => {
                let address = machine.cpu.registers.hl;
                let a = machine.read_u8(address)?;
                let res = rotate_right_through_carry(&mut machine.cpu, a);
                machine.write_u8(address, res)?;
                return Ok((16, 4));
            },
            Instruction::RR_r8(r8) => {
                let a = machine.cpu.registers.read_r8(r8);
                let res = rotate_right_through_carry(&mut machine.cpu, a);
                machine.cpu.registers.write_r8(r8, res);
                return Ok((8, 2));
            },
            Instruction::RRCA => {
                let a = machine.cpu.registers.read_a();
                let res = rotate_right(&mut machine.cpu, a);
                machine.cpu.registers.write_a(res);
                machine.cpu.registers.unset_flag(Flag::Z);
                return Ok((4, 1));
            },
            Instruction::RRC_mHL => {
                let address = machine.cpu.registers.hl;
                let a = machine.read_u8(address)?;
                let res = rotate_right(&mut machine.cpu, a);
                machine.write_u8(address, res)?;
                return Ok((16, 4));
            },
            Instruction::RRC_r8(r8) => {
                let a = machine.cpu.registers.read_r8(r8);
                let res = rotate_right(&mut machine.cpu, a);
                machine.cpu.registers.write_r8(r8, res);
                return Ok((8, 2));
            },
            _ => Err(Fault::NotImplemented),
        }
    }

    /// The shifts, nibble swaps and single-bit operations.
    #[verifier::rlimit(50)]
    fn execute_shift(&self, machine: &mut Machine) -> (cycles: Result<(u8, u8), Fault>)
        requires
            self.spec_wf(),
            self.spec_family() == Family::Shift,
        ensures
            match self.spec_execute_shift(old(machine)@) {
                Ok(after) => cycles == Ok::<(u8, u8), Fault>(after.1) && final(machine)@ == after.0,
                Err(fault) => cycles == Err::<(u8, u8), Fault>(fault),
            },
            cycles is Ok && old(machine)@.wf() ==> final(machine)@.wf(),
            cycles is Ok ==> 4 <= cycles->Ok_0.0 <= 24 && cycles->Ok_0.0 == 4 * cycles->Ok_0.1,
    {
        reveal(Instruction::spec_execute_shift);
        match self {
            Instruction::BIT_u3_mHL(bit_position) => {
                let address = machine.cpu.registers.hl;
                let value = crate::utils::is_bit_set(machine.read_u8(address)?, *bit_position);
                bit_complement(&mut machine.cpu, value);
                return Ok((12, 3));
            },
            Instruction::BIT_u3_r8(bit_position, reg) => {
                let value = machine.cpu.registers.get_bit(reg, bit_position);
                bit_complement(&mut machine.cpu, value);
                return Ok((8, 2));
            },
            Instruction::RES_u3_mHL(u8) => {
                let address = machine.cpu.registers.hl;
                let a = machine.read_u8(address)?;
                let res = bit_reset(a, *u8);
                machine.write_u8(address, res)?;
                return Ok((16, 4));
            },
            Instruction::RES_u3_r8(u8, r8) => {
                let a = machine.cpu.registers.read_r8(r8);
                let res = bit_reset(a, *u8);
                machine.cpu.registers.write_r8(r8, res);
                return Ok((8, 2));
            },
            Instruction::SET_u3_mHL(u8) => {
                let address = machine.cpu.registers.hl;
                let a = machine.read_u8(address)?;
                let res = bit_set(a, *u8);
                machine.write_u8(address, res)?;
                return Ok((16, 4));
            },
            Instruction::SET_u3_r8(u8, r8) => {
                let a = machine.cpu.registers.read_r8(r8);
                let res = bit_set(a, *u8);
                machine.cpu.registers.write_r8(r8, res);
                return Ok((8, 2));
            },
            Instruction::SLA_mHL => {
                let address = machine.cpu.registers.hl;
                let a = machine.read_u8(address)?;
                let res = rotate_left_with(&mut machine.cpu, a, false);
                machine.write_u8(address, res)?;
                return Ok((16, 4));
            },
            Instruction::SLA_r8(r8) => {
                let a = machine.cpu.registers.read_r8(r8);
                let res = rotate_left_with(&mut machine.cpu, a, false);
                machine.cpu.registers.write_r8(r8, res);
                return Ok((8, 2));
            },
            Instruction::SRA_mHL => {
                let address = machine.cpu.registers.hl;
                let a = machine.read_u8(address)?;
                let res = shift_right_arithmetically(&mut machine.cpu, a);
                machine.write_u8(address, res)?;
                return Ok((16, 4));
            },
            Instruction::SRA_r8(r8) => {
                let a = machine.cpu.registers.read_r8(r8);
                let res = shift_right_arithmetically(&mut machine.cpu, a);
                machine.cpu.registers.write_r8(r8, res);
                return Ok((8, 2));
            },
            Instruction::SRL_mHL => {
                let address = machine.cpu.registers.hl;
                let a = machine.read_u8(address)?;
                let res = shift_right_logically(&mut machine.cpu, a);
                machine.write_u8(address, res)?;
                return Ok((16, 4));
            },
            Instruction::SRL_r8(r8) => {
                let a = machine.cpu.registers.read_r8(r8);
                let res = shift_right_logically(&mut machine.cpu, a);
                machine.cpu.registers.write_r8(r8, res);
                return Ok((8, 2));
            },
            Instruction::SWAP_mHL => {
                let address = machine.cpu.registers.hl;
                let a = machine.read_u8(address)?;
                let res = swap(&mut machine.cpu, a);
                machine.write_u8(address, res)?;
                return Ok((16, 4));
            },
            Instruction::SWAP_r8(r8) => {
                let a = machine.cpu.registers.read_r8(r8);
                let res = swap(&mut machine.cpu, a);
                machine.cpu.registers.write_r8(r8, res);
                return Ok((8, 2));
            },
            _ => Err(Fault::NotImplemented),
        }
    }

    /// The loads and stores.
    #[verifier::rlimit(50)]
    fn execute_load(&self, machine: &mut Machine) -> (cycles: Result<(u8, u8), Fault>)
        requires
            self.spec_wf(),
            self.spec_family() == Family::Load,
        ensures
            match self.spec_execute_load(old(machine)@) {
                Ok(after) => cycles == Ok::<(u8, u8), Fault>(after.1) && final(machine)@ == after.0,
                Err(fault) => cycles == Err::<(u8, u8), Fault>(fault),
            },
            cycles is Ok && old(machine)@.wf() ==> final(machine)@.wf(),
            cycles is Ok ==> 4 <= cycles->Ok_0.0 <= 24 && cycles->Ok_0.0 == 4 * cycles->Ok_0.1,
    {
        reveal(Instruction::spec_execute_load);
        match self {
            Instruction::LD_A_mr16(r16) => {
                let byte = machine.read_u8(machine.cpu.registers.read_r16(r16))?;
                machine.cpu.registers.write_a(byte);
                return Ok((8, 2));
            },
            Instruction::LD_A_mHLdec => {
                let byte = machine.read_u8(machine.cpu.registers.hl)?;
                machine.cpu.registers.write_a(byte);
                machine.cpu.registers.hl = machine.cpu.registers.hl.wrapping_sub(1);
                return Ok((8, 2));
            },
            Instruction::LD_A_mHLinc => {
                let byte = machine.read_u8(machine.cpu.registers.hl)?;
                machine.cpu.registers.write_a(byte);
                machine.cpu.registers.hl = machine.cpu.registers.hl.wrapping_add(1);
                return Ok((8, 2));
            },
            Instruction::LD_FFu8_A(u8) => {
                machine.write_u8(high_page(*u8), machine.cpu.registers.read_a())?;
                return Ok((12, 3));
            },
            Instruction::LD_mu16_A(imm16) => {
                machine.write_u8(imm16.as_u16(), machine.cpu.registers.read_a())?;
                return Ok((16, 4));
            },
            Instruction::LD_mu16_SP(imm16) => {
                let sp = Immediate16::from_u16(machine.cpu.registers.sp);
                let address = imm16.as_u16();
                machine.write_u8(address, sp.lower_byte)?;
                machine.write_u8(address.wrapping_add(1), sp.higher_byte)?;
                return Ok((20, 5));
            },
            Instruction::LD_H_mHL => Err(Fault::NotImplemented),
            Instruction::LD_L_mHL => Err(Fault::NotImplemented),
            Instruction::LD_FFC_A => {
                machine.write_u8(
                    high_page(machine.cpu.registers.read_c()),
                    machine.cpu.registers.read_a(),
                )?;
                return Ok((8, 2));
            },
            Instruction::LD_r8_r8(r8a, r8b) => {
                let byte = machine.cpu.registers.read_r8(r8b);
                machine.cpu.registers.write_r8(r8a, byte);
                return Ok((4, 1));
            },
            Instruction::LD_r16_d16(r16, imm16) => {
                machine.cpu.registers.write_r16(r16, imm16.as_u16());
                return Ok((12, 3));
            },
            Instruction::LD_mr16_r8(mr16, r8) => {
                machine.write_u8(
                    machine.cpu.registers.read_r16(mr16),
                    machine.cpu.registers.read_r8(r8),
                )?;
                return Ok((8, 2));
            },
            Instruction::LD_mHL_u8(u8) => {
                machine.write_u8(machine.cpu.registers.hl, *u8)?;
                return Ok((12, 3));
            },
            Instruction::LD_mHLdec_A => {
                machine.write_u8(machine.cpu.registers.hl, machine.cpu.registers.read_a())?;
                machine.cpu.registers.hl = machine.cpu.registers.hl.wrapping_sub(1);
                return Ok((8, 2));
            },
            Instruction::LD_mHLinc_A => {
                machine.write_u8(machine.cpu.registers.hl, machine.cpu.registers.read_a())?;
                machine.cpu.registers.hl = machine.cpu.registers.hl.wrapping_add(1);
                return Ok((8, 2));
            },
            Instruction::LD_A_FFC => {
                let c = machine.cpu.registers.read_c();
                let a = machine.read_u8(high_page(c))?;
                machine.cpu.registers.write_a(a);
                return Ok((8, 2));
            },
            Instruction::LD_A_FFu8(u8) => {
                let a = machine.read_u8(high_page(*u8))?;
                machine.cpu.registers.write_a(a);
                return Ok((12, 3));
            },
            Instruction::LD_A_mu16(imm16) => {
                let byte = machine.read_u8(imm16.as_u16())?;
                machine.cpu.registers.write_a(byte);
                return Ok((16, 4));
            },
            Instruction::LD_r8_u8(r8, u8) => {
                machine.cpu.registers.write_r8(r8, *u8);
                return Ok((8, 2));
            },
            Instruction::LD_r8_mr16(r8, r16) => {
                let byte = machine.read_u8(machine.cpu.registers.read_r16(r16))?;
                machine.cpu.registers.write_r8(r8, byte);
                return Ok((8, 2));
            },
            Instruction::LD_SP_HL => {
                machine.cpu.registers.sp = machine.cpu.registers.hl;
                return Ok((8, 2));
            },
            Instruction::LD_SP_u16(imm16) => {
                machine.cpu.registers.sp = imm16.as_u16();
                return Ok((12, 3));
            },
            _ => Err(Fault::NotImplemented),
        }
    }

    /// The jumps, calls, returns and stack transfers.
    #[verifier::rlimit(50)]
    fn execute_control(&self, machine: &mut Machine) -> (cycles: Result<(u8, u8), Fault>)
        requires
            self.spec_wf(),
            self.spec_family() == Family::Control,
        ensures
            match self.spec_execute_control(old(machine)@) {
                Ok(after) => cycles == Ok::<(u8, u8), Fault>(after.1) && final(machine)@ == after.0,
                Err(fault) => cycles == Err::<(u8, u8), Fault>(fault),
            },
            cycles is Ok && old(machine)@.wf() ==> final(machine)@.wf(),
            cycles is Ok ==> 4 <= cycles->Ok_0.0 <= 24 && cycles->Ok_0.0 == 4 * cycles->Ok_0.1,
    {
        reveal(Instruction::spec_execute_control);
        match self {
            Instruction::CALL_a16(imm16) => {
                call(machine, imm16.as_u16())?;
                return Ok((24, 6));
            },
            Instruction::CALL_cc_u16(cc, imm16) => {
                if cc.holds(&machine.cpu) {
                    call(machine, imm16.as_u16())?;
                    return Ok((24, 6));
                } else {
                    return Ok((12, 3));
                }
            },
            Instruction::JR_r8(_) => Err(Fault::NotImplemented),
            Instruction::JP_u16(imm16) => {
                machine.cpu.registers.pc = imm16.as_u16();
                return Ok((16, 4));
            },
            Instruction::JP_cc_u16(cc, imm16) => {
                if cc.holds(&machine.cpu) {
                    machine.cpu.registers.pc = imm16.as_u16();
                    return Ok((16, 4));
                } else {
                    return Ok((12, 3));
                }
            },
            Instruction::JP_HL => {
                machine.cpu.registers.pc = machine.cpu.registers.hl;
                return Ok((4, 1));
            },
            Instruction::JR_i8(i8) => {
                let pc = machine.cpu.registers.pc;
                machine.cpu.registers.pc = pc.wrapping_add_signed(*i8 as i16);
                return Ok((12, 3));
            },
            Instruction::JR_cc_i8(cc, i8) => {
                let pc = machine.cpu.registers.pc;
                if cc.holds(&machine.cpu) {
                    machine.cpu.registers.pc = pc.wrapping_add_signed(*i8 as i16);
                    return Ok((12, 3));
                } else {
                    return Ok((8, 2));
                }
            },
            Instruction::POP_r16(r16) => {
                CPU::pop_r16(machine, r16)?;
                // Only the flag bits of F are restored.
                if *r16 == R16::AF {
                    let masked_af = machine.cpu.registers.read_r16(r16) & 0xFFF0;
                    machine.cpu.registers.write_r16(r16, masked_af);
                }
                return Ok((12, 3));
            },
            Instruction::PUSH_r16(r16) => {
                let mut word_to_push = machine.cpu.registers.read_r16(r16);
                // Only the flag bits of F are pushed.
                if *r16 == R16::AF {
                    word_to_push = word_to_push & 0xFFF0;
                }
                CPU::push_imm16(machine, Immediate16::from_u16(word_to_push))?;
                return Ok((16, 4));
            },
            Instruction::RET => {
                CPU::pop_r16(machine, &R16::PC)?;
                return Ok((16, 4));
            },
            Instruction::RET_cc(cc) => {
                if cc.holds(&machine.cpu) {
                    CPU::pop_r16(machine, &R16::PC)?;
                    return Ok((20, 5));
                } else {
                    return Ok((8, 2));
                }
            },
            Instruction::RETI => {
                machine.interrupts.interrupt_master_enable = true;
                CPU::pop_r16(machine, &R16::PC)?;
                return Ok((16, 4));
            },
            Instruction::RST(imm16) => {
                call(machine, imm16.as_u16())?;
                return Ok((16, 4));
            },
            _ => Err(Fault::NotImplemented),
        }
    }

    /// The increments and decrements, the 16-bit arithmetic, and what acts on the flags, the interrupts or the clock.
    #[verifier::rlimit(50)]
    fn execute_other(&self, machine: &mut Machine) -> (cycles: Result<(u8, u8), Fault>)
        requires
            self.spec_wf(),
            self.spec_family() == Family::Other,
        ensures
            match self.spec_execute_other(old(machine)@) {
                Ok(after) => cycles == Ok::<(u8, u8), Fault>(after.1) && final(machine)@ == after.0,
                Err(fault) => cycles == Err::<(u8, u8), Fault>(fault),
            },
            cycles is Ok && old(machine)@.wf() ==> final(machine)@.wf(),
            cycles is Ok ==> 4 <= cycles->Ok_0.0 <= 24 && cycles->Ok_0.0 == 4 * cycles->Ok_0.1,
    {
        reveal(Instruction::spec_execute_other);
        match self {
            Instruction::ADD_HL_r16(r16) => {
                let a = machine.cpu.registers.hl;
                let b = machine.cpu.registers.read_r16(r16);
                let res = a.wrapping_add(b);
                machine.cpu.registers.write_r16(&R16::HL, res).unset_flag(Flag::N).write_flag(
                    Flag::H,
                    add_produces_carry(a, b, false, 12),
                ).write_flag(Flag::C, add_produces_carry(a, b, false, 16));
                return Ok((8, 2));
            },
            Instruction::ADD_SP_i8(i8) => {
                let a = machine.cpu.registers.sp;
                let res = a.wrapping_add_signed(*i8 as i16);
                let byte = as_u8(*i8) as u16;
                machine.cpu.registers.write_r16(&R16::SP, res).znhc(
                    false,
                    false,
                    add_produces_carry(a, byte, false, 4),
                    add_produces_carry(a, byte, false, 8),
                );
                return Ok((16, 4));
            },
            Instruction::CCF => {
                let c = machine.cpu.registers.read_flag(Flag::C);
                machine.cpu.registers.unset_flag(Flag::N).unset_flag(Flag::H).write_flag(
                    Flag::C,
                    !c,
                );
                return Ok((4, 1));
            },
            Instruction::CPL => {
                let a = machine.cpu.registers.read_a();
                machine.cpu.registers.write_a(!a).set_flag(Flag::N).set_flag(Flag::H);
                return Ok((4, 1));
            },
            Instruction::DAA => {
                decimal_adjust(&mut machine.cpu);
                return Ok((4, 1));
            },
            Instruction::DEC_mHL => {
                let address = machine.cpu.registers.hl;
                let a = machine.read_u8(address)?;
                let res = dec(&mut machine.cpu, a);
                machine.write_u8(address, res)?;
                return Ok((12, 3));
            },
            Instruction::DEC_r8(r8) => {
                let a = machine.cpu.registers.read_r8(r8);
                let res = dec(&mut machine.cpu, a);
                machine.cpu.registers.write_r8(r8, res);
                return Ok((4, 1));
            },
            Instruction::DEC_r16(r16) => {
                let a = machine.cpu.registers.read_r16(r16);
                let res = a.wrapping_sub(1);
                machine.cpu.registers.write_r16(r16, res);
                return Ok((8, 2));
            },
            Instruction::DI => {
                machine.interrupts.interrupt_master_enable = false;
                return Ok((4, 1));
            },
            // The enabling takes effect with the next instruction.
            Instruction::EI => {
                machine.interrupts.interrupt_master_enable_delayed = true;
                return Ok((4, 1));
            },
            Instruction::HALT => {
                machine.cpu.low_power_mode = true;
                return Ok((4, 1));
            },
            Instruction::Illegal(opcode) => Err(Fault::IllegalOpcode { opcode: *opcode }),
            Instruction::INC_r8(r8) => {
                // The carry flag is not to be touched, so this is no addition.
                let r8val = machine.cpu.registers.read_r8(r8);
                let res = r8val.wrapping_add(1);
                machine.cpu.registers.write_r8(r8, res).write_flag(Flag::Z, res == 0).unset_flag(
                    Flag::N,
                ).write_flag(Flag::H, add_produces_carry(r8val as u16, 1, false, 4));
                return Ok((4, 1));
            },
            Instruction::INC_r16(r16) => {
                let res = machine.cpu.registers.read_r16(r16).wrapping_add(1);
                machine.cpu.registers.write_r16(r16, res);
                return Ok((8, 2));
            },
            Instruction::INC_mHL => {
                let res = machine.read_u8(machine.cpu.registers.hl)?.wrapping_add(1);
                machine.write_u8(machine.cpu.registers.hl, res)?;
                return Ok((12, 3));
            },
            Instruction::LD_HL_SP_i8(i8) => {
                let sp = machine.cpu.registers.sp;
                let res = sp.wrapping_add_signed(*i8 as i16);
                let byte = as_u8(*i8) as u16;
                machine.cpu.registers.hl = res;
                machine.cpu.registers.znhc(
                    false,
                    false,
                    add_produces_carry(sp, byte, false, 4),
                    add_produces_carry(sp, byte, false, 8),
                );
                return Ok((12, 3));
            },
            Instruction::NOP => {
                return Ok((4, 1));
            },
            Instruction::SCF => {
                machine.cpu.registers.unset_flag(Flag::N).unset_flag(Flag::H).set_flag(Flag::C);
                return Ok((4, 1));
            },
            Instruction::STOP => {
                return Ok((4, 1));
            },
            _ => Err(Fault::NotImplemented),
        }
    }

    /// Carries the instruction out and returns its cost in t-cycles and
    /// m-cycles. The program counter must point past the instruction already.
    pub fn execute(&self, machine: &mut Machine) -> (cycles: Result<(u8, u8), Fault>)
        requires
            self.spec_wf(),
        ensures
            match self.spec_execute(old(machine)@) {
                Ok(after) => cycles == Ok::<(u8, u8), Fault>(after.1) && final(machine)@ == after.0,
                Err(fault) => cycles == Err::<(u8, u8), Fault>(fault),
            },
            cycles is Ok && old(machine)@.wf() ==> final(machine)@.wf(),
            cycles is Ok ==> 4 <= cycles->Ok_0.0 <= 24 && cycles->Ok_0.0 == 4 * cycles->Ok_0.1,
    {
        // The effect of EI is put off by one instruction: it is resolved here.
        if machine.interrupts.interrupt_master_enable_delayed {
            machine.interrupts.interrupt_master_enable_delayed = false;
            machine.interrupts.interrupt_master_enable = true;
        }
        match self.family() {
            Family::Arithmetic => self.execute_arithmetic(machine),
            Family::Rotate => self.execute_rotate(machine),
            Family::Shift => self.execute_shift(machine),
            Family::Load => self.execute_load(machine),
            Family::Control => self.execute_control(machine),
            Family::Other => self.execute_other(machine),
        }
    }
}

} // verus!
