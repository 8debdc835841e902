//! The register file: six 16-bit words, four of which are also reachable as
//! pairs of 8-bit halves, and the four flag bits in the upper nibble of F.

use vstd::prelude::*;
use crate::utils::spec_is_bit_set;

verus! {

#[derive(Clone, Copy, Debug, Hash, PartialEq, Eq, Structural)]
pub enum R8 {
    A,
    B,
    C,
    D,
    E,
    F,
    H,
    L,
}

#[derive(Clone, Copy, Debug, Hash, PartialEq, Eq, Structural)]
pub enum R16 {
    AF,
    BC,
    DE,
    HL,
    SP,
    PC,
}

#[derive(Clone, Copy, Debug, Hash, PartialEq, Eq, Structural)]
pub enum Flag {
    Z,
    N,
    C,
    H,
}

impl Flag {
    /// Position of the flag within F.
    pub open spec fn spec_get_bit(self) -> u8 {
        match self {
            Flag::Z => 7,
            Flag::N => 6,
            Flag::H => 5,
            Flag::C => 4,
        }
    }

    pub fn get_bit(&self) -> (bit: u8)
        ensures
            bit == self.spec_get_bit(),
    {
        match self {
            Flag::Z => 7,
            Flag::N => 6,
            Flag::H => 5,
            Flag::C => 4,
        }
    }
}

#[derive(Clone, Copy, Debug, Hash, PartialEq, Eq, Structural)]
pub struct Registers {
    pub af: u16,
    pub bc: u16,
    pub de: u16,
    pub hl: u16,
    pub sp: u16,
    pub pc: u16,
}

/// The word whose upper byte is `higher` and whose lower byte is `lower`.
#[verifier::opaque]
pub open spec fn spec_u16_from_u8s(higher: u8, lower: u8) -> u16 {
    (higher * 256 + lower) as u16
}

/// The upper byte of a word.
#[verifier::opaque]
pub open spec fn spec_higher_u8(from: u16) -> u8 {
    (from / 256) as u8
}

/// The lower byte of a word.
#[verifier::opaque]
pub open spec fn spec_lower_u8(from: u16) -> u8 {
    (from % 256) as u8
}

/// F with the four flags as given and a zero lower nibble.
#[verifier::opaque]
pub open spec fn spec_flags_byte(z: bool, n: bool, h: bool, c: bool) -> u8 {
    ((if z { 128int } else { 0 }) + (if n { 64int } else { 0 }) + (if h { 32int } else { 0 }) + (if c {
        16int
    } else {
        0
    })) as u8
}

/// Whether `flag` is raised in the flags byte `f`.
#[verifier::opaque]
pub open spec fn spec_flag_of(f: u8, flag: Flag) -> bool {
    match flag {
        Flag::Z => f >= 128,
        Flag::N => (f / 64) % 2 == 1,
        Flag::H => (f / 32) % 2 == 1,
        Flag::C => (f / 16) % 2 == 1,
    }
}

pub fn u16_from_u8s(higher: u8, lower: u8) -> (word: u16)
    ensures
        word == spec_u16_from_u8s(higher, lower),
{
    reveal(spec_u16_from_u8s);
    (higher as u16) * 256 + (lower as u16)
}

pub fn higher_u8(from: u16) -> (byte: u8)
    ensures
        byte == spec_higher_u8(from),
{
    reveal(spec_higher_u8);
    (from / 256) as u8
}

pub fn lower_u8(from: u16) -> (byte: u8)
    ensures
        byte == spec_lower_u8(from),
{
    reveal(spec_lower_u8);
    (from % 256) as u8
}

impl Registers {
    pub open spec fn spec_new() -> Registers {
        Registers { af: 0, bc: 0, de: 0, hl: 0, sp: 0, pc: 0 }
    }

    pub open spec fn spec_read_a(self) -> u8 {
        spec_higher_u8(self.af)
    }

    pub open spec fn spec_read_f(self) -> u8 {
        spec_lower_u8(self.af)
    }

    pub open spec fn spec_read_b(self) -> u8 {
        spec_higher_u8(self.bc)
    }

    pub open spec fn spec_read_c(self) -> u8 {
        spec_lower_u8(self.bc)
    }

    pub open spec fn spec_read_d(self) -> u8 {
        spec_higher_u8(self.de)
    }

    pub open spec fn spec_read_e(self) -> u8 {
        spec_lower_u8(self.de)
    }

    pub open spec fn spec_read_h(self) -> u8 {
        spec_higher_u8(self.hl)
    }

    pub open spec fn spec_read_l(self) -> u8 {
        spec_lower_u8(self.hl)
    }

    pub open spec fn spec_read_r8(self, r8: R8) -> u8 {
        match r8 {
            R8::A => self.spec_read_a(),
            R8::B => self.spec_read_b(),
            R8::C => self.spec_read_c(),
            R8::D => self.spec_read_d(),
            R8::E => self.spec_read_e(),
            R8::F => self.spec_read_f(),
            R8::H => self.spec_read_h(),
            R8::L => self.spec_read_l(),
        }
    }

    /// The register file after an 8-bit half is overwritten: the other half of
    /// the same pair, and every other pair, stay as they were.
    #[verifier::opaque]
    pub open spec fn spec_write_r8(self, r8: R8, value: u8) -> Registers {
        match r8 {
            R8::A => Registers { af: spec_u16_from_u8s(value, self.spec_read_f()), ..self },
            R8::B => Registers { bc: spec_u16_from_u8s(value, self.spec_read_c()), ..self },
            R8::C => Registers { bc: spec_u16_from_u8s(self.spec_read_b(), value), ..self },
            R8::D => Registers { de: spec_u16_from_u8s(value, self.spec_read_e()), ..self },
            R8::E => Registers { de: spec_u16_from_u8s(self.spec_read_d(), value), ..self },
            R8::F => Registers { af: spec_u16_from_u8s(self.spec_read_a(), value), ..self },
            R8::H => Registers { hl: spec_u16_from_u8s(value, self.spec_read_l()), ..self },
            R8::L => Registers { hl: spec_u16_from_u8s(self.spec_read_h(), value), ..self },
        }
    }

    pub open spec fn spec_read_r16(self, r16: R16) -> u16 {
        match r16 {
            R16::AF => self.af,
            R16::BC => self.bc,
            R16::DE => self.de,
            R16::HL => self.hl,
            R16::SP => self.sp,
            R16::PC => self.pc,
        }
    }

    pub open spec fn spec_write_r16(self, r16: R16, value: u16) -> Registers {
        match r16 {
            R16::AF => Registers { af: value, ..self },
            R16::BC => Registers { bc: value, ..self },
            R16::DE => Registers { de: value, ..self },
            R16::HL => Registers { hl: value, ..self },
            R16::SP => Registers { sp: value, ..self },
            R16::PC => Registers { pc: value, ..self },
        }
    }

    pub open spec fn spec_get_bit(self, r8: R8, bit: u8) -> bool {
        spec_is_bit_set(self.spec_read_r8(r8), bit)
    }

    #[verifier::opaque]
    pub open spec fn spec_read_flag(self, flag: Flag) -> bool {
        spec_flag_of(self.spec_read_f(), flag)
    }

    /// All four flags replaced at once; the lower nibble of F becomes zero.
    #[verifier::opaque]
    pub open spec fn spec_znhc(self, z: bool, n: bool, h: bool, c: bool) -> Registers {
        self.spec_write_r8(R8::F, spec_flags_byte(z, n, h, c))
    }

    /// One flag replaced, the other three kept; the lower nibble of F becomes zero.
    #[verifier::opaque]
    pub open spec fn spec_write_flag(self, flag: Flag, value: bool) -> Registers {
        let z = self.spec_read_flag(Flag::Z);
        let n = self.spec_read_flag(Flag::N);
        let h = self.spec_read_flag(Flag::H);
        let c = self.spec_read_flag(Flag::C);
        match flag {
            Flag::Z => self.spec_znhc(value, n, h, c),
            Flag::N => self.spec_znhc(z, value, h, c),
            Flag::H => self.spec_znhc(z, n, value, c),
            Flag::C => self.spec_znhc(z, n, h, value),
        }
    }

    pub fn new() -> (registers: Self)
        ensures
            registers == Self::spec_new(),
    {
        Registers { af: 0, bc: 0, de: 0, hl: 0, sp: 0, pc: 0 }
    }

    pub fn write_a(&mut self, a: u8) -> (ret: &mut Self)
        ensures
            *ret == old(self).spec_write_r8(R8::A, a),
            *final(self) == *final(ret),
            ret.bc == old(self).bc,
            ret.de == old(self).de,
            ret.hl == old(self).hl,
            ret.sp == old(self).sp,
            ret.pc == old(self).pc,
    {
        reveal(Registers::spec_write_r8);
        self.af = u16_from_u8s(a, self.read_f());
        self
    }

    fn write_f(&mut self, f: u8) -> (ret: &mut Self)
        ensures
            *ret == old(self).spec_write_r8(R8::F, f),
            *final(self) == *final(ret),
            ret.bc == old(self).bc,
            ret.de == old(self).de,
            ret.hl == old(self).hl,
            ret.sp == old(self).sp,
            ret.pc == old(self).pc,
    {
        reveal(Registers::spec_write_r8);
        self.af = u16_from_u8s(self.read_a(), f);
        self
    }

    pub fn write_b(&mut self, b: u8) -> (ret: &mut Self)
        ensures
            *ret == old(self).spec_write_r8(R8::B, b),
            *final(self) == *final(ret),
            ret.af == old(self).af,
            ret.de == old(self).de,
            ret.hl == old(self).hl,
            ret.sp == old(self).sp,
            ret.pc == old(self).pc,
    {
        reveal(Registers::spec_write_r8);
        self.bc = u16_from_u8s(b, self.read_c());
        self
    }

    pub fn write_c(&mut self, c: u8) -> (ret: &mut Self)
        ensures
            *ret == old(self).spec_write_r8(R8::C, c),
            *final(self) == *final(ret),
            ret.af == old(self).af,
            ret.de == old(self).de,
            ret.hl == old(self).hl,
            ret.sp == old(self).sp,
            ret.pc == old(self).pc,
    {
        reveal(Registers::spec_write_r8);
        self.bc = u16_from_u8s(self.read_b(), c);
        self
    }

    pub fn write_d(&mut self, d: u8) -> (ret: &mut Self)
        ensures
            *ret == old(self).spec_write_r8(R8::D, d),
            *final(self) == *final(ret),
            ret.af == old(self).af,
            ret.bc == old(self).bc,
            ret.hl == old(self).hl,
            ret.sp == old(self).sp,
            ret.pc == old(self).pc,
    {
        reveal(Registers::spec_write_r8);
        self.de = u16_from_u8s(d, self.read_e());
        self
    }

    pub fn write_e(&mut self, e: u8) -> (ret: &mut Self)
        ensures
            *ret == old(self).spec_write_r8(R8::E, e),
            *final(self) == *final(ret),
            ret.af == old(self).af,
            ret.bc == old(self).bc,
            ret.hl == old(self).hl,
            ret.sp == old(self).sp,
            ret.pc == old(self).pc,
    {
        reveal(Registers::spec_write_r8);
        self.de = u16_from_u8s(self.read_d(), e);
        self
    }

    pub fn write_h(&mut self, h: u8) -> (ret: &mut Self)
        ensures
            *ret == old(self).spec_write_r8(R8::H, h),
            *final(self) == *final(ret),
            ret.af == old(self).af,
            ret.bc == old(self).bc,
            ret.de == old(self).de,
            ret.sp == old(self).sp,
            ret.pc == old(self).pc,
    {
        reveal(Registers::spec_write_r8);
        self.hl = u16_from_u8s(h, self.read_l());
        self
    }

    pub fn write_l(&mut self, l: u8) -> (ret: &mut Self)
        ensures
            *ret == old(self).spec_write_r8(R8::L, l),
            *final(self) == *final(ret),
            ret.af == old(self).af,
            ret.bc == old(self).bc,
            ret.de == old(self).de,
            ret.sp == old(self).sp,
            ret.pc == old(self).pc,
    {
        reveal(Registers::spec_write_r8);
        self.hl = u16_from_u8s(self.read_h(), l);
        self
    }

    pub fn read_a(&self) -> (byte: u8)
        ensures
            byte == self.spec_read_a(),
    {
        higher_u8(self.af)
    }

    pub fn read_f(&self) -> (byte: u8)
        ensures
            byte == self.spec_read_f(),
    {
        lower_u8(self.af)
    }

    pub fn read_b(&self) -> (byte: u8)
        ensures
            byte == self.spec_read_b(),
    {
        higher_u8(self.bc)
    }

    pub fn read_c(&self) -> (byte: u8)
        ensures
            byte == self.spec_read_c(),
    {
        lower_u8(self.bc)
    }

    pub fn read_d(&self) -> (byte: u8)
        ensures
            byte == self.spec_read_d(),
    {
        higher_u8(self.de)
    }

    pub fn read_e(&self) -> (byte: u8)
        ensures
            byte == self.spec_read_e(),
    {
        lower_u8(self.de)
    }

    pub fn read_h(&self) -> (byte: u8)
        ensures
            byte == self.spec_read_h(),
    {
        higher_u8(self.hl)
    }

    pub fn read_l(&self) -> (byte: u8)
        ensures
            byte == self.spec_read_l(),
    {
        lower_u8(self.hl)
    }

    pub fn read_r8(&self, r8: &R8) -> (byte: u8)
        ensures
            byte == self.spec_read_r8(*r8),
    {
        match r8 {
            R8::A => self.read_a(),
            R8::B => self.read_b(),
            R8::C => self.read_c(),
            R8::D => self.read_d(),
            R8::E => self.read_e(),
            R8::F => self.read_f(),
            R8::H => self.read_h(),
            R8::L => self.read_l(),
        }
    }

    pub fn write_r8(&mut self, r8: &R8, value: u8) -> (ret: &mut Self)
        ensures
            *ret == old(self).spec_write_r8(*r8, value),
            *final(self) == *final(ret),
            ret.sp == old(self).sp,
            ret.pc == old(self).pc,
    {
        match r8 {
            R8::A => self.write_a(value),
            R8::B => self.write_b(value),
            R8::C => self.write_c(value),
            R8::D => self.write_d(value),
            R8::E => self.write_e(value),
            R8::F => self.write_f(value),
            R8::H => self.write_h(value),
            R8::L => self.write_l(value),
        }
    }

    pub fn read_r16(&self, r16: &R16) -> (word: u16)
        ensures
            word == self.spec_read_r16(*r16),
    {
        match r16 {
            R16::AF => self.af,
            R16::BC => self.bc,
            R16::DE => self.de,
            R16::HL => self.hl,
            R16::SP => self.sp,
            R16::PC => self.pc,
        }
    }

    pub fn write_r16(&mut self, r16: &R16, value: u16) -> (ret: &mut Self)
        ensures
            *ret == old(self).spec_write_r16(*r16, value),
            *final(self) == *final(ret),
    {
        match r16 {
            R16::AF => self.af = value,
            R16::BC => self.bc = value,
            R16::DE => self.de = value,
            R16::HL => self.hl = value,
            R16::SP => self.sp = value,
            R16::PC => self.pc = value,
        };
        self
    }

    pub fn get_bit(&self, r8: &R8, bit: &u8) -> (set: bool)
        requires
            *bit < 8,
        ensures
            set == self.spec_get_bit(*r8, *bit),
    {
        (self.read_r8(r8) & (1u8 << *bit)) != 0
    }

    pub fn read_flag(&self, flag: Flag) -> (raised: bool)
        ensures
            raised == self.spec_read_flag(flag),
    {
        reveal(spec_flag_of);
        reveal(Registers::spec_read_flag);
        let f = self.read_f();
        match flag {
            Flag::Z => f >= 128,
            Flag::N => (f / 64) % 2 == 1,
            Flag::H => (f / 32) % 2 == 1,
            Flag::C => (f / 16) % 2 == 1,
        }
    }

    pub fn set_flag(&mut self, flag: Flag) -> (ret: &mut Self)
        ensures
            *ret == old(self).spec_write_flag(flag, true),
            *final(self) == *final(ret),
            ret.bc == old(self).bc,
            ret.de == old(self).de,
            ret.hl == old(self).hl,
            ret.sp == old(self).sp,
            ret.pc == old(self).pc,
    {
        self.write_flag(flag, true)
    }

    pub fn unset_flag(&mut self, flag: Flag) -> (ret: &mut Self)
        ensures
            *ret == old(self).spec_write_flag(flag, false),
            *final(self) == *final(ret),
            ret.bc == old(self).bc,
            ret.de == old(self).de,
            ret.hl == old(self).hl,
            ret.sp == old(self).sp,
            ret.pc == old(self).pc,
    {
        self.write_flag(flag, false)
    }

    pub fn write_flag(&mut self, flag: Flag, value: bool) -> (ret: &mut Self)
        ensures
            *ret == old(self).spec_write_flag(flag, value),
            *final(self) == *final(ret),
            ret.bc == old(self).bc,
            ret.de == old(self).de,
            ret.hl == old(self).hl,
            ret.sp == old(self).sp,
            ret.pc == old(self).pc,
    {
        reveal(Registers::spec_write_flag);
        let z = self.read_flag(Flag::Z);
        let n = self.read_flag(Flag::N);
        let h = self.read_flag(Flag::H);
        let c = self.read_flag(Flag::C);
        match flag {
            Flag::Z => self.znhc(value, n, h, c),
            Flag::N => self.znhc(z, value, h, c),
            Flag::H => self.znhc(z, n, value, c),
            Flag::C => self.znhc(z, n, h, value),
        }
    }

    pub fn znhc(&mut self, z: bool, n: bool, h: bool, c: bool) -> (ret: &mut Self)
        ensures
            *ret == old(self).spec_znhc(z, n, h, c),
            *final(self) == *final(ret),
            ret.bc == old(self).bc,
            ret.de == old(self).de,
            ret.hl == old(self).hl,
            ret.sp == old(self).sp,
            ret.pc == old(self).pc,
    {
        reveal(spec_flags_byte);
        reveal(Registers::spec_znhc);
        let mut new_f: u8 = 0;
        if z {
            new_f = new_f + 128;
        }
        if n {
            new_f = new_f + 64;
        }
        if h {
            new_f = new_f + 32;
        }
        if c {
            new_f = new_f + 16;
        }
        self.write_f(new_f)
    }
}

/// Splitting a word into its halves and joining them again gives the word back,
/// and each half of a joined word is the byte that was put there.
pub proof fn lemma_halves(higher: u8, lower: u8, word: u16)
    ensures
        spec_higher_u8(spec_u16_from_u8s(higher, lower)) == higher,
        spec_lower_u8(spec_u16_from_u8s(higher, lower)) == lower,
        spec_u16_from_u8s(spec_higher_u8(word), spec_lower_u8(word)) == word,
{
    reveal(spec_u16_from_u8s);
    reveal(spec_higher_u8);
    reveal(spec_lower_u8);
}

/// An 8-bit write is read back from the same register, and leaves the seven
/// other 8-bit registers and SP and PC untouched.
pub proof fn lemma_write_r8_then_read(registers: Registers, written: R8, value: u8, read: R8)
    ensures
        registers.spec_write_r8(written, value).spec_read_r8(read) == if read == written {
            value
        } else {
            registers.spec_read_r8(read)
        },
        registers.spec_write_r8(written, value).sp == registers.sp,
        registers.spec_write_r8(written, value).pc == registers.pc,
{
    reveal(Registers::spec_write_r8);
    match written {
        R8::A => lemma_halves(value, registers.spec_read_f(), 0),
        R8::B => lemma_halves(value, registers.spec_read_c(), 0),
        R8::C => lemma_halves(registers.spec_read_b(), value, 0),
        R8::D => lemma_halves(value, registers.spec_read_e(), 0),
        R8::E => lemma_halves(registers.spec_read_d(), value, 0),
        R8::F => lemma_halves(registers.spec_read_a(), value, 0),
        R8::H => lemma_halves(value, registers.spec_read_l(), 0),
        R8::L => lemma_halves(registers.spec_read_h(), value, 0),
    }
}

/// After the four flags are written together each reads back as written, the
/// lower nibble of F is zero, and nothing but F has changed.
pub proof fn lemma_znhc(registers: Registers, z: bool, n: bool, h: bool, c: bool)
    ensures
        registers.spec_znhc(z, n, h, c).spec_read_flag(Flag::Z) == z,
        registers.spec_znhc(z, n, h, c).spec_read_flag(Flag::N) == n,
        registers.spec_znhc(z, n, h, c).spec_read_flag(Flag::H) == h,
        registers.spec_znhc(z, n, h, c).spec_read_flag(Flag::C) == c,
        registers.spec_znhc(z, n, h, c).spec_read_f() % 16 == 0,
        registers.spec_znhc(z, n, h, c) == registers.spec_write_r8(
            R8::F,
            registers.spec_znhc(z, n, h, c).spec_read_f(),
        ),
        registers.spec_znhc(z, n, h, c).spec_read_a() == registers.spec_read_a(),
{
    reveal(spec_flags_byte);
    reveal(spec_flag_of);
    reveal(Registers::spec_znhc);
    reveal(Registers::spec_read_flag);
    reveal(Registers::spec_write_r8);
    let f = spec_flags_byte(z, n, h, c);
    lemma_halves(registers.spec_read_a(), f, 0);
    lemma_halves(registers.spec_read_a(), spec_lower_u8(registers.spec_znhc(z, n, h, c).af), 0);
}

/// Writing one flag changes that flag only, clears the lower nibble of F and
/// leaves every other register as it was.
pub proof fn lemma_write_flag(registers: Registers, written: Flag, value: bool, read: Flag)
    ensures
        registers.spec_write_flag(written, value).spec_read_flag(read) == if read == written {
            value
        } else {
            registers.spec_read_flag(read)
        },
        registers.spec_write_flag(written, value).spec_read_f() % 16 == 0,
        registers.spec_write_flag(written, value).spec_read_a() == registers.spec_read_a(),
        registers.spec_write_flag(written, value).bc == registers.bc,
        registers.spec_write_flag(written, value).de == registers.de,
        registers.spec_write_flag(written, value).hl == registers.hl,
        registers.spec_write_flag(written, value).sp == registers.sp,
        registers.spec_write_flag(written, value).pc == registers.pc,
{
    reveal(Registers::spec_write_flag);
    reveal(Registers::spec_znhc);
    reveal(Registers::spec_write_r8);
    let z = registers.spec_read_flag(Flag::Z);
    let n = registers.spec_read_flag(Flag::N);
    let h = registers.spec_read_flag(Flag::H);
    let c = registers.spec_read_flag(Flag::C);
    lemma_znhc(registers, value, n, h, c);
    lemma_znhc(registers, z, value, h, c);
    lemma_znhc(registers, z, n, value, c);
    lemma_znhc(registers, z, n, h, value);
}


/// No write to an 8-bit register, and no write to the flags, moves the stack
/// pointer or the program counter; a write to the flags also leaves A and the
/// three other pairs alone.
pub broadcast proof fn lemma_write_r8_frame(registers: Registers, r8: R8, value: u8)
    ensures
        #![trigger registers.spec_write_r8(r8, value)]
        registers.spec_write_r8(r8, value).sp == registers.sp,
        registers.spec_write_r8(r8, value).pc == registers.pc,
        r8 == R8::A || r8 == R8::F ==> registers.spec_write_r8(r8, value).hl == registers.hl,
{
    reveal(Registers::spec_write_r8);
}

pub broadcast proof fn lemma_znhc_frame(registers: Registers, z: bool, n: bool, h: bool, c: bool)
    ensures
        #![trigger registers.spec_znhc(z, n, h, c)]
        registers.spec_znhc(z, n, h, c).sp == registers.sp,
        registers.spec_znhc(z, n, h, c).pc == registers.pc,
        registers.spec_znhc(z, n, h, c).hl == registers.hl,
        registers.spec_znhc(z, n, h, c).bc == registers.bc,
        registers.spec_znhc(z, n, h, c).de == registers.de,
        registers.spec_znhc(z, n, h, c).spec_read_a() == registers.spec_read_a(),
{
    lemma_znhc(registers, z, n, h, c);
    reveal(Registers::spec_znhc);
    reveal(Registers::spec_write_r8);
}

pub broadcast proof fn lemma_write_flag_frame(registers: Registers, flag: Flag, value: bool)
    ensures
        #![trigger registers.spec_write_flag(flag, value)]
        registers.spec_write_flag(flag, value).sp == registers.sp,
        registers.spec_write_flag(flag, value).pc == registers.pc,
        registers.spec_write_flag(flag, value).hl == registers.hl,
        registers.spec_write_flag(flag, value).bc == registers.bc,
        registers.spec_write_flag(flag, value).de == registers.de,
        registers.spec_write_flag(flag, value).spec_read_a() == registers.spec_read_a(),
{
    lemma_write_flag(registers, flag, value, flag);
}

} // verus!
