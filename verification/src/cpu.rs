//! The CPU: its halted state, the memory it owns and the register file.

pub mod interrupts;
pub mod timers;

use vstd::prelude::*;
use crate::application_state::ROMInformation;
use crate::cpu::interrupts::Interrupts;
use crate::fault::{ConfigError, Fault};
use crate::instructions::decode::{
    decode_instruction_at_address, DecodedInstruction, DecodedInstructionView,
};
use crate::instructions::type_def::Immediate16;
use crate::machine::{Machine, MachineView};
use crate::memory::{Memory, MemoryView};
use crate::registers::{Registers, R16};
use crate::text::{push_hex_u16, push_hex_u8, spec_hex_u16, spec_hex_u8};
use vstd::string::StringExecFns;

verus! {

pub struct CPU {
    /// Set by HALT: no instruction is fetched until an interrupt is pending.
    pub low_power_mode: bool,
    pub memory: Memory,
    pub registers: Registers,
}

pub ghost struct CPUView {
    pub low_power_mode: bool,
    pub memory: MemoryView,
    pub registers: Registers,
}

impl View for CPU {
    type V = CPUView;

    open spec fn view(&self) -> CPUView {
        CPUView {
            low_power_mode: self.low_power_mode,
            memory: self.memory@,
            registers: self.registers,
        }
    }
}

impl CPUView {
    /// A CPU that has not run yet: awake, every register zero.
    pub open spec fn spec_new(
        boot_rom: Seq<u8>,
        game_rom: Seq<u8>,
        rom_information: ROMInformation,
    ) -> Result<CPUView, ConfigError> {
        match MemoryView::spec_new(boot_rom, game_rom, rom_information) {
            Ok(memory) => Ok(
                CPUView { low_power_mode: false, memory, registers: Registers::spec_new() },
            ),
            Err(error) => Err(error),
        }
    }
}

impl MachineView {
    /// The machine with its register file replaced.
    pub open spec fn spec_with_registers(self, registers: Registers) -> MachineView {
        MachineView { cpu: CPUView { registers, ..self.cpu }, ..self }
    }

    /// The machine after a word is pushed: the stack pointer goes down by
    /// one, the higher byte is stored there, it goes down by one again, and
    /// the lower byte is stored there. The higher byte lies at the higher
    /// address.
    pub open spec fn spec_push_imm16(self, imm16: Immediate16) -> Result<MachineView, Fault> {
        let first = self.spec_with_registers(
            self.cpu.registers.spec_write_r16(R16::SP, self.cpu.registers.sp.wrapping_sub(1)),
        );
        match first.spec_write_u8(first.cpu.registers.sp, imm16.higher_byte) {
            Err(fault) => Err(fault),
            Ok(stored) => {
                let second = stored.spec_with_registers(
                    stored.cpu.registers.spec_write_r16(
                        R16::SP,
                        stored.cpu.registers.sp.wrapping_sub(1),
                    ),
                );
                second.spec_write_u8(second.cpu.registers.sp, imm16.lower_byte)
            },
        }
    }

    /// The machine after a word is popped into a register pair: the lower
    /// byte comes from where the stack pointer points, the higher byte from
    /// the address above, and the stack pointer goes up by two before the
    /// pair is written.
    pub open spec fn spec_pop_r16(self, r16: R16) -> Result<MachineView, Fault> {
        match self.spec_read_u8(self.cpu.registers.sp) {
            Err(fault) => Err(fault),
            Ok(lower) => {
                let first = self.spec_with_registers(
                    self.cpu.registers.spec_write_r16(
                        R16::SP,
                        self.cpu.registers.sp.wrapping_add(1),
                    ),
                );
                match first.spec_read_u8(first.cpu.registers.sp) {
                    Err(fault) => Err(fault),
                    Ok(higher) => Ok(
                        first.spec_with_registers(
                            first.cpu.registers.spec_write_r16(
                                R16::SP,
                                first.cpu.registers.sp.wrapping_add(1),
                            ).spec_write_r16(
                                r16,
                                (Immediate16 {
                                    lower_byte: lower,
                                    higher_byte: higher,
                                }).spec_as_u16(),
                            ),
                        ),
                    ),
                }
            },
        }
    }
}

impl MachineView {
    /// The machine with the CPU awake.
    pub open spec fn spec_awake(self) -> MachineView {
        MachineView { cpu: CPUView { low_power_mode: false, ..self.cpu }, ..self }
    }

    /// The machine after the CPU's part of a step, the instruction that was
    /// carried out, if any, and the cost in t-cycles and m-cycles.
    ///
    /// A halted CPU with no interrupt pending fetches nothing and lets four
    /// t-cycles pass. A halted CPU with an interrupt pending wakes up and goes
    /// on as an awake one: the instruction at the program counter is decoded,
    /// the program counter moves past it, and then it is carried out.
    #[verifier::opaque]
    pub open spec fn spec_execute_one_instruction(self) -> Result<
        (MachineView, Option<DecodedInstructionView>, (u8, u8)),
        Fault,
    > {
        if self.cpu.low_power_mode && !self.interrupts.spec_is_interrupt_pending() {
            Ok((self, None, (4u8, 1u8)))
        } else {
            let awake = self.spec_awake();
            match DecodedInstructionView::spec_decode_at(awake, awake.cpu.registers.pc) {
                Err(fault) => Err(fault),
                Ok(decoded) => {
                    let fetched = awake.spec_with_registers(
                        awake.cpu.registers.spec_write_r16(
                            R16::PC,
                            awake.cpu.registers.pc.wrapping_add(decoded.instruction_size as u16),
                        ),
                    );
                    match decoded.instruction.spec_execute(fetched) {
                        Err(fault) => Err(fault),
                        Ok(after) => Ok((after.0, Some(decoded), after.1)),
                    }
                },
            }
        }
    }
}

impl CPU {
    pub fn execute_one_instruction(machine: &mut Machine) -> (executed: Result<
        (Option<DecodedInstruction>, (u8, u8)),
        Fault,
    >)
        ensures
            match old(machine)@.spec_execute_one_instruction() {
                Ok(after) => {
                    &&& executed is Ok
                    &&& final(machine)@ == after.0
                    &&& executed->Ok_0.1 == after.2
                    &&& match after.1 {
                        Some(decoded) => executed->Ok_0.0 is Some && executed->Ok_0.0->Some_0@
                            == decoded,
                        None => executed->Ok_0.0 is None,
                    }
                },
                Err(fault) => executed is Err && executed->Err_0 == fault,
            },
            executed is Ok && old(machine)@.wf() ==> final(machine)@.wf(),
            executed is Ok ==> 4 <= executed->Ok_0.1.0 <= 24 && executed->Ok_0.1.0 == 4
                * executed->Ok_0.1.1,
    {
        reveal(MachineView::spec_execute_one_instruction);
        if machine.cpu.low_power_mode {
            if Interrupts::is_interrupt_pending(machine) {
                machine.cpu.low_power_mode = false;
            } else {
                // The clock still runs: the other components must move on.
                return Ok((None, (4, 1)));
            }
        }
        let next_instruction = decode_instruction_at_address(machine, machine.cpu.registers.pc)?;
        // This is the program counter unless the instruction sets another.
        machine.cpu.registers.pc = machine.cpu.registers.pc.wrapping_add(
            next_instruction.instruction_size as u16,
        );
        let cycles = next_instruction.instruction.execute(machine)?;
        Ok((Some(next_instruction), cycles))
    }

    pub fn pop_r16(machine: &mut Machine, r16: &R16) -> (popped: Result<(), Fault>)
        ensures
            match old(machine)@.spec_pop_r16(*r16) {
                Ok(view) => popped is Ok && final(machine)@ == view,
                Err(fault) => popped == Err::<(), Fault>(fault),
            },
            popped is Ok && old(machine)@.wf() ==> final(machine)@.wf(),
    {
        let lower = machine.read_u8(machine.cpu.registers.sp)?;
        machine.cpu.registers.sp = machine.cpu.registers.sp.wrapping_add(1);
        let higher = machine.read_u8(machine.cpu.registers.sp)?;
        machine.cpu.registers.sp = machine.cpu.registers.sp.wrapping_add(1);
        let imm16 = Immediate16 { lower_byte: lower, higher_byte: higher };
        machine.cpu.registers.write_r16(r16, imm16.as_u16());
        Ok(())
    }

    /// The higher byte goes to the higher address.
    pub fn push_imm16(machine: &mut Machine, imm16: Immediate16) -> (pushed: Result<(), Fault>)
        ensures
            match old(machine)@.spec_push_imm16(imm16) {
                Ok(view) => pushed is Ok && final(machine)@ == view,
                Err(fault) => pushed == Err::<(), Fault>(fault),
            },
            pushed is Ok && old(machine)@.wf() ==> final(machine)@.wf(),
    {
        machine.cpu.registers.sp = machine.cpu.registers.sp.wrapping_sub(1);
        machine.write_u8(machine.cpu.registers.sp, imm16.higher_byte)?;
        machine.cpu.registers.sp = machine.cpu.registers.sp.wrapping_sub(1);
        machine.write_u8(machine.cpu.registers.sp, imm16.lower_byte)?;
        Ok(())
    }

    pub fn new(boot_rom: Vec<u8>, game_rom: Vec<u8>, rom_information: &ROMInformation) -> (cpu:
        Result<Self, ConfigError>)
        ensures
            match CPUView::spec_new(boot_rom@, game_rom@, *rom_information) {
                Ok(view) => cpu is Ok && cpu->Ok_0@ == view,
                Err(error) => cpu is Err && cpu->Err_0 == error,
            },
    {
        let memory = Memory::new(boot_rom, game_rom, rom_information)?;
        Ok(CPU { low_power_mode: false, memory, registers: Registers::new() })
    }
}


impl Clone for CPU {
    fn clone(&self) -> (copy: Self)
        ensures
            copy@ == self@,
    {
        CPU {
            low_power_mode: self.low_power_mode,
            memory: self.memory.clone(),
            registers: self.registers,
        }
    }
}


impl MachineView {
    /// The registers and the four bytes at the program counter as one line
    /// of a trace: each 8-bit register in two hexadecimal digits, the stack
    /// pointer and the program counter in four.
    pub open spec fn spec_gbdoctor_string(self) -> Result<Seq<char>, Fault> {
        let r = self.cpu.registers;
        let pc = r.pc;
        match self.spec_read_u8(pc) {
            Err(fault) => Err(fault),
            Ok(first) => match self.spec_read_u8(pc.wrapping_add(1)) {
                Err(fault) => Err(fault),
                Ok(second) => match self.spec_read_u8(pc.wrapping_add(2)) {
                    Err(fault) => Err(fault),
                    Ok(third) => match self.spec_read_u8(pc.wrapping_add(3)) {
                        Err(fault) => Err(fault),
                        Ok(fourth) => Ok(
                            "A:"@ + spec_hex_u8(r.spec_read_a()) + " F:"@ + spec_hex_u8(
                                r.spec_read_f(),
                            ) + " B:"@ + spec_hex_u8(r.spec_read_b()) + " C:"@ + spec_hex_u8(
                                r.spec_read_c(),
                            ) + " D:"@ + spec_hex_u8(r.spec_read_d()) + " E:"@ + spec_hex_u8(
                                r.spec_read_e(),
                            ) + " H:"@ + spec_hex_u8(r.spec_read_h()) + " L:"@ + spec_hex_u8(
                                r.spec_read_l(),
                            ) + " SP:"@ + spec_hex_u16(r.sp) + " PC:"@ + spec_hex_u16(pc)
                                + " PCMEM:"@ + spec_hex_u8(first) + ","@ + spec_hex_u8(second)
                                + ","@ + spec_hex_u8(third) + ","@ + spec_hex_u8(fourth),
                        ),
                    },
                },
            },
        }
    }
}

impl CPU {
    /// One line of a trace of the CPU, for comparison with a reference
    /// trace.
    pub fn gbdoctor_string(machine: &Machine) -> (line: Result<String, Fault>)
        ensures
            match machine@.spec_gbdoctor_string() {
                Ok(text) => line is Ok && line->Ok_0@ == text,
                Err(fault) => line is Err && line->Err_0 == fault,
            },
    {
        let registers = &machine.cpu.registers;
        let pc = registers.pc;
        let first = machine.read_u8(pc)?;
        let second = machine.read_u8(pc.wrapping_add(1))?;
        let third = machine.read_u8(pc.wrapping_add(2))?;
        let fourth = machine.read_u8(pc.wrapping_add(3))?;
        let mut res = String::from_str("A:");
        push_hex_u8(&mut res, registers.read_a());
        res.append(" F:");
        push_hex_u8(&mut res, registers.read_f());
        res.append(" B:");
        push_hex_u8(&mut res, registers.read_b());
        res.append(" C:");
        push_hex_u8(&mut res, registers.read_c());
        res.append(" D:");
        push_hex_u8(&mut res, registers.read_d());
        res.append(" E:");
        push_hex_u8(&mut res, registers.read_e());
        res.append(" H:");
        push_hex_u8(&mut res, registers.read_h());
        res.append(" L:");
        push_hex_u8(&mut res, registers.read_l());
        res.append(" SP:");
        push_hex_u16(&mut res, registers.sp);
        res.append(" PC:");
        push_hex_u16(&mut res, pc);
        res.append(" PCMEM:");
        push_hex_u8(&mut res, first);
        res.append(",");
        push_hex_u8(&mut res, second);
        res.append(",");
        push_hex_u8(&mut res, third);
        res.append(",");
        push_hex_u8(&mut res, fourth);
        Ok(res)
    }

    pub fn memory(&self) -> (memory: &Memory)
        ensures
            *memory == self.memory,
    {
        &self.memory
    }

    pub fn memory_mut(&mut self) -> (memory: &mut Memory)
        ensures
            *memory == old(self).memory,
            *final(self) == (CPU { memory: *final(memory), ..*old(self) }),
    {
        &mut self.memory
    }

    pub fn registers(&self) -> (registers: &Registers)
        ensures
            *registers == self.registers,
    {
        &self.registers
    }

    pub fn registers_mut(&mut self) -> (registers: &mut Registers)
        ensures
            *registers == old(self).registers,
            *final(self) == (CPU { registers: *final(registers), ..*old(self) }),
    {
        &mut self.registers
    }
}

impl Machine {
    pub fn memory(&self) -> (memory: &Memory)
        ensures
            *memory == self.cpu.memory,
    {
        &self.cpu.memory
    }

    pub fn memory_mut(&mut self) -> (memory: &mut Memory)
        ensures
            *memory == old(self).cpu.memory,
            *final(self) == (Machine {
                cpu: CPU { memory: *final(memory), ..old(self).cpu },
                ..*old(self)
            }),
    {
        &mut self.cpu.memory
    }

    pub fn registers(&self) -> (registers: &Registers)
        ensures
            *registers == self.cpu.registers,
    {
        &self.cpu.registers
    }

    pub fn registers_mut(&mut self) -> (registers: &mut Registers)
        ensures
            *registers == old(self).cpu.registers,
            *final(self) == (Machine {
                cpu: CPU { registers: *final(registers), ..old(self).cpu },
                ..*old(self)
            }),
    {
        &mut self.cpu.registers
    }
}

} // verus!
