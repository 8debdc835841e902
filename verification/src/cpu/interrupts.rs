//! The interrupt controller: the master enable with its delayed latch, the
//! enable and request masks, priority and dispatch.

use vstd::prelude::*;
use crate::cpu::CPU;
use crate::fault::Fault;
use crate::instructions::type_def::Immediate16;
use crate::machine::{Machine, MachineView};
use crate::registers::R16;

verus! {

pub const VBLANK_INTERRUPT_BIT: u8 = 0;

pub const VBLANK_INTERRUPT_ADDRESS: u16 = 0x40;

pub const STAT_INTERRUPT_BIT: u8 = 1;

pub const STAT_INTERRUPT_ADDRESS: u16 = 0x48;

pub const TIMER_INTERRUPT_BIT: u8 = 2;

pub const TIMER_INTERRUPT_ADDRESS: u16 = 0x50;

pub const SERIAL_INTERRUPT_BIT: u8 = 3;

pub const SERIAL_INTERRUPT_ADDRESS: u16 = 0x58;

pub const JOYPAD_INTERRUPT_BIT: u8 = 4;

pub const JOYPAD_INTERRUPT_ADDRESS: u16 = 0x60;

#[derive(Clone, Copy, Debug, Hash, PartialEq, Eq, Structural)]
pub struct Interrupts {
    pub interrupt_master_enable: bool,
    pub interrupt_master_enable_delayed: bool,
    pub interrupt_enable: u8,
    pub interrupt_flag: u8,
}

/// The handler address of each source.
pub open spec fn spec_interrupt_handler_offset(interrupt_bit: u8) -> u16 {
    if interrupt_bit == VBLANK_INTERRUPT_BIT {
        VBLANK_INTERRUPT_ADDRESS
    } else if interrupt_bit == STAT_INTERRUPT_BIT {
        STAT_INTERRUPT_ADDRESS
    } else if interrupt_bit == TIMER_INTERRUPT_BIT {
        TIMER_INTERRUPT_ADDRESS
    } else if interrupt_bit == SERIAL_INTERRUPT_BIT {
        SERIAL_INTERRUPT_ADDRESS
    } else {
        JOYPAD_INTERRUPT_ADDRESS
    }
}

pub fn interrupt_handler_offset(interrupt_bit: u8) -> (address: u16)
    requires
        interrupt_bit <= JOYPAD_INTERRUPT_BIT,
    ensures
        address == spec_interrupt_handler_offset(interrupt_bit),
{
    if interrupt_bit == VBLANK_INTERRUPT_BIT {
        VBLANK_INTERRUPT_ADDRESS
    } else if interrupt_bit == STAT_INTERRUPT_BIT {
        STAT_INTERRUPT_ADDRESS
    } else if interrupt_bit == TIMER_INTERRUPT_BIT {
        TIMER_INTERRUPT_ADDRESS
    } else if interrupt_bit == SERIAL_INTERRUPT_BIT {
        SERIAL_INTERRUPT_ADDRESS
    } else {
        JOYPAD_INTERRUPT_ADDRESS
    }
}

/// The source to serve next, if the master enable is on and one is pending:
/// 0 for the vertical blank, which goes first, up to 4 for the joypad.
pub fn should_handle_interrupt(machine: &Machine) -> (interrupt: Option<u8>)
    ensures
        interrupt == machine@.interrupts.spec_should_handle_interrupt(),
        interrupt is Some ==> interrupt->Some_0 <= JOYPAD_INTERRUPT_BIT,
{
    if !machine.interrupts.interrupt_master_enable {
        return None;
    }
    let masked_ie = machine.interrupts.interrupt_enable & 0x1F;
    let masked_if = machine.interrupts.interrupt_flag & 0x1F;
    let conjoined = masked_ie & masked_if;
    if conjoined & 1 == 1 {
        Some(0)
    } else if conjoined & 2 == 2 {
        Some(1)
    } else if conjoined & 4 == 4 {
        Some(2)
    } else if conjoined & 8 == 8 {
        Some(3)
    } else if conjoined & 16 == 16 {
        Some(4)
    } else {
        None
    }
}

impl MachineView {
    /// The machine after the interrupt controller's part of a step, and the
    /// cost of it.
    ///
    /// With nothing to serve, nothing changes and nothing is spent. Else the
    /// request bit of the source is lowered and the master enable switched
    /// off, a halted CPU wakes up, the program counter is pushed and set to the
    /// handler of the source, and the first instruction of the handler is
    /// carried out: 20 t-cycles more than that instruction costs.
    #[verifier::opaque]
    pub open spec fn spec_handle_interrupts(self) -> Result<(MachineView, (u8, u8)), Fault> {
        match self.interrupts.spec_should_handle_interrupt() {
            None => Ok((self, (0u8, 0u8))),
            Some(interrupt) => match self.spec_dispatch(interrupt) {
                Err(fault) => Err(fault),
                Ok(vectored) => match vectored.spec_execute_one_instruction() {
                    Err(fault) => Err(fault),
                    Ok(after) => Ok((after.0, ((20 + after.2.0) as u8, (5 + after.2.1) as u8))),
                },
            },
        }
    }

    /// The machine at the handler of a source: the request bit of the source
    /// is lowered and the master enable switched off, a halted CPU wakes up,
    /// the program counter is pushed, and the handler's address takes its
    /// place.
    pub open spec fn spec_dispatch(self, interrupt: u8) -> Result<MachineView, Fault> {
        let acknowledged = (MachineView {
            interrupts: self.interrupts.spec_acknowledge(interrupt),
            ..self
        }).spec_awake();
        match acknowledged.spec_push_imm16(
            Immediate16::spec_from_u16(acknowledged.cpu.registers.pc),
        ) {
            Err(fault) => Err(fault),
            Ok(pushed) => Ok(
                pushed.spec_with_registers(
                    pushed.cpu.registers.spec_write_r16(
                        R16::PC,
                        spec_interrupt_handler_offset(interrupt),
                    ),
                ),
            ),
        }
    }
}

/// With the stack in work RAM, a dispatch succeeds and leaves the higher
/// byte of the interrupted program counter just below where the stack pointer
/// was and the lower byte below that; the stack pointer is two lower, the
/// program counter at the handler, the request bit of the source lowered, the
/// master enable off and the CPU awake.
pub proof fn lemma_dispatch(machine: MachineView, interrupt: u8)
    requires
        machine.ppu.wram_0.len() == crate::ppu::WRAM_SIZE,
        machine.ppu.wram_1.len() == crate::ppu::WRAM_SIZE,
        0xC002 <= machine.cpu.registers.sp <= 0xE000,
        interrupt <= JOYPAD_INTERRUPT_BIT,
    ensures
        machine.spec_dispatch(interrupt) is Ok,
        ({
            let after = machine.spec_dispatch(interrupt)->Ok_0;
            let sp = machine.cpu.registers.sp;
            let pc = machine.cpu.registers.pc;
            &&& after.cpu.registers.sp == sp - 2
            &&& after.cpu.registers.pc == spec_interrupt_handler_offset(interrupt)
            &&& after.spec_read_u8((sp - 1) as u16) == Ok::<u8, Fault>(
                crate::registers::spec_higher_u8(pc),
            )
            &&& after.spec_read_u8((sp - 2) as u16) == Ok::<u8, Fault>(
                crate::registers::spec_lower_u8(pc),
            )
            &&& after.interrupts == machine.interrupts.spec_acknowledge(interrupt)
            &&& !after.cpu.low_power_mode
            &&& after.cpu.registers.af == machine.cpu.registers.af
            &&& after.cpu.registers.bc == machine.cpu.registers.bc
            &&& after.cpu.registers.de == machine.cpu.registers.de
            &&& after.cpu.registers.hl == machine.cpu.registers.hl
        }),
{
    reveal(MachineView::spec_write_u8);
    reveal(MachineView::spec_read_u8);
}

impl Interrupts {
    /// Serves the pending interrupt of highest priority, if interrupts are
    /// enabled, and returns what that cost: nothing where none was served.
    pub fn handle_interrupts(machine: &mut Machine) -> (cycles: Result<(u8, u8), Fault>)
        ensures
            match old(machine)@.spec_handle_interrupts() {
                Ok(after) => cycles == Ok::<(u8, u8), Fault>(after.1) && final(machine)@ == after.0,
                Err(fault) => cycles == Err::<(u8, u8), Fault>(fault),
            },
            cycles is Ok && old(machine)@.wf() ==> final(machine)@.wf(),
            cycles is Ok ==> cycles->Ok_0.0 <= 44 && cycles->Ok_0.0 == 4 * cycles->Ok_0.1,
            cycles is Ok ==> (cycles->Ok_0.0 == 0 <==> old(
                machine,
            )@.interrupts.spec_should_handle_interrupt() is None),
    {
        reveal(MachineView::spec_handle_interrupts);
        match should_handle_interrupt(machine) {
            Some(interrupt) => {
                machine.interrupts.interrupt_flag = machine.interrupts.interrupt_flag & !(1u8
                    << interrupt);
                machine.interrupts.interrupt_master_enable = false;
                machine.cpu.low_power_mode = false;
                // Two idle m-cycles, two to push the program counter and one
                // to set it, all at once.
                let pc = machine.cpu.registers.pc;
                CPU::push_imm16(machine, Immediate16::from_u16(pc))?;
                machine.cpu.registers.pc = interrupt_handler_offset(interrupt);
                let executed = CPU::execute_one_instruction(machine)?;
                let t_cycles = executed.1.0;
                let m_cycles = executed.1.1;
                Ok((20 + t_cycles, 5 + m_cycles))
            },
            None => Ok((0, 0)),
        }
    }

    pub fn is_interrupt_pending(machine: &Machine) -> (pending: bool)
        ensures
            pending == machine@.interrupts.spec_is_interrupt_pending(),
    {
        let masked_ie = machine.interrupts.interrupt_enable & 0x1F;
        let masked_if = machine.interrupts.interrupt_flag & 0x1F;
        (masked_ie & masked_if) != 0
    }

    pub open spec fn spec_new() -> Interrupts {
        Interrupts {
            interrupt_master_enable: false,
            interrupt_master_enable_delayed: false,
            interrupt_enable: 0,
            interrupt_flag: 0,
        }
    }

    /// The sources that are both enabled and requested, one bit each.
    pub open spec fn spec_pending_mask(self) -> u8 {
        (self.interrupt_enable & 0x1F) & (self.interrupt_flag & 0x1F)
    }

    pub open spec fn spec_is_interrupt_pending(self) -> bool {
        self.spec_pending_mask() != 0
    }

    /// The source to serve next: none while the master enable is off, else the
    /// pending source with the lowest bit.
    pub open spec fn spec_should_handle_interrupt(self) -> Option<u8> {
        let pending = self.spec_pending_mask();
        if !self.interrupt_master_enable {
            None
        } else if pending & 1 == 1 {
            Some(0u8)
        } else if pending & 2 == 2 {
            Some(1u8)
        } else if pending & 4 == 4 {
            Some(2u8)
        } else if pending & 8 == 8 {
            Some(3u8)
        } else if pending & 16 == 16 {
            Some(4u8)
        } else {
            None
        }
    }

    /// The request bit of a source raised; no bit is ever lowered by a request.
    pub open spec fn spec_request(self, interrupt_bit: u8) -> Interrupts {
        Interrupts { interrupt_flag: self.interrupt_flag | (1u8 << interrupt_bit), ..self }
    }

    /// The request bit of a source lowered and the master enable switched off,
    /// as dispatch does.
    pub open spec fn spec_acknowledge(self, interrupt_bit: u8) -> Interrupts {
        Interrupts {
            interrupt_flag: self.interrupt_flag & !(1u8 << interrupt_bit),
            interrupt_master_enable: false,
            ..self
        }
    }

    pub fn new() -> (interrupts: Self)
        ensures
            interrupts == Self::spec_new(),
    {
        Interrupts {
            interrupt_master_enable: false,
            interrupt_master_enable_delayed: false,
            interrupt_enable: 0,
            interrupt_flag: 0,
        }
    }

    pub fn request_interrupt(&mut self, interrupt_bit: u8)
        requires
            interrupt_bit < 8,
        ensures
            *final(self) == old(self).spec_request(interrupt_bit),
    {
        self.interrupt_flag = self.interrupt_flag | (1u8 << interrupt_bit);
    }
}

/// The source that dispatch picks is pending, and no source of higher priority
/// is; dispatch picks none exactly when the master enable is off or nothing is
/// pending.
pub proof fn lemma_interrupt_priority(interrupts: Interrupts)
    ensures
        match interrupts.spec_should_handle_interrupt() {
            Some(bit) => {
                &&& bit <= JOYPAD_INTERRUPT_BIT
                &&& interrupts.interrupt_master_enable
                &&& interrupts.interrupt_enable & (1u8 << bit) != 0
                &&& interrupts.interrupt_flag & (1u8 << bit) != 0
                &&& forall|higher: u8|
                    higher < bit ==> interrupts.interrupt_enable & interrupts.interrupt_flag & (1u8
                        << higher) == 0
            },
            None => !interrupts.interrupt_master_enable || !interrupts.spec_is_interrupt_pending(),
        },
{
    let ie = interrupts.interrupt_enable;
    let iflag = interrupts.interrupt_flag;
    let pending = interrupts.spec_pending_mask();
    assert(pending == (ie & 0x1F) & (iflag & 0x1F));
    assert(forall|bit: u8|
        bit <= 4 && #[trigger] (((ie & 0x1F) & (iflag & 0x1F)) & (1u8 << bit)) == (1u8 << bit)
            ==> ie & (1u8 << bit) != 0 && iflag & (1u8 << bit) != 0) by (bit_vector);
    assert(forall|bit: u8|
        bit <= 4 && #[trigger] (((ie & 0x1F) & (iflag & 0x1F)) & (1u8 << bit)) != (1u8 << bit)
            ==> ie & iflag & (1u8 << bit) == 0) by (bit_vector);
    assert(((ie & 0x1F) & (iflag & 0x1F)) & 1 != 1 && ((ie & 0x1F) & (iflag & 0x1F)) & 2 != 2 && ((
    ie & 0x1F) & (iflag & 0x1F)) & 4 != 4 && ((ie & 0x1F) & (iflag & 0x1F)) & 8 != 8 && ((ie
        & 0x1F) & (iflag & 0x1F)) & 16 != 16 ==> (ie & 0x1F) & (iflag & 0x1F) == 0)
        by (bit_vector);
    assert(1u8 << 0u8 == 1 && 1u8 << 1u8 == 2 && 1u8 << 2u8 == 4 && 1u8 << 3u8 == 8 && 1u8 << 4u8
        == 16) by (bit_vector);
    match interrupts.spec_should_handle_interrupt() {
        Some(bit) => {
            assert(pending & (1u8 << bit) == (1u8 << bit));
            assert forall|higher: u8| higher < bit implies ie & iflag & (1u8 << higher) == 0 by {
                assert(pending & (1u8 << higher) != (1u8 << higher));
            }
        },
        None => {},
    }
}

/// A request raises the bit of its source and lowers none; serving a source
/// lowers the bit of that source and changes no other.
pub proof fn lemma_request_and_acknowledge(interrupts: Interrupts, interrupt_bit: u8, other: u8)
    requires
        interrupt_bit < 8,
        other < 8,
    ensures
        interrupts.spec_request(interrupt_bit).interrupt_flag & (1u8 << interrupt_bit) != 0,
        interrupts.interrupt_flag & (1u8 << other) != 0 ==> interrupts.spec_request(
            interrupt_bit,
        ).interrupt_flag & (1u8 << other) != 0,
        interrupts.spec_acknowledge(interrupt_bit).interrupt_flag & (1u8 << interrupt_bit) == 0,
        other != interrupt_bit ==> interrupts.spec_acknowledge(interrupt_bit).interrupt_flag & (1u8
            << other) == interrupts.interrupt_flag & (1u8 << other),
        !interrupts.spec_acknowledge(interrupt_bit).interrupt_master_enable,
        interrupts.spec_acknowledge(interrupt_bit).interrupt_enable == interrupts.interrupt_enable,
{
    let flag = interrupts.interrupt_flag;
    assert((flag | (1u8 << interrupt_bit)) & (1u8 << interrupt_bit) != 0 && (flag & (1u8 << other)
        != 0 ==> (flag | (1u8 << interrupt_bit)) & (1u8 << other) != 0) && (flag & !(1u8
        << interrupt_bit)) & (1u8 << interrupt_bit) == 0 && (other != interrupt_bit ==> (flag & !(
    1u8 << interrupt_bit)) & (1u8 << other) == flag & (1u8 << other))) by (bit_vector)
        requires
            interrupt_bit < 8,
            other < 8,
    ;
}

} // verus!
