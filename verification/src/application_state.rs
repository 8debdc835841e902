//! What a cartridge header says of its hardware, and the driver's view of a
//! running machine.

use vstd::prelude::*;
use vstd::string::StringExecFns;
use circular_queue::CircularQueue;
use crate::cpu::interrupts::Interrupts;
use crate::cpu::CPU;
use crate::fault::{ConfigError, Fault};
use crate::instructions::decode::{DecodedInstruction, DecodedInstructionView};
use crate::machine::{Machine, MachineView};
use crate::memory::{load_boot_rom, load_game_rom, spec_load_boot_rom};
use crate::message::Message;
use crate::ppu::PixelPipeline;

verus! {

#[derive(Clone, Copy, Debug, PartialEq, Eq, Structural)]
pub enum MapperType {
    ROMOnly,
    MBC1,
    Other,
}

#[derive(Clone, Copy, Debug, PartialEq, Eq, Structural)]
pub enum RAMSize {
    NoRAM,
    Ram2kb,
    Ram8kb,
    Ram4banks8kb,
    Ram16banks8kb,
    Ram8banks8kb,
}

#[derive(Clone, Copy, Debug, PartialEq, Eq, Structural)]
pub struct ROMInformation {
    pub mapper_type: MapperType,
    pub ram_size: RAMSize,
    pub rom_banks: u8,
}

/// Offset of the mapper byte in a cartridge image.
pub const HEADER_MAPPER_OFFSET: usize = 0x147;

/// Offset of the ROM size byte in a cartridge image.
pub const HEADER_ROM_SIZE_OFFSET: usize = 0x148;

/// Offset of the RAM size byte in a cartridge image.
pub const HEADER_RAM_SIZE_OFFSET: usize = 0x149;

/// The bank controller that a mapper byte stands for.
pub open spec fn spec_mapper_type(byte: u8) -> MapperType {
    if byte == 0 {
        MapperType::ROMOnly
    } else if byte <= 3 {
        MapperType::MBC1
    } else {
        MapperType::Other
    }
}

/// The number of ROM banks that a ROM size byte stands for.
pub open spec fn spec_rom_banks(byte: u8) -> Option<u8> {
    if byte == 0 {
        Some(0u8)
    } else if byte == 1 {
        Some(4u8)
    } else if byte == 2 {
        Some(8u8)
    } else if byte == 3 {
        Some(16u8)
    } else if byte == 4 {
        Some(32u8)
    } else {
        None
    }
}

/// The external RAM that a RAM size byte stands for.
pub open spec fn spec_ram_size(byte: u8) -> Option<RAMSize> {
    if byte == 0 {
        Some(RAMSize::NoRAM)
    } else if byte == 1 {
        Some(RAMSize::Ram2kb)
    } else if byte == 2 {
        Some(RAMSize::Ram8kb)
    } else if byte == 3 {
        Some(RAMSize::Ram4banks8kb)
    } else if byte == 4 {
        Some(RAMSize::Ram16banks8kb)
    } else if byte == 5 {
        Some(RAMSize::Ram8banks8kb)
    } else {
        None
    }
}

/// What the header of a cartridge image says, or why it cannot be read.
pub open spec fn spec_rom_information(bytes: Seq<u8>) -> Result<ROMInformation, ConfigError> {
    if bytes.len() <= HEADER_RAM_SIZE_OFFSET {
        Err(ConfigError::HeaderTooShort)
    } else {
        match spec_rom_banks(bytes[HEADER_ROM_SIZE_OFFSET as int]) {
            None => Err(
                ConfigError::UnhandledRomSize { byte: bytes[HEADER_ROM_SIZE_OFFSET as int] },
            ),
            Some(rom_banks) => match spec_ram_size(bytes[HEADER_RAM_SIZE_OFFSET as int]) {
                None => Err(
                    ConfigError::UnhandledRamSize { byte: bytes[HEADER_RAM_SIZE_OFFSET as int] },
                ),
                Some(ram_size) => Ok(
                    ROMInformation {
                        mapper_type: spec_mapper_type(bytes[HEADER_MAPPER_OFFSET as int]),
                        ram_size,
                        rom_banks,
                    },
                ),
            },
        }
    }
}

impl ROMInformation {
    pub open spec fn spec_new() -> ROMInformation {
        ROMInformation { mapper_type: MapperType::ROMOnly, ram_size: RAMSize::NoRAM, rom_banks: 0 }
    }

    /// A cartridge without bank controller and without external RAM.
    pub fn new() -> (information: Self)
        ensures
            information == Self::spec_new(),
    {
        ROMInformation { mapper_type: MapperType::ROMOnly, ram_size: RAMSize::NoRAM, rom_banks: 0 }
    }

    /// Reads the mapper, ROM size and RAM size bytes of a cartridge image.
    pub fn from_header(bytes: &Vec<u8>) -> (information: Result<Self, ConfigError>)
        ensures
            information == spec_rom_information(bytes@),
    {
        if bytes.len() <= HEADER_RAM_SIZE_OFFSET {
            return Err(ConfigError::HeaderTooShort);
        }
        let mapper_byte = bytes[HEADER_MAPPER_OFFSET];
        let mapper_type = if mapper_byte == 0 {
            MapperType::ROMOnly
        } else if mapper_byte <= 3 {
            MapperType::MBC1
        } else {
            MapperType::Other
        };
        let rom_byte = bytes[HEADER_ROM_SIZE_OFFSET];
        let rom_banks: u8 = if rom_byte == 0 {
            0
        } else if rom_byte == 1 {
            4
        } else if rom_byte == 2 {
            8
        } else if rom_byte == 3 {
            16
        } else if rom_byte == 4 {
            32
        } else {
            return Err(ConfigError::UnhandledRomSize { byte: rom_byte });
        };
        let ram_byte = bytes[HEADER_RAM_SIZE_OFFSET];
        let ram_size = if ram_byte == 0 {
            RAMSize::NoRAM
        } else if ram_byte == 1 {
            RAMSize::Ram2kb
        } else if ram_byte == 2 {
            RAMSize::Ram8kb
        } else if ram_byte == 3 {
            RAMSize::Ram4banks8kb
        } else if ram_byte == 4 {
            RAMSize::Ram16banks8kb
        } else if ram_byte == 5 {
            RAMSize::Ram8banks8kb
        } else {
            return Err(ConfigError::UnhandledRamSize { byte: ram_byte });
        };
        Ok(ROMInformation { mapper_type, ram_size, rom_banks })
    }
}


/// What one step of a machine did.
pub struct MachineStep {
    pub t_cycles: u128,
    /// The instruction carried out, unless the CPU was halted or the step
    /// served an interrupt.
    pub instruction_executed: Option<DecodedInstruction>,
}

/// What it took to carry out one instruction.
pub struct InstructionStep {
    pub t_cycles: u128,
    pub instruction_executed: DecodedInstruction,
}

impl MachineView {
    /// The pixel pipeline's share of the machine.
    pub open spec fn spec_pipeline(self) -> PixelPipeline {
        PixelPipeline {
            ppu: self.ppu,
            bgw_fetcher: self.background_window_fetcher,
            obj_fetcher: self.object_fetcher,
            pixel_fetcher: self.pixel_fetcher,
            interrupts: self.interrupts,
        }
    }

    /// The machine with the pixel pipeline's share replaced.
    pub open spec fn spec_with_pipeline(self, pipeline: PixelPipeline) -> MachineView {
        MachineView {
            ppu: pipeline.ppu,
            background_window_fetcher: pipeline.bgw_fetcher,
            object_fetcher: pipeline.obj_fetcher,
            pixel_fetcher: pipeline.pixel_fetcher,
            interrupts: pipeline.interrupts,
            ..self
        }
    }

    /// The machine after the clock has run for the t-cycles of a step: the
    /// timers first, then the pixel pipeline, both for the same number of
    /// dots, and the count of cycles goes up by that number.
    #[verifier::opaque]
    pub open spec fn spec_advance_clock(self, t_cycles: u8) -> Result<MachineView, Fault> {
        let timed = MachineView {
            timers: self.timers.spec_ticks(t_cycles),
            interrupts: self.timers.spec_run_interrupts(self.interrupts, t_cycles as nat),
            ..self
        };
        match timed.spec_pipeline().spec_ticks(t_cycles as nat) {
            Err(fault) => Err(fault),
            Ok(pipeline) => Ok(
                MachineView {
                    t_cycle_count: timed.t_cycle_count.saturating_add(t_cycles as u64),
                    ..timed.spec_with_pipeline(pipeline)
                },
            ),
        }
    }

    /// The machine after one step, the instruction it carried out, if any,
    /// and its cost in t-cycles; or the fault that stops the machine.
    ///
    /// A pending interrupt is served first, and then the step is over. Else
    /// the CPU carries out one instruction, or idles if it is halted. Either
    /// way the clock then runs for what that cost.
    pub open spec fn spec_step(self) -> Result<
        (MachineView, Option<DecodedInstructionView>, u8),
        Fault,
    > {
        match self.spec_handle_interrupts() {
            Err(fault) => Err(fault),
            Ok(served) => if served.1.0 != 0 {
                match served.0.spec_advance_clock(served.1.0) {
                    Err(fault) => Err(fault),
                    Ok(after) => Ok((after, None, served.1.0)),
                }
            } else {
                match served.0.spec_execute_one_instruction() {
                    Err(fault) => Err(fault),
                    Ok(executed) => match executed.0.spec_advance_clock(executed.2.0) {
                        Err(fault) => Err(fault),
                        Ok(after) => Ok((after, executed.1, executed.2.0)),
                    },
                }
            },
        }
    }
}

impl Machine {
    /// Runs the timers and the pixel pipeline for the cost of a step.
    fn advance_clock(&mut self, t_cycles: u8) -> (advanced: Result<(), Fault>)
        requires
            old(self)@.wf(),
        ensures
            match old(self)@.spec_advance_clock(t_cycles) {
                Ok(after) => advanced is Ok && final(self)@ == after,
                Err(fault) => advanced == Err::<(), Fault>(fault),
            },
            advanced is Ok ==> final(self)@.wf(),
    {
        reveal(MachineView::spec_advance_clock);
        self.timers.ticks(&mut self.interrupts, t_cycles);
        self.ppu.ticks(
            &mut self.background_window_fetcher,
            &mut self.interrupts,
            &mut self.object_fetcher,
            &mut self.pixel_fetcher,
            t_cycles,
        )?;
        self.t_cycle_count = self.t_cycle_count.saturating_add(t_cycles as u64);
        Ok(())
    }

    /// Advances the machine by one step: a pending interrupt is served, or
    /// else one instruction is carried out; then the timers and the pixel
    /// pipeline advance by the cost of that.
    pub fn step(&mut self) -> (step: Result<MachineStep, Fault>)
        requires
            old(self)@.wf(),
        ensures
            match old(self)@.spec_step() {
                Ok(after) => {
                    &&& step is Ok
                    &&& final(self)@ == after.0
                    &&& step->Ok_0.t_cycles == after.2
                    &&& match after.1 {
                        Some(decoded) => step->Ok_0.instruction_executed is Some
                            && step->Ok_0.instruction_executed->Some_0@ == decoded,
                        None => step->Ok_0.instruction_executed is None,
                    }
                },
                Err(fault) => step is Err && step->Err_0 == fault,
            },
            step is Ok ==> final(self)@.wf(),
            step is Ok ==> 4 <= step->Ok_0.t_cycles <= 44,
    {
        let mut instruction_executed: Option<DecodedInstruction> = None;
        let served = Interrupts::handle_interrupts(self)?;
        let mut t_cycles = served.0;
        if t_cycles == 0 {
            let executed = CPU::execute_one_instruction(self)?;
            instruction_executed = executed.0;
            t_cycles = executed.1.0;
        }
        self.advance_clock(t_cycles)?;
        Ok(MachineStep { t_cycles: t_cycles as u128, instruction_executed })
    }
}

/// Advances a machine by one step.
pub fn step_machine(machine: &mut Machine) -> (step: Result<MachineStep, Fault>)
    requires
        old(machine)@.wf(),
    ensures
        match old(machine)@.spec_step() {
            Ok(after) => {
                &&& step is Ok
                &&& final(machine)@ == after.0
                &&& step->Ok_0.t_cycles == after.2
                &&& match after.1 {
                    Some(decoded) => step->Ok_0.instruction_executed is Some
                        && step->Ok_0.instruction_executed->Some_0@ == decoded,
                    None => step->Ok_0.instruction_executed is None,
                }
            },
            Err(fault) => step is Err && step->Err_0 == fault,
        },
        step is Ok ==> final(machine)@.wf(),
        step is Ok ==> 4 <= step->Ok_0.t_cycles <= 44,
{
    machine.step()
}


/// The number of snapshots that a history keeps.
pub const CPU_SNAPS_CAPACITY: usize = 5;

/// The t-cycles of one frame of the screen.
pub const FRAME_T_CYCLES: u32 = 69_905;

/// Whether an instruction is carried out on a copy of the current machine,
/// which then joins the history, or on the current machine itself.
#[derive(Clone, Copy, Debug, PartialEq, Eq, Structural)]
pub enum PreserveHistory {
    DontPreserveHistory,
    PreserveHistory,
}

/// What the driver is to do once a message has been handled.
#[derive(Clone, Copy, Debug, PartialEq, Eq, Structural)]
pub enum Action {
    /// Wait for the next message.
    Wait,
    /// Flush the log and leave.
    Exit,
    /// Send `ContinueRunUntilBreakpoint` at once.
    Continue,
    /// Show the frame, wait out what is left of its time, and send
    /// `ContinueRunUntilBreakpoint`.
    PresentFrameAndContinue,
}

/// What handling a message gave: the next thing to do, and the lines to add
/// to the trace log.
pub struct Update {
    pub action: Action,
    pub log: Vec<String>,
}

#[verifier::external_type_specification]
#[verifier::external_body]
#[verifier::reject_recursive_types(T)]
pub struct ExCircularQueue<T>(CircularQueue<T>);

/// The machines that a history holds, the newest first.
pub uninterp spec fn spec_snapshots(history: CircularQueue<Machine>) -> Seq<MachineView>;

/// The number of machines that a history was made to hold.
pub uninterp spec fn spec_capacity(history: CircularQueue<Machine>) -> nat;

/// What a history holds after a machine is pushed: the machine comes first,
/// and once the history is full the oldest machine leaves.
pub open spec fn spec_pushed(snapshots: Seq<MachineView>, capacity: nat, machine: MachineView) -> Seq<
    MachineView,
> {
    if capacity == 0 {
        snapshots
    } else if snapshots.len() < capacity {
        seq![machine] + snapshots
    } else {
        seq![machine] + snapshots.drop_last()
    }
}

/// `CircularQueue::with_capacity`: a history that holds nothing yet and will
/// hold at most `capacity` machines.
#[verifier::external_body]
fn history_with_capacity(capacity: usize) -> (history: CircularQueue<Machine>)
    ensures
        spec_snapshots(history) == Seq::<MachineView>::empty(),
        spec_capacity(history) == capacity,
{
    CircularQueue::with_capacity(capacity)
}

/// `CircularQueue::push`: the machine becomes the newest of the history; if
/// the history was full, the oldest machine is overwritten. The limit of the
/// history stays.
#[verifier::external_body]
fn history_push(history: &mut CircularQueue<Machine>, machine: Machine)
    ensures
        spec_snapshots(*final(history)) == spec_pushed(
            spec_snapshots(*old(history)),
            spec_capacity(*old(history)),
            machine@,
        ),
        spec_capacity(*final(history)) == spec_capacity(*old(history)),
{
    history.push(machine);
}

/// `CircularQueue::iter`, first item: the newest machine of the history.
#[verifier::external_body]
fn history_newest(history: &CircularQueue<Machine>) -> (newest: &Machine)
    requires
        spec_snapshots(*history).len() > 0,
    ensures
        newest@ == spec_snapshots(*history)[0],
{
    history.iter().next().unwrap()
}

/// `CircularQueue::iter_mut`, first item: the newest machine of the history,
/// to be changed in place. Nothing else in the history changes.
#[verifier::external_body]
fn history_newest_mut(history: &mut CircularQueue<Machine>) -> (newest: &mut Machine)
    requires
        spec_snapshots(*old(history)).len() > 0,
    ensures
        newest@ == spec_snapshots(*old(history))[0],
        spec_snapshots(*final(history)) == spec_snapshots(*old(history)).update(
            0,
            final(newest)@,
        ),
        spec_capacity(*final(history)) == spec_capacity(*old(history)),
{
    history.iter_mut().next().unwrap()
}

/// A debugging session: a machine with a few of its earlier states, the
/// addresses to stop at, and whether the run is paused.
pub struct ApplicationState {
    pub breakpoints: Vec<u16>,
    pub log_for_doctor: bool,
    pub paused: bool,
    pub snaps: CircularQueue<Machine>,
}

pub ghost struct ApplicationStateView {
    pub breakpoints: Seq<u16>,
    pub log_for_doctor: bool,
    pub paused: bool,
    /// The current machine first, then its earlier states, newest first.
    pub snaps: Seq<MachineView>,
    pub capacity: nat,
}

impl View for ApplicationState {
    type V = ApplicationStateView;

    open spec fn view(&self) -> ApplicationStateView {
        ApplicationStateView {
            breakpoints: self.breakpoints@,
            log_for_doctor: self.log_for_doctor,
            paused: self.paused,
            snaps: spec_snapshots(self.snaps),
            capacity: spec_capacity(self.snaps),
        }
    }
}

/// An outcome of running a machine, with more t-cycles counted.
pub open spec fn spec_with_more_cycles(
    outcome: Result<(MachineView, Option<DecodedInstructionView>, nat), Fault>,
    t_cycles: nat,
) -> Result<(MachineView, Option<DecodedInstructionView>, nat), Fault> {
    match outcome {
        Ok(ran) => Ok((ran.0, ran.1, ran.2 + t_cycles)),
        Err(fault) => Err(fault),
    }
}

/// The most steps that the t-cycles left of a frame have room for, and one
/// more, so that a run always takes a step.
pub open spec fn spec_step_budget(remaining: u32) -> nat {
    (remaining / 4 + 1) as nat
}

impl MachineView {
    /// The line that goes to the trace log before an instruction: none
    /// unless logging is on, the boot ROM has handed over and the CPU is awake.
    pub open spec fn spec_log_line(self, log_for_doctor: bool) -> Result<Option<Seq<char>>, Fault> {
        if log_for_doctor && !self.spec_is_dmg_boot_rom_on() && !self.cpu.low_power_mode {
            match self.spec_gbdoctor_string() {
                Ok(line) => Ok(Some(line)),
                Err(fault) => Err(fault),
            }
        } else {
            Ok(None)
        }
    }

    /// The machine after as many steps as it takes to carry out one
    /// instruction, but no more than `steps`, with that instruction, if it
    /// came to one, and the t-cycles spent.
    pub open spec fn spec_run_to_instruction(self, steps: nat) -> Result<
        (MachineView, Option<DecodedInstructionView>, nat),
        Fault,
    >
        decreases steps,
    {
        if steps == 0 {
            Ok((self, None, 0nat))
        } else {
            match self.spec_step() {
                Err(fault) => Err(fault),
                Ok(stepped) => if stepped.1 is Some {
                    Ok((stepped.0, stepped.1, stepped.2 as nat))
                } else {
                    spec_with_more_cycles(
                        stepped.0.spec_run_to_instruction((steps - 1) as nat),
                        stepped.2 as nat,
                    )
                },
            }
        }
    }

    /// The machine at the end of a run, the t-cycles of the frame that are
    /// left, and the lines logged. The run goes on, instruction by
    /// instruction, until the frame's t-cycles are spent, or the run is
    /// paused, or the program counter is at a breakpoint.
    pub open spec fn spec_run_frame(
        self,
        breakpoints: Seq<u16>,
        paused: bool,
        log_for_doctor: bool,
        remaining: u32,
    ) -> Result<(MachineView, u32, Seq<Seq<char>>), Fault>
        decreases remaining,
    {
        if remaining == 0 || paused || breakpoints.contains(self.cpu.registers.pc) {
            Ok((self, remaining, Seq::empty()))
        } else {
            match self.spec_log_line(log_for_doctor) {
                Err(fault) => Err(fault),
                Ok(line) => match self.spec_run_to_instruction(spec_step_budget(remaining)) {
                    Err(fault) => Err(fault),
                    Ok(ran) => {
                        let lines = match line {
                            Some(line) => seq![line],
                            None => Seq::empty(),
                        };
                        if ran.2 == 0 {
                            Ok((ran.0, remaining, lines))
                        } else if ran.2 >= remaining {
                            Ok((ran.0, 0u32, lines))
                        } else {
                            match ran.0.spec_run_frame(
                                breakpoints,
                                paused,
                                log_for_doctor,
                                (remaining - ran.2) as u32,
                            ) {
                                Err(fault) => Err(fault),
                                Ok(rest) => Ok((rest.0, rest.1, lines + rest.2)),
                            }
                        }
                    },
                },
            }
        }
    }

    /// The machine with the tile palette and the first tile map rendered, or
    /// the fault of a map that names a tile that cannot be shown.
    pub open spec fn spec_rendered(self) -> Result<MachineView, Fault> {
        match self.ppu.spec_render() {
            Ok(ppu) => Ok(MachineView { ppu, ..self }),
            Err(fault) => Err(fault),
        }
    }
}

/// The texts of a list of lines.
pub open spec fn spec_line_texts(lines: Seq<String>) -> Seq<Seq<char>> {
    Seq::new(lines.len(), |i: int| lines[i]@)
}

/// Runs a machine until it has carried out one instruction, for `budget`
/// steps at most, and returns that instruction, if it came to one, and the
/// t-cycles spent. A halted machine may take many steps to get to one.
pub fn run_to_instruction(machine: &mut Machine, budget: u32) -> (ran: Result<
    (Option<DecodedInstruction>, u128),
    Fault,
>)
    requires
        old(machine)@.wf(),
    ensures
        match old(machine)@.spec_run_to_instruction(budget as nat) {
            Ok(after) => {
                &&& ran is Ok
                &&& final(machine)@ == after.0
                &&& ran->Ok_0.1 == after.2
                &&& match after.1 {
                    Some(decoded) => ran->Ok_0.0 is Some && ran->Ok_0.0->Some_0@ == decoded,
                    None => ran->Ok_0.0 is None,
                }
            },
            Err(fault) => ran is Err && ran->Err_0 == fault,
        },
        ran is Ok ==> final(machine)@.wf(),
        ran is Ok ==> ran->Ok_0.1 <= 44 * budget,
        ran is Ok && budget > 0 ==> ran->Ok_0.1 >= 4,
{
    let mut total_t_cycles: u128 = 0;
    let mut remaining = budget;
    while remaining > 0
        invariant
            remaining <= budget,
            machine@.wf(),
            total_t_cycles <= 44 * (budget - remaining),
            remaining < budget ==> total_t_cycles >= 4,
            old(machine)@.spec_run_to_instruction(budget as nat) == spec_with_more_cycles(
                machine@.spec_run_to_instruction(remaining as nat),
                total_t_cycles as nat,
            ),
        decreases remaining,
    {
        let step = machine.step()?;
        total_t_cycles = total_t_cycles + step.t_cycles;
        match step.instruction_executed {
            Some(decoded_instruction) => {
                return Ok((Some(decoded_instruction), total_t_cycles));
            },
            None => {},
        }
        remaining = remaining - 1;
    }
    Ok((None, total_t_cycles))
}

/// Whether an address is among the breakpoints.
pub fn is_breakpoint(breakpoints: &Vec<u16>, address: u16) -> (found: bool)
    ensures
        found == breakpoints@.contains(address),
{
    let mut i: usize = 0;
    while i < breakpoints.len()
        invariant
            i <= breakpoints@.len(),
            forall|k: int| 0 <= k < i ==> breakpoints@[k] != address,
        decreases breakpoints@.len() - i,
    {
        if breakpoints[i] == address {
            return true;
        }
        i = i + 1;
    }
    false
}

/// The line for the trace log before the next instruction of a machine, if
/// one is due.
pub fn log_line(machine: &Machine, log_for_doctor: bool) -> (line: Result<Option<String>, Fault>)
    ensures
        match machine@.spec_log_line(log_for_doctor) {
            Ok(Some(text)) => line is Ok && line->Ok_0 is Some && line->Ok_0->Some_0@ == text,
            Ok(None) => line is Ok && line->Ok_0 is None,
            Err(fault) => line is Err && line->Err_0 == fault,
        },
{
    if log_for_doctor && !machine.is_dmg_boot_rom_on() && !machine.cpu.low_power_mode {
        let string = CPU::gbdoctor_string(machine)?;
        Ok(Some(string))
    } else {
        Ok(None)
    }
}

/// Runs a machine until the t-cycles of a frame are spent, the run is
/// paused, or the program counter is at a breakpoint, whichever comes first.
/// Returns the t-cycles of the frame that are left; the lines for the trace
/// log are added to `log`.
pub fn run_frame(
    machine: &mut Machine,
    breakpoints: &Vec<u16>,
    paused: bool,
    log_for_doctor: bool,
    t_cycles: u32,
    log: &mut Vec<String>,
) -> (left: Result<u32, Fault>)
    requires
        old(machine)@.wf(),
    ensures
        match old(machine)@.spec_run_frame(breakpoints@, paused, log_for_doctor, t_cycles) {
            Ok(after) => {
                &&& left is Ok
                &&& final(machine)@ == after.0
                &&& left->Ok_0 == after.1
                &&& spec_line_texts(final(log)@) == spec_line_texts(old(log)@) + after.2
            },
            Err(fault) => left is Err && left->Err_0 == fault,
        },
        left is Ok ==> final(machine)@.wf(),
    decreases t_cycles,
{
    if t_cycles == 0 || paused || is_breakpoint(breakpoints, machine.cpu.registers.pc) {
        assert(spec_line_texts(log@) + Seq::<Seq<char>>::empty() =~= spec_line_texts(log@));
        return Ok(t_cycles);
    }
    let line = log_line(machine, log_for_doctor)?;
    let ghost before = spec_line_texts(log@);
    let ghost lines: Seq<Seq<char>> = if line is Some {
        seq![line->Some_0@]
    } else {
        Seq::empty()
    };
    match line {
        Some(text) => {
            log.push(text);
        },
        None => {},
    }
    assert(spec_line_texts(log@) =~= before + lines);
    let ran = run_to_instruction(machine, t_cycles / 4 + 1)?;
    let spent = ran.1;
    if spent == 0 {
        Ok(t_cycles)
    } else if spent >= t_cycles as u128 {
        Ok(0)
    } else {
        let ghost middle = spec_line_texts(log@);
        let left = run_frame(
            machine,
            breakpoints,
            paused,
            log_for_doctor,
            t_cycles - (spent as u32),
            log,
        )?;
        proof {
            let rest = spec_line_texts(log@).subrange(middle.len() as int, log@.len() as int);
            assert(spec_line_texts(log@) =~= before + (lines + rest)) by {
                assert(spec_line_texts(log@) =~= middle + rest);
            }
            assert(middle + rest =~= before + (lines + rest));
        }
        Ok(left)
    }
}

impl ApplicationStateView {
    /// A session has a current machine, in a state fit for stepping, and a
    /// history made to hold it.
    pub open spec fn wf(self) -> bool {
        &&& self.snaps.len() > 0
        &&& self.snaps.len() <= self.capacity
        &&& self.snaps[0].wf()
    }

    /// The session with its current machine replaced.
    pub open spec fn spec_with_current(self, machine: MachineView) -> ApplicationStateView {
        ApplicationStateView { snaps: self.snaps.update(0, machine), ..self }
    }

    /// The session with a machine pushed onto its history, which thereby
    /// becomes the current one.
    pub open spec fn spec_with_pushed(self, machine: MachineView) -> ApplicationStateView {
        ApplicationStateView { snaps: spec_pushed(self.snaps, self.capacity, machine), ..self }
    }

    /// The session after an instruction is carried out on the current
    /// machine, or, to preserve history, on a copy of it that becomes the
    /// current one.
    pub open spec fn spec_after_instruction(
        self,
        preserve: PreserveHistory,
        machine: MachineView,
    ) -> ApplicationStateView {
        match preserve {
            PreserveHistory::DontPreserveHistory => self.spec_with_current(machine),
            PreserveHistory::PreserveHistory => self.spec_with_pushed(machine),
        }
    }

    /// What a new session is made of: the boot ROM is accepted, the header
    /// of the cartridge read, a machine built from both, and the machine put
    /// into an empty history.
    pub open spec fn spec_new(
        boot_rom: Seq<u8>,
        game_rom: Seq<u8>,
        log_for_doctor: bool,
        breakpoints: Seq<u16>,
    ) -> Result<ApplicationStateView, ConfigError> {
        match spec_load_boot_rom(boot_rom) {
            Err(error) => Err(error),
            Ok(boot_rom) => match spec_rom_information(game_rom) {
                Err(error) => Err(error),
                Ok(rom_information) => match MachineView::spec_new(
                    boot_rom,
                    game_rom,
                    rom_information,
                    log_for_doctor,
                ) {
                    Err(error) => Err(error),
                    Ok(machine) => Ok(
                        ApplicationStateView {
                            breakpoints,
                            log_for_doctor,
                            paused: false,
                            snaps: seq![machine],
                            capacity: CPU_SNAPS_CAPACITY as nat,
                        },
                    ),
                },
            },
        }
    }

    /// The session after a message, and what the driver is to do next.
    pub open spec fn spec_update(self, message: Message) -> Result<
        (ApplicationStateView, Action, Seq<Seq<char>>),
        Fault,
    > {
        let current = self.snaps[0];
        match message {
            Message::Pause => Ok(
                (ApplicationStateView { paused: true, ..self }, Action::Wait, Seq::empty()),
            ),
            Message::Quit => Ok((self, Action::Exit, Seq::empty())),
            Message::RunNextInstruction => match current.spec_log_line(self.log_for_doctor) {
                Err(fault) => Err(fault),
                Ok(line) => match current.spec_run_to_instruction(
                    spec_step_budget(FRAME_T_CYCLES),
                ) {
                    Err(fault) => Err(fault),
                    Ok(ran) => match ran.0.spec_rendered() {
                        Err(fault) => Err(fault),
                        Ok(rendered) => Ok(
                            (
                                self.spec_with_pushed(rendered),
                                Action::Wait,
                                match line {
                                    Some(line) => seq![line],
                                    None => Seq::empty(),
                                },
                            ),
                        ),
                    },
                },
            },
            Message::BeginRunUntilBreakpoint => match current.spec_log_line(self.log_for_doctor) {
                Err(fault) => Err(fault),
                Ok(line) => match current.spec_run_to_instruction(
                    spec_step_budget(FRAME_T_CYCLES),
                ) {
                    Err(fault) => Err(fault),
                    Ok(ran) => Ok(
                        (
                            (ApplicationStateView { paused: false, ..self }).spec_with_current(
                                ran.0,
                            ),
                            Action::Continue,
                            match line {
                                Some(line) => seq![line],
                                None => Seq::empty(),
                            },
                        ),
                    ),
                },
            },
            Message::ContinueRunUntilBreakpoint => match current.spec_run_frame(
                self.breakpoints,
                self.paused,
                self.log_for_doctor,
                FRAME_T_CYCLES,
            ) {
                Err(fault) => Err(fault),
                Ok(ran) => if ran.1 == 0 {
                    match ran.0.spec_rendered() {
                        Err(fault) => Err(fault),
                        Ok(rendered) => Ok(
                            (
                                self.spec_with_current(rendered),
                                Action::PresentFrameAndContinue,
                                ran.2,
                            ),
                        ),
                    }
                } else {
                    Ok((self.spec_with_current(ran.0), Action::Wait, ran.2))
                },
            },
        }
    }
}

impl ApplicationState {
    /// Starts a session from the bytes of a boot ROM and of a cartridge.
    pub fn new(
        boot_rom: Vec<u8>,
        game_rom: Vec<u8>,
        log_for_doctor: bool,
        breakpoints: Vec<u16>,
    ) -> (state: Result<Self, ConfigError>)
        ensures
            match ApplicationStateView::spec_new(
                boot_rom@,
                game_rom@,
                log_for_doctor,
                breakpoints@,
            ) {
                Ok(view) => state is Ok && state->Ok_0@ == view && view.wf(),
                Err(error) => state is Err && state->Err_0 == error,
            },
    {
        let mut queue = history_with_capacity(CPU_SNAPS_CAPACITY);
        let boot_rom = load_boot_rom(boot_rom)?;
        let loaded = load_game_rom(game_rom)?;
        let machine = Machine::new(boot_rom, loaded.0, loaded.1, log_for_doctor)?;
        let ghost first = machine@;
        history_push(&mut queue, machine);
        assert(spec_snapshots(queue) =~= seq![first]);
        Ok(ApplicationState { breakpoints, log_for_doctor, paused: false, snaps: queue })
    }

    /// The machine that the session is at, to change it.
    pub fn current_machine(&mut self) -> (machine: &mut Machine)
        requires
            old(self)@.snaps.len() > 0,
        ensures
            machine@ == old(self)@.snaps[0],
            final(self)@ == old(self)@.spec_with_current(final(machine)@),
    {
        history_newest_mut(&mut self.snaps)
    }

    /// The machine that the session is at.
    pub fn current_machine_immut(&self) -> (machine: &Machine)
        requires
            self@.snaps.len() > 0,
        ensures
            machine@ == self@.snaps[0],
    {
        history_newest(&self.snaps)
    }

    /// The mark shown beside an address in a listing: "@" at a breakpoint.
    pub fn display_breakpoint(&self, address: u16) -> (mark: String)
        ensures
            mark@ == if self@.breakpoints.contains(address) {
                "@"@
            } else {
                ""@
            },
    {
        if is_breakpoint(&self.breakpoints, address) {
            String::from_str("@")
        } else {
            String::from_str("")
        }
    }

    /// Steps the current machine until an instruction has been carried out,
    /// for `budget` steps at most. To preserve history, the steps are taken
    /// on a copy, which then joins the history as the current machine.
    pub fn execute_one_instruction(&mut self, preserve: PreserveHistory, budget: u32) -> (step: Result<
        (Option<String>, Option<InstructionStep>),
        Fault,
    >)
        requires
            old(self)@.wf(),
        ensures
            match old(self)@.snaps[0].spec_log_line(old(self)@.log_for_doctor) {
                Err(fault) => step is Err && step->Err_0 == fault,
                Ok(line) => match old(self)@.snaps[0].spec_run_to_instruction(budget as nat) {
                    Err(fault) => step is Err && step->Err_0 == fault,
                    Ok(ran) => {
                        &&& step is Ok
                        &&& final(self)@ == old(self)@.spec_after_instruction(preserve, ran.0)
                        &&& match line {
                            Some(text) => step->Ok_0.0 is Some && step->Ok_0.0->Some_0@ == text,
                            None => step->Ok_0.0 is None,
                        }
                        &&& match ran.1 {
                            Some(decoded) => step->Ok_0.1 is Some
                                && step->Ok_0.1->Some_0.instruction_executed@ == decoded
                                && step->Ok_0.1->Some_0.t_cycles == ran.2,
                            None => step->Ok_0.1 is None,
                        }
                    },
                },
            },
            step is Ok ==> final(self)@.wf(),
    {
        let line = log_line(history_newest(&self.snaps), self.log_for_doctor)?;
        let ran = match preserve {
            PreserveHistory::DontPreserveHistory => {
                let machine = history_newest_mut(&mut self.snaps);
                run_to_instruction(machine, budget)?
            },
            PreserveHistory::PreserveHistory => {
                let mut next_machine = history_newest(&self.snaps).clone();
                let ran = run_to_instruction(&mut next_machine, budget)?;
                history_push(&mut self.snaps, next_machine);
                ran
            },
        };
        let step = match ran.0 {
            Some(instruction_executed) => Some(
                InstructionStep { t_cycles: ran.1, instruction_executed },
            ),
            None => None,
        };
        Ok((line, step))
    }

    /// Carries out one instruction and keeps the machine as it was before in
    /// the history; then the debug surfaces are rendered.
    fn run_next_instruction(&mut self) -> (update: Result<Update, Fault>)
        requires
            old(self)@.wf(),
        ensures
            match old(self)@.spec_update(Message::RunNextInstruction) {
                Ok(after) => {
                    &&& update is Ok
                    &&& final(self)@ == after.0
                    &&& update->Ok_0.action == after.1
                    &&& spec_line_texts(update->Ok_0.log@) == after.2
                },
                Err(fault) => update is Err && update->Err_0 == fault,
            },
            update is Ok ==> final(self)@.wf(),
    {
        let step = self.execute_one_instruction(
            PreserveHistory::PreserveHistory,
            FRAME_T_CYCLES / 4 + 1,
        )?;
        let log = one_line(step.0);
        let ghost stepped = self@;
        let machine = history_newest_mut(&mut self.snaps);
        machine.ppu.render()?;
        proof {
            let ran = old(self)@.snaps[0].spec_run_to_instruction(
                spec_step_budget(FRAME_T_CYCLES),
            )->Ok_0;
            assert(stepped == old(self)@.spec_with_pushed(ran.0));
            assert(self@.snaps =~= old(self)@.spec_with_pushed(ran.0.spec_rendered()->Ok_0).snaps);
        }
        Ok(Update { action: Action::Wait, log })
    }

    /// Starts a run: the pause is lifted, and one instruction is carried out
    /// at once, so that a run that starts at a breakpoint leaves it.
    fn begin_run_until_breakpoint(&mut self) -> (update: Result<Update, Fault>)
        requires
            old(self)@.wf(),
        ensures
            match old(self)@.spec_update(Message::BeginRunUntilBreakpoint) {
                Ok(after) => {
                    &&& update is Ok
                    &&& final(self)@ == after.0
                    &&& update->Ok_0.action == after.1
                    &&& spec_line_texts(update->Ok_0.log@) == after.2
                },
                Err(fault) => update is Err && update->Err_0 == fault,
            },
            update is Ok ==> final(self)@.wf(),
    {
        self.paused = false;
        let step = self.execute_one_instruction(
            PreserveHistory::DontPreserveHistory,
            FRAME_T_CYCLES / 4 + 1,
        )?;
        Ok(Update { action: Action::Continue, log: one_line(step.0) })
    }

    /// Goes on with a run for one frame at most. A frame that is complete is
    /// rendered, to be shown at its proper time; a run that stopped at a
    /// breakpoint or a pause waits.
    fn continue_run_until_breakpoint(&mut self) -> (update: Result<Update, Fault>)
        requires
            old(self)@.wf(),
        ensures
            match old(self)@.spec_update(Message::ContinueRunUntilBreakpoint) {
                Ok(after) => {
                    &&& update is Ok
                    &&& final(self)@ == after.0
                    &&& update->Ok_0.action == after.1
                    &&& spec_line_texts(update->Ok_0.log@) == after.2
                },
                Err(fault) => update is Err && update->Err_0 == fault,
            },
            update is Ok ==> final(self)@.wf(),
    {
        let mut log: Vec<String> = Vec::new();
        assert(spec_line_texts(log@) =~= Seq::empty());
        let machine = history_newest_mut(&mut self.snaps);
        let left = run_frame(
            machine,
            &self.breakpoints,
            self.paused,
            self.log_for_doctor,
            FRAME_T_CYCLES,
            &mut log,
        )?;
        if left == 0 {
            machine.ppu.render()?;
            Ok(Update { action: Action::PresentFrameAndContinue, log })
        } else {
            Ok(Update { action: Action::Wait, log })
        }
    }

    /// Handles a message of the driver.
    pub fn update(&mut self, message: Message) -> (update: Result<Update, Fault>)
        requires
            old(self)@.wf(),
        ensures
            match old(self)@.spec_update(message) {
                Ok(after) => {
                    &&& update is Ok
                    &&& final(self)@ == after.0
                    &&& update->Ok_0.action == after.1
                    &&& spec_line_texts(update->Ok_0.log@) == after.2
                },
                Err(fault) => update is Err && update->Err_0 == fault,
            },
            update is Ok ==> final(self)@.wf(),
    {
        match message {
            Message::Pause => {
                self.paused = true;
                Ok(Update { action: Action::Wait, log: one_line(None) })
            },
            Message::Quit => Ok(Update { action: Action::Exit, log: one_line(None) }),
            Message::RunNextInstruction => self.run_next_instruction(),
            Message::BeginRunUntilBreakpoint => self.begin_run_until_breakpoint(),
            Message::ContinueRunUntilBreakpoint => self.continue_run_until_breakpoint(),
        }
    }
}

/// The lines for the trace log that one instruction gives: its line, if it has
/// one.
fn one_line(line: Option<String>) -> (log: Vec<String>)
    ensures
        spec_line_texts(log@) == match line {
            Some(text) => seq![text@],
            None => Seq::<Seq<char>>::empty(),
        },
{
    let mut log: Vec<String> = Vec::new();
    let ghost texts: Seq<Seq<char>> = if line is Some {
        seq![line->Some_0@]
    } else {
        Seq::empty()
    };
    match line {
        Some(text) => {
            log.push(text);
        },
        None => {},
    }
    assert(spec_line_texts(log@) =~= texts);
    log
}

} // verus!
