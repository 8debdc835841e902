//! The machine: every component, and the address space that ties them
//! together.

use vstd::prelude::*;
use crate::application_state::{MapperType, RAMSize, ROMInformation};
use crate::cpu::interrupts::Interrupts;
use crate::cpu::timers::{Timers, DIVIDE_REGISTER_ADDRESS, TIMER_CONTROL_ADDRESS};
use crate::cpu::{CPU, CPUView};
use crate::fault::{ConfigError, Fault};
use crate::inputs::Inputs;
use crate::memory::BOOT_ROM_MAX_SIZE;
use crate::pixel_fetcher::background_or_window::{
    BackgroundOrWindowFetcher, BackgroundOrWindowFetcherView,
};
use crate::pixel_fetcher::object::{ObjectFetcher, ObjectFetcherView};
use crate::pixel_fetcher::Fetcher;
use crate::ppu::{PPU, PPUView};
use crate::text::{push_hex_u16_lower, push_hex_u8, spec_hex_u16_lower, spec_hex_u8};
use vstd::string::StringExecFns;

verus! {

/// What the two upper bank bits of an MBC1 select.
#[derive(Clone, Copy, Debug, PartialEq, Eq, Structural)]
pub enum BankingMode {
    Ram,
    Rom,
}

/// The first address of the I/O register block.
pub const IO_BASE: u16 = 0xFF00;

/// The number of addresses in the I/O register block.
pub const IO_SIZE: usize = 0x80;

/// Bytes in one switchable ROM bank.
pub const ROM_BANK_SIZE: usize = 0x4000;

/// Bytes moved by one OAM transfer.
pub const DMA_LENGTH: u16 = 0xA0;

/// The highest page an OAM transfer may start from.
pub const DMA_LAST_PAGE: u8 = 0xDF;

pub struct Machine {
    pub banking_mode: BankingMode,
    pub is_ram_enabled: bool,
    pub loram_bank: u8,
    pub ram_or_hiram_bank: u8,
    pub rom_information: ROMInformation,
    pub t_cycle_count: u64,
    pub background_window_fetcher: BackgroundOrWindowFetcher,
    pub cpu: CPU,
    pub inputs: Inputs,
    pub interrupts: Interrupts,
    pub object_fetcher: ObjectFetcher,
    pub pixel_fetcher: Fetcher,
    pub ppu: PPU,
    pub timers: Timers,
    /// Zero while the boot ROM is mapped below 0x100.
    pub dmg_boot_rom: u8,
    /// The registers of the I/O block that only store what is written to
    /// them, each at its address less 0xFF00: the audio registers and the wave
    /// pattern among them.
    pub io_registers: [u8; 0x80],
    pub sb: u8,
    pub sc: u8,
}

pub ghost struct MachineView {
    pub banking_mode: BankingMode,
    pub is_ram_enabled: bool,
    pub loram_bank: u8,
    pub ram_or_hiram_bank: u8,
    pub rom_information: ROMInformation,
    pub t_cycle_count: u64,
    pub background_window_fetcher: BackgroundOrWindowFetcherView,
    pub cpu: CPUView,
    pub inputs: Inputs,
    pub interrupts: Interrupts,
    pub object_fetcher: ObjectFetcherView,
    pub pixel_fetcher: Fetcher,
    pub ppu: PPUView,
    pub timers: Timers,
    pub dmg_boot_rom: u8,
    pub io_registers: Seq<u8>,
    pub sb: u8,
    pub sc: u8,
}

impl View for Machine {
    type V = MachineView;

    open spec fn view(&self) -> MachineView {
        MachineView {
            banking_mode: self.banking_mode,
            is_ram_enabled: self.is_ram_enabled,
            loram_bank: self.loram_bank,
            ram_or_hiram_bank: self.ram_or_hiram_bank,
            rom_information: self.rom_information,
            t_cycle_count: self.t_cycle_count,
            background_window_fetcher: self.background_window_fetcher@,
            cpu: self.cpu@,
            inputs: self.inputs,
            interrupts: self.interrupts,
            object_fetcher: self.object_fetcher@,
            pixel_fetcher: self.pixel_fetcher,
            ppu: self.ppu@,
            timers: self.timers,
            dmg_boot_rom: self.dmg_boot_rom,
            io_registers: self.io_registers@,
            sb: self.sb,
            sc: self.sc,
        }
    }
}

/// The byte of a store at `index`, or the fault of reading where the store has
/// no byte.
pub open spec fn spec_read_store(store: Seq<u8>, index: int, address: u16) -> Result<u8, Fault> {
    if 0 <= index < store.len() {
        Ok(store[index])
    } else {
        Err(Fault::UnmappedRead { address })
    }
}

/// The addresses of the I/O block whose registers only store what is written.
pub open spec fn spec_is_plain_register(address: u16) -> bool {
    ||| address == 0xFF03
    ||| 0xFF08 <= address <= 0xFF0E
    ||| 0xFF10 <= address <= 0xFF3F
    ||| address == 0xFF4D
    ||| address == 0xFF70
    ||| address == 0xFF72
    ||| address == 0xFF73
    ||| address == 0xFF75
}

pub fn is_plain_register(address: u16) -> (plain: bool)
    ensures
        plain == spec_is_plain_register(address),
{
    address == 0xFF03 || (0xFF08 <= address && address <= 0xFF0E) || (0xFF10 <= address && address
        <= 0xFF3F) || address == 0xFF4D || address == 0xFF70 || address == 0xFF72 || address
        == 0xFF73 || address == 0xFF75
}

impl MachineView {
    /// What holds of every machine between two steps.
    pub open spec fn wf(self) -> bool {
        &&& self.ppu.wf()
        &&& self.background_window_fetcher.wf()
        &&& self.object_fetcher.wf()
        &&& crate::ppu::spec_columns_agree(self.ppu, self.background_window_fetcher)
        &&& self.io_registers.len() == IO_SIZE
        &&& self.cpu.memory.hram.len() == crate::memory::HRAM_SIZE
    }

    /// A machine that has not run yet, for the ROMs given, or why there is
    /// none: the boot ROM is too large, or the cartridge needs a bank
    /// controller or an external RAM that is not supported.
    pub open spec fn spec_new(
        boot_rom: Seq<u8>,
        game_rom: Seq<u8>,
        rom_information: ROMInformation,
        fix_ly: bool,
    ) -> Result<MachineView, ConfigError> {
        if boot_rom.len() > BOOT_ROM_MAX_SIZE {
            Err(ConfigError::BootRomTooLarge)
        } else if rom_information.mapper_type == MapperType::Other {
            Err(ConfigError::UnsupportedMapper)
        } else {
            match CPUView::spec_new(boot_rom, game_rom, rom_information) {
                Err(error) => Err(error),
                Ok(cpu) => Ok(
                    MachineView {
                        banking_mode: BankingMode::Rom,
                        is_ram_enabled: false,
                        loram_bank: 1,
                        ram_or_hiram_bank: 0,
                        rom_information,
                        t_cycle_count: 0,
                        background_window_fetcher: BackgroundOrWindowFetcherView::spec_new(),
                        cpu,
                        inputs: Inputs::spec_new(),
                        interrupts: Interrupts::spec_new(),
                        object_fetcher: ObjectFetcherView::spec_new(),
                        pixel_fetcher: Fetcher::spec_new(),
                        ppu: PPUView::spec_new(fix_ly),
                        timers: Timers::spec_new(),
                        dmg_boot_rom: 0,
                        io_registers: Seq::new(IO_SIZE as nat, |i: int| 0u8),
                        sb: 0,
                        sc: 0,
                    },
                ),
            }
        }
    }

    pub open spec fn spec_is_dmg_boot_rom_on(self) -> bool {
        self.dmg_boot_rom == 0
    }

    /// The ROM bank that the window 0x4000 to 0x7FFF shows under an MBC1: the
    /// five low bits, and above them the two upper bits while they select ROM.
    pub open spec fn spec_rom_bank(self) -> u8 {
        if self.banking_mode == BankingMode::Rom {
            self.loram_bank | (self.ram_or_hiram_bank << 5u8)
        } else {
            self.loram_bank
        }
    }

    /// The offset into the cartridge ROM that an address of the window 0x4000
    /// to 0x7FFF resolves to; none for a bank controller that is not supported.
    pub open spec fn spec_switchable_rom_offset(self, address: u16) -> Option<int> {
        match self.rom_information.mapper_type {
            MapperType::ROMOnly => Some(address as int),
            MapperType::MBC1 => Some(self.spec_rom_bank() * ROM_BANK_SIZE + address - 0x4000),
            MapperType::Other => None,
        }
    }

    /// Whether the external RAM answers: always without bank controller, and
    /// under an MBC1 only while its enable latch is set.
    pub open spec fn spec_ram_accessible(self) -> bool {
        self.rom_information.mapper_type != MapperType::MBC1 || self.is_ram_enabled
    }

    /// The byte that a read of the address space gives, or the fault of
    /// reading where nothing is mapped. Reads change nothing.
    #[verifier::opaque]
    pub open spec fn spec_read_u8(self, address: u16) -> Result<u8, Fault> {
        if self.spec_is_dmg_boot_rom_on() && address <= 0xFF {
            spec_read_store(self.cpu.memory.boot_rom, address as int, address)
        } else if address <= 0x3FFF {
            spec_read_store(self.cpu.memory.game_rom, address as int, address)
        } else if address <= 0x7FFF {
            match self.spec_switchable_rom_offset(address) {
                Some(offset) => spec_read_store(self.cpu.memory.game_rom, offset, address),
                None => Err(Fault::UnmappedRead { address }),
            }
        } else if address <= 0x9FFF {
            Ok(self.ppu.vram[address - 0x8000])
        } else if address <= 0xBFFF {
            if self.spec_ram_accessible() {
                spec_read_store(self.cpu.memory.game_ram, address - 0xA000, address)
            } else {
                Ok(0xFFu8)
            }
        } else if address <= 0xCFFF {
            Ok(self.ppu.wram_0[address - 0xC000])
        } else if address <= 0xDFFF {
            Ok(self.ppu.wram_1[address - 0xD000])
        } else if address <= 0xEFFF {
            Ok(self.ppu.wram_0[address - 0xE000])
        } else if address <= 0xFDFF {
            Ok(self.ppu.wram_1[address - 0xF000])
        } else if address <= 0xFE9F {
            Ok(self.ppu.object_attribute_memory[address - 0xFE00])
        } else if address <= 0xFEFF {
            Ok(0xFFu8)
        } else if address == 0xFF00 {
            Ok(self.inputs.inputs_register)
        } else if address == 0xFF01 {
            Ok(self.sb)
        } else if address == 0xFF02 {
            Ok(self.sc)
        } else if DIVIDE_REGISTER_ADDRESS <= address <= TIMER_CONTROL_ADDRESS {
            Ok(self.timers.spec_read_u8(address))
        } else if address == 0xFF0F {
            Ok(self.interrupts.interrupt_flag)
        } else if spec_is_plain_register(address) {
            Ok(self.io_registers[address - IO_BASE])
        } else if address == 0xFF40 {
            Ok(self.ppu.lcd_control)
        } else if address == 0xFF41 {
            Ok(self.ppu.lcd_status)
        } else if address == 0xFF42 {
            Ok(self.ppu.scy)
        } else if address == 0xFF43 {
            Ok(self.ppu.scx)
        } else if address == 0xFF44 {
            Ok(self.ppu.spec_read_ly())
        } else if address == 0xFF45 {
            Ok(self.ppu.lcd_y_compare)
        } else if address == 0xFF46 {
            Ok(0xFFu8)
        } else if address == 0xFF47 {
            Ok(self.ppu.background_palette_data)
        } else if address == 0xFF48 {
            Ok(self.ppu.object_palette_0)
        } else if address == 0xFF49 {
            Ok(self.ppu.object_palette_1)
        } else if address == 0xFF4A {
            Ok(self.ppu.window_y)
        } else if address == 0xFF4B {
            Ok(self.ppu.window_x7)
        } else if address == 0xFF4F {
            Ok(self.ppu.vram_bank)
        } else if address == 0xFF50 {
            Ok(self.dmg_boot_rom)
        } else if address == 0xFF68 {
            Ok(self.ppu.cgb_background_palette_spec)
        } else if address == 0xFF69 {
            Ok(self.ppu.cgb_background_palette_data)
        } else if address == 0xFF6A {
            Ok(self.ppu.object_palette_spec)
        } else if address == 0xFF6B {
            Ok(self.ppu.object_palette_data)
        } else if address == 0xFF74 {
            Ok(0xFFu8)
        } else if 0xFF80 <= address <= 0xFFFE {
            Ok(self.cpu.memory.hram[address - 0xFF80])
        } else if address == 0xFFFF {
            Ok(self.interrupts.interrupt_enable)
        } else {
            Err(Fault::UnmappedRead { address })
        }
    }

    /// The machine with `value` stored at `index` of object attribute memory.
    pub open spec fn spec_with_oam(self, index: int, value: u8) -> MachineView {
        MachineView {
            ppu: PPUView {
                object_attribute_memory: self.ppu.object_attribute_memory.update(index, value),
                ..self.ppu
            },
            ..self
        }
    }

    /// Whether `after` is this machine but for object attribute memory.
    pub open spec fn spec_differs_in_oam_only(self, after: MachineView) -> bool {
        after == (MachineView {
            ppu: PPUView {
                object_attribute_memory: after.ppu.object_attribute_memory,
                ..self.ppu
            },
            ..self
        })
    }

    /// The machine after the first `count` bytes of an OAM transfer from page
    /// `page`, or the fault of the first byte that could not be read.
    pub open spec fn spec_dma(self, page: u8, count: nat) -> Result<MachineView, Fault>
        decreases count,
    {
        if count == 0 {
            Ok(self)
        } else {
            match self.spec_dma(page, (count - 1) as nat) {
                Err(fault) => Err(fault),
                Ok(machine) => match machine.spec_read_u8((page * 256 + count - 1) as u16) {
                    Err(fault) => Err(fault),
                    Ok(byte) => Ok(machine.spec_with_oam(count - 1, byte)),
                },
            }
        }
    }

    /// The machine after a write of the ROM window under an MBC1: no byte of
    /// ROM changes, only the registers that select banks.
    pub open spec fn spec_write_mapper(self, address: u16, value: u8) -> MachineView {
        if self.rom_information.mapper_type != MapperType::MBC1 {
            self
        } else if address <= 0x1FFF {
            MachineView { is_ram_enabled: value & 0x0F == 0x0A, ..self }
        } else if address <= 0x3FFF {
            MachineView { loram_bank: value & 0x1F, ..self }
        } else if address <= 0x5FFF {
            MachineView { ram_or_hiram_bank: value & 0b11, ..self }
        } else {
            MachineView {
                banking_mode: if value & 1 == 0 {
                    BankingMode::Rom
                } else {
                    BankingMode::Ram
                },
                ..self
            }
        }
    }

    /// The machine after a write of the external RAM window: ignored where
    /// the cartridge has no RAM or the RAM does not answer.
    pub open spec fn spec_write_external_ram(self, address: u16, value: u8) -> Result<
        MachineView,
        Fault,
    > {
        if self.rom_information.ram_size == RAMSize::NoRAM || !self.spec_ram_accessible() {
            Ok(self)
        } else if address - 0xA000 < self.cpu.memory.game_ram.len() {
            Ok(
                MachineView {
                    cpu: CPUView {
                        memory: crate::memory::MemoryView {
                            game_ram: self.cpu.memory.game_ram.update(address - 0xA000, value),
                            ..self.cpu.memory
                        },
                        ..self.cpu
                    },
                    ..self
                },
            )
        } else {
            Err(Fault::UnmappedWrite { address })
        }
    }

    /// The machine after a write to a register of the pixel processing unit.
    pub open spec fn spec_write_ppu_register(self, address: u16, value: u8) -> MachineView {
        let ppu = self.ppu;
        MachineView {
            ppu: if address == 0xFF40 {
                PPUView { lcd_control: value, ..ppu }
            } else if address == 0xFF41 {
                PPUView { lcd_status: value, ..ppu }
            } else if address == 0xFF42 {
                PPUView { scy: value, ..ppu }
            } else if address == 0xFF43 {
                PPUView { scx: value, ..ppu }
            } else if address == 0xFF45 {
                PPUView { lcd_y_compare: value, ..ppu }
            } else if address == 0xFF47 {
                PPUView { background_palette_data: value, ..ppu }
            } else if address == 0xFF48 {
                PPUView { object_palette_0: value, ..ppu }
            } else if address == 0xFF49 {
                PPUView { object_palette_1: value, ..ppu }
            } else if address == 0xFF4A {
                PPUView { window_y: value, ..ppu }
            } else if address == 0xFF4B {
                PPUView { window_x7: value, ..ppu }
            } else if address == 0xFF4F {
                PPUView { vram_bank: value, ..ppu }
            } else if address == 0xFF68 {
                PPUView { cgb_background_palette_spec: value, ..ppu }
            } else if address == 0xFF69 {
                PPUView { cgb_background_palette_data: value, ..ppu }
            } else if address == 0xFF6A {
                PPUView { object_palette_spec: value, ..ppu }
            } else if address == 0xFF6B {
                PPUView { object_palette_data: value, ..ppu }
            } else {
                ppu
            },
            ..self
        }
    }

    /// Whether an address is that of a writable register of the pixel
    /// processing unit.
    pub open spec fn spec_is_ppu_register(address: u16) -> bool {
        ||| 0xFF40 <= address <= 0xFF43
        ||| address == 0xFF45
        ||| 0xFF47 <= address <= 0xFF4B
        ||| address == 0xFF4F
        ||| 0xFF68 <= address <= 0xFF6B
    }

    /// The machine after a write to the address space, or the fault of writing
    /// where nothing takes a write.
    #[verifier::opaque]
    pub open spec fn spec_write_u8(self, address: u16, value: u8) -> Result<MachineView, Fault> {
        if self.spec_is_dmg_boot_rom_on() && address <= 0xFF {
            Err(Fault::BootRomWrite { address })
        } else if address <= 0x7FFF {
            Ok(self.spec_write_mapper(address, value))
        } else if address <= 0x9FFF {
            Ok(
                MachineView {
                    ppu: PPUView { vram: self.ppu.vram.update(address - 0x8000, value), ..self.ppu },
                    ..self
                },
            )
        } else if address <= 0xBFFF {
            self.spec_write_external_ram(address, value)
        } else if address <= 0xCFFF {
            Ok(
                MachineView {
                    ppu: PPUView {
                        wram_0: self.ppu.wram_0.update(address - 0xC000, value),
                        ..self.ppu
                    },
                    ..self
                },
            )
        } else if address <= 0xDFFF {
            Ok(
                MachineView {
                    ppu: PPUView {
                        wram_1: self.ppu.wram_1.update(address - 0xD000, value),
                        ..self.ppu
                    },
                    ..self
                },
            )
        } else if address <= 0xFDFF {
            Err(Fault::EchoRamWrite { address })
        } else if address <= 0xFE9F {
            Ok(self.spec_with_oam(address - 0xFE00, value))
        } else if address <= 0xFEFF {
            Ok(self)
        } else if address == 0xFF00 {
            Ok(MachineView { inputs: self.inputs.spec_write(value), ..self })
        } else if address == 0xFF01 {
            Ok(MachineView { sb: value, ..self })
        } else if address == 0xFF02 {
            Ok(MachineView { sc: value, ..self })
        } else if DIVIDE_REGISTER_ADDRESS <= address <= TIMER_CONTROL_ADDRESS {
            Ok(MachineView { timers: self.timers.spec_write_u8(address, value), ..self })
        } else if address == 0xFF0F {
            Ok(
                MachineView {
                    interrupts: Interrupts { interrupt_flag: value, ..self.interrupts },
                    ..self
                },
            )
        } else if address == 0xFF75 {
            Ok(
                MachineView {
                    io_registers: self.io_registers.update(address - IO_BASE, value & 0x07),
                    ..self
                },
            )
        } else if spec_is_plain_register(address) {
            Ok(
                MachineView {
                    io_registers: self.io_registers.update(address - IO_BASE, value),
                    ..self
                },
            )
        } else if address == 0xFF44 {
            Err(Fault::LyWrite)
        } else if address == 0xFF46 {
            if value > DMA_LAST_PAGE {
                Err(Fault::DmaSourceOutOfRange { page: value })
            } else {
                self.spec_dma(value, DMA_LENGTH as nat)
            }
        } else if Self::spec_is_ppu_register(address) {
            Ok(self.spec_write_ppu_register(address, value))
        } else if address == 0xFF50 {
            Ok(MachineView { dmg_boot_rom: value, ..self })
        } else if address == 0xFF74 || address == 0xFF7F {
            Ok(self)
        } else if 0xFF80 <= address <= 0xFFFE {
            Ok(
                MachineView {
                    cpu: CPUView {
                        memory: crate::memory::MemoryView {
                            hram: self.cpu.memory.hram.update(address - 0xFF80, value),
                            ..self.cpu.memory
                        },
                        ..self.cpu
                    },
                    ..self
                },
            )
        } else if address == 0xFFFF {
            Ok(
                MachineView {
                    interrupts: Interrupts { interrupt_enable: value, ..self.interrupts },
                    ..self
                },
            )
        } else {
            Err(Fault::UnmappedWrite { address })
        }
    }

    /// The bytes at `size` addresses from `address` on, stopping at the top
    /// of the address space, or the fault of the first that could not be read.
    pub open spec fn spec_read_range(self, address: u16, size: nat) -> Result<Seq<u8>, Fault>
        decreases size,
    {
        if size == 0 || address + size - 1 > 0xFFFF {
            if size == 0 {
                Ok(Seq::empty())
            } else {
                self.spec_read_range(address, (size - 1) as nat)
            }
        } else {
            match self.spec_read_range(address, (size - 1) as nat) {
                Err(fault) => Err(fault),
                Ok(bytes) => match self.spec_read_u8((address + size - 1) as u16) {
                    Err(fault) => Err(fault),
                    Ok(byte) => Ok(bytes.push(byte)),
                },
            }
        }
    }
}

/// Once a byte of an OAM transfer cannot be read, the transfer ends in that
/// fault however many bytes were asked for.
pub proof fn lemma_dma_fault_is_final(machine: MachineView, page: u8, count: nat, more: nat)
    requires
        machine.spec_dma(page, count) is Err,
        count <= more,
    ensures
        machine.spec_dma(page, more) == machine.spec_dma(page, count),
    decreases more,
{
    if count < more {
        lemma_dma_fault_is_final(machine, page, count, (more - 1) as nat);
    }
}

/// An OAM transfer changes object attribute memory and nothing else, so what
/// it reads next does not depend on what it has written.
pub proof fn lemma_dma_frame(machine: MachineView, page: u8, count: nat)
    requires
        machine.spec_dma(page, count) is Ok,
    ensures
        machine.spec_dma(page, count)->Ok_0 == (MachineView {
            ppu: PPUView {
                object_attribute_memory: machine.spec_dma(
                    page,
                    count,
                )->Ok_0.ppu.object_attribute_memory,
                ..machine.ppu
            },
            ..machine
        }),
    decreases count,
{
    if count > 0 {
        lemma_dma_frame(machine, page, (count - 1) as nat);
    }
}

impl Machine {
    pub fn new(
        boot_rom: Vec<u8>,
        game_rom: Vec<u8>,
        rom_information: ROMInformation,
        fix_ly: bool,
    ) -> (machine: Result<Self, ConfigError>)
        ensures
            match MachineView::spec_new(boot_rom@, game_rom@, rom_information, fix_ly) {
                Ok(view) => machine is Ok && machine->Ok_0@ == view && view.wf(),
                Err(error) => machine is Err && machine->Err_0 == error,
            },
    {
        if boot_rom.len() > BOOT_ROM_MAX_SIZE {
            return Err(ConfigError::BootRomTooLarge);
        }
        if rom_information.mapper_type == MapperType::Other {
            return Err(ConfigError::UnsupportedMapper);
        }
        let cpu = CPU::new(boot_rom, game_rom, &rom_information)?;
        let machine = Machine {
            banking_mode: BankingMode::Rom,
            is_ram_enabled: false,
            loram_bank: 1,
            ram_or_hiram_bank: 0,
            rom_information,
            t_cycle_count: 0,
            dmg_boot_rom: 0,
            background_window_fetcher: BackgroundOrWindowFetcher::new(),
            cpu,
            inputs: Inputs::new(),
            interrupts: Interrupts::new(),
            object_fetcher: ObjectFetcher::new(),
            pixel_fetcher: Fetcher::new(),
            ppu: PPU::new(fix_ly),
            timers: Timers::new(),
            io_registers: [0u8;0x80],
            sb: 0,
            sc: 0,
        };
        assert(machine@.io_registers =~= Seq::new(IO_SIZE as nat, |i: int| 0u8));
        Ok(machine)
    }

    pub fn is_dmg_boot_rom_on(&self) -> (on: bool)
        ensures
            on == self@.spec_is_dmg_boot_rom_on(),
    {
        self.dmg_boot_rom == 0
    }

    /// Reads a byte of a ROM, if the ROM reaches that far.
    fn read_store(store: &Vec<u8>, index: usize, address: u16) -> (byte: Result<u8, Fault>)
        ensures
            byte == spec_read_store(store@, index as int, address),
    {
        if index < store.len() {
            Ok(store[index])
        } else {
            Err(Fault::UnmappedRead { address })
        }
    }

    fn rom_bank(&self) -> (bank: u8)
        ensures
            bank == self@.spec_rom_bank(),
    {
        if self.banking_mode == BankingMode::Rom {
            self.loram_bank | (self.ram_or_hiram_bank << 5u8)
        } else {
            self.loram_bank
        }
    }

    fn ram_accessible(&self) -> (accessible: bool)
        ensures
            accessible == self@.spec_ram_accessible(),
    {
        self.rom_information.mapper_type != MapperType::MBC1 || self.is_ram_enabled
    }

    /// Reads a register of the I/O block or above it.
    fn read_io(&self, address: u16) -> (byte: Result<u8, Fault>)
        requires
            address >= IO_BASE,
            !(self@.spec_is_dmg_boot_rom_on() && address <= 0xFF),
        ensures
            byte == self@.spec_read_u8(address),
    {
        reveal(MachineView::spec_read_u8);
        if address == 0xFF00 {
            Ok(self.inputs.read())
        } else if address == 0xFF01 {
            Ok(self.sb)
        } else if address == 0xFF02 {
            Ok(self.sc)
        } else if DIVIDE_REGISTER_ADDRESS <= address && address <= TIMER_CONTROL_ADDRESS {
            Ok(self.timers.read_u8(address))
        } else if address == 0xFF0F {
            Ok(self.interrupts.interrupt_flag)
        } else if is_plain_register(address) {
            Ok(self.io_registers[(address - IO_BASE) as usize])
        } else if address == 0xFF40 {
            Ok(self.ppu.read_lcdc())
        } else if address == 0xFF41 {
            Ok(self.ppu.lcd_status)
        } else if address == 0xFF42 {
            Ok(self.ppu.scy)
        } else if address == 0xFF43 {
            Ok(self.ppu.scx)
        } else if address == 0xFF44 {
            Ok(self.ppu.read_ly())
        } else if address == 0xFF45 {
            Ok(self.ppu.lcd_y_compare)
        } else if address == 0xFF46 {
            Ok(0xFF)
        } else if address == 0xFF47 {
            Ok(self.ppu.background_palette_data)
        } else if address == 0xFF48 {
            Ok(self.ppu.object_palette_0)
        } else if address == 0xFF49 {
            Ok(self.ppu.object_palette_1)
        } else if address == 0xFF4A {
            Ok(self.ppu.window_y)
        } else if address == 0xFF4B {
            Ok(self.ppu.window_x7)
        } else if address == 0xFF4F {
            Ok(self.ppu.vram_bank)
        } else if address == 0xFF50 {
            Ok(self.dmg_boot_rom)
        } else if address == 0xFF68 {
            Ok(self.ppu.cgb_background_palette_spec)
        } else if address == 0xFF69 {
            Ok(self.ppu.cgb_background_palette_data)
        } else if address == 0xFF6A {
            Ok(self.ppu.object_palette_spec)
        } else if address == 0xFF6B {
            Ok(self.ppu.object_palette_data)
        } else if address == 0xFF74 {
            Ok(0xFF)
        } else if 0xFF80 <= address && address <= 0xFFFE {
            Ok(self.cpu.memory.hram[(address - 0xFF80) as usize])
        } else if address == 0xFFFF {
            Ok(self.interrupts.interrupt_enable)
        } else {
            Err(Fault::UnmappedRead { address })
        }
    }

    pub fn read_u8(&self, address: u16) -> (byte: Result<u8, Fault>)
        ensures
            byte == self@.spec_read_u8(address),
    {
        reveal(MachineView::spec_read_u8);
        if self.is_dmg_boot_rom_on() && address <= 0xFF {
            Self::read_store(&self.cpu.memory.boot_rom, address as usize, address)
        } else if address <= 0x3FFF {
            Self::read_store(&self.cpu.memory.game_rom, address as usize, address)
        } else if address <= 0x7FFF {
            match self.rom_information.mapper_type {
                MapperType::ROMOnly => Self::read_store(
                    &self.cpu.memory.game_rom,
                    address as usize,
                    address,
                ),
                MapperType::MBC1 => {
                    let base_address = (self.rom_bank() as usize) * ROM_BANK_SIZE;
                    Self::read_store(
                        &self.cpu.memory.game_rom,
                        base_address + (address as usize) - 0x4000,
                        address,
                    )
                },
                MapperType::Other => Err(Fault::UnmappedRead { address }),
            }
        } else if address <= 0x9FFF {
            Ok(self.ppu.read_vram(address - 0x8000))
        } else if address <= 0xBFFF {
            if self.ram_accessible() {
                Self::read_store(&self.cpu.memory.game_ram, (address - 0xA000) as usize, address)
            } else {
                Ok(0xFF)
            }
        } else if address <= 0xCFFF {
            Ok(self.ppu.read_wram_0(address - 0xC000))
        } else if address <= 0xDFFF {
            Ok(self.ppu.read_wram_1(address - 0xD000))
        } else if address <= 0xEFFF {
            Ok(self.ppu.read_wram_0(address - 0xE000))
        } else if address <= 0xFDFF {
            Ok(self.ppu.read_wram_1(address - 0xF000))
        } else if address <= 0xFE9F {
            Ok(self.ppu.object_attribute_memory[(address - 0xFE00) as usize])
        } else if address <= 0xFEFF {
            Ok(0xFF)
        } else {
            self.read_io(address)
        }
    }

    pub fn read_range(&self, address: u16, size: usize) -> (bytes: Result<Vec<u8>, Fault>)
        ensures
            match self@.spec_read_range(address, size as nat) {
                Ok(expected) => bytes is Ok && bytes->Ok_0@ == expected,
                Err(fault) => bytes is Err && bytes->Err_0 == fault,
            },
    {
        let mut res: Vec<u8> = Vec::new();
        let mut done: usize = 0;
        while done < size && (address as usize) + done <= 0xFFFF
            invariant
                done <= size,
                address + done <= 0x10000,
                self@.spec_read_range(address, done as nat) == Ok::<Seq<u8>, Fault>(res@),
            decreases size - done,
        {
            let byte = self.read_u8((address as usize + done) as u16);
            match byte {
                Ok(byte) => {
                    res.push(byte);
                },
                Err(fault) => {
                    proof {
                        lemma_read_range_fault_is_final(
                            self@,
                            address,
                            (done + 1) as nat,
                            size as nat,
                        );
                    }
                    return Err(fault);
                },
            }
            done = done + 1;
        }
        proof {
            lemma_read_range_stops_at_top(self@, address, done as nat, size as nat);
        }
        Ok(res)
    }

    pub fn request_interrupt(&mut self, interrupt_bit: u8)
        requires
            interrupt_bit < 8,
        ensures
            final(self)@ == (MachineView {
                interrupts: old(self)@.interrupts.spec_request(interrupt_bit),
                ..old(self)@
            }),
    {
        self.interrupts.request_interrupt(interrupt_bit);
    }

    /// Writes the registers of an MBC1 that select banks.
    fn write_mapper(&mut self, address: u16, value: u8)
        requires
            address <= 0x7FFF,
        ensures
            final(self)@ == old(self)@.spec_write_mapper(address, value),
            old(self)@.wf() ==> final(self)@.wf(),
    {
        match self.rom_information.mapper_type {
            MapperType::MBC1 => {
                if address <= 0x1FFF {
                    self.is_ram_enabled = value & 0x0F == 0x0A;
                } else if address <= 0x3FFF {
                    self.loram_bank = value & 0x1F;
                } else if address <= 0x5FFF {
                    self.ram_or_hiram_bank = value & 0b11;
                } else {
                    self.banking_mode = if value & 1 == 0 {
                        BankingMode::Rom
                    } else {
                        BankingMode::Ram
                    };
                }
            },
            _ => {},
        }
    }

    fn write_external_ram(&mut self, address: u16, value: u8) -> (written: Result<(), Fault>)
        requires
            0xA000 <= address <= 0xBFFF,
        ensures
            match old(self)@.spec_write_external_ram(address, value) {
                Ok(machine) => written is Ok && final(self)@ == machine,
                Err(fault) => written == Err::<(), Fault>(fault),
            },
            written is Ok && old(self)@.wf() ==> final(self)@.wf(),
            written is Err ==> final(self)@ == old(self)@,
    {
        if self.rom_information.ram_size == RAMSize::NoRAM || !self.ram_accessible() {
            Ok(())
        } else if ((address - 0xA000) as usize) < self.cpu.memory.game_ram.len() {
            self.cpu.memory.game_ram[(address - 0xA000) as usize] = value;
            Ok(())
        } else {
            Err(Fault::UnmappedWrite { address })
        }
    }

    fn write_ppu_register(&mut self, address: u16, value: u8)
        requires
            MachineView::spec_is_ppu_register(address),
        ensures
            final(self)@ == old(self)@.spec_write_ppu_register(address, value),
            old(self)@.wf() ==> final(self)@.wf(),
    {
        if address == 0xFF40 {
            self.ppu.write_lcdc(value);
        } else if address == 0xFF41 {
            self.ppu.lcd_status = value;
        } else if address == 0xFF42 {
            self.ppu.scy = value;
        } else if address == 0xFF43 {
            self.ppu.scx = value;
        } else if address == 0xFF45 {
            self.ppu.lcd_y_compare = value;
        } else if address == 0xFF47 {
            self.ppu.background_palette_data = value;
        } else if address == 0xFF48 {
            self.ppu.object_palette_0 = value;
        } else if address == 0xFF49 {
            self.ppu.object_palette_1 = value;
        } else if address == 0xFF4A {
            self.ppu.window_y = value;
        } else if address == 0xFF4B {
            self.ppu.window_x7 = value;
        } else if address == 0xFF4F {
            self.ppu.vram_bank = value;
        } else if address == 0xFF68 {
            self.ppu.cgb_background_palette_spec = value;
        } else if address == 0xFF69 {
            self.ppu.cgb_background_palette_data = value;
        } else if address == 0xFF6A {
            self.ppu.object_palette_spec = value;
        } else {
            self.ppu.object_palette_data = value;
        }
    }

    /// Copies 0xA0 bytes from the start of a page into object attribute
    /// memory, all at once.
    fn oam_dma(&mut self, page: u8) -> (done: Result<(), Fault>)
        requires
            page <= DMA_LAST_PAGE,
        ensures
            match old(self)@.spec_dma(page, DMA_LENGTH as nat) {
                Ok(machine) => done is Ok && final(self)@ == machine,
                Err(fault) => done == Err::<(), Fault>(fault),
            },
            done is Ok && old(self)@.wf() ==> final(self)@.wf(),
            old(self)@.spec_differs_in_oam_only(final(self)@),
    {
        let base_source_address = (page as u16) * 256;
        let mut offset: u16 = 0;
        while offset < DMA_LENGTH
            invariant
                offset <= DMA_LENGTH,
                page <= DMA_LAST_PAGE,
                base_source_address == page * 256,
                old(self)@.spec_dma(page, offset as nat) == Ok::<MachineView, Fault>(self@),
                old(self)@.wf() ==> self@.wf(),
                old(self)@.spec_differs_in_oam_only(self@),
            decreases DMA_LENGTH - offset,
        {
            match self.read_u8(base_source_address + offset) {
                Ok(byte) => {
                    self.ppu.object_attribute_memory[offset as usize] = byte;
                },
                Err(fault) => {
                    proof {
                        lemma_dma_fault_is_final(
                            old(self)@,
                            page,
                            (offset + 1) as nat,
                            DMA_LENGTH as nat,
                        );
                    }
                    return Err(fault);
                },
            }
            offset = offset + 1;
        }
        Ok(())
    }

    /// Writes a register of the I/O block or above it.
    fn write_io(&mut self, address: u16, value: u8) -> (written: Result<(), Fault>)
        requires
            address >= IO_BASE,
            !(old(self)@.spec_is_dmg_boot_rom_on() && address <= 0xFF),
        ensures
            match old(self)@.spec_write_u8(address, value) {
                Ok(machine) => written is Ok && final(self)@ == machine,
                Err(fault) => written == Err::<(), Fault>(fault),
            },
            written is Ok && old(self)@.wf() ==> final(self)@.wf(),
            written is Err && (address != 0xFF46 || value > DMA_LAST_PAGE) ==> final(self)@ == old(
                self,
            )@,
            written is Err ==> old(self)@.spec_differs_in_oam_only(final(self)@),
    {
        reveal(MachineView::spec_write_u8);
        if address == 0xFF00 {
            self.inputs.write(value);
            Ok(())
        } else if address == 0xFF01 {
            self.sb = value;
            Ok(())
        } else if address == 0xFF02 {
            self.sc = value;
            Ok(())
        } else if DIVIDE_REGISTER_ADDRESS <= address && address <= TIMER_CONTROL_ADDRESS {
            self.timers.write_u8(address, value);
            Ok(())
        } else if address == 0xFF0F {
            self.interrupts.interrupt_flag = value;
            Ok(())
        } else if address == 0xFF75 {
            self.io_registers[(address - IO_BASE) as usize] = value & 0x07;
            Ok(())
        } else if is_plain_register(address) {
            self.io_registers[(address - IO_BASE) as usize] = value;
            Ok(())
        } else if address == 0xFF44 {
            Err(Fault::LyWrite)
        } else if address == 0xFF46 {
            if value > DMA_LAST_PAGE {
                Err(Fault::DmaSourceOutOfRange { page: value })
            } else {
                self.oam_dma(value)
            }
        } else if (0xFF40 <= address && address <= 0xFF43) || address == 0xFF45 || (0xFF47
            <= address && address <= 0xFF4B) || address == 0xFF4F || (0xFF68 <= address && address
            <= 0xFF6B) {
            self.write_ppu_register(address, value);
            Ok(())
        } else if address == 0xFF50 {
            self.dmg_boot_rom = value;
            Ok(())
        } else if address == 0xFF74 || address == 0xFF7F {
            Ok(())
        } else if 0xFF80 <= address && address <= 0xFFFE {
            self.cpu.memory.hram[(address - 0xFF80) as usize] = value;
            Ok(())
        } else if address == 0xFFFF {
            self.interrupts.interrupt_enable = value;
            Ok(())
        } else {
            Err(Fault::UnmappedWrite { address })
        }
    }

    /// Writes a byte to the address space. A write that faults changes
    /// nothing, with one exception: an OAM transfer that cannot read one of
    /// its bytes leaves the bytes before it in object attribute memory.
    pub fn write_u8(&mut self, address: u16, value: u8) -> (written: Result<(), Fault>)
        ensures
            match old(self)@.spec_write_u8(address, value) {
                Ok(machine) => written is Ok && final(self)@ == machine,
                Err(fault) => written == Err::<(), Fault>(fault),
            },
            written is Ok && old(self)@.wf() ==> final(self)@.wf(),
            written is Err && (address != 0xFF46 || value > DMA_LAST_PAGE) ==> final(self)@ == old(
                self,
            )@,
            written is Err ==> old(self)@.spec_differs_in_oam_only(final(self)@),
    {
        reveal(MachineView::spec_write_u8);
        if self.is_dmg_boot_rom_on() && address <= 0xFF {
            Err(Fault::BootRomWrite { address })
        } else if address <= 0x7FFF {
            self.write_mapper(address, value);
            Ok(())
        } else if address <= 0x9FFF {
            self.ppu.write_vram(address - 0x8000, value);
            Ok(())
        } else if address <= 0xBFFF {
            self.write_external_ram(address, value)
        } else if address <= 0xCFFF {
            self.ppu.write_wram_0(address - 0xC000, value);
            Ok(())
        } else if address <= 0xDFFF {
            self.ppu.write_wram_1(address - 0xD000, value);
            Ok(())
        } else if address <= 0xFDFF {
            Err(Fault::EchoRamWrite { address })
        } else if address <= 0xFE9F {
            self.ppu.object_attribute_memory[(address - 0xFE00) as usize] = value;
            Ok(())
        } else if address <= 0xFEFF {
            Ok(())
        } else {
            self.write_io(address, value)
        }
    }
}

/// Once a byte of a range cannot be read, reading a longer range ends in the
/// same fault.
pub proof fn lemma_read_range_fault_is_final(machine: MachineView, address: u16, size: nat, more: nat)
    requires
        machine.spec_read_range(address, size) is Err,
        size <= more,
    ensures
        machine.spec_read_range(address, more) == machine.spec_read_range(address, size),
    decreases more,
{
    if size < more {
        lemma_read_range_fault_is_final(machine, address, size, (more - 1) as nat);
    }
}

/// A range that would pass the top of the address space holds the bytes up to
/// the top.
pub proof fn lemma_read_range_stops_at_top(machine: MachineView, address: u16, size: nat, more: nat)
    requires
        size <= more,
        size == more || address + size == 0x10000,
    ensures
        machine.spec_read_range(address, more) == machine.spec_read_range(address, size),
    decreases more,
{
    if size < more {
        lemma_read_range_stops_at_top(machine, address, size, (more - 1) as nat);
    }
}

/// A write to the address space changes no byte of either ROM, whatever the
/// address: what is written below 0x8000 goes to the registers that select
/// banks. Nor does a write touch the CPU's registers or its halted state.
pub broadcast proof fn lemma_write_frame(machine: MachineView, address: u16, value: u8)
    ensures
        #![trigger machine.spec_write_u8(address, value)]
        match machine.spec_write_u8(address, value) {
            Ok(after) => {
                &&& after.cpu.memory.game_rom == machine.cpu.memory.game_rom
                &&& after.cpu.memory.boot_rom == machine.cpu.memory.boot_rom
                &&& after.cpu.registers == machine.cpu.registers
                &&& after.cpu.low_power_mode == machine.cpu.low_power_mode
                &&& after.rom_information == machine.rom_information
                &&& after.t_cycle_count == machine.t_cycle_count
            },
            Err(_) => true,
        },
{
    reveal(MachineView::spec_write_u8);
    if machine.spec_write_u8(address, value) is Ok && address == 0xFF46 {
        lemma_dma_frame(machine, value, DMA_LENGTH as nat);
    }
}

/// What a read gives does not depend on the CPU's registers.
pub broadcast proof fn lemma_read_ignores_registers(
    machine: MachineView,
    registers: crate::registers::Registers,
    address: u16,
)
    ensures
        #![trigger machine.spec_with_registers(registers).spec_read_u8(address)]
        machine.spec_with_registers(registers).spec_read_u8(address) == machine.spec_read_u8(
            address,
        ),
{
    reveal(MachineView::spec_read_u8);
}

/// Under an MBC1, after a write of `value` with both upper bank bits clear
/// anywhere from 0x2000 to 0x3FFF, a read in the window 0x4000 to 0x7FFF
/// gives the byte of the cartridge ROM at that offset into bank `value & 0x1F`.
pub proof fn lemma_bank_select(machine: MachineView, register: u16, value: u8, address: u16)
    requires
        machine.rom_information.mapper_type == MapperType::MBC1,
        !machine.spec_is_dmg_boot_rom_on(),
        machine.ram_or_hiram_bank == 0,
        0x2000 <= register <= 0x3FFF,
        0x4000 <= address <= 0x7FFF,
    ensures
        machine.spec_write_u8(register, value) is Ok,
        machine.spec_write_u8(register, value)->Ok_0.spec_read_u8(address) == spec_read_store(
            machine.cpu.memory.game_rom,
            (value & 0x1F) * ROM_BANK_SIZE + address - 0x4000,
            address,
        ),
{
    reveal(MachineView::spec_write_u8);
    reveal(MachineView::spec_read_u8);
    let bank = value & 0x1F;
    assert(bank | (0u8 << 5u8) == bank) by (bit_vector);
}

impl Clone for Machine {
    /// A copy that shares nothing with the machine it was taken from.
    fn clone(&self) -> (copy: Self)
        ensures
            copy@ == self@,
    {
        Machine {
            banking_mode: self.banking_mode,
            is_ram_enabled: self.is_ram_enabled,
            loram_bank: self.loram_bank,
            ram_or_hiram_bank: self.ram_or_hiram_bank,
            rom_information: self.rom_information,
            t_cycle_count: self.t_cycle_count,
            background_window_fetcher: self.background_window_fetcher.clone(),
            cpu: self.cpu.clone(),
            inputs: self.inputs,
            interrupts: self.interrupts,
            object_fetcher: self.object_fetcher.clone(),
            pixel_fetcher: self.pixel_fetcher,
            ppu: self.ppu.clone(),
            timers: self.timers,
            dmg_boot_rom: self.dmg_boot_rom,
            io_registers: self.io_registers,
            sb: self.sb,
            sc: self.sc,
        }
    }
}

impl MachineView {
    /// Eight bytes of memory as a row of a listing: the address in four
    /// lower-case hexadecimal digits, then the bytes in two upper-case digits
    /// each, in two groups of four.
    pub open spec fn spec_show_memory_row(self, from: u16) -> Result<Seq<char>, Fault> {
        match self.spec_read_range(from, 8) {
            Err(fault) => Err(fault),
            Ok(range) => Ok(
                spec_hex_u16_lower(from) + ": "@ + spec_hex_u8(range[0]) + " "@ + spec_hex_u8(
                    range[1],
                ) + " "@ + spec_hex_u8(range[2]) + " "@ + spec_hex_u8(range[3]) + "  "@
                    + spec_hex_u8(range[4]) + " "@ + spec_hex_u8(range[5]) + " "@ + spec_hex_u8(
                    range[6],
                ) + " "@ + spec_hex_u8(range[7]),
            ),
        }
    }
}

/// A range that lies within the address space holds as many bytes as were
/// asked for.
pub proof fn lemma_read_range_length(machine: MachineView, address: u16, size: nat)
    requires
        address + size <= 0x10000,
        machine.spec_read_range(address, size) is Ok,
    ensures
        machine.spec_read_range(address, size)->Ok_0.len() == size,
    decreases size,
{
    if size > 0 {
        lemma_read_range_length(machine, address, (size - 1) as nat);
    }
}

impl Machine {
    pub fn show_memory_row(&self, from: u16) -> (row: Result<String, Fault>)
        requires
            from <= 0xFFF8,
        ensures
            match self@.spec_show_memory_row(from) {
                Ok(text) => row is Ok && row->Ok_0@ == text,
                Err(fault) => row is Err && row->Err_0 == fault,
            },
    {
        let range = self.read_range(from, 8)?;
        proof {
            lemma_read_range_length(self@, from, 8);
        }
        let mut res = String::new();
        push_hex_u16_lower(&mut res, from);
        assert(res@ =~= spec_hex_u16_lower(from));
        res.append(": ");
        push_hex_u8(&mut res, range[0]);
        res.append(" ");
        push_hex_u8(&mut res, range[1]);
        res.append(" ");
        push_hex_u8(&mut res, range[2]);
        res.append(" ");
        push_hex_u8(&mut res, range[3]);
        res.append("  ");
        push_hex_u8(&mut res, range[4]);
        res.append(" ");
        push_hex_u8(&mut res, range[5]);
        res.append(" ");
        push_hex_u8(&mut res, range[6]);
        res.append(" ");
        push_hex_u8(&mut res, range[7]);
        Ok(res)
    }

    pub fn cpu(&self) -> (cpu: &CPU)
        ensures
            *cpu == self.cpu,
    {
        &self.cpu
    }

    pub fn cpu_mut(&mut self) -> (cpu: &mut CPU)
        ensures
            *cpu == old(self).cpu,
            *final(self) == (Machine { cpu: *final(cpu), ..*old(self) }),
    {
        &mut self.cpu
    }

    pub fn pixel_fetcher(&self) -> (pixel_fetcher: &Fetcher)
        ensures
            *pixel_fetcher == self.pixel_fetcher,
    {
        &self.pixel_fetcher
    }

    pub fn pixel_fetcher_mut(&mut self) -> (pixel_fetcher: &mut Fetcher)
        ensures
            *pixel_fetcher == old(self).pixel_fetcher,
            *final(self) == (Machine { pixel_fetcher: *final(pixel_fetcher), ..*old(self) }),
    {
        &mut self.pixel_fetcher
    }

    pub fn ppu(&self) -> (ppu: &PPU)
        ensures
            *ppu == self.ppu,
    {
        &self.ppu
    }

    pub fn ppu_mut(&mut self) -> (ppu: &mut PPU)
        ensures
            *ppu == old(self).ppu,
            *final(self) == (Machine { ppu: *final(ppu), ..*old(self) }),
    {
        &mut self.ppu
    }

    pub fn timers(&self) -> (timers: &Timers)
        ensures
            *timers == self.timers,
    {
        &self.timers
    }

    pub fn timers_mut(&mut self) -> (timers: &mut Timers)
        ensures
            *timers == old(self).timers,
            *final(self) == (Machine { timers: *final(timers), ..*old(self) }),
    {
        &mut self.timers
    }

    pub fn bgw_fetcher(&self) -> (fetcher: &BackgroundOrWindowFetcher)
        ensures
            *fetcher == self.background_window_fetcher,
    {
        &self.background_window_fetcher
    }

    pub fn bgw_fetcher_mut(&mut self) -> (fetcher: &mut BackgroundOrWindowFetcher)
        ensures
            *fetcher == old(self).background_window_fetcher,
            *final(self) == (Machine { background_window_fetcher: *final(fetcher), ..*old(self) }),
    {
        &mut self.background_window_fetcher
    }

    pub fn obj_fetcher(&self) -> (fetcher: &ObjectFetcher)
        ensures
            *fetcher == self.object_fetcher,
    {
        &self.object_fetcher
    }

    pub fn obj_fetcher_mut(&mut self) -> (fetcher: &mut ObjectFetcher)
        ensures
            *fetcher == old(self).object_fetcher,
            *final(self) == (Machine { object_fetcher: *final(fetcher), ..*old(self) }),
    {
        &mut self.object_fetcher
    }
}

impl Machine {
    /// Whether the machine is in a state that a step can start from. Every
    /// machine that was built by `new` and changed by steps alone is.
    pub fn wf(&self) -> (wf: bool)
        ensures
            wf == self@.wf(),
    {
        self.ppu.wf() && self.background_window_fetcher.wf() && self.object_fetcher.wf()
            && crate::ppu::columns_agree(&self.ppu, &self.background_window_fetcher)
    }
}

} // verus!
