//! The stores that the CPU owns: boot ROM, cartridge ROM, cartridge RAM and
//! high RAM.

use vstd::prelude::*;
use crate::application_state::{RAMSize, ROMInformation};
use crate::fault::{ConfigError, Fault};
use crate::instructions::decode::{
    decode_instruction_at_address, DecodedInstruction, DecodedInstructionView,
};
use crate::machine::{Machine, MachineView};

verus! {

pub const HRAM_SIZE: usize = 0x7F;

/// The most bytes a boot ROM may hold.
pub const BOOT_ROM_MAX_SIZE: usize = 0x100;

pub struct Memory {
    pub boot_rom: Vec<u8>,
    pub game_rom: Vec<u8>,
    pub game_ram: Vec<u8>,
    pub hram: [u8; 0x7F],
}

pub ghost struct MemoryView {
    pub boot_rom: Seq<u8>,
    pub game_rom: Seq<u8>,
    pub game_ram: Seq<u8>,
    pub hram: Seq<u8>,
}

impl View for Memory {
    type V = MemoryView;

    open spec fn view(&self) -> MemoryView {
        MemoryView {
            boot_rom: self.boot_rom@,
            game_rom: self.game_rom@,
            game_ram: self.game_ram@,
            hram: self.hram@,
        }
    }
}

/// The number of bytes of external RAM of each supported kind; none for the
/// banked kinds.
pub open spec fn spec_ram_bytes(ram_size: RAMSize) -> Option<nat> {
    match ram_size {
        RAMSize::NoRAM => Some(0nat),
        RAMSize::Ram2kb => Some(0x800nat),
        RAMSize::Ram8kb => Some(0x2000nat),
        _ => None,
    }
}

/// The ROM given to `load_boot_rom`, or the refusal of one that is too large.
pub open spec fn spec_load_boot_rom(bytes: Seq<u8>) -> Result<Seq<u8>, ConfigError> {
    if bytes.len() > BOOT_ROM_MAX_SIZE {
        Err(ConfigError::BootRomTooLarge)
    } else {
        Ok(bytes)
    }
}

impl MemoryView {
    /// The memory of a machine that has not run yet.
    pub open spec fn spec_new(
        boot_rom: Seq<u8>,
        game_rom: Seq<u8>,
        rom_information: ROMInformation,
    ) -> Result<MemoryView, ConfigError> {
        match spec_ram_bytes(rom_information.ram_size) {
            None => Err(ConfigError::UnsupportedRamSize),
            Some(ram_bytes) => Ok(
                MemoryView {
                    boot_rom,
                    game_rom,
                    game_ram: Seq::new(ram_bytes, |i: int| 0u8),
                    hram: Seq::new(HRAM_SIZE as nat, |i: int| 0u8),
                },
            ),
        }
    }
}

impl Memory {
    /// External RAM is zeroed and sized by the cartridge header; the banked
    /// kinds are refused.
    pub fn new(boot_rom: Vec<u8>, game_rom: Vec<u8>, rom_information: &ROMInformation) -> (memory:
        Result<Self, ConfigError>)
        ensures
            match MemoryView::spec_new(boot_rom@, game_rom@, *rom_information) {
                Ok(view) => memory is Ok && memory->Ok_0@ == view,
                Err(error) => memory is Err && memory->Err_0 == error,
            },
    {
        let game_ram: Vec<u8> = match rom_information.ram_size {
            RAMSize::NoRAM => Vec::new(),
            RAMSize::Ram2kb => vec![0u8; 0x800],
            RAMSize::Ram8kb => vec![0u8; 0x2000],
            _ => {
                return Err(ConfigError::UnsupportedRamSize);
            },
        };
        let memory = Memory { boot_rom, game_rom, game_ram, hram: [0u8;0x7F] };
        assert(memory@.game_ram =~= Seq::new(
            spec_ram_bytes(rom_information.ram_size)->Some_0,
            |i: int| 0u8,
        ));
        assert(memory@.hram =~= Seq::new(HRAM_SIZE as nat, |i: int| 0u8));
        Ok(memory)
    }

    pub fn read_boot_rom(&self, address: u16) -> (byte: u8)
        requires
            address < self@.boot_rom.len(),
        ensures
            byte == self@.boot_rom[address as int],
    {
        self.boot_rom[address as usize]
    }
}

/// Accepts a boot ROM of at most 256 bytes.
pub fn load_boot_rom(bytes: Vec<u8>) -> (boot_rom: Result<Vec<u8>, ConfigError>)
    ensures
        match spec_load_boot_rom(bytes@) {
            Ok(accepted) => boot_rom is Ok && boot_rom->Ok_0@ == accepted,
            Err(error) => boot_rom is Err && boot_rom->Err_0 == error,
        },
{
    if bytes.len() > BOOT_ROM_MAX_SIZE {
        return Err(ConfigError::BootRomTooLarge);
    }
    Ok(bytes)
}

/// Reads the header of a cartridge image and hands the image back with what
/// the header says.
pub fn load_game_rom(bytes: Vec<u8>) -> (game_rom: Result<(Vec<u8>, ROMInformation), ConfigError>)
    ensures
        match crate::application_state::spec_rom_information(bytes@) {
            Ok(information) => game_rom is Ok && game_rom->Ok_0.0@ == bytes@ && game_rom->Ok_0.1
                == information,
            Err(error) => game_rom is Err && game_rom->Err_0 == error,
        },
{
    match ROMInformation::from_header(&bytes) {
        Ok(information) => Ok((bytes, information)),
        Err(error) => Err(error),
    }
}


impl Clone for Memory {
    fn clone(&self) -> (copy: Self)
        ensures
            copy@ == self@,
    {
        Memory {
            boot_rom: self.boot_rom.clone(),
            game_rom: self.game_rom.clone(),
            game_ram: self.game_ram.clone(),
            hram: self.hram,
        }
    }
}


/// The instructions decoded one after the other from `address` on, `how_many`
/// of them, or the fault of the first that could not be decoded.
pub open spec fn spec_decode_instructions_at(machine: MachineView, address: u16, how_many: nat) -> Result<
    Seq<DecodedInstructionView>,
    Fault,
>
    decreases how_many,
{
    if how_many == 0 {
        Ok(Seq::empty())
    } else {
        match DecodedInstructionView::spec_decode_at(machine, address) {
            Err(fault) => Err(fault),
            Ok(decoded) => match spec_decode_instructions_at(
                machine,
                address.wrapping_add(decoded.instruction_size as u16),
                (how_many - 1) as nat,
            ) {
                Err(fault) => Err(fault),
                Ok(rest) => Ok(seq![decoded] + rest),
            },
        }
    }
}

/// The views of a list of decoded instructions.
pub open spec fn spec_decoded_views(decoded: Seq<DecodedInstruction>) -> Seq<DecodedInstructionView> {
    Seq::new(decoded.len(), |i: int| decoded[i]@)
}

impl Memory {
    pub fn decode_instruction_at(machine: &Machine, address: u16) -> (decoded: Result<
        DecodedInstruction,
        Fault,
    >)
        ensures
            match DecodedInstructionView::spec_decode_at(machine@, address) {
                Ok(view) => decoded is Ok && decoded->Ok_0@ == view,
                Err(fault) => decoded is Err && decoded->Err_0 == fault,
            },
    {
        decode_instruction_at_address(machine, address)
    }

    /// Decodes `how_many` instructions that follow one another in memory.
    pub fn decode_instructions_at(machine: &Machine, address: u16, how_many: u8) -> (decoded: Result<
        Vec<DecodedInstruction>,
        Fault,
    >)
        ensures
            match spec_decode_instructions_at(machine@, address, how_many as nat) {
                Ok(views) => decoded is Ok && spec_decoded_views(decoded->Ok_0@) == views,
                Err(fault) => decoded is Err && decoded->Err_0 == fault,
            },
        decreases how_many,
    {
        if how_many == 0 {
            let res: Vec<DecodedInstruction> = Vec::new();
            assert(spec_decoded_views(res@) =~= Seq::empty());
            return Ok(res);
        }
        let instr = decode_instruction_at_address(machine, address)?;
        let next = address.wrapping_add(instr.instruction_size as u16);
        let rest = Self::decode_instructions_at(machine, next, how_many - 1)?;
        let mut res: Vec<DecodedInstruction> = Vec::new();
        let ghost first = instr@;
        res.push(instr);
        let mut rest = rest;
        let ghost rest_views = spec_decoded_views(rest@);
        res.append(&mut rest);
        assert(spec_decoded_views(res@) =~= seq![first] + rest_views);
        Ok(res)
    }
}

} // verus!
