use yokoiboy::application_state::{MapperType, RAMSize, ROMInformation};
use yokoiboy::conditions::Condition;
use yokoiboy::cpu::interrupts::{
    interrupt_handler_offset, should_handle_interrupt, Interrupts,
};
use yokoiboy::cpu::timers::Timers;
use yokoiboy::cpu::CPU;
use yokoiboy::fault::ConfigError;
use yokoiboy::inputs::Inputs;
use yokoiboy::instructions::decode::{as_i8, decode_bytes, instruction_size};
use yokoiboy::instructions::type_def::{Immediate16, Instruction};
use yokoiboy::machine::{is_plain_register, Machine};
use yokoiboy::memory::{load_boot_rom, load_game_rom, Memory};
use yokoiboy::registers::{higher_u8, lower_u8, u16_from_u8s, Flag, Registers, R16, R8};
use yokoiboy::utils::{is_bit_set, set_bit, unset_bit, write_bit};

fn plain_machine() -> Machine {
    let mut machine =
        Machine::new(Vec::new(), vec![0u8; 0x8000], ROMInformation::new(), false).unwrap();
    machine.dmg_boot_rom = 1;
    machine
}

#[test]
fn bits_are_read_and_written_one_at_a_time() {
    assert!(is_bit_set(0b1000_0000, 7));
    assert!(!is_bit_set(0b0111_1111, 7));
    assert_eq!(write_bit(0x00, 3, true), 0x08);
    assert_eq!(write_bit(0xFF, 3, false), 0xF7);
    let mut value = 0x10;
    set_bit(&mut value, 0);
    assert_eq!(value, 0x11);
    unset_bit(&mut value, 4);
    assert_eq!(value, 0x01);
}

#[test]
fn register_halves_overlay_their_pairs() {
    let mut registers = Registers::new();
    registers.write_b(0x12).write_c(0x34).write_h(0xAB);
    assert_eq!(registers.bc, 0x1234);
    assert_eq!(registers.hl, 0xAB00);
    registers.write_r16(&R16::DE, 0xBEEF);
    assert_eq!(registers.read_r8(&R8::D), 0xBE);
    assert_eq!(registers.read_r8(&R8::E), 0xEF);
    registers.write_r8(&R8::L, 0xCD);
    assert_eq!(registers.read_r16(&R16::HL), 0xABCD);
    assert_eq!(u16_from_u8s(0x12, 0x34), 0x1234);
    assert_eq!(higher_u8(0x1234), 0x12);
    assert_eq!(lower_u8(0x1234), 0x34);
    assert!(registers.get_bit(&R8::H, &7));
    assert!(!registers.get_bit(&R8::H, &6));
}

#[test]
fn flags_live_in_the_upper_nibble_of_f() {
    let mut registers = Registers::new();
    registers.af = 0x120F;
    registers.set_flag(Flag::Z);
    assert_eq!(registers.af, 0x1280);
    registers.set_flag(Flag::C).set_flag(Flag::H);
    assert_eq!(registers.read_f(), 0xB0);
    registers.unset_flag(Flag::Z).write_flag(Flag::N, true);
    assert_eq!(registers.read_f(), 0x70);
    registers.znhc(true, false, false, true);
    assert_eq!(registers.read_f(), 0x90);
    assert_eq!(registers.read_a(), 0x12);
    assert_eq!(
        (Flag::Z.get_bit(), Flag::N.get_bit(), Flag::H.get_bit(), Flag::C.get_bit()),
        (7, 6, 5, 4)
    );
}

#[test]
fn conditions_test_zero_and_carry() {
    let mut cpu = CPU::new(Vec::new(), vec![0u8; 0x8000], &ROMInformation::new()).unwrap();
    assert!(Condition::NZ.holds(&cpu));
    assert!(Condition::NC.holds(&cpu));
    assert!(!Condition::Z.holds(&cpu));
    assert!(!Condition::C.holds(&cpu));
    cpu.registers.znhc(true, false, false, true);
    assert!(Condition::Z.holds(&cpu));
    assert!(Condition::C.holds(&cpu));
}

#[test]
fn joypad_keeps_its_lower_nibble() {
    let mut inputs = Inputs::new();
    inputs.inputs_register = 0x0F;
    inputs.write(0x30);
    assert_eq!(inputs.read(), 0x3F);
    inputs.write(0xC5);
    assert_eq!(inputs.read(), 0xCF);
}

#[test]
fn interrupts_are_served_lowest_bit_first() {
    let mut machine = plain_machine();
    machine.interrupts.interrupt_master_enable = true;
    machine.interrupts.interrupt_enable = 0xFF;
    for (flag, expected) in
        [(0x00u8, None), (0x01, Some(0)), (0x18, Some(3)), (0x10, Some(4)), (0xE0, None)]
    {
        machine.interrupts.interrupt_flag = flag;
        assert_eq!(should_handle_interrupt(&machine), expected);
        assert_eq!(Interrupts::is_interrupt_pending(&machine), expected.is_some());
    }
    machine.interrupts.interrupt_enable = 0x10;
    machine.interrupts.interrupt_flag = 0x1F;
    assert_eq!(should_handle_interrupt(&machine), Some(4));
    let handlers: Vec<u16> = (0..5).map(interrupt_handler_offset).collect();
    assert_eq!(handlers, vec![0x40, 0x48, 0x50, 0x58, 0x60]);
    let mut interrupts = Interrupts::new();
    interrupts.request_interrupt(2);
    interrupts.request_interrupt(0);
    assert_eq!(interrupts.interrupt_flag, 0b101);
    machine.request_interrupt(1);
    assert_eq!(machine.interrupts.interrupt_flag, 0x1F);
}

#[test]
fn timer_counts_at_each_of_its_four_rates() {
    for (control, dots) in [(0b100u8, 1024u32), (0b101, 16), (0b110, 64), (0b111, 256)] {
        let mut timers = Timers::new();
        let mut interrupts = Interrupts::new();
        timers.write_u8(0xFF07, control);
        assert_eq!(timers.get_timer_counter_threshold() as u32, dots);
        for _ in 0..dots - 1 {
            timers.tick(&mut interrupts);
        }
        assert_eq!(timers.read_u8(0xFF05), 0);
        timers.tick(&mut interrupts);
        assert_eq!(timers.read_u8(0xFF05), 1);
    }
    let mut timers = Timers::new();
    let mut interrupts = Interrupts::new();
    timers.write_u8(0xFF07, 0b001);
    timers.ticks(&mut interrupts, 200);
    timers.ticks(&mut interrupts, 200);
    assert_eq!(timers.read_u8(0xFF05), 0);
    assert_eq!(timers.read_u8(0xFF04), 1);
    assert_eq!(timers.read_u8(0xFF07), 0b001);
}

#[test]
fn header_bytes_become_the_cartridge_description() {
    let mut rom = vec![0u8; 0x150];
    rom[0x147] = 0x02;
    rom[0x148] = 0x03;
    rom[0x149] = 0x02;
    let (bytes, information) = load_game_rom(rom.clone()).unwrap();
    assert_eq!(bytes, rom);
    assert_eq!(
        information,
        ROMInformation { mapper_type: MapperType::MBC1, ram_size: RAMSize::Ram8kb, rom_banks: 16 }
    );
    rom[0x147] = 0x19;
    assert_eq!(ROMInformation::from_header(&rom).unwrap().mapper_type, MapperType::Other);
    rom[0x148] = 0x05;
    assert_eq!(load_game_rom(rom.clone()).err(), Some(ConfigError::UnhandledRomSize { byte: 5 }));
    rom[0x148] = 0x00;
    rom[0x149] = 0x06;
    assert_eq!(load_game_rom(rom.clone()).err(), Some(ConfigError::UnhandledRamSize { byte: 6 }));
    assert_eq!(load_game_rom(vec![0u8; 0x149]).err(), Some(ConfigError::HeaderTooShort));
    assert_eq!(load_boot_rom(vec![0u8; 0x100]), Ok(vec![0u8; 0x100]));
    assert_eq!(load_boot_rom(vec![0u8; 0x101]), Err(ConfigError::BootRomTooLarge));
}

#[test]
fn external_ram_is_sized_by_the_header() {
    let information = ROMInformation::new();
    let none = Memory::new(Vec::new(), Vec::new(), &information).unwrap();
    assert_eq!(none.game_ram.len(), 0);
    let small_info = ROMInformation { ram_size: RAMSize::Ram2kb, ..information };
    let small = Memory::new(vec![1, 2, 3], Vec::new(), &small_info).unwrap();
    assert_eq!(small.game_ram.len(), 0x800);
    assert_eq!(small.read_boot_rom(2), 3);
    let large_info = ROMInformation { ram_size: RAMSize::Ram8kb, ..information };
    assert_eq!(Memory::new(Vec::new(), Vec::new(), &large_info).unwrap().game_ram.len(), 0x2000);
    let mut machine = Machine::new(Vec::new(), vec![0u8; 0x8000], small_info, false).unwrap();
    machine.dmg_boot_rom = 1;
    machine.write_u8(0xA7FF, 9).unwrap();
    assert_eq!(machine.read_u8(0xA7FF), Ok(9));
    assert!(machine.write_u8(0xA800, 9).is_err());
    assert!(machine.read_u8(0xA800).is_err());
}

#[test]
fn boot_rom_overlays_the_cartridge_until_it_is_switched_off() {
    let mut rom = vec![0u8; 0x8000];
    rom[0x00] = 0xAA;
    rom[0x100] = 0xBB;
    let mut machine = Machine::new(vec![0x11; 0x100], rom, ROMInformation::new(), false).unwrap();
    assert!(machine.is_dmg_boot_rom_on());
    assert_eq!(machine.read_u8(0x0000), Ok(0x11));
    assert_eq!(machine.read_u8(0x0100), Ok(0xBB));
    machine.write_u8(0xFF50, 1).unwrap();
    assert!(!machine.is_dmg_boot_rom_on());
    assert_eq!(machine.read_u8(0x0000), Ok(0xAA));
    assert_eq!(machine.read_u8(0xFF50), Ok(1));
}

#[test]
fn io_registers_store_or_transform_what_is_written() {
    let mut machine = plain_machine();
    for address in [0xFF03u16, 0xFF08, 0xFF0E, 0xFF10, 0xFF26, 0xFF30, 0xFF3F, 0xFF4D, 0xFF70] {
        assert!(is_plain_register(address));
        machine.write_u8(address, 0xA5).unwrap();
        assert_eq!(machine.read_u8(address), Ok(0xA5));
    }
    machine.write_u8(0xFF75, 0xFF).unwrap();
    assert_eq!(machine.read_u8(0xFF75), Ok(0x07));
    machine.write_u8(0xFF74, 0x12).unwrap();
    assert_eq!(machine.read_u8(0xFF74), Ok(0xFF));
    assert_eq!(machine.read_u8(0xFF46), Ok(0xFF));
    assert_eq!(machine.read_u8(0xFEA0), Ok(0xFF));
    machine.write_u8(0xFEA0, 0x12).unwrap();
    machine.write_u8(0xFF7F, 0x12).unwrap();
    machine.write_u8(0xFF01, 0x41).unwrap();
    machine.write_u8(0xFF02, 0x81).unwrap();
    assert_eq!((machine.sb, machine.sc), (0x41, 0x81));
    machine.write_u8(0xFF0F, 0x1F).unwrap();
    machine.write_u8(0xFFFF, 0x15).unwrap();
    assert_eq!(machine.interrupts.interrupt_flag, 0x1F);
    assert_eq!(machine.read_u8(0xFFFF), Ok(0x15));
    machine.write_u8(0xFF42, 0x33).unwrap();
    machine.write_u8(0xFF47, 0xE4).unwrap();
    assert_eq!(machine.ppu.scy, 0x33);
    assert_eq!(machine.read_u8(0xFF47), Ok(0xE4));
    assert!(!is_plain_register(0xFF40));
    assert_eq!(machine.read_range(0xFFFE, 8).unwrap().len(), 2);
}

#[test]
fn mbc1_upper_bits_join_the_bank_in_rom_mode_only() {
    let mut rom = vec![0u8; 0x22 * 0x4000];
    rom[0x21 * 0x4000] = 0x21;
    rom[0x01 * 0x4000] = 0x01;
    let information =
        ROMInformation { mapper_type: MapperType::MBC1, ram_size: RAMSize::NoRAM, rom_banks: 0 };
    let mut machine = Machine::new(Vec::new(), rom, information, false).unwrap();
    machine.dmg_boot_rom = 1;
    assert_eq!(machine.read_u8(0x4000), Ok(0x01));
    machine.write_u8(0x4000, 0x01).unwrap();
    assert_eq!(machine.read_u8(0x4000), Ok(0x21));
    machine.write_u8(0x6000, 0x01).unwrap();
    assert_eq!(machine.read_u8(0x4000), Ok(0x01));
    machine.write_u8(0x6000, 0x00).unwrap();
    machine.write_u8(0x2000, 0x3F).unwrap();
    assert!(machine.read_u8(0x4000).is_err());
}

#[test]
fn opcode_fields_give_size_and_operation() {
    assert_eq!(instruction_size(0x00), 1);
    assert_eq!(instruction_size(0x10), 2);
    assert_eq!(instruction_size(0x08), 3);
    assert_eq!(instruction_size(0xCB), 2);
    assert_eq!(instruction_size(0xE8), 2);
    assert_eq!(instruction_size(0xFA), 3);
    assert_eq!(instruction_size(0xE2), 1);
    assert_eq!(as_i8(0x7F), 127);
    assert_eq!(as_i8(0x80), -128);
    assert_eq!(as_i8(0xFF), -1);
    assert_eq!(decode_bytes(0x76, 0, 0), Instruction::HALT);
    assert_eq!(decode_bytes(0x70, 0, 0), Instruction::LD_mr16_r8(R16::HL, R8::B));
    assert_eq!(decode_bytes(0x7E, 0, 0), Instruction::LD_r8_mr16(R8::A, R16::HL));
    assert_eq!(decode_bytes(0x0A, 0, 0), Instruction::LD_r8_mr16(R8::A, R16::BC));
    assert_eq!(decode_bytes(0x1A, 0, 0), Instruction::LD_r8_mr16(R8::A, R16::DE));
    assert_eq!(decode_bytes(0x96, 0, 0), Instruction::SUB_A_mHL);
    assert_eq!(decode_bytes(0xF1, 0, 0), Instruction::POP_r16(R16::AF));
    assert_eq!(
        decode_bytes(0x31, 0xFE, 0xFF),
        Instruction::LD_SP_u16(Immediate16 { lower_byte: 0xFE, higher_byte: 0xFF })
    );
    assert_eq!(
        decode_bytes(0x11, 0xFE, 0xFF),
        Instruction::LD_r16_d16(R16::DE, Immediate16 { lower_byte: 0xFE, higher_byte: 0xFF })
    );
    assert_eq!(decode_bytes(0xCB, 0x37, 0), Instruction::SWAP_r8(R8::A));
    assert_eq!(decode_bytes(0xCB, 0x9E, 0), Instruction::RES_u3_mHL(3));
    assert_eq!(decode_bytes(0xFF, 0, 0), Instruction::RST(Immediate16::from_u16(0x38)));
    assert_eq!(decode_bytes(0xDC, 0x34, 0x12), Instruction::CALL_cc_u16(
        Condition::C,
        Immediate16 { lower_byte: 0x34, higher_byte: 0x12 }
    ));
    let illegal: Vec<u8> =
        (0..=255u8).filter(|&op| matches!(decode_bytes(op, 0, 0), Instruction::Illegal(_))).collect();
    assert_eq!(illegal, vec![0xD3, 0xDB, 0xDD, 0xE3, 0xE4, 0xEB, 0xEC, 0xED, 0xF4, 0xFC, 0xFD]);
}
