use yokoiboy::application_state::{step_machine, MapperType, RAMSize, ROMInformation};
use yokoiboy::cpu::interrupts::Interrupts;
use yokoiboy::cpu::timers::Timers;
use yokoiboy::fault::{ConfigError, Fault};
use yokoiboy::instructions::decode::decode_instruction_at_address;
use yokoiboy::instructions::type_def::{Immediate16, Instruction};
use yokoiboy::machine::Machine;
use yokoiboy::registers::{Flag, R16, R8};

fn machine_with_program(program: &[u8]) -> Machine {
    let mut rom = vec![0u8; 0x8000];
    rom[0x100..0x100 + program.len()].copy_from_slice(program);
    let mut machine = Machine::new(Vec::new(), rom, ROMInformation::new(), false).unwrap();
    machine.dmg_boot_rom = 1;
    machine.cpu.registers.pc = 0x100;
    machine.cpu.registers.sp = 0xFFFE;
    machine
}

fn mbc1_machine() -> Machine {
    let mut rom = vec![0u8; 4 * 0x4000];
    for bank in 0..4usize {
        for offset in 0..0x4000usize {
            rom[bank * 0x4000 + offset] = (bank as u8) << 6 | (offset as u8 & 0x3F);
        }
    }
    let information =
        ROMInformation { mapper_type: MapperType::MBC1, ram_size: RAMSize::Ram8kb, rom_banks: 4 };
    let mut machine = Machine::new(Vec::new(), rom, information, false).unwrap();
    machine.dmg_boot_rom = 1;
    machine
}

#[test]
fn load_increment_and_nop_take_sixteen_cycles() {
    let mut machine = machine_with_program(&[0x3E, 0x05, 0x3C, 0x00]);
    let mut costs = Vec::new();
    for _ in 0..3 {
        costs.push(step_machine(&mut machine).unwrap().t_cycles);
    }
    assert_eq!(costs, vec![8, 4, 4]);
    assert_eq!(machine.cpu.registers.read_a(), 0x06);
    assert!(!machine.cpu.registers.read_flag(Flag::Z));
    // The load takes two bytes, the increment and the NOP one each.
    assert_eq!(machine.cpu.registers.pc, 0x104);
    assert_eq!(machine.t_cycle_count, 16);
}

#[test]
fn add_sets_half_carry_out_of_bit_three() {
    let mut machine = machine_with_program(&[0xC6, 0x0F]);
    machine.cpu.registers.write_a(0x01);
    let step = step_machine(&mut machine).unwrap();
    assert_eq!(step.t_cycles, 8);
    assert_eq!(machine.cpu.registers.read_a(), 0x10);
    assert!(!machine.cpu.registers.read_flag(Flag::Z));
    assert!(!machine.cpu.registers.read_flag(Flag::N));
    assert!(machine.cpu.registers.read_flag(Flag::H));
    assert!(!machine.cpu.registers.read_flag(Flag::C));
    assert_eq!(machine.cpu.registers.read_f() & 0x0F, 0);
}

#[test]
fn subtracting_the_accumulator_from_itself_gives_zero() {
    for a in [0x00u8, 0x01, 0x0F, 0x10, 0x7F, 0x80, 0xFF] {
        let mut machine = machine_with_program(&[0x97]);
        machine.cpu.registers.write_a(a);
        step_machine(&mut machine).unwrap();
        assert_eq!(machine.cpu.registers.read_a(), 0);
        assert!(machine.cpu.registers.read_flag(Flag::Z));
        assert!(machine.cpu.registers.read_flag(Flag::N));
        assert!(!machine.cpu.registers.read_flag(Flag::H));
        assert!(!machine.cpu.registers.read_flag(Flag::C));
    }
}

#[test]
fn dispatch_serves_stat_before_timer() {
    let mut machine = machine_with_program(&[0x00]);
    machine.cpu.registers.pc = 0xC123;
    machine.cpu.registers.sp = 0xD000;
    machine.interrupts.interrupt_master_enable = true;
    machine.interrupts.interrupt_enable = 0x1F;
    machine.interrupts.interrupt_flag = 0x06;
    let cycles = Interrupts::handle_interrupts(&mut machine).unwrap();
    // The handler at 0x48 holds a NOP: 20 cycles of dispatch and 4 for it.
    assert_eq!(cycles, (24, 6));
    assert_eq!(machine.interrupts.interrupt_flag, 0x04);
    assert!(!machine.interrupts.interrupt_master_enable);
    assert_eq!(machine.cpu.registers.sp, 0xCFFE);
    assert_eq!(machine.read_u8(0xCFFF), Ok(0xC1));
    assert_eq!(machine.read_u8(0xCFFE), Ok(0x23));
    assert_eq!(machine.cpu.registers.pc, 0x49);
}

#[test]
fn dispatch_does_nothing_while_the_master_enable_is_off() {
    let mut machine = machine_with_program(&[0x00]);
    machine.interrupts.interrupt_enable = 0x1F;
    machine.interrupts.interrupt_flag = 0x1F;
    let cycles = Interrupts::handle_interrupts(&mut machine).unwrap();
    assert_eq!(cycles, (0, 0));
    assert_eq!(machine.interrupts.interrupt_flag, 0x1F);
    assert_eq!(machine.cpu.registers.pc, 0x100);
}

#[test]
fn timer_overflow_reloads_and_requests_once() {
    let mut timers = Timers::new();
    let mut interrupts = Interrupts::new();
    timers.write_u8(0xFF07, 0b101);
    timers.write_u8(0xFF06, 0x42);
    timers.write_u8(0xFF05, 0xFF);
    timers.ticks(&mut interrupts, 15);
    assert_eq!(timers.read_u8(0xFF05), 0xFF);
    assert_eq!(interrupts.interrupt_flag, 0);
    // The 16th dot wraps the counter to zero and requests the interrupt.
    timers.ticks(&mut interrupts, 1);
    assert_eq!(timers.read_u8(0xFF05), 0x00);
    assert!(timers.timer_counter_to_be_reloaded);
    assert_eq!(interrupts.interrupt_flag, 0b100);
    interrupts.interrupt_flag = 0;
    // The dot after it reloads the counter, and requests nothing.
    timers.ticks(&mut interrupts, 1);
    assert_eq!(timers.read_u8(0xFF05), 0x42);
    assert!(!timers.timer_counter_to_be_reloaded);
    assert_eq!(interrupts.interrupt_flag, 0);
    timers.ticks(&mut interrupts, 14);
    assert_eq!(interrupts.interrupt_flag, 0);
    assert_eq!(timers.read_u8(0xFF05), 0x42);
    timers.ticks(&mut interrupts, 1);
    assert_eq!(timers.read_u8(0xFF05), 0x43);
}

#[test]
fn timer_overflow_with_a_zero_modulo_requests_once() {
    let mut timers = Timers::new();
    let mut interrupts = Interrupts::new();
    timers.write_u8(0xFF07, 0b101);
    timers.write_u8(0xFF06, 0x00);
    timers.write_u8(0xFF05, 0xFF);
    timers.ticks(&mut interrupts, 16);
    assert_eq!(timers.read_u8(0xFF05), 0x00);
    assert_eq!(interrupts.interrupt_flag, 0b100);
    interrupts.interrupt_flag = 0;
    // The counter is reloaded with zero: that is no second overflow.
    timers.ticks(&mut interrupts, 15);
    assert_eq!(timers.read_u8(0xFF05), 0x00);
    assert_eq!(interrupts.interrupt_flag, 0);
    timers.ticks(&mut interrupts, 1);
    assert_eq!(timers.read_u8(0xFF05), 0x01);
    assert_eq!(interrupts.interrupt_flag, 0);
}

#[test]
fn divider_counts_every_256_dots_and_resets_after_the_instruction() {
    let mut timers = Timers::new();
    let mut interrupts = Interrupts::new();
    timers.ticks(&mut interrupts, 255);
    assert_eq!(timers.read_u8(0xFF04), 0);
    timers.ticks(&mut interrupts, 1);
    assert_eq!(timers.read_u8(0xFF04), 1);
    timers.write_u8(0xFF04, 0x99);
    assert_eq!(timers.read_u8(0xFF04), 1);
    timers.ticks(&mut interrupts, 4);
    assert_eq!(timers.read_u8(0xFF04), 0);
    assert_eq!(timers.divide_register_dots, 4);
}

#[test]
fn mbc1_bank_select_shows_the_bank_in_the_window() {
    let mut machine = mbc1_machine();
    machine.write_u8(0x2100, 0x02).unwrap();
    let raw = machine.cpu.memory.game_rom[2 * 0x4000];
    assert_eq!(machine.read_u8(0x4000), Ok(raw));
    assert_eq!(machine.read_u8(0x4005), Ok(machine.cpu.memory.game_rom[2 * 0x4000 + 5]));
    // No byte of ROM was written.
    assert_eq!(machine.cpu.memory.game_rom[0x2100], 0x00);
    assert_eq!(machine.read_u8(0x2100), Ok(0x00));
}

#[test]
fn mbc1_ram_answers_only_while_enabled() {
    let mut machine = mbc1_machine();
    machine.write_u8(0xA000, 0x55).unwrap();
    assert_eq!(machine.read_u8(0xA000), Ok(0xFF));
    machine.write_u8(0x0000, 0x0A).unwrap();
    machine.write_u8(0xA000, 0x55).unwrap();
    assert_eq!(machine.read_u8(0xA000), Ok(0x55));
    machine.write_u8(0x0000, 0x00).unwrap();
    assert_eq!(machine.read_u8(0xA000), Ok(0xFF));
}

#[test]
fn lcd_off_leaves_the_pipeline_alone() {
    let mut machine = machine_with_program(&[0x00]);
    assert_eq!(machine.ppu.lcd_control & 0x80, 0);
    let status = machine.ppu.lcd_status;
    for _ in 0..3 {
        machine
            .ppu
            .ticks(
                &mut machine.background_window_fetcher,
                &mut machine.interrupts,
                &mut machine.object_fetcher,
                &mut machine.pixel_fetcher,
                255,
            )
            .unwrap();
    }
    assert_eq!(machine.ppu.read_ly(), 0);
    assert_eq!(machine.ppu.lcd_status, status);
    assert_eq!(machine.ppu.scanline_dots, 0);
}

#[test]
fn a_scanline_takes_456_dots_and_a_frame_154_lines() {
    let mut machine = machine_with_program(&[0x00]);
    machine.write_u8(0xFF40, 0x80).unwrap();
    let mut tick = |machine: &mut Machine, dots: u32| {
        for _ in 0..dots {
            machine
                .ppu
                .tick(
                    &mut machine.background_window_fetcher,
                    &mut machine.object_fetcher,
                    &mut machine.interrupts,
                    &mut machine.pixel_fetcher,
                )
                .unwrap();
        }
    };
    tick(&mut machine, 455);
    assert_eq!(machine.ppu.read_ly(), 0);
    tick(&mut machine, 1);
    assert_eq!(machine.ppu.read_ly(), 1);
    tick(&mut machine, 143 * 456);
    assert_eq!(machine.ppu.read_ly(), 144);
    assert_eq!(machine.interrupts.interrupt_flag & 1, 1);
    tick(&mut machine, 9 * 456);
    assert_eq!(machine.ppu.read_ly(), 153);
    tick(&mut machine, 456);
    assert_eq!(machine.ppu.read_ly(), 0);
}

#[test]
fn background_queue_fills_eight_at_a_time() {
    let mut machine = machine_with_program(&[0x00]);
    machine.write_u8(0xFF40, 0x80).unwrap();
    let mut lengths = Vec::new();
    for _ in 0..120 {
        machine
            .ppu
            .tick(
                &mut machine.background_window_fetcher,
                &mut machine.object_fetcher,
                &mut machine.interrupts,
                &mut machine.pixel_fetcher,
            )
            .unwrap();
        lengths.push(machine.background_window_fetcher.fifo.len());
    }
    assert!(lengths.contains(&8));
    for pair in lengths.windows(2) {
        if pair[1] > pair[0] {
            assert_eq!((pair[0], pair[1]), (0, 8));
        }
    }
}

#[test]
fn decoded_sizes_match_the_raw_bytes() {
    for opcode in 0..=255u8 {
        let machine = machine_with_program(&[opcode, 0x12, 0x34]);
        let decoded = decode_instruction_at_address(&machine, 0x100).unwrap();
        assert!((1..=3).contains(&decoded.instruction_size));
        assert_eq!(decoded.raw.len(), decoded.instruction_size as usize);
        assert_eq!(decoded.raw[0], opcode);
        assert_eq!(decoded.address, 0x100);
    }
}

#[test]
fn decoding_reads_no_byte_past_the_instruction() {
    // A one-byte instruction in the last byte of high RAM: the byte after it
    // is the interrupt enable register, and the one after that wraps.
    let mut machine = machine_with_program(&[0x00]);
    machine.write_u8(0xFFFE, 0x00).unwrap();
    let decoded = decode_instruction_at_address(&machine, 0xFFFE).unwrap();
    assert_eq!(decoded.instruction, Instruction::NOP);
    assert_eq!(decoded.raw, vec![0x00]);
    // A one-byte instruction before an unmapped address decodes without fault.
    let short_rom = vec![0x3Cu8; 0x101];
    let mut machine = Machine::new(Vec::new(), short_rom, ROMInformation::new(), false).unwrap();
    machine.dmg_boot_rom = 1;
    let decoded = decode_instruction_at_address(&machine, 0x100).unwrap();
    assert_eq!(decoded.instruction, Instruction::INC_r8(R8::A));
    assert_eq!(
        decode_instruction_at_address(&machine, 0x101).err(),
        Some(Fault::UnmappedRead { address: 0x101 })
    );
}

#[test]
fn decoder_knows_the_operands() {
    let machine = machine_with_program(&[0x21, 0x34, 0x12, 0xCB, 0x7C, 0x20, 0xFE, 0xD3]);
    let decoded = decode_instruction_at_address(&machine, 0x100).unwrap();
    assert_eq!(
        decoded.instruction,
        Instruction::LD_r16_d16(R16::HL, Immediate16 { lower_byte: 0x34, higher_byte: 0x12 })
    );
    assert_eq!(decoded.instruction_size, 3);
    let decoded = decode_instruction_at_address(&machine, 0x103).unwrap();
    assert_eq!(decoded.instruction, Instruction::BIT_u3_r8(7, R8::H));
    assert_eq!(decoded.instruction_size, 2);
    let decoded = decode_instruction_at_address(&machine, 0x105).unwrap();
    assert_eq!(
        decoded.instruction,
        Instruction::JR_cc_i8(yokoiboy::conditions::Condition::NZ, -2)
    );
    let decoded = decode_instruction_at_address(&machine, 0x107).unwrap();
    assert_eq!(decoded.instruction, Instruction::Illegal(0xD3));
}

#[test]
fn program_counter_moves_past_the_instruction_or_to_the_target() {
    let mut machine = machine_with_program(&[0x01, 0x34, 0x12, 0xC3, 0x00, 0x02]);
    step_machine(&mut machine).unwrap();
    assert_eq!(machine.cpu.registers.pc, 0x103);
    assert_eq!(machine.cpu.registers.bc, 0x1234);
    step_machine(&mut machine).unwrap();
    assert_eq!(machine.cpu.registers.pc, 0x200);
}

#[test]
fn call_pushes_the_return_address_high_byte_first() {
    let mut machine = machine_with_program(&[0xCD, 0x00, 0x02]);
    machine.cpu.registers.sp = 0xD000;
    let step = step_machine(&mut machine).unwrap();
    assert_eq!(step.t_cycles, 24);
    assert_eq!(machine.cpu.registers.pc, 0x200);
    assert_eq!(machine.cpu.registers.sp, 0xCFFE);
    assert_eq!(machine.read_u8(0xCFFF), Ok(0x01));
    assert_eq!(machine.read_u8(0xCFFE), Ok(0x03));
}

#[test]
fn ei_takes_effect_one_instruction_late_and_di_at_once() {
    let mut machine = machine_with_program(&[0xFB, 0x00, 0xF3]);
    step_machine(&mut machine).unwrap();
    assert!(!machine.interrupts.interrupt_master_enable);
    step_machine(&mut machine).unwrap();
    assert!(machine.interrupts.interrupt_master_enable);
    step_machine(&mut machine).unwrap();
    assert!(!machine.interrupts.interrupt_master_enable);
}

#[test]
fn halted_cpu_idles_four_cycles_until_an_interrupt_is_pending() {
    let mut machine = machine_with_program(&[0x76, 0x3C]);
    step_machine(&mut machine).unwrap();
    assert!(machine.cpu.low_power_mode);
    let idle = step_machine(&mut machine).unwrap();
    assert_eq!(idle.t_cycles, 4);
    assert!(idle.instruction_executed.is_none());
    assert_eq!(machine.cpu.registers.pc, 0x101);
    machine.interrupts.interrupt_enable = 0x04;
    machine.interrupts.interrupt_flag = 0x04;
    let woken = step_machine(&mut machine).unwrap();
    assert!(woken.instruction_executed.is_some());
    assert!(!machine.cpu.low_power_mode);
    assert_eq!(machine.cpu.registers.read_a(), 1);
    assert_eq!(machine.t_cycle_count, 12);
}

#[test]
fn faults_name_what_went_wrong() {
    let mut machine = machine_with_program(&[0xD3]);
    assert_eq!(step_machine(&mut machine).err(), Some(Fault::IllegalOpcode { opcode: 0xD3 }));
    let mut machine = machine_with_program(&[0x00]);
    machine.write_u8(0xC000, 0x5A).unwrap();
    assert_eq!(machine.write_u8(0xE000, 1), Err(Fault::EchoRamWrite { address: 0xE000 }));
    assert_eq!(machine.read_u8(0xC000), Ok(0x5A));
    assert_eq!(machine.write_u8(0xFF44, 1), Err(Fault::LyWrite));
    assert_eq!(machine.write_u8(0xFF46, 0xE0), Err(Fault::DmaSourceOutOfRange { page: 0xE0 }));
    assert_eq!(machine.write_u8(0xFF51, 1), Err(Fault::UnmappedWrite { address: 0xFF51 }));
    assert_eq!(machine.read_u8(0xFF51), Err(Fault::UnmappedRead { address: 0xFF51 }));
    assert_eq!(machine.read_u8(0xA000), Err(Fault::UnmappedRead { address: 0xA000 }));
    machine.dmg_boot_rom = 0;
    let (sb, ram_enabled, bank) = (machine.sb, machine.is_ram_enabled, machine.loram_bank);
    assert_eq!(machine.write_u8(0x0010, 0x0A), Err(Fault::BootRomWrite { address: 0x0010 }));
    assert_eq!((machine.sb, machine.is_ram_enabled, machine.loram_bank), (sb, ram_enabled, bank));
}

#[test]
fn construction_refuses_what_is_not_supported() {
    let information = ROMInformation::new();
    assert_eq!(
        Machine::new(vec![0; 0x101], vec![0; 0x8000], information, false).err(),
        Some(ConfigError::BootRomTooLarge)
    );
    assert!(Machine::new(vec![0; 0x100], vec![0; 0x8000], information, false).is_ok());
    let other = ROMInformation { mapper_type: MapperType::Other, ..information };
    assert_eq!(
        Machine::new(Vec::new(), vec![0; 0x8000], other, false).err(),
        Some(ConfigError::UnsupportedMapper)
    );
    let banked = ROMInformation { ram_size: RAMSize::Ram4banks8kb, ..information };
    assert_eq!(
        Machine::new(Vec::new(), vec![0; 0x8000], banked, false).err(),
        Some(ConfigError::UnsupportedRamSize)
    );
}

#[test]
fn echo_ram_mirrors_work_ram_and_dma_fills_oam() {
    let mut machine = machine_with_program(&[0x00]);
    machine.write_u8(0xC123, 0x77).unwrap();
    machine.write_u8(0xDDFF, 0x78).unwrap();
    assert_eq!(machine.read_u8(0xE123), Ok(0x77));
    assert_eq!(machine.read_u8(0xFDFF), Ok(0x78));
    for offset in 0..0xA0u16 {
        machine.write_u8(0xC000 + offset, offset as u8 ^ 0x5A).unwrap();
    }
    machine.write_u8(0xFF46, 0xC0).unwrap();
    for offset in 0..0xA0u16 {
        assert_eq!(machine.read_u8(0xFE00 + offset), Ok(offset as u8 ^ 0x5A));
    }
}
