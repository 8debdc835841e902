use yokoiboy::application_state::{step_machine, ROMInformation};
use yokoiboy::fault::Fault;
use yokoiboy::instructions::semantics::{
    add_produces_carry, as_u8, bit_reset, bit_set, rotate_left, rotate_left_through_carry,
    rotate_right, rotate_right_through_carry, shift_right_arithmetically, shift_right_logically,
    sub_borrows, swap,
};
use yokoiboy::instructions::type_def::{Immediate16, Instruction};
use yokoiboy::machine::Machine;
use yokoiboy::registers::{Flag, R16, R8};

fn machine_at(program: &[u8]) -> Machine {
    let mut rom = vec![0u8; 0x8000];
    rom[0x100..0x100 + program.len()].copy_from_slice(program);
    let mut machine = Machine::new(Vec::new(), rom, ROMInformation::new(), false).unwrap();
    machine.dmg_boot_rom = 1;
    machine.cpu.registers.pc = 0x100;
    machine.cpu.registers.sp = 0xD000;
    machine
}

fn flags(machine: &Machine) -> (bool, bool, bool, bool) {
    let registers = &machine.cpu.registers;
    (
        registers.read_flag(Flag::Z),
        registers.read_flag(Flag::N),
        registers.read_flag(Flag::H),
        registers.read_flag(Flag::C),
    )
}

#[test]
fn carries_and_borrows_at_each_width() {
    assert!(add_produces_carry(0x0F, 0x01, false, 4));
    assert!(!add_produces_carry(0x0E, 0x01, false, 4));
    assert!(add_produces_carry(0x0E, 0x01, true, 4));
    assert!(add_produces_carry(0xFF, 0x01, false, 8));
    assert!(!add_produces_carry(0x1F0, 0x0F, false, 8));
    assert!(add_produces_carry(0x0FFF, 0x0001, false, 12));
    assert!(add_produces_carry(0xFFFF, 0x0001, false, 16));
    assert!(!add_produces_carry(0xFFFE, 0x0001, false, 16));
    assert!(sub_borrows(0x10, 0x01, false, 4));
    assert!(!sub_borrows(0x11, 0x01, false, 4));
    assert!(sub_borrows(0x11, 0x01, true, 4));
    assert!(sub_borrows(0x00, 0x01, false, 8));
    assert!(!sub_borrows(0x100, 0x100, false, 8));
    assert_eq!(as_u8(-2), 0xFE);
    assert_eq!(as_u8(127), 0x7F);
    assert_eq!(as_u8(-128), 0x80);
}

#[test]
fn adc_adds_the_carry_and_sets_both_carries() {
    let mut machine = machine_at(&[0xCE, 0x0F]);
    machine.cpu.registers.write_a(0xF0).set_flag(Flag::C);
    assert_eq!(step_machine(&mut machine).unwrap().t_cycles, 8);
    assert_eq!(machine.cpu.registers.read_a(), 0x00);
    assert_eq!(flags(&machine), (true, false, true, true));
}

#[test]
fn sbc_subtracts_the_borrow() {
    let mut machine = machine_at(&[0xDE, 0x01]);
    machine.cpu.registers.write_a(0x10).set_flag(Flag::C);
    step_machine(&mut machine).unwrap();
    assert_eq!(machine.cpu.registers.read_a(), 0x0E);
    assert_eq!(flags(&machine), (false, true, true, false));
}

#[test]
fn compare_changes_the_flags_only() {
    let mut machine = machine_at(&[0xFE, 0x20]);
    machine.cpu.registers.write_a(0x10);
    step_machine(&mut machine).unwrap();
    assert_eq!(machine.cpu.registers.read_a(), 0x10);
    assert_eq!(flags(&machine), (false, true, false, true));
}

#[test]
fn logic_operations_set_their_fixed_flags() {
    let mut machine = machine_at(&[0xE6, 0x0F, 0xF6, 0xF0, 0xEE, 0xFF]);
    machine.cpu.registers.write_a(0xF0).set_flag(Flag::C);
    step_machine(&mut machine).unwrap();
    assert_eq!(machine.cpu.registers.read_a(), 0x00);
    assert_eq!(flags(&machine), (true, false, true, false));
    step_machine(&mut machine).unwrap();
    assert_eq!(machine.cpu.registers.read_a(), 0xF0);
    assert_eq!(flags(&machine), (false, false, false, false));
    step_machine(&mut machine).unwrap();
    assert_eq!(machine.cpu.registers.read_a(), 0x0F);
    assert_eq!(flags(&machine), (false, false, false, false));
}

#[test]
fn increment_and_decrement_keep_the_carry() {
    let mut machine = machine_at(&[0x04, 0x05, 0x05]);
    machine.cpu.registers.write_b(0xFF).set_flag(Flag::C);
    assert_eq!(step_machine(&mut machine).unwrap().t_cycles, 4);
    assert_eq!(machine.cpu.registers.read_b(), 0x00);
    assert_eq!(flags(&machine), (true, false, true, true));
    step_machine(&mut machine).unwrap();
    assert_eq!(machine.cpu.registers.read_b(), 0xFF);
    assert_eq!(flags(&machine), (false, true, true, true));
    step_machine(&mut machine).unwrap();
    assert_eq!(machine.cpu.registers.read_b(), 0xFE);
    assert_eq!(flags(&machine), (false, true, false, true));
}

#[test]
fn sixteen_bit_add_carries_out_of_bits_11_and_15() {
    let mut machine = machine_at(&[0x09, 0x09]);
    machine.cpu.registers.hl = 0x0FFF;
    machine.cpu.registers.bc = 0x0001;
    machine.cpu.registers.set_flag(Flag::Z);
    assert_eq!(step_machine(&mut machine).unwrap().t_cycles, 8);
    assert_eq!(machine.cpu.registers.hl, 0x1000);
    assert_eq!(flags(&machine), (true, false, true, false));
    machine.cpu.registers.hl = 0xFFFF;
    step_machine(&mut machine).unwrap();
    assert_eq!(machine.cpu.registers.hl, 0x0000);
    assert_eq!(flags(&machine), (true, false, true, true));
}

#[test]
fn stack_pointer_arithmetic_uses_the_low_byte_for_flags() {
    let mut machine = machine_at(&[0xE8, 0xFF, 0xF8, 0x01]);
    machine.cpu.registers.sp = 0xD001;
    assert_eq!(step_machine(&mut machine).unwrap().t_cycles, 16);
    assert_eq!(machine.cpu.registers.sp, 0xD000);
    assert_eq!(flags(&machine), (false, false, true, true));
    machine.cpu.registers.sp = 0xD0FF;
    assert_eq!(step_machine(&mut machine).unwrap().t_cycles, 12);
    assert_eq!(machine.cpu.registers.hl, 0xD100);
    assert_eq!(machine.cpu.registers.sp, 0xD0FF);
    assert_eq!(flags(&machine), (false, false, true, true));
}

#[test]
fn decimal_adjust_after_an_addition() {
    let mut machine = machine_at(&[0xC6, 0x27, 0x27]);
    machine.cpu.registers.write_a(0x15);
    step_machine(&mut machine).unwrap();
    assert_eq!(machine.cpu.registers.read_a(), 0x3C);
    step_machine(&mut machine).unwrap();
    assert_eq!(machine.cpu.registers.read_a(), 0x42);
    assert!(!machine.cpu.registers.read_flag(Flag::C));
}

#[test]
fn rotations_move_the_bit_that_leaves_into_the_carry() {
    let mut machine = machine_at(&[0x00]);
    machine.cpu.registers.set_flag(Flag::C);
    assert_eq!(rotate_left_through_carry(&mut machine.cpu, 0x80), 0x01);
    assert_eq!(flags(&machine), (false, false, false, true));
    assert_eq!(rotate_left_through_carry(&mut machine.cpu, 0x00), 0x01);
    assert_eq!(flags(&machine), (false, false, false, false));
    assert_eq!(rotate_left(&mut machine.cpu, 0x81), 0x03);
    assert_eq!(flags(&machine), (false, false, false, true));
    assert_eq!(rotate_right(&mut machine.cpu, 0x01), 0x80);
    assert_eq!(flags(&machine), (false, false, false, true));
    assert_eq!(rotate_right_through_carry(&mut machine.cpu, 0x02), 0x81);
    assert_eq!(flags(&machine), (false, false, false, false));
    assert_eq!(shift_right_arithmetically(&mut machine.cpu, 0x81), 0xC0);
    assert_eq!(flags(&machine), (false, false, false, true));
    assert_eq!(shift_right_logically(&mut machine.cpu, 0x01), 0x00);
    assert_eq!(flags(&machine), (true, false, false, true));
    assert_eq!(swap(&mut machine.cpu, 0xA5), 0x5A);
    assert_eq!(flags(&machine), (false, false, false, false));
    assert_eq!(bit_set(0x00, 7), 0x80);
    assert_eq!(bit_reset(0xFF, 0), 0xFE);
}

#[test]
fn accumulator_rotations_clear_the_zero_flag() {
    let mut machine = machine_at(&[0x17, 0xCB, 0x17]);
    machine.cpu.registers.write_a(0x80);
    assert_eq!(step_machine(&mut machine).unwrap().t_cycles, 4);
    assert_eq!(machine.cpu.registers.read_a(), 0x00);
    assert_eq!(flags(&machine), (false, false, false, true));
    machine.cpu.registers.write_a(0x80).unset_flag(Flag::C);
    assert_eq!(step_machine(&mut machine).unwrap().t_cycles, 8);
    assert_eq!(machine.cpu.registers.read_a(), 0x00);
    assert_eq!(flags(&machine), (true, false, false, true));
}

#[test]
fn bit_test_sets_zero_when_the_bit_is_clear() {
    let mut machine = machine_at(&[0xCB, 0x7C, 0xCB, 0x46, 0xCB, 0xC6, 0xCB, 0x86]);
    machine.cpu.registers.hl = 0x80C0;
    machine.cpu.registers.set_flag(Flag::C);
    assert_eq!(step_machine(&mut machine).unwrap().t_cycles, 8);
    assert_eq!(flags(&machine), (false, false, true, true));
    machine.cpu.registers.hl = 0xC000;
    assert_eq!(step_machine(&mut machine).unwrap().t_cycles, 12);
    assert_eq!(flags(&machine), (true, false, true, true));
    assert_eq!(step_machine(&mut machine).unwrap().t_cycles, 16);
    assert_eq!(machine.read_u8(0xC000), Ok(0x01));
    assert_eq!(step_machine(&mut machine).unwrap().t_cycles, 16);
    assert_eq!(machine.read_u8(0xC000), Ok(0x00));
}

#[test]
fn push_and_pop_af_keep_only_the_flag_bits_of_f() {
    let mut machine = machine_at(&[0xF5, 0xC1, 0xC5, 0xF1]);
    machine.cpu.registers.af = 0x12FF;
    assert_eq!(step_machine(&mut machine).unwrap().t_cycles, 16);
    assert_eq!(machine.cpu.registers.sp, 0xCFFE);
    assert_eq!(machine.read_u8(0xCFFF), Ok(0x12));
    assert_eq!(machine.read_u8(0xCFFE), Ok(0xF0));
    assert_eq!(step_machine(&mut machine).unwrap().t_cycles, 12);
    assert_eq!(machine.cpu.registers.bc, 0x12F0);
    assert_eq!(machine.cpu.registers.sp, 0xD000);
    machine.cpu.registers.bc = 0x34FF;
    step_machine(&mut machine).unwrap();
    step_machine(&mut machine).unwrap();
    assert_eq!(machine.cpu.registers.af, 0x34F0);
}

#[test]
fn conditional_transfers_cost_more_when_taken() {
    let mut machine = machine_at(&[0x20, 0x02, 0x00, 0x00, 0x28, 0xFA, 0xC4, 0x00, 0x02]);
    assert_eq!(step_machine(&mut machine).unwrap().t_cycles, 12);
    assert_eq!(machine.cpu.registers.pc, 0x104);
    assert_eq!(step_machine(&mut machine).unwrap().t_cycles, 8);
    assert_eq!(machine.cpu.registers.pc, 0x106);
    assert_eq!(step_machine(&mut machine).unwrap().t_cycles, 24);
    assert_eq!(machine.cpu.registers.pc, 0x200);
    machine.cpu.registers.set_flag(Flag::Z);
    machine.cpu.registers.pc = 0x104;
    assert_eq!(step_machine(&mut machine).unwrap().t_cycles, 12);
    assert_eq!(machine.cpu.registers.pc, 0x100);
    machine.cpu.registers.pc = 0x106;
    assert_eq!(step_machine(&mut machine).unwrap().t_cycles, 12);
    assert_eq!(machine.cpu.registers.pc, 0x109);
}

#[test]
fn return_pops_the_address_and_reti_enables_interrupts() {
    let mut machine = machine_at(&[0xC9]);
    machine.cpu.registers.sp = 0xCFFE;
    machine.write_u8(0xCFFE, 0x34).unwrap();
    machine.write_u8(0xCFFF, 0x12).unwrap();
    assert_eq!(step_machine(&mut machine).unwrap().t_cycles, 16);
    assert_eq!(machine.cpu.registers.pc, 0x1234);
    assert_eq!(machine.cpu.registers.sp, 0xD000);
    let mut machine = machine_at(&[0xD9, 0xC0, 0xC8]);
    machine.cpu.registers.sp = 0xCFFE;
    machine.write_u8(0xCFFE, 0x01).unwrap();
    machine.write_u8(0xCFFF, 0x01).unwrap();
    step_machine(&mut machine).unwrap();
    assert!(machine.interrupts.interrupt_master_enable);
    assert_eq!(machine.cpu.registers.pc, 0x0101);
    machine.cpu.registers.set_flag(Flag::Z);
    assert_eq!(step_machine(&mut machine).unwrap().t_cycles, 8);
    assert_eq!(machine.cpu.registers.pc, 0x0102);
    machine.cpu.registers.sp = 0xCFFE;
    assert_eq!(step_machine(&mut machine).unwrap().t_cycles, 20);
    assert_eq!(machine.cpu.registers.pc, 0x0101);
}

#[test]
fn restart_calls_its_vector() {
    let mut machine = machine_at(&[0xEF]);
    assert_eq!(step_machine(&mut machine).unwrap().t_cycles, 16);
    assert_eq!(machine.cpu.registers.pc, 0x0028);
    assert_eq!(machine.read_u8(0xCFFE), Ok(0x01));
    assert_eq!(machine.read_u8(0xCFFF), Ok(0x01));
}

#[test]
fn loads_move_bytes_between_registers_and_memory() {
    let mut machine = machine_at(&[
        0x21, 0x00, 0xC0, 0x36, 0x42, 0x7E, 0x22, 0x2B, 0x3A, 0xE0, 0x80, 0xF0, 0x80, 0xEA, 0x10,
        0xC0, 0xFA, 0x10, 0xC0, 0x08, 0x20, 0xC0, 0xF9, 0x47,
    ]);
    let costs: Vec<u128> =
        (0..13).map(|_| step_machine(&mut machine).unwrap().t_cycles).collect();
    assert_eq!(costs, vec![12, 12, 8, 8, 8, 8, 12, 12, 16, 16, 20, 8, 4]);
    assert_eq!(machine.read_u8(0xC000), Ok(0x42));
    assert_eq!(machine.read_u8(0xFF80), Ok(0x42));
    assert_eq!(machine.read_u8(0xC010), Ok(0x42));
    assert_eq!(machine.read_u8(0xC020), Ok(0x00));
    assert_eq!(machine.read_u8(0xC021), Ok(0xD0));
    assert_eq!(machine.cpu.registers.sp, 0xBFFF);
    assert_eq!(machine.cpu.registers.hl, 0xBFFF);
    assert_eq!(machine.cpu.registers.read_b(), 0x42);
}

#[test]
fn instructions_without_semantics_are_told_apart_from_illegal_ones() {
    let mut machine = machine_at(&[0x00]);
    assert_eq!(Instruction::JR_r8(R8::A).execute(&mut machine), Err(Fault::NotImplemented));
    assert_eq!(Instruction::LD_H_mHL.execute(&mut machine), Err(Fault::NotImplemented));
    assert_eq!(Instruction::LD_L_mHL.execute(&mut machine), Err(Fault::NotImplemented));
    assert_eq!(
        Instruction::Illegal(0xFC).execute(&mut machine),
        Err(Fault::IllegalOpcode { opcode: 0xFC })
    );
}

#[test]
fn executing_an_instruction_value_matches_its_decoded_form() {
    let mut machine = machine_at(&[0x00]);
    let load = Instruction::LD_r16_d16(R16::DE, Immediate16::from_u16(0xBEEF));
    assert!(load.wf());
    assert_eq!(load.execute(&mut machine), Ok((12, 3)));
    assert_eq!(machine.cpu.registers.de, 0xBEEF);
    assert_eq!(machine.cpu.registers.read_d(), 0xBE);
    assert_eq!(machine.cpu.registers.read_e(), 0xEF);
    assert!(!Instruction::BIT_u3_r8(8, R8::A).wf());
    assert_eq!(Instruction::CPL.execute(&mut machine), Ok((4, 1)));
    assert_eq!(machine.cpu.registers.read_a(), 0xFF);
    assert_eq!(flags(&machine), (false, true, true, false));
    assert_eq!(Instruction::SCF.execute(&mut machine), Ok((4, 1)));
    assert_eq!(flags(&machine), (false, false, false, true));
    assert_eq!(Instruction::CCF.execute(&mut machine), Ok((4, 1)));
    assert_eq!(flags(&machine), (false, false, false, false));
}
