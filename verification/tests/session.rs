use yokoiboy::application_state::{
    is_breakpoint, run_frame, run_to_instruction, Action, ApplicationState, PreserveHistory,
    ROMInformation, CPU_SNAPS_CAPACITY, FRAME_T_CYCLES,
};
use yokoiboy::cpu::CPU;
use yokoiboy::fault::ConfigError;
use yokoiboy::instructions::decode::decode_instruction_at_address;
use yokoiboy::machine::Machine;
use yokoiboy::memory::Memory;
use yokoiboy::message::Message;
use yokoiboy::text::{hex_digit, hex_digit_lower};

fn cartridge(program: &[u8]) -> Vec<u8> {
    let mut rom = vec![0u8; 0x8000];
    rom[0x100..0x100 + program.len()].copy_from_slice(program);
    rom
}

fn session(program: &[u8], log: bool, breakpoints: Vec<u16>) -> ApplicationState {
    let mut state = ApplicationState::new(Vec::new(), cartridge(program), log, breakpoints).unwrap();
    let machine = state.current_machine();
    machine.dmg_boot_rom = 1;
    machine.cpu.registers.pc = 0x100;
    machine.cpu.registers.sp = 0xD000;
    state
}

#[test]
fn a_session_starts_with_one_machine_in_a_history_of_five() {
    let state = session(&[0x00], false, vec![0x150]);
    assert_eq!(state.snaps.len(), 1);
    assert_eq!(state.snaps.capacity(), CPU_SNAPS_CAPACITY);
    assert_eq!(state.current_machine_immut().cpu.registers.pc, 0x100);
    assert!(!state.paused);
    assert_eq!(state.display_breakpoint(0x150), "@");
    assert_eq!(state.display_breakpoint(0x151), "");
    assert!(is_breakpoint(&state.breakpoints, 0x150));
    assert_eq!(
        ApplicationState::new(vec![0; 0x200], cartridge(&[0x00]), false, Vec::new()).err(),
        Some(ConfigError::BootRomTooLarge)
    );
    assert_eq!(
        ApplicationState::new(Vec::new(), vec![0; 0x100], false, Vec::new()).err(),
        Some(ConfigError::HeaderTooShort)
    );
}

#[test]
fn stepping_with_history_pushes_a_copy_and_keeps_the_older_states() {
    let mut state = session(&[0x3C, 0x3C, 0x3C, 0x3C, 0x3C, 0x3C, 0x3C], false, Vec::new());
    for step in 1..=7u8 {
        let update = state.update(Message::RunNextInstruction).unwrap();
        assert_eq!(update.action, Action::Wait);
        assert_eq!(state.current_machine_immut().cpu.registers.read_a(), step);
        assert_eq!(state.snaps.len(), usize::min(step as usize + 1, 5));
    }
    let accumulators: Vec<u8> =
        state.snaps.iter().map(|machine| machine.cpu.registers.read_a()).collect();
    assert_eq!(accumulators, vec![7, 6, 5, 4, 3]);
}

#[test]
fn stepping_without_history_changes_the_current_machine_in_place() {
    let mut state = session(&[0x3C, 0x3C], false, Vec::new());
    let (line, step) =
        state.execute_one_instruction(PreserveHistory::DontPreserveHistory, 10).unwrap();
    assert!(line.is_none());
    let step = step.unwrap();
    assert_eq!(step.t_cycles, 4);
    assert_eq!(step.instruction_executed.address, 0x100);
    assert_eq!(state.snaps.len(), 1);
    assert_eq!(state.current_machine_immut().cpu.registers.pc, 0x101);
    state.execute_one_instruction(PreserveHistory::PreserveHistory, 10).unwrap();
    assert_eq!(state.snaps.len(), 2);
    let counters: Vec<u16> = state.snaps.iter().map(|machine| machine.cpu.registers.pc).collect();
    assert_eq!(counters, vec![0x102, 0x101]);
}

#[test]
fn a_run_stops_at_a_breakpoint_after_one_step_at_least() {
    // A loop of three NOPs and a jump back, with a breakpoint at its head.
    let mut state = session(&[0x00, 0x00, 0x00, 0xC3, 0x00, 0x01], false, vec![0x100]);
    let update = state.update(Message::BeginRunUntilBreakpoint).unwrap();
    assert_eq!(update.action, Action::Continue);
    assert_eq!(state.current_machine_immut().cpu.registers.pc, 0x101);
    let update = state.update(Message::ContinueRunUntilBreakpoint).unwrap();
    assert_eq!(update.action, Action::Wait);
    assert_eq!(state.current_machine_immut().cpu.registers.pc, 0x100);
    assert_eq!(state.current_machine_immut().t_cycle_count, 4 + 4 + 4 + 16);
    // At the breakpoint a continued run does not move.
    let update = state.update(Message::ContinueRunUntilBreakpoint).unwrap();
    assert_eq!(update.action, Action::Wait);
    assert_eq!(state.current_machine_immut().t_cycle_count, 28);
}

#[test]
fn a_run_without_breakpoints_ends_with_the_frame() {
    let mut state = session(&[0x18, 0xFE], false, Vec::new());
    let update = state.update(Message::ContinueRunUntilBreakpoint).unwrap();
    assert_eq!(update.action, Action::PresentFrameAndContinue);
    let spent = state.current_machine_immut().t_cycle_count;
    assert!(spent >= FRAME_T_CYCLES as u64 && spent < FRAME_T_CYCLES as u64 + 12);
    assert_eq!(state.snaps.len(), 1);
}

#[test]
fn pause_stops_a_run_and_quit_asks_to_leave() {
    let mut state = session(&[0x18, 0xFE], false, Vec::new());
    assert_eq!(state.update(Message::Pause).unwrap().action, Action::Wait);
    assert!(state.paused);
    let update = state.update(Message::ContinueRunUntilBreakpoint).unwrap();
    assert_eq!(update.action, Action::Wait);
    assert_eq!(state.current_machine_immut().t_cycle_count, 0);
    assert_eq!(state.update(Message::Quit).unwrap().action, Action::Exit);
    assert_eq!(state.update(Message::BeginRunUntilBreakpoint).unwrap().action, Action::Continue);
    assert!(!state.paused);
    assert_eq!(state.current_machine_immut().t_cycle_count, 12);
}

#[test]
fn a_halted_machine_spends_the_frame_idling() {
    let mut state = session(&[0x76], false, Vec::new());
    state.update(Message::BeginRunUntilBreakpoint).unwrap();
    let update = state.update(Message::ContinueRunUntilBreakpoint).unwrap();
    assert_eq!(update.action, Action::PresentFrameAndContinue);
    assert!(state.current_machine_immut().cpu.low_power_mode);
    assert!(state.current_machine_immut().t_cycle_count >= FRAME_T_CYCLES as u64);
    let mut machine = state.current_machine_immut().clone();
    let (instruction, cycles) = run_to_instruction(&mut machine, 3).unwrap();
    assert!(instruction.is_none());
    assert_eq!(cycles, 12);
}

#[test]
fn the_trace_log_has_one_line_per_instruction() {
    let mut state = session(&[0x3E, 0x05, 0x3C, 0x00], true, vec![0x104]);
    let first = state.update(Message::BeginRunUntilBreakpoint).unwrap();
    assert_eq!(
        first.log,
        vec![
            "A:00 F:00 B:00 C:00 D:00 E:00 H:00 L:00 SP:D000 PC:0100 PCMEM:3E,05,3C,00".to_string()
        ]
    );
    let rest = state.update(Message::ContinueRunUntilBreakpoint).unwrap();
    assert_eq!(
        rest.log,
        vec![
            "A:05 F:00 B:00 C:00 D:00 E:00 H:00 L:00 SP:D000 PC:0102 PCMEM:3C,00,00,00".to_string(),
            "A:06 F:00 B:00 C:00 D:00 E:00 H:00 L:00 SP:D000 PC:0103 PCMEM:00,00,00,00".to_string(),
        ]
    );
    assert_eq!(rest.action, Action::Wait);
    // No line while the boot ROM is mapped.
    let mut state = ApplicationState::new(vec![0x00; 4], cartridge(&[]), true, Vec::new()).unwrap();
    assert!(state.update(Message::BeginRunUntilBreakpoint).unwrap().log.is_empty());
}

#[test]
fn run_frame_reports_the_cycles_left() {
    let mut machine =
        Machine::new(Vec::new(), cartridge(&[0x00, 0x00, 0x00]), ROMInformation::new(), false)
            .unwrap();
    machine.dmg_boot_rom = 1;
    machine.cpu.registers.pc = 0x100;
    let mut log = Vec::new();
    let left = run_frame(&mut machine, &vec![0x102], false, false, 100, &mut log).unwrap();
    assert_eq!(left, 92);
    assert_eq!(machine.cpu.registers.pc, 0x102);
    let left = run_frame(&mut machine, &Vec::new(), true, false, 100, &mut log).unwrap();
    assert_eq!(left, 100);
    let left = run_frame(&mut machine, &Vec::new(), false, false, 6, &mut log).unwrap();
    assert_eq!(left, 0);
    assert_eq!(machine.cpu.registers.pc, 0x104);
    assert!(log.is_empty());
}

#[test]
fn instructions_read_as_text() {
    let program = [
        0x3E, 0x05, 0x20, 0xFE, 0x21, 0x34, 0x12, 0xCB, 0x7C, 0xE0, 0x47, 0xE8, 0xFE, 0xFE, 0x90,
        0xC4, 0x00, 0x02, 0x70, 0x0A, 0xD3, 0x76, 0xCB, 0x1E,
    ];
    let mut machine =
        Machine::new(Vec::new(), cartridge(&program), ROMInformation::new(), false).unwrap();
    machine.dmg_boot_rom = 1;
    let decoded = Memory::decode_instructions_at(&machine, 0x100, 13).unwrap();
    let texts: Vec<String> = decoded.iter().map(|d| d.as_string()).collect();
    assert_eq!(
        texts,
        vec![
            "LD A, 0x05 (= 5)",
            "JR NZ, -2 (=0x0102)",
            "LD HL 0x1234 (= 4660)",
            "BIT 7, H",
            "LD [0xFF47], A",
            "ADD SP, 0xFE",
            "CP A, 0x90 (= 144)",
            "CALL NZ, 0x0200",
            "LD [HL] B",
            "LD A [BC]",
            "ILLEGAL 0xD3",
            "HALT",
            "RR [HL]",
        ]
    );
    assert_eq!(decoded[2].display_raw(), "21 34 12 ");
    assert_eq!(decoded[1].resolve_relative(-2), 0x0102);
    assert_eq!(decoded[12].address, 0x116);
    let single = Memory::decode_instruction_at(&machine, 0x104).unwrap();
    assert_eq!(single.as_string(), decode_instruction_at_address(&machine, 0x104).unwrap().as_string());
    assert_eq!(machine.show_memory_row(0x0100), Ok("0100: 3E 05 20 FE  21 34 12 CB".to_string()));
    machine.write_u8(0xCAF3, 0x9A).unwrap();
    assert_eq!(machine.show_memory_row(0xCAF0), Ok("caf0: 00 00 00 9A  00 00 00 00".to_string()));
    assert!(machine.show_memory_row(0xABC0).is_err());
    machine.cpu.registers.af = 0xABC0;
    machine.cpu.registers.pc = 0x0104;
    assert_eq!(
        CPU::gbdoctor_string(&machine),
        Ok("A:AB F:C0 B:00 C:00 D:00 E:00 H:00 L:00 SP:0000 PC:0104 PCMEM:21,34,12,CB".to_string())
    );
    assert_eq!((hex_digit(10), hex_digit_lower(10), hex_digit_lower(9)), ("A", "a", "9"));
}

#[test]
fn accessors_reach_the_components() {
    let mut machine =
        Machine::new(Vec::new(), cartridge(&[0x00]), ROMInformation::new(), false).unwrap();
    machine.registers_mut().write_a(0x12);
    assert_eq!(machine.registers().read_a(), 0x12);
    assert_eq!(machine.cpu().registers().read_a(), 0x12);
    machine.cpu_mut().registers_mut().pc = 0x200;
    assert_eq!(machine.cpu.registers.pc, 0x200);
    machine.memory_mut().hram[0] = 7;
    assert_eq!(machine.memory().hram[0], 7);
    machine.cpu_mut().memory_mut().hram[1] = 8;
    assert_eq!(machine.cpu().memory().hram[1], 8);
    machine.timers_mut().timer_modulo = 9;
    assert_eq!(machine.timers().timer_modulo, 9);
    machine.ppu_mut().scx = 3;
    assert_eq!(machine.ppu().scx, 3);
    machine.pixel_fetcher_mut().switch_to_object_fifo();
    assert_eq!(
        machine.pixel_fetcher().fetching_for,
        yokoiboy::pixel_fetcher::FetchingFor::ObjectFIFO
    );
    machine.bgw_fetcher_mut().vram_tile_column = 4;
    assert_eq!(machine.bgw_fetcher().vram_tile_column, 4);
    machine.obj_fetcher_mut().pixel_index_in_row = 5;
    assert_eq!(machine.obj_fetcher().pixel_index_in_row, 5);
    let copy = machine.clone();
    machine.cpu.registers.pc = 0x300;
    assert_eq!(copy.cpu.registers.pc, 0x200);
    assert_eq!(copy.memory().hram[0], 7);
}
