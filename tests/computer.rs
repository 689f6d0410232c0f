use m6502::clock::{Clock, ClockMode};
use m6502::computer::{Computer, ComputerBuilder};
use m6502::inspect::ExecutedInstruction;
use m6502::instruction::{AddressMode, Instruction};

fn rom_with_reset_code() -> Vec<u8> {
    let mut rom = vec![0u8; 0x100];
    // LDX #$FF; TXS; BRK at $FFF0, reset vector at $FFFC
    rom[0xf0] = 0xa2;
    rom[0xf1] = 0xff;
    rom[0xf2] = 0x9a;
    rom[0xf3] = 0x00;
    rom[0xfc] = 0xf0;
    rom[0xfd] = 0xff;
    rom
}

fn speedy_computer() -> Computer {
    Computer::new()
        .with_rom(rom_with_reset_code())
        .with_clock(Clock::new(ClockMode::Speedy))
        .build()
        .unwrap()
}

#[test]
fn build_runs_reset_code() {
    let computer = speedy_computer();
    let s = computer.get_cpu_state();
    assert_eq!(s.x_index, 0xff);
    // TXS left $FF, then BRK pushed three bytes
    assert_eq!(s.stack_pointer, 0xfc);
    assert!(s.status.brk);
}

#[test]
fn build_rejects_small_or_unplaceable_rom() {
    let r = ComputerBuilder::new().with_rom(vec![0u8; 0x80]).build();
    assert_eq!(r.err(), Some("ROM is too small or not set".to_string()));
    let r = ComputerBuilder::default().build();
    assert!(r.is_err());
    let r = ComputerBuilder::new().with_rom(vec![0u8; 0x180]).build();
    assert!(r.is_err());
    let r = ComputerBuilder::new()
        .with_rom(rom_with_reset_code())
        .with_memory_size(0x150)
        .build();
    assert!(r.is_err());
}

#[test]
fn build_rejects_reset_code_that_never_halts() {
    let mut rom = rom_with_reset_code();
    // JMP $FFF0
    rom[0xf0] = 0x4c;
    rom[0xf1] = 0xf0;
    rom[0xf2] = 0xff;
    let r = Computer::new().with_rom(rom).with_clock(Clock::new(ClockMode::Speedy)).build();
    assert_eq!(r.err(), Some("ROM reset code does not halt".to_string()));
}

#[test]
fn run_program_to_brk() {
    let mut computer = speedy_computer();
    // LDA #$01; ADC #$02; STA $0200; BRK
    computer.load_program(0x1000, &[0xa9, 0x01, 0x69, 0x02, 0x8d, 0x00, 0x02, 0x00]);
    assert!(computer.run(100));
    assert_eq!(computer.get_cpu_state().accumulator, 0x03);
    let lines = computer.get_memory_lines(0x0200, 1, 16);
    assert_eq!(lines[0].0, 0x0200);
    assert_eq!(lines[0].1[0], 0x03);
}

#[test]
fn run_stops_after_step_budget() {
    let mut computer = speedy_computer();
    // JMP $1000
    computer.load_program(0x1000, &[0x4c, 0x00, 0x10]);
    assert!(!computer.run(50));
    assert_eq!(computer.get_cpu_state().program_counter, 0x1000);
}

#[test]
fn step_with_speedy_clock_never_sleeps() {
    let mut computer = speedy_computer();
    computer.load_program(0x1000, &[0xea, 0x00]);
    assert_eq!(computer.step(0), Some(0));
    assert_eq!(computer.step(0), None);
}

#[test]
fn step_with_normal_clock_paces() {
    let mut computer = Computer::new()
        .with_rom(rom_with_reset_code())
        .with_clock(Clock::new(ClockMode::Normal).with_clock_speed(1_000))
        .build()
        .unwrap();
    // NOP takes 2 cycles of 1 ms each
    computer.load_program(0x1000, &[0xea, 0xea, 0x00]);
    assert_eq!(computer.step(0), Some(2_000_000));
    // late: the clock re-anchors and asks for no sleep
    assert_eq!(computer.step(10_000_000), Some(0));
}

#[test]
fn memory_lines_are_aligned_windows() {
    let mut computer = speedy_computer();
    computer.load_program(0x1000, &[1, 2, 3, 4, 5, 6, 7, 8, 9]);
    let lines = computer.get_memory_lines(0x1000, 3, 4);
    assert_eq!(lines.len(), 3);
    assert_eq!(lines[0], (0x1000, vec![1, 2, 3, 4]));
    assert_eq!(lines[1], (0x1004, vec![5, 6, 7, 8]));
    assert_eq!(lines[2], (0x1008, vec![9, 0, 0, 0]));
    let tail = computer.get_memory_lines(0xfff0, 1, 16);
    assert_eq!(tail[0].1[12], 0xf0);
}

#[test]
fn bogus_record() {
    let r = ExecutedInstruction::bogus(0x1234, Instruction::NOP);
    assert_eq!(r.address, 0x1234);
    assert_eq!(r.instruction, Instruction::NOP);
    assert_eq!(r.address_mode, AddressMode::Implied);
    assert_eq!(r.operand_bytes, [0, 0]);
}

#[test]
fn disassembly_lists_until_undefined_opcode() {
    let mut computer = speedy_computer();
    // LDA #$01; STA $0200,X; JMP ($1234); BEQ +4; then an undefined opcode
    computer.load_program(
        0x1000,
        &[0xa9, 0x01, 0x9d, 0x00, 0x02, 0x6c, 0x34, 0x12, 0xf0, 0x04, 0x02, 0xea],
    );
    let listing = computer.disassemble(0x1000, 20);
    assert_eq!(
        listing,
        vec![
            (0x1000, "LDA #$01".to_string()),
            (0x1002, "STA $0200,X".to_string()),
            (0x1005, "JMP ($1234)".to_string()),
            (0x1008, "BEQ $04".to_string()),
            (0x100a, "U02".to_string()),
        ]
    );
    assert_eq!(
        computer.disassemble(0x1002, 2),
        vec![(0x1002, "STA $0200,X".to_string()), (0x1005, "JMP ($1234)".to_string())]
    );
    assert_eq!(computer.disassemble(0x1000, 0).len(), 0);
    assert_eq!(computer.address_opcode_to_string(0x100b), "NOP ".to_string());
}

#[test]
fn history_records_executed_instructions() {
    let mut computer = speedy_computer();
    // LDX #$05; LDA ($10),Y; BRK
    computer.load_program(0x1000, &[0xa2, 0x05, 0xb1, 0x10, 0x00]);
    assert!(computer.run(10));
    let history = computer.get_execution_history();
    let tail: Vec<(u16, String)> = history[history.len() - 2..].to_vec();
    assert_eq!(
        tail,
        vec![(0x1000, "LDX #$05".to_string()), (0x1002, "LDA ($10),Y".to_string())]
    );
}
