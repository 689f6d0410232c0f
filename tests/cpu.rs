use m6502::bus::{Addressable, Bus, Ram};
use m6502::cpu::{Cpu, RESET_ADDRESS};
use m6502::inspect::CpuState;

const TEST_ROM_DATA: [u8; 0x10] = [
    0xa2, 0xff, 0x9a, 0x00, 0x00, 0x00, 0x00, 0x00, 0x00, 0x00, 0x00, 0x00, 0xf0, 0xff, 0x00, 0x00,
];

fn test_rom() -> Vec<u8> {
    // a page of ROM whose last bytes hold the reset code and the vectors
    let mut rom = vec![0x0; 0x100];
    for (i, b) in TEST_ROM_DATA.iter().enumerate() {
        rom[0x100 - TEST_ROM_DATA.len() + i] = *b;
    }
    rom
}

fn test_rom_start_of_data() -> u16 {
    0xffff - TEST_ROM_DATA.len() as u16 + 1
}

fn create_test_cpu() -> Cpu {
    let bus = Bus::new()
        .add_ram(Ram::default(), 0x0)
        .unwrap()
        .add_rom_at_end(&test_rom())
        .unwrap();
    Cpu::new(bus)
}

fn run_program(program: &[u8], steps: usize) -> (Cpu, Vec<Option<u16>>) {
    let mut cpu = create_test_cpu();
    cpu.load_program(0x1000, program);
    let mut cycles = Vec::new();
    for _ in 0..steps {
        cycles.push(cpu.fetch_and_execute());
    }
    (cpu, cycles)
}

fn state(cpu: &Cpu) -> CpuState {
    cpu.get_state()
}

#[test]
fn creation() {
    let cpu = create_test_cpu();
    assert_eq!(cpu.bus.read_address(RESET_ADDRESS), test_rom_start_of_data());
    assert_eq!(state(&cpu).program_counter, test_rom_start_of_data());
    assert_eq!(state(&cpu).stack_pointer, 0xfd);
    assert!(state(&cpu).status.irq_disable);
}

#[test]
fn load_program() {
    let mut cpu = create_test_cpu();

    let program = [0xa9, 0x01, 0x69, 0x02, 0x8d, 0x02];
    let load_address = 0xc000;

    cpu.load_program(load_address, &program);

    for (i, &byte) in program.iter().enumerate() {
        let data = cpu.bus.read_byte(load_address + i as u16);
        assert_eq!(byte, data);
    }
}

#[test]
fn verify_test_rom() {
    let cpu = create_test_cpu();

    let start_address: u16 = test_rom_start_of_data();
    let reset_vector = cpu.bus.read_address(RESET_ADDRESS);
    assert!(
        reset_vector == start_address,
        "Reset vector {:04x} does not match start of test ROM {:04x}",
        reset_vector,
        start_address
    );

    // ensure we start with LDX $ff, TXS
    assert_eq!(cpu.bus.read_byte(start_address), 0xa2);
    assert_eq!(cpu.bus.read_byte(start_address + 1), 0xff);
    assert_eq!(cpu.bus.read_byte(start_address + 2), 0x9a);

    // And the next byte should be a BRK
    assert_eq!(cpu.bus.read_byte(start_address + 3), 0x00);
}

#[test]
fn reset_code_sets_up_stack_then_halts() {
    let mut cpu = create_test_cpu();
    assert_eq!(cpu.fetch_and_execute(), Some(2));
    assert_eq!(cpu.fetch_and_execute(), Some(2));
    assert_eq!(state(&cpu).x_index, 0xff);
    assert_eq!(state(&cpu).stack_pointer, 0xff);
    assert_eq!(cpu.fetch_and_execute(), None);
}

#[test]
fn lda_adc_small_sum() {
    let (cpu, cycles) = run_program(&[0xa9, 0x01, 0x69, 0x02], 2);
    let s = state(&cpu);
    assert_eq!(cycles, vec![Some(2), Some(2)]);
    assert_eq!(s.accumulator, 0x03);
    assert!(!s.status.carry);
    assert!(!s.status.zero);
    assert!(!s.status.negative);
    assert!(!s.status.overflow);
    assert_eq!(s.program_counter, 0x1004);
}

#[test]
fn lda_adc_signed_overflow() {
    let (cpu, _) = run_program(&[0xa9, 0x80, 0x69, 0x80], 2);
    let s = state(&cpu);
    assert_eq!(s.accumulator, 0x00);
    assert!(s.status.carry);
    assert!(s.status.zero);
    assert!(s.status.overflow);
    assert!(!s.status.negative);
}

#[test]
fn adc_with_carry_in_wraps() {
    // SEC; LDA #$FF; ADC #$01 -> 0xFF + 0x01 + 1 = 0x101
    let (cpu, _) = run_program(&[0x38, 0xa9, 0xff, 0x69, 0x01], 3);
    let s = state(&cpu);
    assert_eq!(s.accumulator, 0x01);
    assert!(s.status.carry);
    assert!(!s.status.overflow);
}

#[test]
fn lda_cmp_less() {
    let (cpu, _) = run_program(&[0xa9, 0x01, 0xc9, 0x02], 2);
    let s = state(&cpu);
    assert_eq!(s.accumulator, 0x01);
    assert!(!s.status.carry);
    assert!(!s.status.zero);
    assert!(s.status.negative);
}

#[test]
fn cmp_equal_sets_carry_and_zero() {
    let (cpu, _) = run_program(&[0xa9, 0x42, 0xc9, 0x42], 2);
    let s = state(&cpu);
    assert!(s.status.carry);
    assert!(s.status.zero);
    assert!(!s.status.negative);
}

#[test]
fn sbc_borrows() {
    // SEC; LDA #$05; SBC #$06 -> 0xFF, carry clear, negative
    let (cpu, _) = run_program(&[0x38, 0xa9, 0x05, 0xe9, 0x06], 3);
    let s = state(&cpu);
    assert_eq!(s.accumulator, 0xff);
    assert!(!s.status.carry);
    assert!(s.status.negative);
    assert!(!s.status.overflow);
}

#[test]
fn store_and_increment_memory() {
    let (cpu, _) = run_program(&[0xa2, 0x03, 0x86, 0x10, 0xe6, 0x10], 3);
    let s = state(&cpu);
    assert_eq!(cpu.read_memory(0x0010), 0x04);
    assert!(!s.status.zero);
    assert!(!s.status.negative);
}

#[test]
fn taken_branch_across_page() {
    let mut cpu = create_test_cpu();
    // LDA #$00 at $10FA; BEQ +4 at $10FC, the next instruction is at $10FE
    cpu.load_program(0x10fa, &[0xa9, 0x00, 0xf0, 0x04]);
    assert_eq!(cpu.fetch_and_execute(), Some(2));
    assert_eq!(cpu.fetch_and_execute(), Some(4));
    assert_eq!(state(&cpu).program_counter, 0x1102);
}

#[test]
fn branch_not_taken_takes_base_cycles() {
    // LDA #$01; BEQ +4 -> not taken
    let (cpu, cycles) = run_program(&[0xa9, 0x01, 0xf0, 0x04], 2);
    assert_eq!(cycles[1], Some(2));
    assert_eq!(state(&cpu).program_counter, 0x1004);
}

#[test]
fn branch_offset_extremes() {
    // Z is clear at power-on, so BNE is taken
    let (cpu, cycles) = run_program(&[0xd0, 0x80], 1);
    assert_eq!(state(&cpu).program_counter, 0x1002 - 128);
    assert_eq!(cycles[0], Some(4));
    let (cpu, cycles) = run_program(&[0xd0, 0x7f], 1);
    assert_eq!(state(&cpu).program_counter, 0x1002 + 127);
    assert_eq!(cycles[0], Some(3));
}

#[test]
fn jsr_then_rts_returns_after_call() {
    let mut cpu = create_test_cpu();
    cpu.load_program(0x1010, &[0x60]);
    // JSR $1010; BRK
    cpu.load_program(0x1000, &[0x20, 0x10, 0x10, 0x00]);
    assert_eq!(cpu.fetch_and_execute(), Some(6));
    assert_eq!(state(&cpu).program_counter, 0x1010);
    assert_eq!(state(&cpu).stack_pointer, 0xfb);
    // the address of the last operand byte, high byte pushed first
    assert_eq!(cpu.read_memory(0x01fd), 0x10);
    assert_eq!(cpu.read_memory(0x01fc), 0x02);
    assert_eq!(cpu.fetch_and_execute(), Some(6));
    assert_eq!(state(&cpu).program_counter, 0x1003);
    assert_eq!(state(&cpu).stack_pointer, 0xfd);
}

#[test]
fn indirect_x_wraps_in_zero_page() {
    let mut cpu = create_test_cpu();
    cpu.bus.write_byte(0x00ff, 0x34);
    cpu.bus.write_byte(0x0000, 0x12);
    cpu.bus.write_byte(0x0100, 0x56);
    cpu.bus.write_byte(0x1234, 0x99);
    // LDX #$00; LDA ($FF,X)
    cpu.load_program(0x1000, &[0xa2, 0x00, 0xa1, 0xff]);
    cpu.fetch_and_execute();
    assert_eq!(cpu.fetch_and_execute(), Some(6));
    assert_eq!(state(&cpu).accumulator, 0x99);
}

#[test]
fn absolute_x_wraps_to_zero() {
    let mut cpu = create_test_cpu();
    cpu.bus.write_byte(0x0000, 0x42);
    // LDX #$01; LDA $FFFF,X
    cpu.load_program(0x1000, &[0xa2, 0x01, 0xbd, 0xff, 0xff]);
    cpu.fetch_and_execute();
    assert_eq!(cpu.fetch_and_execute(), Some(5));
    assert_eq!(state(&cpu).accumulator, 0x42);
}

#[test]
fn indexed_page_cross_costs_a_cycle() {
    // LDX #$10; LDA $10F8,X -> $1108, another page
    let (_, cycles) = run_program(&[0xa2, 0x10, 0xbd, 0xf8, 0x10], 2);
    assert_eq!(cycles[1], Some(5));
    // LDX #$01; LDA $1000,X -> same page
    let (_, cycles) = run_program(&[0xa2, 0x01, 0xbd, 0x00, 0x10], 2);
    assert_eq!(cycles[1], Some(4));
}

#[test]
fn stack_pointer_wraps_both_ways() {
    // LDX #$00; TXS; PHA
    let (cpu, _) = run_program(&[0xa2, 0x00, 0x9a, 0x48], 3);
    assert_eq!(state(&cpu).stack_pointer, 0xff);
    // LDX #$FF; TXS; PLA
    let (cpu, _) = run_program(&[0xa2, 0xff, 0x9a, 0x68], 3);
    assert_eq!(state(&cpu).stack_pointer, 0x00);
}

#[test]
fn pushes_stay_in_page_one() {
    // LDA #$77; LDX #$00; TXS; PHA; PHA
    let (cpu, _) = run_program(&[0xa9, 0x77, 0xa2, 0x00, 0x9a, 0x48, 0x48], 5);
    assert_eq!(cpu.read_memory(0x0100), 0x77);
    assert_eq!(cpu.read_memory(0x01ff), 0x77);
    assert_eq!(cpu.read_memory(0x0000), 0x00);
    assert_eq!(cpu.read_memory(0x0200), 0x00);
}

#[test]
fn php_plp_keep_break_and_bit5() {
    // SEC; PHP; CLC; PLA
    let (cpu, _) = run_program(&[0x38, 0x08, 0x18, 0x68], 4);
    let s = state(&cpu);
    // N V 1 B D I Z C = 0 0 1 1 0 1 0 1
    assert_eq!(s.accumulator, 0x35);
    // LDA #$00; PHA; PLP -> B and bit 5 stay as they were
    let (cpu, _) = run_program(&[0xa9, 0x00, 0x48, 0x28], 3);
    let s = state(&cpu);
    assert!(s.status.brk);
    assert!(s.status.ignored);
    assert!(!s.status.irq_disable);
    assert_eq!(s.status.as_byte() & 0x20, 0x20);
}

#[test]
fn transfers_leave_flags() {
    // LDA #$00 (Z set); LDX #$05 (Z clear); TAX -> X is 0, Z stays clear
    let (cpu, _) = run_program(&[0xa9, 0x00, 0xa2, 0x05, 0xaa], 3);
    let s = state(&cpu);
    assert_eq!(s.x_index, 0x00);
    assert!(!s.status.zero);
    // LDA #$05 (N clear); LDX #$80 (N set); TXS; TSX; TXA -> A is 0x80, N stays set
    let (cpu, _) = run_program(&[0xa9, 0x05, 0xa2, 0x80, 0x9a, 0xba, 0x8a], 5);
    assert_eq!(state(&cpu).accumulator, 0x80);
    assert_eq!(state(&cpu).stack_pointer, 0x80);
    assert!(state(&cpu).status.negative);
}

#[test]
fn shifts_and_rotates() {
    // LDA #$81; ASL A -> 0x02, C set
    let (cpu, _) = run_program(&[0xa9, 0x81, 0x0a], 2);
    assert_eq!(state(&cpu).accumulator, 0x02);
    assert!(state(&cpu).status.carry);
    // LDA #$81; LSR A -> 0x40, C set
    let (cpu, _) = run_program(&[0xa9, 0x81, 0x4a], 2);
    assert_eq!(state(&cpu).accumulator, 0x40);
    assert!(state(&cpu).status.carry);
    // SEC; LDA #$80; ROL A -> 0x01, C set
    let (cpu, _) = run_program(&[0x38, 0xa9, 0x80, 0x2a], 3);
    assert_eq!(state(&cpu).accumulator, 0x01);
    assert!(state(&cpu).status.carry);
    // SEC; LDA #$02; ROR A -> 0x81, C clear
    let (cpu, _) = run_program(&[0x38, 0xa9, 0x02, 0x6a], 3);
    assert_eq!(state(&cpu).accumulator, 0x81);
    assert!(!state(&cpu).status.carry);
}

#[test]
fn bit_test_flags() {
    let mut cpu = create_test_cpu();
    cpu.bus.write_byte(0x0020, 0xc0);
    // LDA #$01; BIT $20
    cpu.load_program(0x1000, &[0xa9, 0x01, 0x24, 0x20]);
    cpu.fetch_and_execute();
    cpu.fetch_and_execute();
    let s = state(&cpu);
    assert!(s.status.zero);
    assert!(s.status.negative);
    assert!(s.status.overflow);
    assert_eq!(s.accumulator, 0x01);
}

#[test]
fn undefined_opcode_stops() {
    let (cpu, cycles) = run_program(&[0x02], 1);
    assert_eq!(cycles[0], None);
    assert_eq!(state(&cpu).program_counter, 0x1000);
}

#[test]
fn brk_pushes_and_jumps_through_nmi_vector() {
    let (cpu, cycles) = run_program(&[0x00], 1);
    assert_eq!(cycles[0], None);
    let s = state(&cpu);
    assert_eq!(s.stack_pointer, 0xfa);
    assert_eq!(cpu.read_memory(0x01fd), 0x10);
    assert_eq!(cpu.read_memory(0x01fc), 0x02);
    assert_eq!(cpu.read_memory(0x01fb) & 0x30, 0x30);
    assert!(s.status.brk);
    assert_eq!(s.program_counter, 0x0000);
}

#[test]
fn interrupts_and_return() {
    let mut cpu = create_test_cpu();
    // CLI; NOP
    cpu.load_program(0x1000, &[0x58, 0xea]);
    cpu.fetch_and_execute();
    cpu.execute_irq();
    let s = state(&cpu);
    assert_eq!(s.program_counter, 0x0000);
    assert_eq!(s.stack_pointer, 0xfa);
    assert_eq!(cpu.read_memory(0x01fb) & 0x10, 0);
    // an RTI at the handler returns to $1001
    cpu.bus.write_byte(0x0000, 0x40);
    cpu.fetch_and_execute();
    assert_eq!(state(&cpu).program_counter, 0x1001);
    assert_eq!(state(&cpu).stack_pointer, 0xfd);
    assert!(!state(&cpu).status.brk);

    // with interrupts masked an IRQ is ignored, an NMI is not
    let mut cpu = create_test_cpu();
    cpu.load_program(0x1000, &[0xea]);
    cpu.execute_irq();
    assert_eq!(state(&cpu).program_counter, 0x1000);
    cpu.execute_nmi();
    assert_eq!(state(&cpu).program_counter, 0x0000);
}

#[test]
fn runaway_program_counter_stops() {
    let mut cpu = create_test_cpu();
    // JMP $FFFA
    cpu.load_program(0x1000, &[0x4c, 0xfa, 0xff]);
    assert_eq!(cpu.fetch_and_execute(), None);
}

#[test]
fn lda_absolute_y_decodes_and_crosses_page() {
    let mut cpu = create_test_cpu();
    cpu.bus.write_byte(0x2100, 0x5a);
    // LDY #$10; LDA $20F0,Y -> $2100, another page
    cpu.load_program(0x1000, &[0xa0, 0x10, 0xb9, 0xf0, 0x20]);
    cpu.fetch_and_execute();
    assert_eq!(cpu.fetch_and_execute(), Some(5));
    assert_eq!(state(&cpu).accumulator, 0x5a);
}

#[test]
fn stack_helpers_stay_in_page_one() {
    let mut cpu = create_test_cpu();
    // LDX #$00; TXS
    cpu.load_program(0x1000, &[0xa2, 0x00, 0x9a]);
    cpu.fetch_and_execute();
    cpu.fetch_and_execute();
    cpu.push_stack(0x66);
    assert_eq!(state(&cpu).stack_pointer, 0xff);
    assert_eq!(cpu.read_memory(0x0100), 0x66);
    assert_eq!(cpu.pull_stack(), 0x66);
    assert_eq!(state(&cpu).stack_pointer, 0x00);
}
