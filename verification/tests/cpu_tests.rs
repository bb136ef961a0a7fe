//! End-to-end tests of the CPU core on the flat test bus.

use rust_nes_emu::bus::Bus;
use rust_nes_emu::bus::TestBus;
use rust_nes_emu::cpu::CPU;
use rust_nes_emu::cpu::RunOutcome;

/// A CPU over a flat bus with `program` loaded at 0x8000 and the
/// reset vector pointing there, already reset.
fn cpu_with_program(program: &[u8]) -> CPU<TestBus> {
    let mut bus = TestBus::new();
    bus.load(program.to_vec());
    let mut cpu = CPU::new(bus);
    cpu.reset();
    cpu
}

fn carry(cpu: &CPU<TestBus>) -> u8 {
    cpu.get_carry_flag()
}

fn zero(cpu: &CPU<TestBus>) -> u8 {
    cpu.get_zero_flag()
}

fn negative(cpu: &CPU<TestBus>) -> u8 {
    cpu.get_negative_flag()
}

fn overflow(cpu: &CPU<TestBus>) -> u8 {
    cpu.get_overflow_flag()
}

#[test]
fn test_lda_immediate() {
    let mut cpu = cpu_with_program(&[0xA9, 0x05, 0x00]);
    let outcome = cpu.run(100);
    assert_eq!(outcome, RunOutcome::EndOfProgram);
    assert_eq!(cpu.register_a, 0x05);
    assert_eq!(zero(&cpu), 0);
    assert_eq!(negative(&cpu), 0);
    // The program counter has moved past the BRK byte.
    assert_eq!(cpu.program_counter, 0x8003);
}

#[test]
fn test_lda_immediate_zero_flag() {
    let mut cpu = cpu_with_program(&[0xA9, 0x00, 0x00]);
    cpu.run(100);
    assert_eq!(cpu.register_a, 0x00);
    assert_eq!(zero(&cpu), 1);
    assert_eq!(negative(&cpu), 0);
}

#[test]
fn test_lda_immediate_negative_flag() {
    let mut cpu = cpu_with_program(&[0xA9, 0x80, 0x00]);
    cpu.run(100);
    assert_eq!(cpu.register_a, 0x80);
    assert_eq!(zero(&cpu), 0);
    assert_eq!(negative(&cpu), 1);
}

#[test]
fn test_lda_tax_zero() {
    let mut cpu = cpu_with_program(&[0xA9, 0x00, 0xAA, 0x00]);
    cpu.run(100);
    assert_eq!(cpu.register_a, 0x00);
    assert_eq!(cpu.register_x, 0x00);
    assert_eq!(zero(&cpu), 1);
    assert_eq!(negative(&cpu), 0);
}

#[test]
fn test_inx_wraps_to_zero() {
    let mut cpu = cpu_with_program(&[0xA9, 0xFF, 0xAA, 0xE8, 0x00]);
    cpu.run(100);
    assert_eq!(cpu.register_x, 0x00);
    assert_eq!(zero(&cpu), 1);
    assert_eq!(negative(&cpu), 0);
}

#[test]
fn test_sta_then_lda_memory() {
    let mut cpu = cpu_with_program(&[0xA9, 0x10, 0x85, 0x20, 0xA5, 0x20, 0x00]);
    cpu.run(100);
    assert_eq!(cpu.register_a, 0x10);
    assert_eq!(cpu.mem_read(0x20), 0x10);
}

#[test]
fn test_adc_signed_overflow() {
    let mut cpu = cpu_with_program(&[0x18, 0xA9, 0x7F, 0x69, 0x01, 0x00]);
    cpu.run(100);
    assert_eq!(cpu.register_a, 0x80);
    assert_eq!(overflow(&cpu), 1);
    assert_eq!(negative(&cpu), 1);
    assert_eq!(carry(&cpu), 0);
    assert_eq!(zero(&cpu), 0);
}

#[test]
fn test_sbc_signed_overflow() {
    let mut cpu = cpu_with_program(&[0x38, 0xA9, 0x50, 0xE9, 0xB0, 0x00]);
    cpu.run(100);
    assert_eq!(cpu.register_a, 0xA0);
    assert_eq!(overflow(&cpu), 1);
    assert_eq!(carry(&cpu), 0);
    assert_eq!(negative(&cpu), 1);
    assert_eq!(zero(&cpu), 0);
}

#[test]
fn test_cmp_equal_after_lda() {
    let mut cpu = cpu_with_program(&[0xA9, 0x2A, 0xC9, 0x2A, 0x00]);
    cpu.run(100);
    assert_eq!(cpu.register_a, 0x2A);
    assert_eq!(carry(&cpu), 1);
    assert_eq!(zero(&cpu), 1);
    assert_eq!(negative(&cpu), 0);
}

#[test]
fn test_cmp_less_sets_negative() {
    // A = 3, compared with 5: no carry, not equal, bit 7 of 0xFE set.
    let mut cpu = cpu_with_program(&[0xA9, 0x03, 0xC9, 0x05, 0x00]);
    cpu.run(100);
    assert_eq!(carry(&cpu), 0);
    assert_eq!(zero(&cpu), 0);
    assert_eq!(negative(&cpu), 1);
}

#[test]
fn test_pha_lda_pla_round_trip() {
    let mut cpu = cpu_with_program(&[0xA9, 0x37, 0x48, 0xA9, 0x00, 0x68, 0x00]);
    cpu.run(100);
    assert_eq!(cpu.register_a, 0x37);
    assert_eq!(zero(&cpu), 0);
    assert_eq!(negative(&cpu), 0);
    assert_eq!(cpu.stack_pointer, 0x00);
}

#[test]
fn test_pha_decrements_stack_pointer() {
    let mut cpu = cpu_with_program(&[0xA9, 0x01, 0x48, 0x00]);
    cpu.run(100);
    // SP starts at 0 after reset and wraps to 0xFF on the push.
    assert_eq!(cpu.stack_pointer, 0xFF);
}

#[test]
fn test_pla_increments_stack_pointer() {
    let mut cpu = cpu_with_program(&[0x48, 0x68, 0x00]);
    cpu.run(100);
    assert_eq!(cpu.stack_pointer, 0x00);
}

#[test]
fn test_jmp_indirect_page_wrap_bug() {
    let mut cpu = cpu_with_program(&[0x6C, 0xFF, 0x10]);
    // Pointer 0x10FF: low target byte there, high byte from 0x1000
    // (same page), NOT from 0x1100.
    cpu.mem_write(0x10FF, 0x34);
    cpu.mem_write(0x1000, 0x12);
    cpu.mem_write(0x1100, 0x56);
    assert!(cpu.jmp_compat);
    cpu.next();
    assert_eq!(cpu.program_counter, 0x1234);
}

#[test]
fn test_jmp_indirect_without_compat() {
    let mut cpu = cpu_with_program(&[0x6C, 0xFF, 0x10]);
    cpu.mem_write(0x10FF, 0x34);
    cpu.mem_write(0x1000, 0x12);
    cpu.mem_write(0x1100, 0x56);
    cpu.jmp_compat = false;
    cpu.next();
    assert_eq!(cpu.program_counter, 0x5634);
}

#[test]
fn test_beq_sign_extended_offset() {
    // LDA #0 sets Z; BEQ with offset 0x80 moves 128 bytes back from
    // the byte after the operand (0x8004 - 0x80 = 0x7F84).
    let mut cpu = cpu_with_program(&[0xA9, 0x00, 0xF0, 0x80]);
    cpu.next();
    cpu.next();
    assert_eq!(cpu.program_counter, 0x7F84);
}

#[test]
fn test_branch_not_taken_advances_past_operand() {
    // LDA #1 clears Z; BEQ is not taken and execution continues at
    // the byte after the operand.
    let mut cpu = cpu_with_program(&[0xA9, 0x01, 0xF0, 0x10, 0x00]);
    cpu.next();
    cpu.next();
    assert_eq!(cpu.program_counter, 0x8004);
}

#[test]
fn test_lda_absolute_x_page_cross_cycles() {
    // LDX #$20; LDA $12F0,X crosses into 0x1310: 4 + 1 cycles.
    let mut cpu = cpu_with_program(&[0xA2, 0x20, 0xBD, 0xF0, 0x12, 0x00]);
    cpu.next();
    let r = cpu.next();
    assert_eq!(r.cycles, 5);
}

#[test]
fn test_lda_absolute_x_no_page_cross_cycles() {
    // LDX #$0F; LDA $12F0,X stays in page 0x12xx: 4 cycles.
    let mut cpu = cpu_with_program(&[0xA2, 0x0F, 0xBD, 0xF0, 0x12, 0x00]);
    cpu.next();
    let r = cpu.next();
    assert_eq!(r.cycles, 4);
}

#[test]
fn test_lda_indirect_y_page_cross_cycles() {
    // LDY #$20; LDA ($40),Y with pointer 0x12F0: 5 + 1 cycles.
    let mut cpu = cpu_with_program(&[0xA0, 0x20, 0xB1, 0x40, 0x00]);
    cpu.mem_write(0x40, 0xF0);
    cpu.mem_write(0x41, 0x12);
    cpu.next();
    let r = cpu.next();
    assert_eq!(r.cycles, 6);
    assert_eq!(cpu.register_a, cpu.mem_read(0x1310));
}

#[test]
fn test_lda_immediate_cycles() {
    let mut cpu = cpu_with_program(&[0xA9, 0x05, 0x00]);
    let r = cpu.next();
    assert_eq!(r.cycles, 2);
    assert!(!r.end_of_program);
    let r = cpu.next();
    assert!(r.end_of_program);
    assert_eq!(r.cycles, 7);
}

#[test]
fn test_jsr_rts() {
    // JSR $8006; BRK at 0x8003; subroutine at 0x8006 is RTS.
    let mut cpu = cpu_with_program(&[0x20, 0x06, 0x80, 0x00, 0x00, 0x00, 0x60]);
    let outcome = cpu.run(100);
    assert_eq!(outcome, RunOutcome::EndOfProgram);
    assert_eq!(cpu.program_counter, 0x8004);
    assert_eq!(cpu.stack_pointer, 0x00);
}

#[test]
fn test_jsr_pushes_return_address_minus_one() {
    let mut cpu = cpu_with_program(&[0x20, 0x06, 0x80]);
    cpu.next();
    // SP started at 0: high byte at 0x0100, low byte at 0x01FF.
    assert_eq!(cpu.mem_read(0x0100), 0x80);
    assert_eq!(cpu.mem_read(0x01FF), 0x02);
    assert_eq!(cpu.program_counter, 0x8006);
}

#[test]
fn test_php_forces_break_flag_in_pushed_copy() {
    let mut cpu = cpu_with_program(&[0x08, 0x00]);
    cpu.run(100);
    assert_eq!(cpu.mem_read(0x0100), 0x10);
    // The live status register itself keeps the break flag clear.
    assert_eq!(cpu.status & 0x10, 0x00);
}

#[test]
fn test_plp_keeps_internal_break_bits() {
    // LDA #$CF; PHA; PLP: bits 4 and 5 of the popped byte are
    // discarded, the internal ones (0) kept.
    let mut cpu = cpu_with_program(&[0xA9, 0xCF, 0x48, 0x28, 0x00]);
    cpu.run(100);
    assert_eq!(cpu.status, 0xCF);
}

#[test]
fn test_asl_accumulator() {
    let mut cpu = cpu_with_program(&[0xA9, 0x81, 0x0A, 0x00]);
    cpu.run(100);
    assert_eq!(cpu.register_a, 0x02);
    assert_eq!(carry(&cpu), 1);
}

#[test]
fn test_ror_accumulator_injects_carry() {
    let mut cpu = cpu_with_program(&[0x38, 0xA9, 0x02, 0x6A, 0x00]);
    cpu.run(100);
    assert_eq!(cpu.register_a, 0x81);
    assert_eq!(carry(&cpu), 0);
}

#[test]
fn test_rol_memory() {
    // SEC; ROL $20 with memory 0x80: result 0x01, carry out 1.
    let mut cpu = cpu_with_program(&[0x38, 0x26, 0x20, 0x00]);
    cpu.mem_write(0x20, 0x80);
    cpu.run(100);
    assert_eq!(cpu.mem_read(0x20), 0x01);
    assert_eq!(carry(&cpu), 1);
}

#[test]
fn test_lsr_memory() {
    let mut cpu = cpu_with_program(&[0x46, 0x20, 0x00]);
    cpu.mem_write(0x20, 0x03);
    cpu.run(100);
    assert_eq!(cpu.mem_read(0x20), 0x01);
    assert_eq!(carry(&cpu), 1);
}

#[test]
fn test_bit_sets_flags_from_memory() {
    let mut cpu = cpu_with_program(&[0xA9, 0x0F, 0x24, 0x20, 0x00]);
    cpu.mem_write(0x20, 0xC0);
    cpu.run(100);
    assert_eq!(zero(&cpu), 1);
    assert_eq!(overflow(&cpu), 1);
    assert_eq!(negative(&cpu), 1);
    assert_eq!(cpu.register_a, 0x0F);
}

#[test]
fn test_inc_dec_memory() {
    let mut cpu = cpu_with_program(&[0xE6, 0x20, 0xE6, 0x20, 0xC6, 0x21, 0x00]);
    cpu.mem_write(0x21, 0x00);
    cpu.run(100);
    assert_eq!(cpu.mem_read(0x20), 0x02);
    assert_eq!(cpu.mem_read(0x21), 0xFF);
    assert_eq!(negative(&cpu), 1);
}

#[test]
fn test_eor_ora_and() {
    // LDA #$F0; ORA #$0F -> 0xFF; AND #$3C -> 0x3C; EOR #$FF -> 0xC3.
    let mut cpu = cpu_with_program(&[0xA9, 0xF0, 0x09, 0x0F, 0x29, 0x3C, 0x49, 0xFF, 0x00]);
    cpu.run(100);
    assert_eq!(cpu.register_a, 0xC3);
    assert_eq!(negative(&cpu), 1);
}

#[test]
fn test_transfers_and_flags() {
    // LDX #$FF; TXS (flags untouched); TSX; TXA.
    let mut cpu = cpu_with_program(&[0xA2, 0xFF, 0x9A, 0xBA, 0x8A, 0x00]);
    cpu.run(100);
    assert_eq!(cpu.stack_pointer, 0xFF);
    assert_eq!(cpu.register_x, 0xFF);
    assert_eq!(cpu.register_a, 0xFF);
    assert_eq!(negative(&cpu), 1);
}

#[test]
fn test_flag_instructions() {
    let mut cpu = cpu_with_program(&[0x38, 0xF8, 0x78, 0x00]);
    cpu.run(100);
    assert_eq!(carry(&cpu), 1);
    assert_eq!(cpu.get_decimal_flag(), 1);
    assert_eq!(cpu.get_interrupt_disable_flag(), 1);
    let mut cpu = cpu_with_program(&[0x38, 0xF8, 0x78, 0x18, 0xD8, 0x58, 0x00]);
    cpu.run(100);
    assert_eq!(carry(&cpu), 0);
    assert_eq!(cpu.get_decimal_flag(), 0);
    assert_eq!(cpu.get_interrupt_disable_flag(), 0);
}

#[test]
fn test_adc_uses_carry_in() {
    // SEC; LDA #$01; ADC #$01 -> 3.
    let mut cpu = cpu_with_program(&[0x38, 0xA9, 0x01, 0x69, 0x01, 0x00]);
    cpu.run(100);
    assert_eq!(cpu.register_a, 0x03);
}

#[test]
fn test_adc_carry_out() {
    // CLC; LDA #$FF; ADC #$01 -> 0 with carry out.
    let mut cpu = cpu_with_program(&[0x18, 0xA9, 0xFF, 0x69, 0x01, 0x00]);
    cpu.run(100);
    assert_eq!(cpu.register_a, 0x00);
    assert_eq!(carry(&cpu), 1);
    assert_eq!(zero(&cpu), 1);
}

#[test]
fn test_sbc_without_borrow() {
    // SEC; LDA #$05; SBC #$03 -> 2, carry still set.
    let mut cpu = cpu_with_program(&[0x38, 0xA9, 0x05, 0xE9, 0x03, 0x00]);
    cpu.run(100);
    assert_eq!(cpu.register_a, 0x02);
    assert_eq!(carry(&cpu), 1);
}

#[test]
fn test_zero_page_x_wraps() {
    // LDX #$10; STA $FB,X stores at (0xFB + 0x10) mod 256 = 0x0B.
    let mut cpu = cpu_with_program(&[0xA9, 0x42, 0xA2, 0x10, 0x95, 0xFB, 0x00]);
    cpu.run(100);
    assert_eq!(cpu.mem_read(0x0B), 0x42);
}

#[test]
fn test_indirect_x_reads_zero_page_pointer() {
    // LDX #$04; LDA ($20,X): pointer at 0x24.
    let mut cpu = cpu_with_program(&[0xA2, 0x04, 0xA1, 0x20, 0x00]);
    cpu.mem_write(0x24, 0x34);
    cpu.mem_write(0x25, 0x12);
    cpu.mem_write(0x1234, 0x99);
    cpu.run(100);
    assert_eq!(cpu.register_a, 0x99);
}

#[test]
fn test_run_step_limit() {
    // JMP $8000 loops forever.
    let mut cpu = cpu_with_program(&[0x4C, 0x00, 0x80]);
    let outcome = cpu.run(10);
    assert_eq!(outcome, RunOutcome::StepLimit);
}

#[test]
fn test_run_unknown_opcode() {
    let mut cpu = cpu_with_program(&[0xFF]);
    let outcome = cpu.run(10);
    assert_eq!(outcome, RunOutcome::UnknownOpcode(0xFF));
}

#[test]
fn test_reset_reads_vector() {
    let mut bus = TestBus::new();
    bus.load_to_specific_address(0x0600, vec![0xA9, 0x01, 0x00]);
    let mut cpu = CPU::new(bus);
    cpu.register_a = 0x55;
    cpu.status = 0xFF;
    cpu.reset();
    assert_eq!(cpu.program_counter, 0x0600);
    assert_eq!(cpu.register_a, 0);
    assert_eq!(cpu.status, 0);
    assert_eq!(cpu.stack_pointer, 0);
}

#[test]
fn test_load_full_upper_half_vector_wins() {
    // A program filling the whole 0x8000..0xFFFF range is accepted;
    // the reset-vector write lands after the copy and wins.
    let mut bus = TestBus::new();
    bus.load(vec![0xEA; 0x8000]);
    let cpu = CPU::new(bus);
    assert_eq!(cpu.mem_read(0xFFFB), 0xEA);
    assert_eq!(cpu.mem_read(0xFFFC), 0x00);
    assert_eq!(cpu.mem_read(0xFFFD), 0x80);
    assert_eq!(cpu.mem_read(0xFFFE), 0xEA);
}

#[test]
fn test_mem_read_u16_zero_page_wraps_high_byte() {
    let mut cpu = cpu_with_program(&[0x00]);
    cpu.mem_write(0xFF, 0x34);
    cpu.mem_write(0x00, 0x12);
    assert_eq!(cpu.mem_read_u16_zero_page(0xFF), 0x1234);
}

#[test]
fn test_mem_write_u16_little_endian() {
    let mut cpu = cpu_with_program(&[0x00]);
    cpu.mem_write_u16(0x0200, 0xBEEF);
    assert_eq!(cpu.mem_read(0x0200), 0xEF);
    assert_eq!(cpu.mem_read(0x0201), 0xBE);
    assert_eq!(cpu.mem_read_u16(0x0200), 0xBEEF);
}

#[test]
fn test_stack_push_pop_word() {
    let mut cpu = cpu_with_program(&[0x00]);
    cpu.stack_push_u16(0xABCD);
    assert_eq!(cpu.stack_pointer, 0xFE);
    assert_eq!(cpu.stack_pop_u16(), 0xABCD);
    assert_eq!(cpu.stack_pointer, 0x00);
    cpu.stack_push(0x7A);
    assert_eq!(cpu.stack_pop(), 0x7A);
}

#[test]
fn test_nop_and_rti_only_advance() {
    let mut cpu = cpu_with_program(&[0xEA, 0x40, 0x00]);
    let r = cpu.next();
    assert_eq!(r.cycles, 1);
    assert_eq!(cpu.program_counter, 0x8001);
    let r = cpu.next();
    assert_eq!(r.cycles, 6);
    assert_eq!(cpu.program_counter, 0x8002);
}
