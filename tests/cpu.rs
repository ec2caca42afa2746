use nes_core::cpu::{
    add_with_carry, compare, set_zn, shift, Cpu, FLAG_CARRY, FLAG_DECIMAL, FLAG_INTERRUPT,
    FLAG_NEGATIVE, FLAG_OVERFLOW, FLAG_ZERO, STATUS_RESET,
};
use nes_core::memory::Mem;
use nes_core::opcodes::{decode_opcode, Mode, Op};

#[test]
fn test_0xa9_lda_immidiate_load_data() {
    let mut cpu = Cpu::new();
    cpu.interpret(vec![0xa9, 0x05, 0x00]);
    assert!(cpu.stat & 0b0000_0010 == 0b00);
    assert!(cpu.stat & 0b1000_0000 == 0);
}

#[test]
fn test_0xa9_lda_zero_flag() {
    let mut cpu = Cpu::new();
    cpu.interpret(vec![0xa9, 0x00, 0x00]);
    assert!(cpu.stat & 0b0000_0010 == 0b10);
}

#[test]
fn test_0xaa_tax_move_a_to_x() {
    let mut cpu = Cpu::new();
    cpu.a = 10;
    cpu.interpret(vec![0xaa, 0x00]);

    assert_eq!(cpu.x, 10)
}

#[test]
fn test_5_ops_working_together() {
    let mut cpu = Cpu::new();
    cpu.interpret(vec![0xa9, 0xc0, 0xaa, 0xe8, 0x00]);

    assert_eq!(cpu.x, 0xc1)
}

#[test]
fn test_inx_overflow() {
    let mut cpu = Cpu::new();
    cpu.x = 0xff;
    cpu.interpret(vec![0xe8, 0xe8, 0x00]);

    assert_eq!(cpu.x, 1)
}

#[test]
fn new_cpu_is_in_reset_state() {
    let cpu = Cpu::new();
    assert_eq!((cpu.a, cpu.x, cpu.y, cpu.sp, cpu.pc), (0, 0, 0, 0, 0));
    assert_eq!(cpu.stat, STATUS_RESET);
    assert_eq!(cpu.stat, 0x24);
}

#[test]
fn lda_immediate_sets_accumulator_and_clears_flags() {
    let mut cpu = Cpu::new();
    assert!(cpu.interpret(vec![0xa9, 0x05, 0x00]));
    assert_eq!(cpu.a, 5);
    assert_eq!(cpu.stat & FLAG_ZERO, 0);
    assert_eq!(cpu.stat & FLAG_NEGATIVE, 0);
    assert_eq!(cpu.pc, 0x8003);
}

#[test]
fn lda_negative_byte_sets_negative() {
    let mut cpu = Cpu::new();
    cpu.interpret(vec![0xa9, 0x80, 0x00]);
    assert_eq!(cpu.a, 0x80);
    assert_eq!(cpu.stat & FLAG_NEGATIVE, FLAG_NEGATIVE);
    assert_eq!(cpu.stat & FLAG_ZERO, 0);
}

#[test]
fn lda_keeps_unrelated_flags() {
    let mut cpu = Cpu::new();
    // SEC, SED, LDA #$00
    cpu.interpret(vec![0x38, 0xf8, 0xa9, 0x00, 0x00]);
    assert_eq!(cpu.stat, STATUS_RESET | FLAG_CARRY | FLAG_DECIMAL | FLAG_ZERO);
}

#[test]
fn transfer_recomputes_flags_from_moved_byte() {
    let mut cpu = Cpu::new();
    // LDA #$00 sets Zero; LDX #$90; TXA must clear Zero and set Negative.
    cpu.interpret(vec![0xa9, 0x00, 0xa2, 0x90, 0x8a, 0x00]);
    assert_eq!(cpu.a, 0x90);
    assert_eq!(cpu.stat & FLAG_ZERO, 0);
    assert_eq!(cpu.stat & FLAG_NEGATIVE, FLAG_NEGATIVE);
}

#[test]
fn txs_touches_no_flag() {
    let mut cpu = Cpu::new();
    cpu.x = 0;
    cpu.interpret(vec![0x9a, 0x00]);
    assert_eq!(cpu.sp, 0);
    assert_eq!(cpu.stat, STATUS_RESET);
}

#[test]
fn inx_from_ff_wraps_to_zero_and_sets_zero() {
    let mut cpu = Cpu::new();
    cpu.x = 0xff;
    cpu.interpret(vec![0xe8, 0x00]);
    assert_eq!(cpu.x, 0);
    assert_eq!(cpu.stat & FLAG_ZERO, FLAG_ZERO);
}

#[test]
fn dex_from_zero_wraps_to_ff() {
    let mut cpu = Cpu::new();
    cpu.interpret(vec![0xca, 0x00]);
    assert_eq!(cpu.x, 0xff);
    assert_eq!(cpu.stat & FLAG_NEGATIVE, FLAG_NEGATIVE);
    assert_eq!(cpu.stat & FLAG_ZERO, 0);
}

#[test]
fn zero_page_x_wraps_within_page() {
    let mut cpu = Cpu::new();
    cpu.interpret(vec![0x00]);
    cpu.bus.mem_write(0x0001, 0x42);
    cpu.bus.mem_write(0x0101, 0x99);
    cpu.bus.mem_write(0x0000, 0xff);
    cpu.pc = 0x0000;
    cpu.x = 0x02;
    assert_eq!(cpu.operand_address(Mode::ZeroPageX), 0x0001);
}

#[test]
fn zero_page_x_program_reads_wrapped_address() {
    let mut cpu = Cpu::new();
    // LDA #$42; STA $01; LDX #$02; LDA #$00; LDA $FF,X; BRK
    cpu.interpret(vec![0xa9, 0x42, 0x85, 0x01, 0xa2, 0x02, 0xa9, 0x00, 0xb5, 0xff, 0x00]);
    assert_eq!(cpu.a, 0x42);
}

#[test]
fn absolute_x_wraps_at_top_of_address_space() {
    let mut cpu = Cpu::new();
    cpu.interpret(vec![0x00]);
    cpu.bus.mem_write(0x0010, 0xff);
    cpu.bus.mem_write(0x0011, 0xff);
    cpu.pc = 0x0010;
    cpu.x = 0x03;
    assert_eq!(cpu.operand_address(Mode::AbsoluteX), 0x0002);
}

#[test]
fn indexed_indirect_and_indirect_indexed_differ() {
    let mut cpu = Cpu::new();
    cpu.interpret(vec![0x00]);
    // operand byte at 0x0300 is the zero-page pointer 0x20
    cpu.bus.mem_write(0x0300, 0x20);
    cpu.bus.mem_write_u16(0x0020, 0x0400);
    cpu.bus.mem_write_u16(0x0024, 0x0500);
    cpu.pc = 0x0300;
    cpu.x = 0x04;
    cpu.y = 0x04;
    assert_eq!(cpu.operand_address(Mode::IndirectX), 0x0500);
    assert_eq!(cpu.operand_address(Mode::IndirectY), 0x0404);
}

#[test]
fn indirect_jump_pointer_does_not_carry_into_next_page() {
    let mut cpu = Cpu::new();
    cpu.interpret(vec![0x00]);
    cpu.bus.mem_write_u16(0x0010, 0x02ff);
    cpu.bus.mem_write(0x02ff, 0x34);
    cpu.bus.mem_write(0x0300, 0x99);
    cpu.bus.mem_write(0x0200, 0x12);
    cpu.pc = 0x0010;
    assert_eq!(cpu.operand_address(Mode::Indirect), 0x1234);
}

#[test]
fn adc_sets_overflow_on_signed_overflow() {
    // 0x50 + 0x50 = 0xA0: two positives give a negative.
    let (r, st) = add_with_carry(0, 0x50, 0x50);
    assert_eq!(r, 0xa0);
    assert_eq!(st & FLAG_OVERFLOW, FLAG_OVERFLOW);
    assert_eq!(st & FLAG_CARRY, 0);
    assert_eq!(st & FLAG_NEGATIVE, FLAG_NEGATIVE);
}

#[test]
fn adc_sets_carry_on_unsigned_overflow() {
    let (r, st) = add_with_carry(FLAG_CARRY, 0xff, 0x00);
    assert_eq!(r, 0x00);
    assert_eq!(st, FLAG_CARRY | FLAG_ZERO);
}

#[test]
fn sbc_program_subtracts_with_borrow() {
    let mut cpu = Cpu::new();
    // SEC; LDA #$05; SBC #$03
    cpu.interpret(vec![0x38, 0xa9, 0x05, 0xe9, 0x03, 0x00]);
    assert_eq!(cpu.a, 2);
    assert_eq!(cpu.stat & FLAG_CARRY, FLAG_CARRY);
    // CLC; LDA #$05; SBC #$05 borrows one more
    cpu.interpret(vec![0x18, 0xa9, 0x05, 0xe9, 0x05, 0x00]);
    assert_eq!(cpu.a, 0xff);
    assert_eq!(cpu.stat & FLAG_CARRY, 0);
}

#[test]
fn compare_sets_carry_and_zero() {
    assert_eq!(compare(0, 5, 5), FLAG_CARRY | FLAG_ZERO);
    assert_eq!(compare(0, 4, 5), FLAG_NEGATIVE);
    assert_eq!(compare(0, 6, 5), FLAG_CARRY);
}

#[test]
fn shifts_move_bits_through_carry() {
    assert_eq!(shift(Op::Asl, 0, 0x81), (0x02, FLAG_CARRY));
    assert_eq!(shift(Op::Lsr, 0, 0x01), (0x00, FLAG_CARRY | FLAG_ZERO));
    assert_eq!(shift(Op::Rol, FLAG_CARRY, 0x40), (0x81, FLAG_NEGATIVE));
    assert_eq!(shift(Op::Ror, FLAG_CARRY, 0x02), (0x81, FLAG_NEGATIVE));
}

#[test]
fn set_zn_keeps_other_bits() {
    assert_eq!(set_zn(0xff, 0x01), 0x7d);
    assert_eq!(set_zn(0x00, 0x00), FLAG_ZERO);
    assert_eq!(set_zn(FLAG_INTERRUPT, 0xf0), FLAG_INTERRUPT | FLAG_NEGATIVE);
}

#[test]
fn branch_loop_counts_down() {
    let mut cpu = Cpu::new();
    // LDX #$03; INY; DEX; BNE -4; BRK
    cpu.interpret(vec![0xa2, 0x03, 0xc8, 0xca, 0xd0, 0xfc, 0x00]);
    assert_eq!(cpu.x, 0);
    assert_eq!(cpu.y, 3);
}

#[test]
fn jsr_and_rts_return_after_call() {
    let mut cpu = Cpu::new();
    cpu.sp = 0xfd;
    // JSR $8006; LDX #$07; BRK; (pad) ; $8006: LDA #$09; RTS
    cpu.interpret(vec![0x20, 0x06, 0x80, 0xa2, 0x07, 0x00, 0xa9, 0x09, 0x60]);
    assert_eq!(cpu.a, 0x09);
    assert_eq!(cpu.x, 0x07);
    assert_eq!(cpu.sp, 0xfd);
    assert_eq!(cpu.pc, 0x8006);
}

#[test]
fn push_and_pull_accumulator() {
    let mut cpu = Cpu::new();
    cpu.sp = 0xff;
    // LDA #$33; PHA; LDA #$00; PLA
    cpu.interpret(vec![0xa9, 0x33, 0x48, 0xa9, 0x00, 0x68, 0x00]);
    assert_eq!(cpu.a, 0x33);
    assert_eq!(cpu.sp, 0xff);
    assert_eq!(cpu.bus.mem_read(0x01ff), 0x33);
}

#[test]
fn stack_pointer_wraps_on_push() {
    let mut cpu = Cpu::new();
    cpu.sp = 0x00;
    // PHA
    cpu.a = 0x77;
    cpu.interpret(vec![0x48, 0x00]);
    assert_eq!(cpu.sp, 0xff);
    assert_eq!(cpu.bus.mem_read(0x0100), 0x77);
}

#[test]
fn undefined_opcode_is_one_byte_no_op() {
    let mut cpu = Cpu::new();
    cpu.interpret(vec![0x02, 0xa9, 0x07, 0x00]);
    assert_eq!(cpu.a, 7);
}

#[test]
fn run_stops_after_step_budget() {
    let mut cpu = Cpu::new();
    cpu.load(vec![0xe8, 0xe8, 0xe8, 0x00]);
    assert_eq!(cpu.pc, 0x8000);
    assert!(!cpu.run(2));
    assert_eq!(cpu.x, 2);
    assert!(cpu.run(5));
    assert_eq!(cpu.x, 3);
}

#[test]
fn run_from_starts_at_entry() {
    let mut cpu = Cpu::new();
    cpu.load(vec![0xe8, 0x00, 0xc8, 0x00]);
    assert!(cpu.run_from(0x8002, 10));
    assert_eq!(cpu.x, 0);
    assert_eq!(cpu.y, 1);
}

#[test]
fn decode_table_lookups() {
    assert_eq!(decode_opcode(0xa9), Some((Op::Lda, Mode::Immediate)));
    assert_eq!(decode_opcode(0xb1), Some((Op::Lda, Mode::IndirectY)));
    assert_eq!(decode_opcode(0x6c), Some((Op::Jmp, Mode::Indirect)));
    assert_eq!(decode_opcode(0x00), Some((Op::Brk, Mode::Implied)));
    assert_eq!(decode_opcode(0x02), None);
    assert_eq!((0..=255u8).filter(|b| decode_opcode(*b).is_some()).count(), 151);
}
