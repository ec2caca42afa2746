//! The opcode table: which operation and addressing mode each byte names.

use vstd::prelude::*;

verus! {

/// How an instruction finds its operand.
#[derive(Clone, Copy, Debug, PartialEq, Eq, Structural)]
pub enum Mode {
    Implied,
    Accumulator,
    Immediate,
    ZeroPage,
    ZeroPageX,
    ZeroPageY,
    Absolute,
    AbsoluteX,
    AbsoluteY,
    Indirect,
    IndirectX,
    IndirectY,
    Relative,
}

/// The documented operations of the processor.
#[derive(Clone, Copy, Debug, PartialEq, Eq, Structural)]
pub enum Op {
    Adc, And, Asl, Bcc, Bcs, Beq, Bit, Bmi, Bne, Bpl, Brk, Bvc, Bvs, Clc,
    Cld, Cli, Clv, Cmp, Cpx, Cpy, Dec, Dex, Dey, Eor, Inc, Inx, Iny, Jmp,
    Jsr, Lda, Ldx, Ldy, Lsr, Nop, Ora, Pha, Php, Pla, Plp, Rol, Ror, Rti,
    Rts, Sbc, Sec, Sed, Sei, Sta, Stx, Sty, Tax, Tay, Tsx, Txa, Txs, Tya,
}

/// The number of operand bytes that follow an opcode in `mode`.
pub open spec fn operand_len(mode: Mode) -> u16 {
    match mode {
        Mode::Implied | Mode::Accumulator => 0,
        Mode::Absolute | Mode::AbsoluteX | Mode::AbsoluteY | Mode::Indirect => 2,
        _ => 1,
    }
}

/// The documented opcodes; every other byte decodes to `None`.
#[verifier::opaque]
pub open spec fn decode(opcode: u8) -> Option<(Op, Mode)> {
    match opcode {
        0x00 => Some((Op::Brk, Mode::Implied)),
        0x01 => Some((Op::Ora, Mode::IndirectX)),
        0x05 => Some((Op::Ora, Mode::ZeroPage)),
        0x06 => Some((Op::Asl, Mode::ZeroPage)),
        0x08 => Some((Op::Php, Mode::Implied)),
        0x09 => Some((Op::Ora, Mode::Immediate)),
        0x0A => Some((Op::Asl, Mode::Accumulator)),
        0x0D => Some((Op::Ora, Mode::Absolute)),
        0x0E => Some((Op::Asl, Mode::Absolute)),
        0x10 => Some((Op::Bpl, Mode::Relative)),
        0x11 => Some((Op::Ora, Mode::IndirectY)),
        0x15 => Some((Op::Ora, Mode::ZeroPageX)),
        0x16 => Some((Op::Asl, Mode::ZeroPageX)),
        0x18 => Some((Op::Clc, Mode::Implied)),
        0x19 => Some((Op::Ora, Mode::AbsoluteY)),
        0x1D => Some((Op::Ora, Mode::AbsoluteX)),
        0x1E => Some((Op::Asl, Mode::AbsoluteX)),
        0x20 => Some((Op::Jsr, Mode::Absolute)),
        0x21 => Some((Op::And, Mode::IndirectX)),
        0x24 => Some((Op::Bit, Mode::ZeroPage)),
        0x25 => Some((Op::And, Mode::ZeroPage)),
        0x26 => Some((Op::Rol, Mode::ZeroPage)),
        0x28 => Some((Op::Plp, Mode::Implied)),
        0x29 => Some((Op::And, Mode::Immediate)),
        0x2A => Some((Op::Rol, Mode::Accumulator)),
        0x2C => Some((Op::Bit, Mode::Absolute)),
        0x2D => Some((Op::And, Mode::Absolute)),
        0x2E => Some((Op::Rol, Mode::Absolute)),
        0x30 => Some((Op::Bmi, Mode::Relative)),
        0x31 => Some((Op::And, Mode::IndirectY)),
        0x35 => Some((Op::And, Mode::ZeroPageX)),
        0x36 => Some((Op::Rol, Mode::ZeroPageX)),
        0x38 => Some((Op::Sec, Mode::Implied)),
        0x39 => Some((Op::And, Mode::AbsoluteY)),
        0x3D => Some((Op::And, Mode::AbsoluteX)),
        0x3E => Some((Op::Rol, Mode::AbsoluteX)),
        0x40 => Some((Op::Rti, Mode::Implied)),
        0x41 => Some((Op::Eor, Mode::IndirectX)),
        0x45 => Some((Op::Eor, Mode::ZeroPage)),
        0x46 => Some((Op::Lsr, Mode::ZeroPage)),
        0x48 => Some((Op::Pha, Mode::Implied)),
        0x49 => Some((Op::Eor, Mode::Immediate)),
        0x4A => Some((Op::Lsr, Mode::Accumulator)),
        0x4C => Some((Op::Jmp, Mode::Absolute)),
        0x4D => Some((Op::Eor, Mode::Absolute)),
        0x4E => Some((Op::Lsr, Mode::Absolute)),
        0x50 => Some((Op::Bvc, Mode::Relative)),
        0x51 => Some((Op::Eor, Mode::IndirectY)),
        0x55 => Some((Op::Eor, Mode::ZeroPageX)),
        0x56 => Some((Op::Lsr, Mode::ZeroPageX)),
        0x58 => Some((Op::Cli, Mode::Implied)),
        0x59 => Some((Op::Eor, Mode::AbsoluteY)),
        0x5D => Some((Op::Eor, Mode::AbsoluteX)),
        0x5E => Some((Op::Lsr, Mode::AbsoluteX)),
        0x60 => Some((Op::Rts, Mode::Implied)),
        0x61 => Some((Op::Adc, Mode::IndirectX)),
        0x65 => Some((Op::Adc, Mode::ZeroPage)),
        0x66 => Some((Op::Ror, Mode::ZeroPage)),
        0x68 => Some((Op::Pla, Mode::Implied)),
        0x69 => Some((Op::Adc, Mode::Immediate)),
        0x6A => Some((Op::Ror, Mode::Accumulator)),
        0x6C => Some((Op::Jmp, Mode::Indirect)),
        0x6D => Some((Op::Adc, Mode::Absolute)),
        0x6E => Some((Op::Ror, Mode::Absolute)),
        0x70 => Some((Op::Bvs, Mode::Relative)),
        0x71 => Some((Op::Adc, Mode::IndirectY)),
        0x75 => Some((Op::Adc, Mode::ZeroPageX)),
        0x76 => Some((Op::Ror, Mode::ZeroPageX)),
        0x78 => Some((Op::Sei, Mode::Implied)),
        0x79 => Some((Op::Adc, Mode::AbsoluteY)),
        0x7D => Some((Op::Adc, Mode::AbsoluteX)),
        0x7E => Some((Op::Ror, Mode::AbsoluteX)),
        0x81 => Some((Op::Sta, Mode::IndirectX)),
        0x84 => Some((Op::Sty, Mode::ZeroPage)),
        0x85 => Some((Op::Sta, Mode::ZeroPage)),
        0x86 => Some((Op::Stx, Mode::ZeroPage)),
        0x88 => Some((Op::Dey, Mode::Implied)),
        0x8A => Some((Op::Txa, Mode::Implied)),
        0x8C => Some((Op::Sty, Mode::Absolute)),
        0x8D => Some((Op::Sta, Mode::Absolute)),
        0x8E => Some((Op::Stx, Mode::Absolute)),
        0x90 => Some((Op::Bcc, Mode::Relative)),
        0x91 => Some((Op::Sta, Mode::IndirectY)),
        0x94 => Some((Op::Sty, Mode::ZeroPageX)),
        0x95 => Some((Op::Sta, Mode::ZeroPageX)),
        0x96 => Some((Op::Stx, Mode::ZeroPageY)),
        0x98 => Some((Op::Tya, Mode::Implied)),
        0x99 => Some((Op::Sta, Mode::AbsoluteY)),
        0x9A => Some((Op::Txs, Mode::Implied)),
        0x9D => Some((Op::Sta, Mode::AbsoluteX)),
        0xA0 => Some((Op::Ldy, Mode::Immediate)),
        0xA1 => Some((Op::Lda, Mode::IndirectX)),
        0xA2 => Some((Op::Ldx, Mode::Immediate)),
        0xA4 => Some((Op::Ldy, Mode::ZeroPage)),
        0xA5 => Some((Op::Lda, Mode::ZeroPage)),
        0xA6 => Some((Op::Ldx, Mode::ZeroPage)),
        0xA8 => Some((Op::Tay, Mode::Implied)),
        0xA9 => Some((Op::Lda, Mode::Immediate)),
        0xAA => Some((Op::Tax, Mode::Implied)),
        0xAC => Some((Op::Ldy, Mode::Absolute)),
        0xAD => Some((Op::Lda, Mode::Absolute)),
        0xAE => Some((Op::Ldx, Mode::Absolute)),
        0xB0 => Some((Op::Bcs, Mode::Relative)),
        0xB1 => Some((Op::Lda, Mode::IndirectY)),
        0xB4 => Some((Op::Ldy, Mode::ZeroPageX)),
        0xB5 => Some((Op::Lda, Mode::ZeroPageX)),
        0xB6 => Some((Op::Ldx, Mode::ZeroPageY)),
        0xB8 => Some((Op::Clv, Mode::Implied)),
        0xB9 => Some((Op::Lda, Mode::AbsoluteY)),
        0xBA => Some((Op::Tsx, Mode::Implied)),
        0xBC => Some((Op::Ldy, Mode::AbsoluteX)),
        0xBD => Some((Op::Lda, Mode::AbsoluteX)),
        0xBE => Some((Op::Ldx, Mode::AbsoluteY)),
        0xC0 => Some((Op::Cpy, Mode::Immediate)),
        0xC1 => Some((Op::Cmp, Mode::IndirectX)),
        0xC4 => Some((Op::Cpy, Mode::ZeroPage)),
        0xC5 => Some((Op::Cmp, Mode::ZeroPage)),
        0xC6 => Some((Op::Dec, Mode::ZeroPage)),
        0xC8 => Some((Op::Iny, Mode::Implied)),
        0xC9 => Some((Op::Cmp, Mode::Immediate)),
        0xCA => Some((Op::Dex, Mode::Implied)),
        0xCC => Some((Op::Cpy, Mode::Absolute)),
        0xCD => Some((Op::Cmp, Mode::Absolute)),
        0xCE => Some((Op::Dec, Mode::Absolute)),
        0xD0 => Some((Op::Bne, Mode::Relative)),
        0xD1 => Some((Op::Cmp, Mode::IndirectY)),
        0xD5 => Some((Op::Cmp, Mode::ZeroPageX)),
        0xD6 => Some((Op::Dec, Mode::ZeroPageX)),
        0xD8 => Some((Op::Cld, Mode::Implied)),
        0xD9 => Some((Op::Cmp, Mode::AbsoluteY)),
        0xDD => Some((Op::Cmp, Mode::AbsoluteX)),
        0xDE => Some((Op::Dec, Mode::AbsoluteX)),
        0xE0 => Some((Op::Cpx, Mode::Immediate)),
        0xE1 => Some((Op::Sbc, Mode::IndirectX)),
        0xE4 => Some((Op::Cpx, Mode::ZeroPage)),
        0xE5 => Some((Op::Sbc, Mode::ZeroPage)),
        0xE6 => Some((Op::Inc, Mode::ZeroPage)),
        0xE8 => Some((Op::Inx, Mode::Implied)),
        0xE9 => Some((Op::Sbc, Mode::Immediate)),
        0xEA => Some((Op::Nop, Mode::Implied)),
        0xEC => Some((Op::Cpx, Mode::Absolute)),
        0xED => Some((Op::Sbc, Mode::Absolute)),
        0xEE => Some((Op::Inc, Mode::Absolute)),
        0xF0 => Some((Op::Beq, Mode::Relative)),
        0xF1 => Some((Op::Sbc, Mode::IndirectY)),
        0xF5 => Some((Op::Sbc, Mode::ZeroPageX)),
        0xF6 => Some((Op::Inc, Mode::ZeroPageX)),
        0xF8 => Some((Op::Sed, Mode::Implied)),
        0xF9 => Some((Op::Sbc, Mode::AbsoluteY)),
        0xFD => Some((Op::Sbc, Mode::AbsoluteX)),
        0xFE => Some((Op::Inc, Mode::AbsoluteX)),
        _ => None,
    }
}

/// Looks `opcode` up in the table.
pub fn decode_opcode(opcode: u8) -> (r: Option<(Op, Mode)>)
    ensures
        r == decode(opcode),
{
    reveal(decode);
    match opcode {
        0x00 => Some((Op::Brk, Mode::Implied)),
        0x01 => Some((Op::Ora, Mode::IndirectX)),
        0x05 => Some((Op::Ora, Mode::ZeroPage)),
        0x06 => Some((Op::Asl, Mode::ZeroPage)),
        0x08 => Some((Op::Php, Mode::Implied)),
        0x09 => Some((Op::Ora, Mode::Immediate)),
        0x0A => Some((Op::Asl, Mode::Accumulator)),
        0x0D => Some((Op::Ora, Mode::Absolute)),
        0x0E => Some((Op::Asl, Mode::Absolute)),
        0x10 => Some((Op::Bpl, Mode::Relative)),
        0x11 => Some((Op::Ora, Mode::IndirectY)),
        0x15 => Some((Op::Ora, Mode::ZeroPageX)),
        0x16 => Some((Op::Asl, Mode::ZeroPageX)),
        0x18 => Some((Op::Clc, Mode::Implied)),
        0x19 => Some((Op::Ora, Mode::AbsoluteY)),
        0x1D => Some((Op::Ora, Mode::AbsoluteX)),
        0x1E => Some((Op::Asl, Mode::AbsoluteX)),
        0x20 => Some((Op::Jsr, Mode::Absolute)),
        0x21 => Some((Op::And, Mode::IndirectX)),
        0x24 => Some((Op::Bit, Mode::ZeroPage)),
        0x25 => Some((Op::And, Mode::ZeroPage)),
        0x26 => Some((Op::Rol, Mode::ZeroPage)),
        0x28 => Some((Op::Plp, Mode::Implied)),
        0x29 => Some((Op::And, Mode::Immediate)),
        0x2A => Some((Op::Rol, Mode::Accumulator)),
        0x2C => Some((Op::Bit, Mode::Absolute)),
        0x2D => Some((Op::And, Mode::Absolute)),
        0x2E => Some((Op::Rol, Mode::Absolute)),
        0x30 => Some((Op::Bmi, Mode::Relative)),
        0x31 => Some((Op::And, Mode::IndirectY)),
        0x35 => Some((Op::And, Mode::ZeroPageX)),
        0x36 => Some((Op::Rol, Mode::ZeroPageX)),
        0x38 => Some((Op::Sec, Mode::Implied)),
        0x39 => Some((Op::And, Mode::AbsoluteY)),
        0x3D => Some((Op::And, Mode::AbsoluteX)),
        0x3E => Some((Op::Rol, Mode::AbsoluteX)),
        0x40 => Some((Op::Rti, Mode::Implied)),
        0x41 => Some((Op::Eor, Mode::IndirectX)),
        0x45 => Some((Op::Eor, Mode::ZeroPage)),
        0x46 => Some((Op::Lsr, Mode::ZeroPage)),
        0x48 => Some((Op::Pha, Mode::Implied)),
        0x49 => Some((Op::Eor, Mode::Immediate)),
        0x4A => Some((Op::Lsr, Mode::Accumulator)),
        0x4C => Some((Op::Jmp, Mode::Absolute)),
        0x4D => Some((Op::Eor, Mode::Absolute)),
        0x4E => Some((Op::Lsr, Mode::Absolute)),
        0x50 => Some((Op::Bvc, Mode::Relative)),
        0x51 => Some((Op::Eor, Mode::IndirectY)),
        0x55 => Some((Op::Eor, Mode::ZeroPageX)),
        0x56 => Some((Op::Lsr, Mode::ZeroPageX)),
        0x58 => Some((Op::Cli, Mode::Implied)),
        0x59 => Some((Op::Eor, Mode::AbsoluteY)),
        0x5D => Some((Op::Eor, Mode::AbsoluteX)),
        0x5E => Some((Op::Lsr, Mode::AbsoluteX)),
        0x60 => Some((Op::Rts, Mode::Implied)),
        0x61 => Some((Op::Adc, Mode::IndirectX)),
        0x65 => Some((Op::Adc, Mode::ZeroPage)),
        0x66 => Some((Op::Ror, Mode::ZeroPage)),
        0x68 => Some((Op::Pla, Mode::Implied)),
        0x69 => Some((Op::Adc, Mode::Immediate)),
        0x6A => Some((Op::Ror, Mode::Accumulator)),
        0x6C => Some((Op::Jmp, Mode::Indirect)),
        0x6D => Some((Op::Adc, Mode::Absolute)),
        0x6E => Some((Op::Ror, Mode::Absolute)),
        0x70 => Some((Op::Bvs, Mode::Relative)),
        0x71 => Some((Op::Adc, Mode::IndirectY)),
        0x75 => Some((Op::Adc, Mode::ZeroPageX)),
        0x76 => Some((Op::Ror, Mode::ZeroPageX)),
        0x78 => Some((Op::Sei, Mode::Implied)),
        0x79 => Some((Op::Adc, Mode::AbsoluteY)),
        0x7D => Some((Op::Adc, Mode::AbsoluteX)),
        0x7E => Some((Op::Ror, Mode::AbsoluteX)),
        0x81 => Some((Op::Sta, Mode::IndirectX)),
        0x84 => Some((Op::Sty, Mode::ZeroPage)),
        0x85 => Some((Op::Sta, Mode::ZeroPage)),
        0x86 => Some((Op::Stx, Mode::ZeroPage)),
        0x88 => Some((Op::Dey, Mode::Implied)),
        0x8A => Some((Op::Txa, Mode::Implied)),
        0x8C => Some((Op::Sty, Mode::Absolute)),
        0x8D => Some((Op::Sta, Mode::Absolute)),
        0x8E => Some((Op::Stx, Mode::Absolute)),
        0x90 => Some((Op::Bcc, Mode::Relative)),
        0x91 => Some((Op::Sta, Mode::IndirectY)),
        0x94 => Some((Op::Sty, Mode::ZeroPageX)),
        0x95 => Some((Op::Sta, Mode::ZeroPageX)),
        0x96 => Some((Op::Stx, Mode::ZeroPageY)),
        0x98 => Some((Op::Tya, Mode::Implied)),
        0x99 => Some((Op::Sta, Mode::AbsoluteY)),
        0x9A => Some((Op::Txs, Mode::Implied)),
        0x9D => Some((Op::Sta, Mode::AbsoluteX)),
        0xA0 => Some((Op::Ldy, Mode::Immediate)),
        0xA1 => Some((Op::Lda, Mode::IndirectX)),
        0xA2 => Some((Op::Ldx, Mode::Immediate)),
        0xA4 => Some((Op::Ldy, Mode::ZeroPage)),
        0xA5 => Some((Op::Lda, Mode::ZeroPage)),
        0xA6 => Some((Op::Ldx, Mode::ZeroPage)),
        0xA8 => Some((Op::Tay, Mode::Implied)),
        0xA9 => Some((Op::Lda, Mode::Immediate)),
        0xAA => Some((Op::Tax, Mode::Implied)),
        0xAC => Some((Op::Ldy, Mode::Absolute)),
        0xAD => Some((Op::Lda, Mode::Absolute)),
        0xAE => Some((Op::Ldx, Mode::Absolute)),
        0xB0 => Some((Op::Bcs, Mode::Relative)),
        0xB1 => Some((Op::Lda, Mode::IndirectY)),
        0xB4 => Some((Op::Ldy, Mode::ZeroPageX)),
        0xB5 => Some((Op::Lda, Mode::ZeroPageX)),
        0xB6 => Some((Op::Ldx, Mode::ZeroPageY)),
        0xB8 => Some((Op::Clv, Mode::Implied)),
        0xB9 => Some((Op::Lda, Mode::AbsoluteY)),
        0xBA => Some((Op::Tsx, Mode::Implied)),
        0xBC => Some((Op::Ldy, Mode::AbsoluteX)),
        0xBD => Some((Op::Lda, Mode::AbsoluteX)),
        0xBE => Some((Op::Ldx, Mode::AbsoluteY)),
        0xC0 => Some((Op::Cpy, Mode::Immediate)),
        0xC1 => Some((Op::Cmp, Mode::IndirectX)),
        0xC4 => Some((Op::Cpy, Mode::ZeroPage)),
        0xC5 => Some((Op::Cmp, Mode::ZeroPage)),
        0xC6 => Some((Op::Dec, Mode::ZeroPage)),
        0xC8 => Some((Op::Iny, Mode::Implied)),
        0xC9 => Some((Op::Cmp, Mode::Immediate)),
        0xCA => Some((Op::Dex, Mode::Implied)),
        0xCC => Some((Op::Cpy, Mode::Absolute)),
        0xCD => Some((Op::Cmp, Mode::Absolute)),
        0xCE => Some((Op::Dec, Mode::Absolute)),
        0xD0 => Some((Op::Bne, Mode::Relative)),
        0xD1 => Some((Op::Cmp, Mode::IndirectY)),
        0xD5 => Some((Op::Cmp, Mode::ZeroPageX)),
        0xD6 => Some((Op::Dec, Mode::ZeroPageX)),
        0xD8 => Some((Op::Cld, Mode::Implied)),
        0xD9 => Some((Op::Cmp, Mode::AbsoluteY)),
        0xDD => Some((Op::Cmp, Mode::AbsoluteX)),
        0xDE => Some((Op::Dec, Mode::AbsoluteX)),
        0xE0 => Some((Op::Cpx, Mode::Immediate)),
        0xE1 => Some((Op::Sbc, Mode::IndirectX)),
        0xE4 => Some((Op::Cpx, Mode::ZeroPage)),
        0xE5 => Some((Op::Sbc, Mode::ZeroPage)),
        0xE6 => Some((Op::Inc, Mode::ZeroPage)),
        0xE8 => Some((Op::Inx, Mode::Implied)),
        0xE9 => Some((Op::Sbc, Mode::Immediate)),
        0xEA => Some((Op::Nop, Mode::Implied)),
        0xEC => Some((Op::Cpx, Mode::Absolute)),
        0xED => Some((Op::Sbc, Mode::Absolute)),
        0xEE => Some((Op::Inc, Mode::Absolute)),
        0xF0 => Some((Op::Beq, Mode::Relative)),
        0xF1 => Some((Op::Sbc, Mode::IndirectY)),
        0xF5 => Some((Op::Sbc, Mode::ZeroPageX)),
        0xF6 => Some((Op::Inc, Mode::ZeroPageX)),
        0xF8 => Some((Op::Sed, Mode::Implied)),
        0xF9 => Some((Op::Sbc, Mode::AbsoluteY)),
        0xFD => Some((Op::Sbc, Mode::AbsoluteX)),
        0xFE => Some((Op::Inc, Mode::AbsoluteX)),
        _ => None,
    }
}

/// The number of operand bytes that follow an opcode in `mode`.
pub fn operand_bytes(mode: Mode) -> (r: u16)
    ensures
        r == operand_len(mode),
{
    match mode {
        Mode::Implied | Mode::Accumulator => 0,
        Mode::Absolute | Mode::AbsoluteX | Mode::AbsoluteY | Mode::Indirect => 2,
        _ => 1,
    }
}

} // verus!
