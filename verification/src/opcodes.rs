//! The opcode table: the mapping from instruction bytes to
//! mnemonic, base cycle count and addressing mode.
//!
//! Only the 151 official opcodes of the 6502 are defined; every other
//! byte is reported as undefined.

use vstd::prelude::*;

verus! {

/// The addressing mode of an instruction.
///
/// `NoneAddressing` marks implied and accumulator operands, which
/// consume no operand bytes.
#[derive(Clone, Copy, PartialEq, Eq, Structural, Debug)]
pub enum AddressingMode {
    Immediate,
    Indirect,
    Relative,
    Absolute,
    AbsoluteX,
    AbsoluteY,
    ZeroPage,
    ZeroPageX,
    ZeroPageY,
    IndirectX,
    IndirectY,
    NoneAddressing,
}

/// An instruction mnemonic.
#[derive(Clone, Copy, PartialEq, Eq, Structural, Debug)]
pub enum Mnemonic {
    Adc,
    And,
    Asl,
    Bcc,
    Bcs,
    Beq,
    Bit,
    Bmi,
    Bne,
    Bpl,
    Brk,
    Bvc,
    Bvs,
    Clc,
    Cld,
    Cli,
    Clv,
    Cmp,
    Cpx,
    Cpy,
    Dec,
    Dex,
    Dey,
    Eor,
    Inc,
    Inx,
    Iny,
    Jmp,
    Jsr,
    Lda,
    Ldx,
    Ldy,
    Lsr,
    Nop,
    Ora,
    Pha,
    Php,
    Pla,
    Plp,
    Rol,
    Ror,
    Rti,
    Rts,
    Sbc,
    Sec,
    Sed,
    Sei,
    Sta,
    Stx,
    Sty,
    Tax,
    Tay,
    Tsx,
    Txa,
    Txs,
    Tya,
}

/// One entry of the opcode table.
#[derive(Clone, Copy, PartialEq, Eq, Structural, Debug)]
pub struct OpCode {
    pub mnemonic: Mnemonic,
    pub cycles: u8,
    pub mode: AddressingMode,
}

/// The opcode table as a specification-level function: `None` for
/// bytes that are not official 6502 opcodes.
///
/// Marked opaque so that reasoning about a symbolic instruction byte
/// does not unfold the whole table; [`opcode_lookup`] exposes the
/// entry for a concrete byte.
#[verifier::opaque]
pub open spec fn spec_opcode(code: u8) -> Option<OpCode> {
    match code {
        0x69 => Some(OpCode { mnemonic: Mnemonic::Adc, cycles: 2, mode: AddressingMode::Immediate }),
        0x65 => Some(OpCode { mnemonic: Mnemonic::Adc, cycles: 3, mode: AddressingMode::ZeroPage }),
        0x75 => Some(OpCode { mnemonic: Mnemonic::Adc, cycles: 4, mode: AddressingMode::ZeroPageX }),
        0x6D => Some(OpCode { mnemonic: Mnemonic::Adc, cycles: 4, mode: AddressingMode::Absolute }),
        0x7D => Some(OpCode { mnemonic: Mnemonic::Adc, cycles: 4, mode: AddressingMode::AbsoluteX }),
        0x79 => Some(OpCode { mnemonic: Mnemonic::Adc, cycles: 4, mode: AddressingMode::AbsoluteY }),
        0x61 => Some(OpCode { mnemonic: Mnemonic::Adc, cycles: 6, mode: AddressingMode::IndirectX }),
        0x71 => Some(OpCode { mnemonic: Mnemonic::Adc, cycles: 5, mode: AddressingMode::IndirectY }),
        0x29 => Some(OpCode { mnemonic: Mnemonic::And, cycles: 2, mode: AddressingMode::Immediate }),
        0x25 => Some(OpCode { mnemonic: Mnemonic::And, cycles: 3, mode: AddressingMode::ZeroPage }),
        0x35 => Some(OpCode { mnemonic: Mnemonic::And, cycles: 4, mode: AddressingMode::ZeroPageX }),
        0x2D => Some(OpCode { mnemonic: Mnemonic::And, cycles: 4, mode: AddressingMode::Absolute }),
        0x3D => Some(OpCode { mnemonic: Mnemonic::And, cycles: 4, mode: AddressingMode::AbsoluteX }),
        0x39 => Some(OpCode { mnemonic: Mnemonic::And, cycles: 4, mode: AddressingMode::AbsoluteY }),
        0x21 => Some(OpCode { mnemonic: Mnemonic::And, cycles: 6, mode: AddressingMode::IndirectX }),
        0x31 => Some(OpCode { mnemonic: Mnemonic::And, cycles: 5, mode: AddressingMode::IndirectY }),
        0x0A => Some(OpCode { mnemonic: Mnemonic::Asl, cycles: 2, mode: AddressingMode::NoneAddressing }),
        0x06 => Some(OpCode { mnemonic: Mnemonic::Asl, cycles: 5, mode: AddressingMode::ZeroPage }),
        0x16 => Some(OpCode { mnemonic: Mnemonic::Asl, cycles: 6, mode: AddressingMode::ZeroPageX }),
        0x0E => Some(OpCode { mnemonic: Mnemonic::Asl, cycles: 6, mode: AddressingMode::Absolute }),
        0x1E => Some(OpCode { mnemonic: Mnemonic::Asl, cycles: 7, mode: AddressingMode::AbsoluteX }),
        0x90 => Some(OpCode { mnemonic: Mnemonic::Bcc, cycles: 2, mode: AddressingMode::Relative }),
        0xB0 => Some(OpCode { mnemonic: Mnemonic::Bcs, cycles: 2, mode: AddressingMode::Relative }),
        0xF0 => Some(OpCode { mnemonic: Mnemonic::Beq, cycles: 2, mode: AddressingMode::Relative }),
        0x24 => Some(OpCode { mnemonic: Mnemonic::Bit, cycles: 3, mode: AddressingMode::ZeroPage }),
        0x2C => Some(OpCode { mnemonic: Mnemonic::Bit, cycles: 4, mode: AddressingMode::Absolute }),
        0x30 => Some(OpCode { mnemonic: Mnemonic::Bmi, cycles: 2, mode: AddressingMode::Relative }),
        0xD0 => Some(OpCode { mnemonic: Mnemonic::Bne, cycles: 2, mode: AddressingMode::Relative }),
        0x10 => Some(OpCode { mnemonic: Mnemonic::Bpl, cycles: 2, mode: AddressingMode::Relative }),
        0x00 => Some(OpCode { mnemonic: Mnemonic::Brk, cycles: 7, mode: AddressingMode::NoneAddressing }),
        0x50 => Some(OpCode { mnemonic: Mnemonic::Bvc, cycles: 2, mode: AddressingMode::Relative }),
        0x70 => Some(OpCode { mnemonic: Mnemonic::Bvs, cycles: 2, mode: AddressingMode::Relative }),
        0x18 => Some(OpCode { mnemonic: Mnemonic::Clc, cycles: 2, mode: AddressingMode::NoneAddressing }),
        0xD8 => Some(OpCode { mnemonic: Mnemonic::Cld, cycles: 2, mode: AddressingMode::NoneAddressing }),
        0x58 => Some(OpCode { mnemonic: Mnemonic::Cli, cycles: 2, mode: AddressingMode::NoneAddressing }),
        0xB8 => Some(OpCode { mnemonic: Mnemonic::Clv, cycles: 2, mode: AddressingMode::NoneAddressing }),
        0xC9 => Some(OpCode { mnemonic: Mnemonic::Cmp, cycles: 2, mode: AddressingMode::Immediate }),
        0xC5 => Some(OpCode { mnemonic: Mnemonic::Cmp, cycles: 3, mode: AddressingMode::ZeroPage }),
        0xD5 => Some(OpCode { mnemonic: Mnemonic::Cmp, cycles: 4, mode: AddressingMode::ZeroPageX }),
        0xCD => Some(OpCode { mnemonic: Mnemonic::Cmp, cycles: 4, mode: AddressingMode::Absolute }),
        0xDD => Some(OpCode { mnemonic: Mnemonic::Cmp, cycles: 4, mode: AddressingMode::AbsoluteX }),
        0xD9 => Some(OpCode { mnemonic: Mnemonic::Cmp, cycles: 4, mode: AddressingMode::AbsoluteY }),
        0xC1 => Some(OpCode { mnemonic: Mnemonic::Cmp, cycles: 6, mode: AddressingMode::IndirectX }),
        0xD1 => Some(OpCode { mnemonic: Mnemonic::Cmp, cycles: 5, mode: AddressingMode::IndirectY }),
        0xE0 => Some(OpCode { mnemonic: Mnemonic::Cpx, cycles: 2, mode: AddressingMode::Immediate }),
        0xE4 => Some(OpCode { mnemonic: Mnemonic::Cpx, cycles: 3, mode: AddressingMode::ZeroPage }),
        0xEC => Some(OpCode { mnemonic: Mnemonic::Cpx, cycles: 4, mode: AddressingMode::Absolute }),
        0xC0 => Some(OpCode { mnemonic: Mnemonic::Cpy, cycles: 2, mode: AddressingMode::Immediate }),
        0xC4 => Some(OpCode { mnemonic: Mnemonic::Cpy, cycles: 3, mode: AddressingMode::ZeroPage }),
        0xCC => Some(OpCode { mnemonic: Mnemonic::Cpy, cycles: 4, mode: AddressingMode::Absolute }),
        0xC6 => Some(OpCode { mnemonic: Mnemonic::Dec, cycles: 5, mode: AddressingMode::ZeroPage }),
        0xD6 => Some(OpCode { mnemonic: Mnemonic::Dec, cycles: 6, mode: AddressingMode::ZeroPageX }),
        0xCE => Some(OpCode { mnemonic: Mnemonic::Dec, cycles: 6, mode: AddressingMode::Absolute }),
        0xDE => Some(OpCode { mnemonic: Mnemonic::Dec, cycles: 7, mode: AddressingMode::AbsoluteX }),
        0xCA => Some(OpCode { mnemonic: Mnemonic::Dex, cycles: 2, mode: AddressingMode::NoneAddressing }),
        0x88 => Some(OpCode { mnemonic: Mnemonic::Dey, cycles: 2, mode: AddressingMode::NoneAddressing }),
        0x49 => Some(OpCode { mnemonic: Mnemonic::Eor, cycles: 2, mode: AddressingMode::Immediate }),
        0x45 => Some(OpCode { mnemonic: Mnemonic::Eor, cycles: 3, mode: AddressingMode::ZeroPage }),
        0x55 => Some(OpCode { mnemonic: Mnemonic::Eor, cycles: 4, mode: AddressingMode::ZeroPageX }),
        0x4D => Some(OpCode { mnemonic: Mnemonic::Eor, cycles: 4, mode: AddressingMode::Absolute }),
        0x5D => Some(OpCode { mnemonic: Mnemonic::Eor, cycles: 4, mode: AddressingMode::AbsoluteX }),
        0x59 => Some(OpCode { mnemonic: Mnemonic::Eor, cycles: 4, mode: AddressingMode::AbsoluteY }),
        0x41 => Some(OpCode { mnemonic: Mnemonic::Eor, cycles: 6, mode: AddressingMode::IndirectX }),
        0x51 => Some(OpCode { mnemonic: Mnemonic::Eor, cycles: 5, mode: AddressingMode::IndirectY }),
        0xE6 => Some(OpCode { mnemonic: Mnemonic::Inc, cycles: 5, mode: AddressingMode::ZeroPage }),
        0xF6 => Some(OpCode { mnemonic: Mnemonic::Inc, cycles: 6, mode: AddressingMode::ZeroPageX }),
        0xEE => Some(OpCode { mnemonic: Mnemonic::Inc, cycles: 6, mode: AddressingMode::Absolute }),
        0xFE => Some(OpCode { mnemonic: Mnemonic::Inc, cycles: 7, mode: AddressingMode::AbsoluteX }),
        0xE8 => Some(OpCode { mnemonic: Mnemonic::Inx, cycles: 2, mode: AddressingMode::NoneAddressing }),
        0xC8 => Some(OpCode { mnemonic: Mnemonic::Iny, cycles: 2, mode: AddressingMode::NoneAddressing }),
        0x4C => Some(OpCode { mnemonic: Mnemonic::Jmp, cycles: 3, mode: AddressingMode::Absolute }),
        0x6C => Some(OpCode { mnemonic: Mnemonic::Jmp, cycles: 5, mode: AddressingMode::Indirect }),
        0x20 => Some(OpCode { mnemonic: Mnemonic::Jsr, cycles: 6, mode: AddressingMode::Absolute }),
        0xA9 => Some(OpCode { mnemonic: Mnemonic::Lda, cycles: 2, mode: AddressingMode::Immediate }),
        0xA5 => Some(OpCode { mnemonic: Mnemonic::Lda, cycles: 3, mode: AddressingMode::ZeroPage }),
        0xB5 => Some(OpCode { mnemonic: Mnemonic::Lda, cycles: 4, mode: AddressingMode::ZeroPageX }),
        0xAD => Some(OpCode { mnemonic: Mnemonic::Lda, cycles: 4, mode: AddressingMode::Absolute }),
        0xBD => Some(OpCode { mnemonic: Mnemonic::Lda, cycles: 4, mode: AddressingMode::AbsoluteX }),
        0xB9 => Some(OpCode { mnemonic: Mnemonic::Lda, cycles: 4, mode: AddressingMode::AbsoluteY }),
        0xA1 => Some(OpCode { mnemonic: Mnemonic::Lda, cycles: 6, mode: AddressingMode::IndirectX }),
        0xB1 => Some(OpCode { mnemonic: Mnemonic::Lda, cycles: 5, mode: AddressingMode::IndirectY }),
        0xA2 => Some(OpCode { mnemonic: Mnemonic::Ldx, cycles: 2, mode: AddressingMode::Immediate }),
        0xA6 => Some(OpCode { mnemonic: Mnemonic::Ldx, cycles: 3, mode: AddressingMode::ZeroPage }),
        0xB6 => Some(OpCode { mnemonic: Mnemonic::Ldx, cycles: 4, mode: AddressingMode::ZeroPageY }),
        0xAE => Some(OpCode { mnemonic: Mnemonic::Ldx, cycles: 4, mode: AddressingMode::Absolute }),
        0xBE => Some(OpCode { mnemonic: Mnemonic::Ldx, cycles: 4, mode: AddressingMode::AbsoluteY }),
        0xA0 => Some(OpCode { mnemonic: Mnemonic::Ldy, cycles: 2, mode: AddressingMode::Immediate }),
        0xA4 => Some(OpCode { mnemonic: Mnemonic::Ldy, cycles: 3, mode: AddressingMode::ZeroPage }),
        0xB4 => Some(OpCode { mnemonic: Mnemonic::Ldy, cycles: 4, mode: AddressingMode::ZeroPageX }),
        0xAC => Some(OpCode { mnemonic: Mnemonic::Ldy, cycles: 4, mode: AddressingMode::Absolute }),
        0xBC => Some(OpCode { mnemonic: Mnemonic::Ldy, cycles: 4, mode: AddressingMode::AbsoluteX }),
        0x4A => Some(OpCode { mnemonic: Mnemonic::Lsr, cycles: 2, mode: AddressingMode::NoneAddressing }),
        0x46 => Some(OpCode { mnemonic: Mnemonic::Lsr, cycles: 5, mode: AddressingMode::ZeroPage }),
        0x56 => Some(OpCode { mnemonic: Mnemonic::Lsr, cycles: 6, mode: AddressingMode::ZeroPageX }),
        0x4E => Some(OpCode { mnemonic: Mnemonic::Lsr, cycles: 6, mode: AddressingMode::Absolute }),
        0x5E => Some(OpCode { mnemonic: Mnemonic::Lsr, cycles: 7, mode: AddressingMode::AbsoluteX }),
        0xEA => Some(OpCode { mnemonic: Mnemonic::Nop, cycles: 1, mode: AddressingMode::NoneAddressing }),
        0x09 => Some(OpCode { mnemonic: Mnemonic::Ora, cycles: 2, mode: AddressingMode::Immediate }),
        0x05 => Some(OpCode { mnemonic: Mnemonic::Ora, cycles: 3, mode: AddressingMode::ZeroPage }),
        0x15 => Some(OpCode { mnemonic: Mnemonic::Ora, cycles: 4, mode: AddressingMode::ZeroPageX }),
        0x0D => Some(OpCode { mnemonic: Mnemonic::Ora, cycles: 4, mode: AddressingMode::Absolute }),
        0x1D => Some(OpCode { mnemonic: Mnemonic::Ora, cycles: 4, mode: AddressingMode::AbsoluteX }),
        0x19 => Some(OpCode { mnemonic: Mnemonic::Ora, cycles: 4, mode: AddressingMode::AbsoluteY }),
        0x01 => Some(OpCode { mnemonic: Mnemonic::Ora, cycles: 6, mode: AddressingMode::IndirectX }),
        0x11 => Some(OpCode { mnemonic: Mnemonic::Ora, cycles: 5, mode: AddressingMode::IndirectY }),
        0x48 => Some(OpCode { mnemonic: Mnemonic::Pha, cycles: 3, mode: AddressingMode::NoneAddressing }),
        0x08 => Some(OpCode { mnemonic: Mnemonic::Php, cycles: 3, mode: AddressingMode::NoneAddressing }),
        0x68 => Some(OpCode { mnemonic: Mnemonic::Pla, cycles: 4, mode: AddressingMode::NoneAddressing }),
        0x28 => Some(OpCode { mnemonic: Mnemonic::Plp, cycles: 4, mode: AddressingMode::NoneAddressing }),
        0x2A => Some(OpCode { mnemonic: Mnemonic::Rol, cycles: 2, mode: AddressingMode::NoneAddressing }),
        0x26 => Some(OpCode { mnemonic: Mnemonic::Rol, cycles: 5, mode: AddressingMode::ZeroPage }),
        0x36 => Some(OpCode { mnemonic: Mnemonic::Rol, cycles: 6, mode: AddressingMode::ZeroPageX }),
        0x2E => Some(OpCode { mnemonic: Mnemonic::Rol, cycles: 6, mode: AddressingMode::Absolute }),
        0x3E => Some(OpCode { mnemonic: Mnemonic::Rol, cycles: 7, mode: AddressingMode::AbsoluteX }),
        0x6A => Some(OpCode { mnemonic: Mnemonic::Ror, cycles: 2, mode: AddressingMode::NoneAddressing }),
        0x66 => Some(OpCode { mnemonic: Mnemonic::Ror, cycles: 5, mode: AddressingMode::ZeroPage }),
        0x76 => Some(OpCode { mnemonic: Mnemonic::Ror, cycles: 6, mode: AddressingMode::ZeroPageX }),
        0x6E => Some(OpCode { mnemonic: Mnemonic::Ror, cycles: 6, mode: AddressingMode::Absolute }),
        0x7E => Some(OpCode { mnemonic: Mnemonic::Ror, cycles: 7, mode: AddressingMode::AbsoluteX }),
        0x40 => Some(OpCode { mnemonic: Mnemonic::Rti, cycles: 6, mode: AddressingMode::NoneAddressing }),
        0x60 => Some(OpCode { mnemonic: Mnemonic::Rts, cycles: 6, mode: AddressingMode::NoneAddressing }),
        0xE9 => Some(OpCode { mnemonic: Mnemonic::Sbc, cycles: 2, mode: AddressingMode::Immediate }),
        0xE5 => Some(OpCode { mnemonic: Mnemonic::Sbc, cycles: 3, mode: AddressingMode::ZeroPage }),
        0xF5 => Some(OpCode { mnemonic: Mnemonic::Sbc, cycles: 4, mode: AddressingMode::ZeroPageX }),
        0xED => Some(OpCode { mnemonic: Mnemonic::Sbc, cycles: 4, mode: AddressingMode::Absolute }),
        0xFD => Some(OpCode { mnemonic: Mnemonic::Sbc, cycles: 4, mode: AddressingMode::AbsoluteX }),
        0xF9 => Some(OpCode { mnemonic: Mnemonic::Sbc, cycles: 4, mode: AddressingMode::AbsoluteY }),
        0xE1 => Some(OpCode { mnemonic: Mnemonic::Sbc, cycles: 6, mode: AddressingMode::IndirectX }),
        0xF1 => Some(OpCode { mnemonic: Mnemonic::Sbc, cycles: 5, mode: AddressingMode::IndirectY }),
        0x38 => Some(OpCode { mnemonic: Mnemonic::Sec, cycles: 2, mode: AddressingMode::NoneAddressing }),
        0xF8 => Some(OpCode { mnemonic: Mnemonic::Sed, cycles: 2, mode: AddressingMode::NoneAddressing }),
        0x78 => Some(OpCode { mnemonic: Mnemonic::Sei, cycles: 2, mode: AddressingMode::NoneAddressing }),
        0x85 => Some(OpCode { mnemonic: Mnemonic::Sta, cycles: 3, mode: AddressingMode::ZeroPage }),
        0x95 => Some(OpCode { mnemonic: Mnemonic::Sta, cycles: 4, mode: AddressingMode::ZeroPageX }),
        0x8D => Some(OpCode { mnemonic: Mnemonic::Sta, cycles: 4, mode: AddressingMode::Absolute }),
        0x9D => Some(OpCode { mnemonic: Mnemonic::Sta, cycles: 5, mode: AddressingMode::AbsoluteX }),
        0x99 => Some(OpCode { mnemonic: Mnemonic::Sta, cycles: 5, mode: AddressingMode::AbsoluteY }),
        0x81 => Some(OpCode { mnemonic: Mnemonic::Sta, cycles: 6, mode: AddressingMode::IndirectX }),
        0x91 => Some(OpCode { mnemonic: Mnemonic::Sta, cycles: 6, mode: AddressingMode::IndirectY }),
        0x86 => Some(OpCode { mnemonic: Mnemonic::Stx, cycles: 3, mode: AddressingMode::ZeroPage }),
        0x96 => Some(OpCode { mnemonic: Mnemonic::Stx, cycles: 4, mode: AddressingMode::ZeroPageY }),
        0x8E => Some(OpCode { mnemonic: Mnemonic::Stx, cycles: 4, mode: AddressingMode::Absolute }),
        0x84 => Some(OpCode { mnemonic: Mnemonic::Sty, cycles: 3, mode: AddressingMode::ZeroPage }),
        0x94 => Some(OpCode { mnemonic: Mnemonic::Sty, cycles: 4, mode: AddressingMode::ZeroPageX }),
        0x8C => Some(OpCode { mnemonic: Mnemonic::Sty, cycles: 4, mode: AddressingMode::Absolute }),
        0xAA => Some(OpCode { mnemonic: Mnemonic::Tax, cycles: 2, mode: AddressingMode::NoneAddressing }),
        0xA8 => Some(OpCode { mnemonic: Mnemonic::Tay, cycles: 2, mode: AddressingMode::NoneAddressing }),
        0xBA => Some(OpCode { mnemonic: Mnemonic::Tsx, cycles: 2, mode: AddressingMode::NoneAddressing }),
        0x8A => Some(OpCode { mnemonic: Mnemonic::Txa, cycles: 2, mode: AddressingMode::NoneAddressing }),
        0x9A => Some(OpCode { mnemonic: Mnemonic::Txs, cycles: 2, mode: AddressingMode::NoneAddressing }),
        0x98 => Some(OpCode { mnemonic: Mnemonic::Tya, cycles: 2, mode: AddressingMode::NoneAddressing }),
        _ => None,
    }
}

/// Looks an instruction byte up in the opcode table.
pub fn opcode_lookup(code: u8) -> (r: Option<OpCode>)
    ensures
        r == spec_opcode(code),
{
    proof {
        reveal(spec_opcode);
    }
    match code {
        0x69 => Some(OpCode { mnemonic: Mnemonic::Adc, cycles: 2, mode: AddressingMode::Immediate }),
        0x65 => Some(OpCode { mnemonic: Mnemonic::Adc, cycles: 3, mode: AddressingMode::ZeroPage }),
        0x75 => Some(OpCode { mnemonic: Mnemonic::Adc, cycles: 4, mode: AddressingMode::ZeroPageX }),
        0x6D => Some(OpCode { mnemonic: Mnemonic::Adc, cycles: 4, mode: AddressingMode::Absolute }),
        0x7D => Some(OpCode { mnemonic: Mnemonic::Adc, cycles: 4, mode: AddressingMode::AbsoluteX }),
        0x79 => Some(OpCode { mnemonic: Mnemonic::Adc, cycles: 4, mode: AddressingMode::AbsoluteY }),
        0x61 => Some(OpCode { mnemonic: Mnemonic::Adc, cycles: 6, mode: AddressingMode::IndirectX }),
        0x71 => Some(OpCode { mnemonic: Mnemonic::Adc, cycles: 5, mode: AddressingMode::IndirectY }),
        0x29 => Some(OpCode { mnemonic: Mnemonic::And, cycles: 2, mode: AddressingMode::Immediate }),
        0x25 => Some(OpCode { mnemonic: Mnemonic::And, cycles: 3, mode: AddressingMode::ZeroPage }),
        0x35 => Some(OpCode { mnemonic: Mnemonic::And, cycles: 4, mode: AddressingMode::ZeroPageX }),
        0x2D => Some(OpCode { mnemonic: Mnemonic::And, cycles: 4, mode: AddressingMode::Absolute }),
        0x3D => Some(OpCode { mnemonic: Mnemonic::And, cycles: 4, mode: AddressingMode::AbsoluteX }),
        0x39 => Some(OpCode { mnemonic: Mnemonic::And, cycles: 4, mode: AddressingMode::AbsoluteY }),
        0x21 => Some(OpCode { mnemonic: Mnemonic::And, cycles: 6, mode: AddressingMode::IndirectX }),
        0x31 => Some(OpCode { mnemonic: Mnemonic::And, cycles: 5, mode: AddressingMode::IndirectY }),
        0x0A => Some(OpCode { mnemonic: Mnemonic::Asl, cycles: 2, mode: AddressingMode::NoneAddressing }),
        0x06 => Some(OpCode { mnemonic: Mnemonic::Asl, cycles: 5, mode: AddressingMode::ZeroPage }),
        0x16 => Some(OpCode { mnemonic: Mnemonic::Asl, cycles: 6, mode: AddressingMode::ZeroPageX }),
        0x0E => Some(OpCode { mnemonic: Mnemonic::Asl, cycles: 6, mode: AddressingMode::Absolute }),
        0x1E => Some(OpCode { mnemonic: Mnemonic::Asl, cycles: 7, mode: AddressingMode::AbsoluteX }),
        0x90 => Some(OpCode { mnemonic: Mnemonic::Bcc, cycles: 2, mode: AddressingMode::Relative }),
        0xB0 => Some(OpCode { mnemonic: Mnemonic::Bcs, cycles: 2, mode: AddressingMode::Relative }),
        0xF0 => Some(OpCode { mnemonic: Mnemonic::Beq, cycles: 2, mode: AddressingMode::Relative }),
        0x24 => Some(OpCode { mnemonic: Mnemonic::Bit, cycles: 3, mode: AddressingMode::ZeroPage }),
        0x2C => Some(OpCode { mnemonic: Mnemonic::Bit, cycles: 4, mode: AddressingMode::Absolute }),
        0x30 => Some(OpCode { mnemonic: Mnemonic::Bmi, cycles: 2, mode: AddressingMode::Relative }),
        0xD0 => Some(OpCode { mnemonic: Mnemonic::Bne, cycles: 2, mode: AddressingMode::Relative }),
        0x10 => Some(OpCode { mnemonic: Mnemonic::Bpl, cycles: 2, mode: AddressingMode::Relative }),
        0x00 => Some(OpCode { mnemonic: Mnemonic::Brk, cycles: 7, mode: AddressingMode::NoneAddressing }),
        0x50 => Some(OpCode { mnemonic: Mnemonic::Bvc, cycles: 2, mode: AddressingMode::Relative }),
        0x70 => Some(OpCode { mnemonic: Mnemonic::Bvs, cycles: 2, mode: AddressingMode::Relative }),
        0x18 => Some(OpCode { mnemonic: Mnemonic::Clc, cycles: 2, mode: AddressingMode::NoneAddressing }),
        0xD8 => Some(OpCode { mnemonic: Mnemonic::Cld, cycles: 2, mode: AddressingMode::NoneAddressing }),
        0x58 => Some(OpCode { mnemonic: Mnemonic::Cli, cycles: 2, mode: AddressingMode::NoneAddressing }),
        0xB8 => Some(OpCode { mnemonic: Mnemonic::Clv, cycles: 2, mode: AddressingMode::NoneAddressing }),
        0xC9 => Some(OpCode { mnemonic: Mnemonic::Cmp, cycles: 2, mode: AddressingMode::Immediate }),
        0xC5 => Some(OpCode { mnemonic: Mnemonic::Cmp, cycles: 3, mode: AddressingMode::ZeroPage }),
        0xD5 => Some(OpCode { mnemonic: Mnemonic::Cmp, cycles: 4, mode: AddressingMode::ZeroPageX }),
        0xCD => Some(OpCode { mnemonic: Mnemonic::Cmp, cycles: 4, mode: AddressingMode::Absolute }),
        0xDD => Some(OpCode { mnemonic: Mnemonic::Cmp, cycles: 4, mode: AddressingMode::AbsoluteX }),
        0xD9 => Some(OpCode { mnemonic: Mnemonic::Cmp, cycles: 4, mode: AddressingMode::AbsoluteY }),
        0xC1 => Some(OpCode { mnemonic: Mnemonic::Cmp, cycles: 6, mode: AddressingMode::IndirectX }),
        0xD1 => Some(OpCode { mnemonic: Mnemonic::Cmp, cycles: 5, mode: AddressingMode::IndirectY }),
        0xE0 => Some(OpCode { mnemonic: Mnemonic::Cpx, cycles: 2, mode: AddressingMode::Immediate }),
        0xE4 => Some(OpCode { mnemonic: Mnemonic::Cpx, cycles: 3, mode: AddressingMode::ZeroPage }),
        0xEC => Some(OpCode { mnemonic: Mnemonic::Cpx, cycles: 4, mode: AddressingMode::Absolute }),
        0xC0 => Some(OpCode { mnemonic: Mnemonic::Cpy, cycles: 2, mode: AddressingMode::Immediate }),
        0xC4 => Some(OpCode { mnemonic: Mnemonic::Cpy, cycles: 3, mode: AddressingMode::ZeroPage }),
        0xCC => Some(OpCode { mnemonic: Mnemonic::Cpy, cycles: 4, mode: AddressingMode::Absolute }),
        0xC6 => Some(OpCode { mnemonic: Mnemonic::Dec, cycles: 5, mode: AddressingMode::ZeroPage }),
        0xD6 => Some(OpCode { mnemonic: Mnemonic::Dec, cycles: 6, mode: AddressingMode::ZeroPageX }),
        0xCE => Some(OpCode { mnemonic: Mnemonic::Dec, cycles: 6, mode: AddressingMode::Absolute }),
        0xDE => Some(OpCode { mnemonic: Mnemonic::Dec, cycles: 7, mode: AddressingMode::AbsoluteX }),
        0xCA => Some(OpCode { mnemonic: Mnemonic::Dex, cycles: 2, mode: AddressingMode::NoneAddressing }),
        0x88 => Some(OpCode { mnemonic: Mnemonic::Dey, cycles: 2, mode: AddressingMode::NoneAddressing }),
        0x49 => Some(OpCode { mnemonic: Mnemonic::Eor, cycles: 2, mode: AddressingMode::Immediate }),
        0x45 => Some(OpCode { mnemonic: Mnemonic::Eor, cycles: 3, mode: AddressingMode::ZeroPage }),
        0x55 => Some(OpCode { mnemonic: Mnemonic::Eor, cycles: 4, mode: AddressingMode::ZeroPageX }),
        0x4D => Some(OpCode { mnemonic: Mnemonic::Eor, cycles: 4, mode: AddressingMode::Absolute }),
        0x5D => Some(OpCode { mnemonic: Mnemonic::Eor, cycles: 4, mode: AddressingMode::AbsoluteX }),
        0x59 => Some(OpCode { mnemonic: Mnemonic::Eor, cycles: 4, mode: AddressingMode::AbsoluteY }),
        0x41 => Some(OpCode { mnemonic: Mnemonic::Eor, cycles: 6, mode: AddressingMode::IndirectX }),
        0x51 => Some(OpCode { mnemonic: Mnemonic::Eor, cycles: 5, mode: AddressingMode::IndirectY }),
        0xE6 => Some(OpCode { mnemonic: Mnemonic::Inc, cycles: 5, mode: AddressingMode::ZeroPage }),
        0xF6 => Some(OpCode { mnemonic: Mnemonic::Inc, cycles: 6, mode: AddressingMode::ZeroPageX }),
        0xEE => Some(OpCode { mnemonic: Mnemonic::Inc, cycles: 6, mode: AddressingMode::Absolute }),
        0xFE => Some(OpCode { mnemonic: Mnemonic::Inc, cycles: 7, mode: AddressingMode::AbsoluteX }),
        0xE8 => Some(OpCode { mnemonic: Mnemonic::Inx, cycles: 2, mode: AddressingMode::NoneAddressing }),
        0xC8 => Some(OpCode { mnemonic: Mnemonic::Iny, cycles: 2, mode: AddressingMode::NoneAddressing }),
        0x4C => Some(OpCode { mnemonic: Mnemonic::Jmp, cycles: 3, mode: AddressingMode::Absolute }),
        0x6C => Some(OpCode { mnemonic: Mnemonic::Jmp, cycles: 5, mode: AddressingMode::Indirect }),
        0x20 => Some(OpCode { mnemonic: Mnemonic::Jsr, cycles: 6, mode: AddressingMode::Absolute }),
        0xA9 => Some(OpCode { mnemonic: Mnemonic::Lda, cycles: 2, mode: AddressingMode::Immediate }),
        0xA5 => Some(OpCode { mnemonic: Mnemonic::Lda, cycles: 3, mode: AddressingMode::ZeroPage }),
        0xB5 => Some(OpCode { mnemonic: Mnemonic::Lda, cycles: 4, mode: AddressingMode::ZeroPageX }),
        0xAD => Some(OpCode { mnemonic: Mnemonic::Lda, cycles: 4, mode: AddressingMode::Absolute }),
        0xBD => Some(OpCode { mnemonic: Mnemonic::Lda, cycles: 4, mode: AddressingMode::AbsoluteX }),
        0xB9 => Some(OpCode { mnemonic: Mnemonic::Lda, cycles: 4, mode: AddressingMode::AbsoluteY }),
        0xA1 => Some(OpCode { mnemonic: Mnemonic::Lda, cycles: 6, mode: AddressingMode::IndirectX }),
        0xB1 => Some(OpCode { mnemonic: Mnemonic::Lda, cycles: 5, mode: AddressingMode::IndirectY }),
        0xA2 => Some(OpCode { mnemonic: Mnemonic::Ldx, cycles: 2, mode: AddressingMode::Immediate }),
        0xA6 => Some(OpCode { mnemonic: Mnemonic::Ldx, cycles: 3, mode: AddressingMode::ZeroPage }),
        0xB6 => Some(OpCode { mnemonic: Mnemonic::Ldx, cycles: 4, mode: AddressingMode::ZeroPageY }),
        0xAE => Some(OpCode { mnemonic: Mnemonic::Ldx, cycles: 4, mode: AddressingMode::Absolute }),
        0xBE => Some(OpCode { mnemonic: Mnemonic::Ldx, cycles: 4, mode: AddressingMode::AbsoluteY }),
        0xA0 => Some(OpCode { mnemonic: Mnemonic::Ldy, cycles: 2, mode: AddressingMode::Immediate }),
        0xA4 => Some(OpCode { mnemonic: Mnemonic::Ldy, cycles: 3, mode: AddressingMode::ZeroPage }),
        0xB4 => Some(OpCode { mnemonic: Mnemonic::Ldy, cycles: 4, mode: AddressingMode::ZeroPageX }),
        0xAC => Some(OpCode { mnemonic: Mnemonic::Ldy, cycles: 4, mode: AddressingMode::Absolute }),
        0xBC => Some(OpCode { mnemonic: Mnemonic::Ldy, cycles: 4, mode: AddressingMode::AbsoluteX }),
        0x4A => Some(OpCode { mnemonic: Mnemonic::Lsr, cycles: 2, mode: AddressingMode::NoneAddressing }),
        0x46 => Some(OpCode { mnemonic: Mnemonic::Lsr, cycles: 5, mode: AddressingMode::ZeroPage }),
        0x56 => Some(OpCode { mnemonic: Mnemonic::Lsr, cycles: 6, mode: AddressingMode::ZeroPageX }),
        0x4E => Some(OpCode { mnemonic: Mnemonic::Lsr, cycles: 6, mode: AddressingMode::Absolute }),
        0x5E => Some(OpCode { mnemonic: Mnemonic::Lsr, cycles: 7, mode: AddressingMode::AbsoluteX }),
        0xEA => Some(OpCode { mnemonic: Mnemonic::Nop, cycles: 1, mode: AddressingMode::NoneAddressing }),
        0x09 => Some(OpCode { mnemonic: Mnemonic::Ora, cycles: 2, mode: AddressingMode::Immediate }),
        0x05 => Some(OpCode { mnemonic: Mnemonic::Ora, cycles: 3, mode: AddressingMode::ZeroPage }),
        0x15 => Some(OpCode { mnemonic: Mnemonic::Ora, cycles: 4, mode: AddressingMode::ZeroPageX }),
        0x0D => Some(OpCode { mnemonic: Mnemonic::Ora, cycles: 4, mode: AddressingMode::Absolute }),
        0x1D => Some(OpCode { mnemonic: Mnemonic::Ora, cycles: 4, mode: AddressingMode::AbsoluteX }),
        0x19 => Some(OpCode { mnemonic: Mnemonic::Ora, cycles: 4, mode: AddressingMode::AbsoluteY }),
        0x01 => Some(OpCode { mnemonic: Mnemonic::Ora, cycles: 6, mode: AddressingMode::IndirectX }),
        0x11 => Some(OpCode { mnemonic: Mnemonic::Ora, cycles: 5, mode: AddressingMode::IndirectY }),
        0x48 => Some(OpCode { mnemonic: Mnemonic::Pha, cycles: 3, mode: AddressingMode::NoneAddressing }),
        0x08 => Some(OpCode { mnemonic: Mnemonic::Php, cycles: 3, mode: AddressingMode::NoneAddressing }),
        0x68 => Some(OpCode { mnemonic: Mnemonic::Pla, cycles: 4, mode: AddressingMode::NoneAddressing }),
        0x28 => Some(OpCode { mnemonic: Mnemonic::Plp, cycles: 4, mode: AddressingMode::NoneAddressing }),
        0x2A => Some(OpCode { mnemonic: Mnemonic::Rol, cycles: 2, mode: AddressingMode::NoneAddressing }),
        0x26 => Some(OpCode { mnemonic: Mnemonic::Rol, cycles: 5, mode: AddressingMode::ZeroPage }),
        0x36 => Some(OpCode { mnemonic: Mnemonic::Rol, cycles: 6, mode: AddressingMode::ZeroPageX }),
        0x2E => Some(OpCode { mnemonic: Mnemonic::Rol, cycles: 6, mode: AddressingMode::Absolute }),
        0x3E => Some(OpCode { mnemonic: Mnemonic::Rol, cycles: 7, mode: AddressingMode::AbsoluteX }),
        0x6A => Some(OpCode { mnemonic: Mnemonic::Ror, cycles: 2, mode: AddressingMode::NoneAddressing }),
        0x66 => Some(OpCode { mnemonic: Mnemonic::Ror, cycles: 5, mode: AddressingMode::ZeroPage }),
        0x76 => Some(OpCode { mnemonic: Mnemonic::Ror, cycles: 6, mode: AddressingMode::ZeroPageX }),
        0x6E => Some(OpCode { mnemonic: Mnemonic::Ror, cycles: 6, mode: AddressingMode::Absolute }),
        0x7E => Some(OpCode { mnemonic: Mnemonic::Ror, cycles: 7, mode: AddressingMode::AbsoluteX }),
        0x40 => Some(OpCode { mnemonic: Mnemonic::Rti, cycles: 6, mode: AddressingMode::NoneAddressing }),
        0x60 => Some(OpCode { mnemonic: Mnemonic::Rts, cycles: 6, mode: AddressingMode::NoneAddressing }),
        0xE9 => Some(OpCode { mnemonic: Mnemonic::Sbc, cycles: 2, mode: AddressingMode::Immediate }),
        0xE5 => Some(OpCode { mnemonic: Mnemonic::Sbc, cycles: 3, mode: AddressingMode::ZeroPage }),
        0xF5 => Some(OpCode { mnemonic: Mnemonic::Sbc, cycles: 4, mode: AddressingMode::ZeroPageX }),
        0xED => Some(OpCode { mnemonic: Mnemonic::Sbc, cycles: 4, mode: AddressingMode::Absolute }),
        0xFD => Some(OpCode { mnemonic: Mnemonic::Sbc, cycles: 4, mode: AddressingMode::AbsoluteX }),
        0xF9 => Some(OpCode { mnemonic: Mnemonic::Sbc, cycles: 4, mode: AddressingMode::AbsoluteY }),
        0xE1 => Some(OpCode { mnemonic: Mnemonic::Sbc, cycles: 6, mode: AddressingMode::IndirectX }),
        0xF1 => Some(OpCode { mnemonic: Mnemonic::Sbc, cycles: 5, mode: AddressingMode::IndirectY }),
        0x38 => Some(OpCode { mnemonic: Mnemonic::Sec, cycles: 2, mode: AddressingMode::NoneAddressing }),
        0xF8 => Some(OpCode { mnemonic: Mnemonic::Sed, cycles: 2, mode: AddressingMode::NoneAddressing }),
        0x78 => Some(OpCode { mnemonic: Mnemonic::Sei, cycles: 2, mode: AddressingMode::NoneAddressing }),
        0x85 => Some(OpCode { mnemonic: Mnemonic::Sta, cycles: 3, mode: AddressingMode::ZeroPage }),
        0x95 => Some(OpCode { mnemonic: Mnemonic::Sta, cycles: 4, mode: AddressingMode::ZeroPageX }),
        0x8D => Some(OpCode { mnemonic: Mnemonic::Sta, cycles: 4, mode: AddressingMode::Absolute }),
        0x9D => Some(OpCode { mnemonic: Mnemonic::Sta, cycles: 5, mode: AddressingMode::AbsoluteX }),
        0x99 => Some(OpCode { mnemonic: Mnemonic::Sta, cycles: 5, mode: AddressingMode::AbsoluteY }),
        0x81 => Some(OpCode { mnemonic: Mnemonic::Sta, cycles: 6, mode: AddressingMode::IndirectX }),
        0x91 => Some(OpCode { mnemonic: Mnemonic::Sta, cycles: 6, mode: AddressingMode::IndirectY }),
        0x86 => Some(OpCode { mnemonic: Mnemonic::Stx, cycles: 3, mode: AddressingMode::ZeroPage }),
        0x96 => Some(OpCode { mnemonic: Mnemonic::Stx, cycles: 4, mode: AddressingMode::ZeroPageY }),
        0x8E => Some(OpCode { mnemonic: Mnemonic::Stx, cycles: 4, mode: AddressingMode::Absolute }),
        0x84 => Some(OpCode { mnemonic: Mnemonic::Sty, cycles: 3, mode: AddressingMode::ZeroPage }),
        0x94 => Some(OpCode { mnemonic: Mnemonic::Sty, cycles: 4, mode: AddressingMode::ZeroPageX }),
        0x8C => Some(OpCode { mnemonic: Mnemonic::Sty, cycles: 4, mode: AddressingMode::Absolute }),
        0xAA => Some(OpCode { mnemonic: Mnemonic::Tax, cycles: 2, mode: AddressingMode::NoneAddressing }),
        0xA8 => Some(OpCode { mnemonic: Mnemonic::Tay, cycles: 2, mode: AddressingMode::NoneAddressing }),
        0xBA => Some(OpCode { mnemonic: Mnemonic::Tsx, cycles: 2, mode: AddressingMode::NoneAddressing }),
        0x8A => Some(OpCode { mnemonic: Mnemonic::Txa, cycles: 2, mode: AddressingMode::NoneAddressing }),
        0x9A => Some(OpCode { mnemonic: Mnemonic::Txs, cycles: 2, mode: AddressingMode::NoneAddressing }),
        0x98 => Some(OpCode { mnemonic: Mnemonic::Tya, cycles: 2, mode: AddressingMode::NoneAddressing }),
        _ => None,
    }
}


/// The opcode table never pairs a mnemonic that consumes an operand
/// with the implied addressing mode.
pub open spec fn mode_consistent(oc: OpCode) -> bool {
    match oc.mnemonic {
        Mnemonic::Adc | Mnemonic::And | Mnemonic::Bcc | Mnemonic::Bcs | Mnemonic::Beq
            | Mnemonic::Bit | Mnemonic::Bmi | Mnemonic::Bne | Mnemonic::Bpl | Mnemonic::Bvc
            | Mnemonic::Bvs | Mnemonic::Cmp | Mnemonic::Cpx | Mnemonic::Cpy | Mnemonic::Dec
            | Mnemonic::Eor | Mnemonic::Inc | Mnemonic::Jmp | Mnemonic::Jsr | Mnemonic::Lda
            | Mnemonic::Ldx | Mnemonic::Ldy | Mnemonic::Ora | Mnemonic::Sbc | Mnemonic::Sta
            | Mnemonic::Stx | Mnemonic::Sty => !(oc.mode is NoneAddressing),
        _ => true,
    }
}

/// Every entry of the opcode table satisfies [`mode_consistent`].
pub proof fn lemma_opcode_mode_consistent(op: u8)
    ensures
        spec_opcode(op) is Some ==> mode_consistent(spec_opcode(op).unwrap()),
{
    reveal(spec_opcode);
}

} // verus!

