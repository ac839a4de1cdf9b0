//! The instruction set table: which opcode byte is which operation in which
//! addressing mode, and the assembler names.

use vstd::prelude::*;

use crate::cpu::AddressingMode;

verus! {

/// The documented 6502 operations that the interpreter executes.
#[derive(Clone, Copy, Debug, PartialEq, Eq, Structural)]
pub enum Mnemonic {
    /// Load A.
    Lda,
    /// Load X.
    Ldx,
    /// Load Y.
    Ldy,
    /// Store A.
    Sta,
    /// Store X.
    Stx,
    /// Store Y.
    Sty,
    /// Add with carry.
    Adc,
    /// Subtract with borrow.
    Sbc,
    /// Compare A.
    Cmp,
    /// Compare X.
    Cpx,
    /// Compare Y.
    Cpy,
    /// Bitwise and into A.
    And,
    /// Bitwise or into A.
    Ora,
    /// Exclusive or into A.
    Eor,
    /// Increment memory.
    Inc,
    /// Decrement memory.
    Dec,
    /// Increment X.
    Inx,
    /// Increment Y.
    Iny,
    /// Decrement X.
    Dex,
    /// Decrement Y.
    Dey,
    /// Copy A to X.
    Tax,
    /// Copy A to Y.
    Tay,
    /// Copy X to A.
    Txa,
    /// Copy Y to A.
    Tya,
    /// Copy SP to X.
    Tsx,
    /// Copy X to SP.
    Txs,
    /// Return from subroutine.
    Rts,
    /// Halt.
    Brk,
    /// No operation.
    Nop,
    /// Clear carry.
    Clc,
    /// Set carry.
    Sec,
    /// Clear interrupt disable.
    Cli,
    /// Set interrupt disable.
    Sei,
    /// Clear decimal.
    Cld,
    /// Set decimal.
    Sed,
    /// Clear overflow.
    Clv,
    /// Jump.
    Jmp,
    /// Call subroutine.
    Jsr,
    /// Branch if carry clear.
    Bcc,
    /// Branch if carry set.
    Bcs,
    /// Branch if zero set.
    Beq,
    /// Branch if zero clear.
    Bne,
    /// Branch if negative set.
    Bmi,
    /// Branch if negative clear.
    Bpl,
    /// Branch if overflow clear.
    Bvc,
    /// Branch if overflow set.
    Bvs,
}

/// The instruction set: what each recognised opcode byte does and how it
/// finds its operand. Every other byte is not an instruction.
pub open spec fn instruction_of(opcode: u8) -> Option<(Mnemonic, AddressingMode)> {
    match opcode {
        0xA9u8 => Some((Mnemonic::Lda, AddressingMode::Immediate)),
        0xA5u8 => Some((Mnemonic::Lda, AddressingMode::ZeroPage)),
        0xB5u8 => Some((Mnemonic::Lda, AddressingMode::ZeroPageX)),
        0xADu8 => Some((Mnemonic::Lda, AddressingMode::Absolute)),
        0xBDu8 => Some((Mnemonic::Lda, AddressingMode::AbsoluteX)),
        0xB9u8 => Some((Mnemonic::Lda, AddressingMode::AbsoluteY)),
        0xA1u8 => Some((Mnemonic::Lda, AddressingMode::IndexedIndirect)),
        0xB1u8 => Some((Mnemonic::Lda, AddressingMode::IndirectIndexed)),
        0xA2u8 => Some((Mnemonic::Ldx, AddressingMode::Immediate)),
        0xA6u8 => Some((Mnemonic::Ldx, AddressingMode::ZeroPage)),
        0xB6u8 => Some((Mnemonic::Ldx, AddressingMode::ZeroPageY)),
        0xAEu8 => Some((Mnemonic::Ldx, AddressingMode::Absolute)),
        0xBEu8 => Some((Mnemonic::Ldx, AddressingMode::AbsoluteY)),
        0xA0u8 => Some((Mnemonic::Ldy, AddressingMode::Immediate)),
        0xA4u8 => Some((Mnemonic::Ldy, AddressingMode::ZeroPage)),
        0xB4u8 => Some((Mnemonic::Ldy, AddressingMode::ZeroPageX)),
        0xACu8 => Some((Mnemonic::Ldy, AddressingMode::Absolute)),
        0xBCu8 => Some((Mnemonic::Ldy, AddressingMode::AbsoluteX)),
        0x85u8 => Some((Mnemonic::Sta, AddressingMode::ZeroPage)),
        0x95u8 => Some((Mnemonic::Sta, AddressingMode::ZeroPageX)),
        0x8Du8 => Some((Mnemonic::Sta, AddressingMode::Absolute)),
        0x9Du8 => Some((Mnemonic::Sta, AddressingMode::AbsoluteX)),
        0x99u8 => Some((Mnemonic::Sta, AddressingMode::AbsoluteY)),
        0x81u8 => Some((Mnemonic::Sta, AddressingMode::IndexedIndirect)),
        0x91u8 => Some((Mnemonic::Sta, AddressingMode::IndirectIndexed)),
        0x86u8 => Some((Mnemonic::Stx, AddressingMode::ZeroPage)),
        0x96u8 => Some((Mnemonic::Stx, AddressingMode::ZeroPageY)),
        0x8Eu8 => Some((Mnemonic::Stx, AddressingMode::Absolute)),
        0x84u8 => Some((Mnemonic::Sty, AddressingMode::ZeroPage)),
        0x94u8 => Some((Mnemonic::Sty, AddressingMode::ZeroPageX)),
        0x8Cu8 => Some((Mnemonic::Sty, AddressingMode::Absolute)),
        0x69u8 => Some((Mnemonic::Adc, AddressingMode::Immediate)),
        0x65u8 => Some((Mnemonic::Adc, AddressingMode::ZeroPage)),
        0x75u8 => Some((Mnemonic::Adc, AddressingMode::ZeroPageX)),
        0x6Du8 => Some((Mnemonic::Adc, AddressingMode::Absolute)),
        0x7Du8 => Some((Mnemonic::Adc, AddressingMode::AbsoluteX)),
        0x79u8 => Some((Mnemonic::Adc, AddressingMode::AbsoluteY)),
        0x61u8 => Some((Mnemonic::Adc, AddressingMode::IndexedIndirect)),
        0x71u8 => Some((Mnemonic::Adc, AddressingMode::IndirectIndexed)),
        0xE9u8 => Some((Mnemonic::Sbc, AddressingMode::Immediate)),
        0xE5u8 => Some((Mnemonic::Sbc, AddressingMode::ZeroPage)),
        0xF5u8 => Some((Mnemonic::Sbc, AddressingMode::ZeroPageX)),
        0xEDu8 => Some((Mnemonic::Sbc, AddressingMode::Absolute)),
        0xFDu8 => Some((Mnemonic::Sbc, AddressingMode::AbsoluteX)),
        0xF9u8 => Some((Mnemonic::Sbc, AddressingMode::AbsoluteY)),
        0xE1u8 => Some((Mnemonic::Sbc, AddressingMode::IndexedIndirect)),
        0xF1u8 => Some((Mnemonic::Sbc, AddressingMode::IndirectIndexed)),
        0xC9u8 => Some((Mnemonic::Cmp, AddressingMode::Immediate)),
        0xC5u8 => Some((Mnemonic::Cmp, AddressingMode::ZeroPage)),
        0xD5u8 => Some((Mnemonic::Cmp, AddressingMode::ZeroPageX)),
        0xCDu8 => Some((Mnemonic::Cmp, AddressingMode::Absolute)),
        0xDDu8 => Some((Mnemonic::Cmp, AddressingMode::AbsoluteX)),
        0xD9u8 => Some((Mnemonic::Cmp, AddressingMode::AbsoluteY)),
        0xC1u8 => Some((Mnemonic::Cmp, AddressingMode::IndexedIndirect)),
        0xD1u8 => Some((Mnemonic::Cmp, AddressingMode::IndirectIndexed)),
        0xE0u8 => Some((Mnemonic::Cpx, AddressingMode::Immediate)),
        0xE4u8 => Some((Mnemonic::Cpx, AddressingMode::ZeroPage)),
        0xECu8 => Some((Mnemonic::Cpx, AddressingMode::Absolute)),
        0xC0u8 => Some((Mnemonic::Cpy, AddressingMode::Immediate)),
        0xC4u8 => Some((Mnemonic::Cpy, AddressingMode::ZeroPage)),
        0xCCu8 => Some((Mnemonic::Cpy, AddressingMode::Absolute)),
        0x29u8 => Some((Mnemonic::And, AddressingMode::Immediate)),
        0x25u8 => Some((Mnemonic::And, AddressingMode::ZeroPage)),
        0x35u8 => Some((Mnemonic::And, AddressingMode::ZeroPageX)),
        0x2Du8 => Some((Mnemonic::And, AddressingMode::Absolute)),
        0x3Du8 => Some((Mnemonic::And, AddressingMode::AbsoluteX)),
        0x39u8 => Some((Mnemonic::And, AddressingMode::AbsoluteY)),
        0x21u8 => Some((Mnemonic::And, AddressingMode::IndexedIndirect)),
        0x31u8 => Some((Mnemonic::And, AddressingMode::IndirectIndexed)),
        0x09u8 => Some((Mnemonic::Ora, AddressingMode::Immediate)),
        0x05u8 => Some((Mnemonic::Ora, AddressingMode::ZeroPage)),
        0x15u8 => Some((Mnemonic::Ora, AddressingMode::ZeroPageX)),
        0x0Du8 => Some((Mnemonic::Ora, AddressingMode::Absolute)),
        0x1Du8 => Some((Mnemonic::Ora, AddressingMode::AbsoluteX)),
        0x19u8 => Some((Mnemonic::Ora, AddressingMode::AbsoluteY)),
        0x01u8 => Some((Mnemonic::Ora, AddressingMode::IndexedIndirect)),
        0x11u8 => Some((Mnemonic::Ora, AddressingMode::IndirectIndexed)),
        0x49u8 => Some((Mnemonic::Eor, AddressingMode::Immediate)),
        0x45u8 => Some((Mnemonic::Eor, AddressingMode::ZeroPage)),
        0x55u8 => Some((Mnemonic::Eor, AddressingMode::ZeroPageX)),
        0x4Du8 => Some((Mnemonic::Eor, AddressingMode::Absolute)),
        0x5Du8 => Some((Mnemonic::Eor, AddressingMode::AbsoluteX)),
        0x59u8 => Some((Mnemonic::Eor, AddressingMode::AbsoluteY)),
        0x41u8 => Some((Mnemonic::Eor, AddressingMode::IndexedIndirect)),
        0x51u8 => Some((Mnemonic::Eor, AddressingMode::IndirectIndexed)),
        0xE6u8 => Some((Mnemonic::Inc, AddressingMode::ZeroPage)),
        0xF6u8 => Some((Mnemonic::Inc, AddressingMode::ZeroPageX)),
        0xEEu8 => Some((Mnemonic::Inc, AddressingMode::Absolute)),
        0xFEu8 => Some((Mnemonic::Inc, AddressingMode::AbsoluteX)),
        0xC6u8 => Some((Mnemonic::Dec, AddressingMode::ZeroPage)),
        0xD6u8 => Some((Mnemonic::Dec, AddressingMode::ZeroPageX)),
        0xCEu8 => Some((Mnemonic::Dec, AddressingMode::Absolute)),
        0xDEu8 => Some((Mnemonic::Dec, AddressingMode::AbsoluteX)),
        0xE8u8 => Some((Mnemonic::Inx, AddressingMode::Implicit)),
        0xC8u8 => Some((Mnemonic::Iny, AddressingMode::Implicit)),
        0xCAu8 => Some((Mnemonic::Dex, AddressingMode::Implicit)),
        0x88u8 => Some((Mnemonic::Dey, AddressingMode::Implicit)),
        0xAAu8 => Some((Mnemonic::Tax, AddressingMode::Implicit)),
        0xA8u8 => Some((Mnemonic::Tay, AddressingMode::Implicit)),
        0x8Au8 => Some((Mnemonic::Txa, AddressingMode::Implicit)),
        0x98u8 => Some((Mnemonic::Tya, AddressingMode::Implicit)),
        0xBAu8 => Some((Mnemonic::Tsx, AddressingMode::Implicit)),
        0x9Au8 => Some((Mnemonic::Txs, AddressingMode::Implicit)),
        0x60u8 => Some((Mnemonic::Rts, AddressingMode::Implicit)),
        0x00u8 => Some((Mnemonic::Brk, AddressingMode::Implicit)),
        0xEAu8 => Some((Mnemonic::Nop, AddressingMode::Implicit)),
        0x18u8 => Some((Mnemonic::Clc, AddressingMode::Implicit)),
        0x38u8 => Some((Mnemonic::Sec, AddressingMode::Implicit)),
        0x58u8 => Some((Mnemonic::Cli, AddressingMode::Implicit)),
        0x78u8 => Some((Mnemonic::Sei, AddressingMode::Implicit)),
        0xD8u8 => Some((Mnemonic::Cld, AddressingMode::Implicit)),
        0xF8u8 => Some((Mnemonic::Sed, AddressingMode::Implicit)),
        0xB8u8 => Some((Mnemonic::Clv, AddressingMode::Implicit)),
        0x4Cu8 => Some((Mnemonic::Jmp, AddressingMode::Absolute)),
        0x6Cu8 => Some((Mnemonic::Jmp, AddressingMode::Indirect)),
        0x20u8 => Some((Mnemonic::Jsr, AddressingMode::Absolute)),
        0x90u8 => Some((Mnemonic::Bcc, AddressingMode::Relative)),
        0xB0u8 => Some((Mnemonic::Bcs, AddressingMode::Relative)),
        0xF0u8 => Some((Mnemonic::Beq, AddressingMode::Relative)),
        0xD0u8 => Some((Mnemonic::Bne, AddressingMode::Relative)),
        0x30u8 => Some((Mnemonic::Bmi, AddressingMode::Relative)),
        0x10u8 => Some((Mnemonic::Bpl, AddressingMode::Relative)),
        0x50u8 => Some((Mnemonic::Bvc, AddressingMode::Relative)),
        0x70u8 => Some((Mnemonic::Bvs, AddressingMode::Relative)),
        _ => None,
    }
}

/// The three-letter assembler name of each operation.
pub open spec fn name_of(mnemonic: Mnemonic) -> Seq<char> {
    match mnemonic {
        Mnemonic::Lda => "LDA"@,
        Mnemonic::Ldx => "LDX"@,
        Mnemonic::Ldy => "LDY"@,
        Mnemonic::Sta => "STA"@,
        Mnemonic::Stx => "STX"@,
        Mnemonic::Sty => "STY"@,
        Mnemonic::Adc => "ADC"@,
        Mnemonic::Sbc => "SBC"@,
        Mnemonic::Cmp => "CMP"@,
        Mnemonic::Cpx => "CPX"@,
        Mnemonic::Cpy => "CPY"@,
        Mnemonic::And => "AND"@,
        Mnemonic::Ora => "ORA"@,
        Mnemonic::Eor => "EOR"@,
        Mnemonic::Inc => "INC"@,
        Mnemonic::Dec => "DEC"@,
        Mnemonic::Inx => "INX"@,
        Mnemonic::Iny => "INY"@,
        Mnemonic::Dex => "DEX"@,
        Mnemonic::Dey => "DEY"@,
        Mnemonic::Tax => "TAX"@,
        Mnemonic::Tay => "TAY"@,
        Mnemonic::Txa => "TXA"@,
        Mnemonic::Tya => "TYA"@,
        Mnemonic::Tsx => "TSX"@,
        Mnemonic::Txs => "TXS"@,
        Mnemonic::Rts => "RTS"@,
        Mnemonic::Brk => "BRK"@,
        Mnemonic::Nop => "NOP"@,
        Mnemonic::Clc => "CLC"@,
        Mnemonic::Sec => "SEC"@,
        Mnemonic::Cli => "CLI"@,
        Mnemonic::Sei => "SEI"@,
        Mnemonic::Cld => "CLD"@,
        Mnemonic::Sed => "SED"@,
        Mnemonic::Clv => "CLV"@,
        Mnemonic::Jmp => "JMP"@,
        Mnemonic::Jsr => "JSR"@,
        Mnemonic::Bcc => "BCC"@,
        Mnemonic::Bcs => "BCS"@,
        Mnemonic::Beq => "BEQ"@,
        Mnemonic::Bne => "BNE"@,
        Mnemonic::Bmi => "BMI"@,
        Mnemonic::Bpl => "BPL"@,
        Mnemonic::Bvc => "BVC"@,
        Mnemonic::Bvs => "BVS"@,
    }
}

/// The name reported for an opcode byte, `"UNKNOWN"` for a byte that is not
/// an instruction.
pub open spec fn opcode_name(opcode: u8) -> Seq<char> {
    match instruction_of(opcode) {
        Some((mnemonic, _)) => name_of(mnemonic),
        None => "UNKNOWN"@,
    }
}

/// Looks an opcode byte up in the instruction set.
pub fn decode(opcode: u8) -> (r: Option<(Mnemonic, AddressingMode)>)
    ensures
        r == instruction_of(opcode),
{
    match opcode {
        0xA9 => Some((Mnemonic::Lda, AddressingMode::Immediate)),
        0xA5 => Some((Mnemonic::Lda, AddressingMode::ZeroPage)),
        0xB5 => Some((Mnemonic::Lda, AddressingMode::ZeroPageX)),
        0xAD => Some((Mnemonic::Lda, AddressingMode::Absolute)),
        0xBD => Some((Mnemonic::Lda, AddressingMode::AbsoluteX)),
        0xB9 => Some((Mnemonic::Lda, AddressingMode::AbsoluteY)),
        0xA1 => Some((Mnemonic::Lda, AddressingMode::IndexedIndirect)),
        0xB1 => Some((Mnemonic::Lda, AddressingMode::IndirectIndexed)),
        0xA2 => Some((Mnemonic::Ldx, AddressingMode::Immediate)),
        0xA6 => Some((Mnemonic::Ldx, AddressingMode::ZeroPage)),
        0xB6 => Some((Mnemonic::Ldx, AddressingMode::ZeroPageY)),
        0xAE => Some((Mnemonic::Ldx, AddressingMode::Absolute)),
        0xBE => Some((Mnemonic::Ldx, AddressingMode::AbsoluteY)),
        0xA0 => Some((Mnemonic::Ldy, AddressingMode::Immediate)),
        0xA4 => Some((Mnemonic::Ldy, AddressingMode::ZeroPage)),
        0xB4 => Some((Mnemonic::Ldy, AddressingMode::ZeroPageX)),
        0xAC => Some((Mnemonic::Ldy, AddressingMode::Absolute)),
        0xBC => Some((Mnemonic::Ldy, AddressingMode::AbsoluteX)),
        0x85 => Some((Mnemonic::Sta, AddressingMode::ZeroPage)),
        0x95 => Some((Mnemonic::Sta, AddressingMode::ZeroPageX)),
        0x8D => Some((Mnemonic::Sta, AddressingMode::Absolute)),
        0x9D => Some((Mnemonic::Sta, AddressingMode::AbsoluteX)),
        0x99 => Some((Mnemonic::Sta, AddressingMode::AbsoluteY)),
        0x81 => Some((Mnemonic::Sta, AddressingMode::IndexedIndirect)),
        0x91 => Some((Mnemonic::Sta, AddressingMode::IndirectIndexed)),
        0x86 => Some((Mnemonic::Stx, AddressingMode::ZeroPage)),
        0x96 => Some((Mnemonic::Stx, AddressingMode::ZeroPageY)),
        0x8E => Some((Mnemonic::Stx, AddressingMode::Absolute)),
        0x84 => Some((Mnemonic::Sty, AddressingMode::ZeroPage)),
        0x94 => Some((Mnemonic::Sty, AddressingMode::ZeroPageX)),
        0x8C => Some((Mnemonic::Sty, AddressingMode::Absolute)),
        0x69 => Some((Mnemonic::Adc, AddressingMode::Immediate)),
        0x65 => Some((Mnemonic::Adc, AddressingMode::ZeroPage)),
        0x75 => Some((Mnemonic::Adc, AddressingMode::ZeroPageX)),
        0x6D => Some((Mnemonic::Adc, AddressingMode::Absolute)),
        0x7D => Some((Mnemonic::Adc, AddressingMode::AbsoluteX)),
        0x79 => Some((Mnemonic::Adc, AddressingMode::AbsoluteY)),
        0x61 => Some((Mnemonic::Adc, AddressingMode::IndexedIndirect)),
        0x71 => Some((Mnemonic::Adc, AddressingMode::IndirectIndexed)),
        0xE9 => Some((Mnemonic::Sbc, AddressingMode::Immediate)),
        0xE5 => Some((Mnemonic::Sbc, AddressingMode::ZeroPage)),
        0xF5 => Some((Mnemonic::Sbc, AddressingMode::ZeroPageX)),
        0xED => Some((Mnemonic::Sbc, AddressingMode::Absolute)),
        0xFD => Some((Mnemonic::Sbc, AddressingMode::AbsoluteX)),
        0xF9 => Some((Mnemonic::Sbc, AddressingMode::AbsoluteY)),
        0xE1 => Some((Mnemonic::Sbc, AddressingMode::IndexedIndirect)),
        0xF1 => Some((Mnemonic::Sbc, AddressingMode::IndirectIndexed)),
        0xC9 => Some((Mnemonic::Cmp, AddressingMode::Immediate)),
        0xC5 => Some((Mnemonic::Cmp, AddressingMode::ZeroPage)),
        0xD5 => Some((Mnemonic::Cmp, AddressingMode::ZeroPageX)),
        0xCD => Some((Mnemonic::Cmp, AddressingMode::Absolute)),
        0xDD => Some((Mnemonic::Cmp, AddressingMode::AbsoluteX)),
        0xD9 => Some((Mnemonic::Cmp, AddressingMode::AbsoluteY)),
        0xC1 => Some((Mnemonic::Cmp, AddressingMode::IndexedIndirect)),
        0xD1 => Some((Mnemonic::Cmp, AddressingMode::IndirectIndexed)),
        0xE0 => Some((Mnemonic::Cpx, AddressingMode::Immediate)),
        0xE4 => Some((Mnemonic::Cpx, AddressingMode::ZeroPage)),
        0xEC => Some((Mnemonic::Cpx, AddressingMode::Absolute)),
        0xC0 => Some((Mnemonic::Cpy, AddressingMode::Immediate)),
        0xC4 => Some((Mnemonic::Cpy, AddressingMode::ZeroPage)),
        0xCC => Some((Mnemonic::Cpy, AddressingMode::Absolute)),
        0x29 => Some((Mnemonic::And, AddressingMode::Immediate)),
        0x25 => Some((Mnemonic::And, AddressingMode::ZeroPage)),
        0x35 => Some((Mnemonic::And, AddressingMode::ZeroPageX)),
        0x2D => Some((Mnemonic::And, AddressingMode::Absolute)),
        0x3D => Some((Mnemonic::And, AddressingMode::AbsoluteX)),
        0x39 => Some((Mnemonic::And, AddressingMode::AbsoluteY)),
        0x21 => Some((Mnemonic::And, AddressingMode::IndexedIndirect)),
        0x31 => Some((Mnemonic::And, AddressingMode::IndirectIndexed)),
        0x09 => Some((Mnemonic::Ora, AddressingMode::Immediate)),
        0x05 => Some((Mnemonic::Ora, AddressingMode::ZeroPage)),
        0x15 => Some((Mnemonic::Ora, AddressingMode::ZeroPageX)),
        0x0D => Some((Mnemonic::Ora, AddressingMode::Absolute)),
        0x1D => Some((Mnemonic::Ora, AddressingMode::AbsoluteX)),
        0x19 => Some((Mnemonic::Ora, AddressingMode::AbsoluteY)),
        0x01 => Some((Mnemonic::Ora, AddressingMode::IndexedIndirect)),
        0x11 => Some((Mnemonic::Ora, AddressingMode::IndirectIndexed)),
        0x49 => Some((Mnemonic::Eor, AddressingMode::Immediate)),
        0x45 => Some((Mnemonic::Eor, AddressingMode::ZeroPage)),
        0x55 => Some((Mnemonic::Eor, AddressingMode::ZeroPageX)),
        0x4D => Some((Mnemonic::Eor, AddressingMode::Absolute)),
        0x5D => Some((Mnemonic::Eor, AddressingMode::AbsoluteX)),
        0x59 => Some((Mnemonic::Eor, AddressingMode::AbsoluteY)),
        0x41 => Some((Mnemonic::Eor, AddressingMode::IndexedIndirect)),
        0x51 => Some((Mnemonic::Eor, AddressingMode::IndirectIndexed)),
        0xE6 => Some((Mnemonic::Inc, AddressingMode::ZeroPage)),
        0xF6 => Some((Mnemonic::Inc, AddressingMode::ZeroPageX)),
        0xEE => Some((Mnemonic::Inc, AddressingMode::Absolute)),
        0xFE => Some((Mnemonic::Inc, AddressingMode::AbsoluteX)),
        0xC6 => Some((Mnemonic::Dec, AddressingMode::ZeroPage)),
        0xD6 => Some((Mnemonic::Dec, AddressingMode::ZeroPageX)),
        0xCE => Some((Mnemonic::Dec, AddressingMode::Absolute)),
        0xDE => Some((Mnemonic::Dec, AddressingMode::AbsoluteX)),
        0xE8 => Some((Mnemonic::Inx, AddressingMode::Implicit)),
        0xC8 => Some((Mnemonic::Iny, AddressingMode::Implicit)),
        0xCA => Some((Mnemonic::Dex, AddressingMode::Implicit)),
        0x88 => Some((Mnemonic::Dey, AddressingMode::Implicit)),
        0xAA => Some((Mnemonic::Tax, AddressingMode::Implicit)),
        0xA8 => Some((Mnemonic::Tay, AddressingMode::Implicit)),
        0x8A => Some((Mnemonic::Txa, AddressingMode::Implicit)),
        0x98 => Some((Mnemonic::Tya, AddressingMode::Implicit)),
        0xBA => Some((Mnemonic::Tsx, AddressingMode::Implicit)),
        0x9A => Some((Mnemonic::Txs, AddressingMode::Implicit)),
        0x60 => Some((Mnemonic::Rts, AddressingMode::Implicit)),
        0x00 => Some((Mnemonic::Brk, AddressingMode::Implicit)),
        0xEA => Some((Mnemonic::Nop, AddressingMode::Implicit)),
        0x18 => Some((Mnemonic::Clc, AddressingMode::Implicit)),
        0x38 => Some((Mnemonic::Sec, AddressingMode::Implicit)),
        0x58 => Some((Mnemonic::Cli, AddressingMode::Implicit)),
        0x78 => Some((Mnemonic::Sei, AddressingMode::Implicit)),
        0xD8 => Some((Mnemonic::Cld, AddressingMode::Implicit)),
        0xF8 => Some((Mnemonic::Sed, AddressingMode::Implicit)),
        0xB8 => Some((Mnemonic::Clv, AddressingMode::Implicit)),
        0x4C => Some((Mnemonic::Jmp, AddressingMode::Absolute)),
        0x6C => Some((Mnemonic::Jmp, AddressingMode::Indirect)),
        0x20 => Some((Mnemonic::Jsr, AddressingMode::Absolute)),
        0x90 => Some((Mnemonic::Bcc, AddressingMode::Relative)),
        0xB0 => Some((Mnemonic::Bcs, AddressingMode::Relative)),
        0xF0 => Some((Mnemonic::Beq, AddressingMode::Relative)),
        0xD0 => Some((Mnemonic::Bne, AddressingMode::Relative)),
        0x30 => Some((Mnemonic::Bmi, AddressingMode::Relative)),
        0x10 => Some((Mnemonic::Bpl, AddressingMode::Relative)),
        0x50 => Some((Mnemonic::Bvc, AddressingMode::Relative)),
        0x70 => Some((Mnemonic::Bvs, AddressingMode::Relative)),
        _ => None,
    }
}

impl Mnemonic {
    /// The assembler name of this operation.
    pub fn name(&self) -> (r: &'static str)
        ensures
            r@ == name_of(*self),
    {
        match self {
            Mnemonic::Lda => "LDA",
            Mnemonic::Ldx => "LDX",
            Mnemonic::Ldy => "LDY",
            Mnemonic::Sta => "STA",
            Mnemonic::Stx => "STX",
            Mnemonic::Sty => "STY",
            Mnemonic::Adc => "ADC",
            Mnemonic::Sbc => "SBC",
            Mnemonic::Cmp => "CMP",
            Mnemonic::Cpx => "CPX",
            Mnemonic::Cpy => "CPY",
            Mnemonic::And => "AND",
            Mnemonic::Ora => "ORA",
            Mnemonic::Eor => "EOR",
            Mnemonic::Inc => "INC",
            Mnemonic::Dec => "DEC",
            Mnemonic::Inx => "INX",
            Mnemonic::Iny => "INY",
            Mnemonic::Dex => "DEX",
            Mnemonic::Dey => "DEY",
            Mnemonic::Tax => "TAX",
            Mnemonic::Tay => "TAY",
            Mnemonic::Txa => "TXA",
            Mnemonic::Tya => "TYA",
            Mnemonic::Tsx => "TSX",
            Mnemonic::Txs => "TXS",
            Mnemonic::Rts => "RTS",
            Mnemonic::Brk => "BRK",
            Mnemonic::Nop => "NOP",
            Mnemonic::Clc => "CLC",
            Mnemonic::Sec => "SEC",
            Mnemonic::Cli => "CLI",
            Mnemonic::Sei => "SEI",
            Mnemonic::Cld => "CLD",
            Mnemonic::Sed => "SED",
            Mnemonic::Clv => "CLV",
            Mnemonic::Jmp => "JMP",
            Mnemonic::Jsr => "JSR",
            Mnemonic::Bcc => "BCC",
            Mnemonic::Bcs => "BCS",
            Mnemonic::Beq => "BEQ",
            Mnemonic::Bne => "BNE",
            Mnemonic::Bmi => "BMI",
            Mnemonic::Bpl => "BPL",
            Mnemonic::Bvc => "BVC",
            Mnemonic::Bvs => "BVS",
        }
    }
}

/// The assembler name of the instruction an opcode byte encodes.
pub fn get_instruction_name(opcode: u8) -> (r: &'static str)
    ensures
        r@ == opcode_name(opcode),
{
    match decode(opcode) {
        Some((mnemonic, _)) => mnemonic.name(),
        None => "UNKNOWN",
    }
}

} // verus!
