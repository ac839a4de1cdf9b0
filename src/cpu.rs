//! The CPU core: registers and flags, the stack, reset, and `step`, whose
//! contract is the instruction semantics written out as spec functions.

use vstd::prelude::*;

use crate::memory::{word_at, Memory};
use crate::opcodes::{decode, instruction_of, Mnemonic};

verus! {

broadcast use crate::memory::Memory::lemma_size;

/// Carry (bit 0 of the status byte).
pub const CARRY_FLAG: u8 = 0x01;

/// Zero (bit 1).
pub const ZERO_FLAG: u8 = 0x02;

/// Interrupt disable (bit 2).
pub const INTERRUPT_DISABLE: u8 = 0x04;

/// Decimal mode (bit 3); kept but never consulted: arithmetic is binary.
pub const DECIMAL_MODE: u8 = 0x08;

/// Break (bit 4).
pub const BREAK_COMMAND: u8 = 0x10;

/// Unused bit 5, set on reset.
pub const UNUSED_FLAG: u8 = 0x20;

/// Signed overflow (bit 6).
pub const OVERFLOW_FLAG: u8 = 0x40;

/// Negative (bit 7).
pub const NEGATIVE_FLAG: u8 = 0x80;

/// Base of the hardware stack page; the top of stack is `0x0100 | SP`.
pub const STACK_BASE: u16 = 0x0100;

/// The register file and the two pieces of internal state of a 6502 core.
#[derive(Debug)]
pub struct CPU {
    /// Accumulator.
    pub a: u8,
    /// X index register.
    pub x: u8,
    /// Y index register.
    pub y: u8,
    /// Program counter.
    pub pc: u16,
    /// Stack pointer (offset into the stack page).
    pub sp: u8,
    /// Status flags, one per bit.
    pub status: u8,
    /// Number of instructions executed since reset.
    pub cycles: u64,
    /// Set by `BRK`; a halted core ignores `step` until reset.
    pub halted: bool,
}

/// Where an instruction finds its operand.
#[derive(Debug, Clone, Copy, PartialEq, Eq, Structural)]
pub enum AddressingMode {
    Implicit,
    Accumulator,
    Immediate,
    ZeroPage,
    ZeroPageX,
    ZeroPageY,
    Relative,
    Absolute,
    AbsoluteX,
    AbsoluteY,
    Indirect,
    IndexedIndirect,
    IndirectIndexed,
}

/// Why `step` could not execute an instruction.
#[derive(Debug, Clone, Copy, PartialEq, Eq, Structural)]
pub enum StepError {
    /// The byte at `pc_of_opcode` is not an instruction; the program
    /// counter has already moved past it.
    UnknownOpcode { opcode: u8, pc_of_opcode: u16 },
}

/// `a + d` on the 16-bit address ring, for `-65536 <= d <= 65536`.
pub open spec fn add16(a: u16, d: int) -> u16 {
    let s = a as int + d;
    if s >= 65536 {
        (s - 65536) as u16
    } else if s < 0 {
        (s + 65536) as u16
    } else {
        s as u16
    }
}

/// `a + d` on the 8-bit ring, for `-256 <= d <= 256`.
pub open spec fn add8(a: u8, d: int) -> u8 {
    let s = a as int + d;
    if s >= 256 {
        (s - 256) as u8
    } else if s < 0 {
        (s + 256) as u8
    } else {
        s as u8
    }
}

/// Whether the bits of `flag` are set in `status`.
pub open spec fn flag_set(status: u8, flag: u8) -> bool {
    (status & flag) != 0
}

/// `status` with the bits of `flag` set when `value` holds, cleared
/// otherwise.
pub open spec fn with_flag(status: u8, flag: u8, value: bool) -> u8 {
    if value {
        status | flag
    } else {
        status & !flag
    }
}

/// `status` with Z and N describing `value`.
pub open spec fn with_nz(status: u8, value: u8) -> u8 {
    with_flag(with_flag(status, ZERO_FLAG, value == 0), NEGATIVE_FLAG, (value & 0x80) != 0)
}

/// The address in the stack page that stack offset `sp` names.
pub open spec fn stack_addr(sp: u8) -> int {
    STACK_BASE as int + sp as int
}

/// The state that `reset` produces over memory `m`.
pub open spec fn reset_state(m: Seq<u8>) -> CPU {
    CPU {
        a: 0,
        x: 0,
        y: 0,
        pc: word_at(m, 0xFFFC),
        sp: 0xFD,
        status: UNUSED_FLAG | INTERRUPT_DISABLE,
        cycles: 0,
        halted: false,
    }
}

/// The 16-bit pointer stored at zero-page address `p`; its high byte comes
/// from `(p + 1) mod 256`, never from the stack page.
pub open spec fn zero_page_word(m: Seq<u8>, p: u8) -> u16 {
    (m[p as int] as int + 256 * m[(p as int + 1) % 256] as int) as u16
}

/// Target of `JMP (ptr)`: when the pointer's low byte is `0xFF` the high
/// byte is read from the start of the same page, as the NMOS 6502 does.
pub open spec fn indirect_target(m: Seq<u8>, ptr: u16) -> u16 {
    let high_addr = if ptr % 256 == 255 {
        ptr as int - 255
    } else {
        ptr as int + 1
    };
    (m[ptr as int] as int + 256 * m[high_addr] as int) as u16
}

/// For a core whose `pc` is at the first operand byte: the effective
/// address of the operand in `mode`, and the `pc` after the operand bytes.
/// (For `Immediate` and `Relative` the address is that of the operand byte
/// itself; for `Indirect` it is the jump target.)
pub open spec fn operand(c: CPU, m: Seq<u8>, mode: AddressingMode) -> (u16, u16) {
    let b = m[c.pc as int];
    let w = word_at(m, c.pc);
    match mode {
        AddressingMode::Implicit | AddressingMode::Accumulator => (c.pc, c.pc),
        AddressingMode::Immediate | AddressingMode::Relative => (c.pc, add16(c.pc, 1)),
        AddressingMode::ZeroPage => (b as u16, add16(c.pc, 1)),
        AddressingMode::ZeroPageX => (add8(b, c.x as int) as u16, add16(c.pc, 1)),
        AddressingMode::ZeroPageY => (add8(b, c.y as int) as u16, add16(c.pc, 1)),
        AddressingMode::Absolute => (w, add16(c.pc, 2)),
        AddressingMode::AbsoluteX => (add16(w, c.x as int), add16(c.pc, 2)),
        AddressingMode::AbsoluteY => (add16(w, c.y as int), add16(c.pc, 2)),
        AddressingMode::Indirect => (indirect_target(m, w), add16(c.pc, 2)),
        AddressingMode::IndexedIndirect => (
            zero_page_word(m, add8(b, c.x as int)),
            add16(c.pc, 1),
        ),
        AddressingMode::IndirectIndexed => (
            add16(zero_page_word(m, b), c.y as int),
            add16(c.pc, 1),
        ),
    }
}

/// `ADC`: the new accumulator and status for `a + v + C`. Carry is set when
/// the sum passes `0xFF`; overflow when both operands differ in sign from
/// the result.
pub open spec fn adc(a: u8, v: u8, status: u8) -> (u8, u8) {
    let sum = a as int + v as int + if flag_set(status, CARRY_FLAG) {
        1int
    } else {
        0int
    };
    let r = (if sum > 255 {
        sum - 256
    } else {
        sum
    }) as u8;
    let st = with_flag(
        with_flag(status, CARRY_FLAG, sum > 255),
        OVERFLOW_FLAG,
        ((a ^ r) & (v ^ r) & 0x80) != 0,
    );
    (r, with_nz(st, r))
}

/// `SBC`: the new accumulator and status for `a - v - (1 - C)`. Carry is set
/// when no borrow occurred; overflow when the operands differ in sign and
/// the result's sign differs from `a`'s.
pub open spec fn sbc(a: u8, v: u8, status: u8) -> (u8, u8) {
    let diff = a as int - v as int - if flag_set(status, CARRY_FLAG) {
        0int
    } else {
        1int
    };
    let r = (if diff < 0 {
        diff + 256
    } else {
        diff
    }) as u8;
    let st = with_flag(
        with_flag(status, CARRY_FLAG, diff >= 0),
        OVERFLOW_FLAG,
        ((a ^ v) & (a ^ r) & 0x80) != 0,
    );
    (r, with_nz(st, r))
}

/// Status after comparing register value `reg` with `v`: carry when
/// `reg >= v`, N and Z from `reg - v` on the 8-bit ring.
pub open spec fn compared(reg: u8, v: u8, status: u8) -> u8 {
    with_nz(with_flag(status, CARRY_FLAG, reg >= v), add8(reg, -(v as int)))
}

/// `pc` moved by the signed 8-bit displacement `offset`.
pub open spec fn branch_target(pc: u16, offset: u8) -> u16 {
    add16(
        pc,
        if offset < 128 {
            offset as int
        } else {
            offset as int - 256
        },
    )
}

/// Whether the branch `mnemonic` is taken under `status`.
pub open spec fn branch_taken(mnemonic: Mnemonic, status: u8) -> bool {
    match mnemonic {
        Mnemonic::Bcc => !flag_set(status, CARRY_FLAG),
        Mnemonic::Bcs => flag_set(status, CARRY_FLAG),
        Mnemonic::Beq => flag_set(status, ZERO_FLAG),
        Mnemonic::Bne => !flag_set(status, ZERO_FLAG),
        Mnemonic::Bmi => flag_set(status, NEGATIVE_FLAG),
        Mnemonic::Bpl => !flag_set(status, NEGATIVE_FLAG),
        Mnemonic::Bvc => !flag_set(status, OVERFLOW_FLAG),
        Mnemonic::Bvs => flag_set(status, OVERFLOW_FLAG),
        _ => false,
    }
}

/// The operations that may set `PC` to something other than the address
/// after their operand.
pub open spec fn transfers_control(mnemonic: Mnemonic) -> bool {
    match mnemonic {
        Mnemonic::Jmp | Mnemonic::Jsr | Mnemonic::Rts | Mnemonic::Bcc | Mnemonic::Bcs
        | Mnemonic::Beq | Mnemonic::Bne | Mnemonic::Bmi | Mnemonic::Bpl | Mnemonic::Bvc
        | Mnemonic::Bvs => true,
        _ => false,
    }
}

/// What executing `mnemonic` in `mode` does to a core whose opcode byte has
/// been consumed (`c.pc` is at the first operand byte) and to memory `m`.
pub open spec fn effect(c: CPU, m: Seq<u8>, mnemonic: Mnemonic, mode: AddressingMode) -> (
    CPU,
    Seq<u8>,
) {
    let (addr, next) = operand(c, m, mode);
    let c1 = CPU { pc: next, ..c };
    let v = m[addr as int];
    match mnemonic {
        Mnemonic::Lda => (CPU { a: v, status: with_nz(c.status, v), ..c1 }, m),
        Mnemonic::Ldx => (CPU { x: v, status: with_nz(c.status, v), ..c1 }, m),
        Mnemonic::Ldy => (CPU { y: v, status: with_nz(c.status, v), ..c1 }, m),
        Mnemonic::Sta => (c1, m.update(addr as int, c.a)),
        Mnemonic::Stx => (c1, m.update(addr as int, c.x)),
        Mnemonic::Sty => (c1, m.update(addr as int, c.y)),
        Mnemonic::Adc => (CPU { a: adc(c.a, v, c.status).0, status: adc(c.a, v, c.status).1, ..c1 }, m),
        Mnemonic::Sbc => (CPU { a: sbc(c.a, v, c.status).0, status: sbc(c.a, v, c.status).1, ..c1 }, m),
        Mnemonic::Cmp => (CPU { status: compared(c.a, v, c.status), ..c1 }, m),
        Mnemonic::Cpx => (CPU { status: compared(c.x, v, c.status), ..c1 }, m),
        Mnemonic::Cpy => (CPU { status: compared(c.y, v, c.status), ..c1 }, m),
        Mnemonic::And => (CPU { a: c.a & v, status: with_nz(c.status, c.a & v), ..c1 }, m),
        Mnemonic::Ora => (CPU { a: c.a | v, status: with_nz(c.status, c.a | v), ..c1 }, m),
        Mnemonic::Eor => (CPU { a: c.a ^ v, status: with_nz(c.status, c.a ^ v), ..c1 }, m),
        Mnemonic::Inc => (
            CPU { status: with_nz(c.status, add8(v, 1)), ..c1 },
            m.update(addr as int, add8(v, 1)),
        ),
        Mnemonic::Dec => (
            CPU { status: with_nz(c.status, add8(v, -1)), ..c1 },
            m.update(addr as int, add8(v, -1)),
        ),
        Mnemonic::Inx => (CPU { x: add8(c.x, 1), status: with_nz(c.status, add8(c.x, 1)), ..c1 }, m),
        Mnemonic::Iny => (CPU { y: add8(c.y, 1), status: with_nz(c.status, add8(c.y, 1)), ..c1 }, m),
        Mnemonic::Dex => (CPU { x: add8(c.x, -1), status: with_nz(c.status, add8(c.x, -1)), ..c1 }, m),
        Mnemonic::Dey => (CPU { y: add8(c.y, -1), status: with_nz(c.status, add8(c.y, -1)), ..c1 }, m),
        Mnemonic::Tax => (CPU { x: c.a, status: with_nz(c.status, c.a), ..c1 }, m),
        Mnemonic::Tay => (CPU { y: c.a, status: with_nz(c.status, c.a), ..c1 }, m),
        Mnemonic::Txa => (CPU { a: c.x, status: with_nz(c.status, c.x), ..c1 }, m),
        Mnemonic::Tya => (CPU { a: c.y, status: with_nz(c.status, c.y), ..c1 }, m),
        Mnemonic::Tsx => (CPU { x: c.sp, status: with_nz(c.status, c.sp), ..c1 }, m),
        Mnemonic::Txs => (CPU { sp: c.x, ..c1 }, m),
        Mnemonic::Jmp => (CPU { pc: addr, ..c1 }, m),
        Mnemonic::Jsr => {
            let ret = add16(c.pc, 1);
            (
                CPU { pc: addr, sp: add8(c.sp, -2), ..c1 },
                m.update(stack_addr(c.sp), (ret / 256) as u8).update(
                    stack_addr(add8(c.sp, -1)),
                    (ret % 256) as u8,
                ),
            )
        },
        Mnemonic::Rts => {
            let low = m[stack_addr(add8(c.sp, 1))];
            let high = m[stack_addr(add8(c.sp, 2))];
            (
                CPU { pc: add16((low as int + 256 * high as int) as u16, 1), sp: add8(c.sp, 2), ..c1 },
                m,
            )
        },
        Mnemonic::Brk => (CPU { halted: true, ..c1 }, m),
        Mnemonic::Nop => (c1, m),
        Mnemonic::Clc => (CPU { status: with_flag(c.status, CARRY_FLAG, false), ..c1 }, m),
        Mnemonic::Sec => (CPU { status: with_flag(c.status, CARRY_FLAG, true), ..c1 }, m),
        Mnemonic::Cli => (CPU { status: with_flag(c.status, INTERRUPT_DISABLE, false), ..c1 }, m),
        Mnemonic::Sei => (CPU { status: with_flag(c.status, INTERRUPT_DISABLE, true), ..c1 }, m),
        Mnemonic::Cld => (CPU { status: with_flag(c.status, DECIMAL_MODE, false), ..c1 }, m),
        Mnemonic::Sed => (CPU { status: with_flag(c.status, DECIMAL_MODE, true), ..c1 }, m),
        Mnemonic::Clv => (CPU { status: with_flag(c.status, OVERFLOW_FLAG, false), ..c1 }, m),
        Mnemonic::Bcc | Mnemonic::Bcs | Mnemonic::Beq | Mnemonic::Bne | Mnemonic::Bmi
        | Mnemonic::Bpl | Mnemonic::Bvc | Mnemonic::Bvs => (
            CPU {
                pc: if branch_taken(mnemonic, c.status) {
                    branch_target(next, v)
                } else {
                    next
                },
                ..c1
            },
            m,
        ),
    }
}

/// The instruction counter after one more instruction (wrapping, though
/// 2^64 instructions are out of reach).
pub open spec fn counted(cycles: u64) -> u64 {
    if cycles == u64::MAX {
        0
    } else {
        (cycles + 1) as u64
    }
}

/// One `step` of core `c` over memory `m`: the new core, the new memory and
/// the outcome. A halted core is left as it is. Otherwise the opcode at `PC`
/// is consumed; a byte that is no instruction is reported with `PC` already
/// past it, and an instruction is executed and counted.
pub open spec fn transition(c: CPU, m: Seq<u8>) -> (CPU, Seq<u8>, Result<(), StepError>) {
    if c.halted {
        (c, m, Ok(()))
    } else {
        let opcode = m[c.pc as int];
        let c1 = CPU { pc: add16(c.pc, 1), ..c };
        match instruction_of(opcode) {
            None => (c1, m, Err(StepError::UnknownOpcode { opcode, pc_of_opcode: c.pc })),
            Some((mnemonic, mode)) => {
                let (c2, m2) = effect(c1, m, mnemonic, mode);
                (CPU { cycles: counted(c2.cycles), ..c2 }, m2, Ok(()))
            },
        }
    }
}

/// Whether `f` is one of the eight single-bit flag masks.
pub open spec fn is_flag_bit(f: u8) -> bool {
    f == 0x01 || f == 0x02 || f == 0x04 || f == 0x08 || f == 0x10 || f == 0x20 || f == 0x40 || f
        == 0x80
}

proof fn lemma_flag_bits(s: u8, f: u8, g: u8)
    by (bit_vector)
    requires
        f == 0x01 || f == 0x02 || f == 0x04 || f == 0x08 || f == 0x10 || f == 0x20 || f == 0x40
            || f == 0x80,
        g == 0x01 || g == 0x02 || g == 0x04 || g == 0x08 || g == 0x10 || g == 0x20 || g == 0x40
            || g == 0x80,
    ensures
        ((s | f) & f) != 0,
        ((s & !f) & f) == 0,
        f != g ==> (((s | f) & g) != 0) == ((s & g) != 0),
        f != g ==> (((s & !f) & g) != 0) == ((s & g) != 0),
{
}

/// Setting or clearing one flag bit reads back as set, and leaves every
/// other flag bit as it was.
pub proof fn lemma_with_flag(s: u8, f: u8, g: u8, value: bool)
    requires
        is_flag_bit(f),
        is_flag_bit(g),
    ensures
        flag_set(with_flag(s, f, value), f) == value,
        f != g ==> flag_set(with_flag(s, f, value), g) == flag_set(s, g),
{
    lemma_flag_bits(s, f, g);
}

/// After an N/Z update from `value`: Z is set exactly when `value` is zero,
/// N exactly when bit 7 of `value` is set, and no other flag moves.
pub proof fn lemma_with_nz(s: u8, value: u8, g: u8)
    requires
        is_flag_bit(g),
    ensures
        flag_set(with_nz(s, value), ZERO_FLAG) == (value == 0),
        flag_set(with_nz(s, value), NEGATIVE_FLAG) == ((value & 0x80) != 0),
        g != ZERO_FLAG && g != NEGATIVE_FLAG ==> flag_set(with_nz(s, value), g) == flag_set(s, g),
{
    let s1 = with_flag(s, ZERO_FLAG, value == 0);
    lemma_with_flag(s, ZERO_FLAG, NEGATIVE_FLAG, value == 0);
    lemma_with_flag(s, ZERO_FLAG, g, value == 0);
    lemma_with_flag(s1, NEGATIVE_FLAG, ZERO_FLAG, (value & 0x80) != 0);
    lemma_with_flag(s1, NEGATIVE_FLAG, g, (value & 0x80) != 0);
}

proof fn lemma_masked_bits(s: u8, b1: bool, b2: bool, b3: bool)
    by (bit_vector)
    ensures
        (if b1 { s | 0x02 } else { s & !0x02u8 }) & 0x7D == s & 0x7D,
        (if b2 { s | 0x80 } else { s & !0x80u8 }) & 0x7D == s & 0x7D,
        (if b3 { s | 0x01 } else { s & !0x01u8 }) & 0x7C == s & 0x7C,
        s & 0x7D & 0x7C == s & 0x7C,
        (s & 0x20) != 0 ==> (s | 0x20) == s,
        ((s | 0x20) & 0x20) != 0,
        ((0x20u8 | 0x04u8) & 0x20u8) != 0,
{
}

/// An N/Z update leaves every bit but N and Z as it was.
pub proof fn lemma_with_nz_keeps_others(s: u8, value: u8)
    ensures
        with_nz(s, value) & 0x7D == s & 0x7D,
{
    let s1 = with_flag(s, ZERO_FLAG, value == 0);
    lemma_masked_bits(s, value == 0, false, false);
    lemma_masked_bits(s1, false, (value & 0x80) != 0, false);
}

proof fn lemma_with_flag_keeps_others(s: u8, value: bool)
    ensures
        with_flag(s, CARRY_FLAG, value) & 0x7C == s & 0x7C,
{
    lemma_masked_bits(s, false, false, value);
}

/// A status byte with the unused bit set is unchanged by setting it again,
/// and setting it always leaves it set.
pub proof fn lemma_unused_bit(s: u8)
    ensures
        flag_set(s, UNUSED_FLAG) ==> (s | UNUSED_FLAG) == s,
        flag_set(s | UNUSED_FLAG, UNUSED_FLAG),
{
    lemma_masked_bits(s, false, false, false);
}

/// The unused bit 5 reads 1 after `new` and after `reset`, and no `step`
/// clears it: the instructions only ever touch the other seven flags.
pub proof fn lemma_unused_bit_stays_set(c: CPU, m: Seq<u8>)
    ensures
        flag_set(CPU::new_state().status, UNUSED_FLAG),
        flag_set(reset_state(m).status, UNUSED_FLAG),
        flag_set(c.status, UNUSED_FLAG) ==> flag_set(transition(c, m).0.status, UNUSED_FLAG),
{
    lemma_masked_bits(c.status, false, false, false);
    assert forall|s: u8, f: u8, v: bool|
        is_flag_bit(f) && f != UNUSED_FLAG implies flag_set(#[trigger] with_flag(s, f, v), UNUSED_FLAG)
        == flag_set(s, UNUSED_FLAG) by {
        lemma_with_flag(s, f, UNUSED_FLAG, v);
    }
    assert forall|s: u8, v: u8| #[trigger]
        flag_set(with_nz(s, v), UNUSED_FLAG) == flag_set(s, UNUSED_FLAG) by {
        lemma_with_nz(s, v, UNUSED_FLAG);
    }
    if !c.halted {
        if let Some((mn, mode)) = instruction_of(m[c.pc as int]) {
            let c1 = after_opcode(c);
            let (c2, m2) = effect(c1, m, mn, mode);
            let v = operand_value(c1, m, mode);
            assert(flag_set(c.status, UNUSED_FLAG) ==> flag_set(c2.status, UNUSED_FLAG)) by {
                if mn == Mnemonic::Adc {
                    let r = adc(c.a, v, c.status);
                } else if mn == Mnemonic::Sbc {
                    let r = sbc(c.a, v, c.status);
                } else if mn == Mnemonic::Cmp {
                    let r = compared(c.a, v, c.status);
                } else if mn == Mnemonic::Cpx {
                    let r = compared(c.x, v, c.status);
                } else if mn == Mnemonic::Cpy {
                    let r = compared(c.y, v, c.status);
                }
            }
        }
    }
}

/// `ADC` does not depend on the order of its operands: for every
/// accumulator, operand and carry-in, swapping accumulator and operand gives
/// the same result and the same flags.
pub proof fn lemma_adc_commutes(a: u8, v: u8, status: u8)
    ensures
        adc(a, v, status) == adc(v, a, status),
{
    let r = adc(a, v, status).0;
    assert(((a ^ r) & (v ^ r) & 0x80) == ((v ^ r) & (a ^ r) & 0x80)) by (bit_vector);
}

/// The core just after the opcode byte of `c` has been consumed.
pub open spec fn after_opcode(c: CPU) -> CPU {
    CPU { pc: add16(c.pc, 1), ..c }
}

/// The byte an instruction reads through its addressing mode, for a core
/// whose opcode byte has been consumed.
pub open spec fn operand_value(c: CPU, m: Seq<u8>, mode: AddressingMode) -> u8 {
    m[operand(c, m, mode).0 as int]
}

/// The 8-bit result from which an instruction sets N and Z, for a core whose
/// opcode has been consumed; `None` for the operations that leave N and Z
/// alone.
pub open spec fn nz_result(c: CPU, m: Seq<u8>, mnemonic: Mnemonic, mode: AddressingMode) -> Option<
    u8,
> {
    let v = operand_value(c, m, mode);
    let carry = if flag_set(c.status, CARRY_FLAG) {
        1int
    } else {
        0int
    };
    match mnemonic {
        Mnemonic::Lda | Mnemonic::Ldx | Mnemonic::Ldy => Some(v),
        Mnemonic::Adc => Some(add8(c.a, v as int + carry)),
        Mnemonic::Sbc => Some(add8(c.a, -(v as int) - (1 - carry))),
        Mnemonic::Cmp => Some(add8(c.a, -(v as int))),
        Mnemonic::Cpx => Some(add8(c.x, -(v as int))),
        Mnemonic::Cpy => Some(add8(c.y, -(v as int))),
        Mnemonic::And => Some(c.a & v),
        Mnemonic::Ora => Some(c.a | v),
        Mnemonic::Eor => Some(c.a ^ v),
        Mnemonic::Inc => Some(add8(v, 1)),
        Mnemonic::Dec => Some(add8(v, -1)),
        Mnemonic::Inx => Some(add8(c.x, 1)),
        Mnemonic::Iny => Some(add8(c.y, 1)),
        Mnemonic::Dex => Some(add8(c.x, -1)),
        Mnemonic::Dey => Some(add8(c.y, -1)),
        Mnemonic::Tax | Mnemonic::Tay => Some(c.a),
        Mnemonic::Txa => Some(c.x),
        Mnemonic::Tya => Some(c.y),
        Mnemonic::Tsx => Some(c.sp),
        _ => None,
    }
}

/// Number of operand bytes that follow the opcode in `mode`.
pub open spec fn operand_length(mode: AddressingMode) -> int {
    match mode {
        AddressingMode::Implicit | AddressingMode::Accumulator => 0,
        AddressingMode::Absolute | AddressingMode::AbsoluteX | AddressingMode::AbsoluteY
        | AddressingMode::Indirect => 2,
        _ => 1,
    }
}

proof fn lemma_effect_moves_pc(c: CPU, m: Seq<u8>, mnemonic: Mnemonic, mode: AddressingMode)
    ensures
        !transfers_control(mnemonic) ==> effect(c, m, mnemonic, mode).0.pc == add16(
            c.pc,
            operand_length(mode),
        ),
        effect(c, m, mnemonic, mode).0.cycles == c.cycles,
        effect(c, m, mnemonic, mode).0.halted == (c.halted || mnemonic == Mnemonic::Brk),
{
}

/// A step of a core that is not halted always moves `PC`, unless it executes
/// a jump, call, return or branch (which may target its own address): any
/// other instruction leaves `PC` just past its opcode and operand bytes
/// (wrapping past `0xFFFF`), counts itself, and halts the core only if it is
/// `BRK`. Every step either succeeds or reports the unknown opcode it met,
/// with `PC` already past it and nothing counted.
pub proof fn lemma_step_moves_pc(c: CPU, m: Seq<u8>)
    ensures
        ({
            let (c2, m2, r) = transition(c, m);
            &&& r is Ok || r == Err::<(), StepError>(
                StepError::UnknownOpcode { opcode: m[c.pc as int], pc_of_opcode: c.pc },
            )
            &&& r is Err ==> c2.pc == add16(c.pc, 1) && c2.cycles == c.cycles
            &&& !c.halted && (instruction_of(m[c.pc as int]) matches Some((mn, _)) ==> !transfers_control(mn))
                ==> c2.pc != c.pc
            &&& !c.halted ==> (instruction_of(m[c.pc as int]) matches Some((mn, mode)) ==> {
                &&& r is Ok
                &&& c2.cycles == counted(c.cycles)
                &&& c2.halted == (mn == Mnemonic::Brk)
                &&& !transfers_control(mn) ==> c2.pc == add16(c.pc, 1 + operand_length(mode))
            })
        }),
{
    if !c.halted {
        if let Some((mn, mode)) = instruction_of(m[c.pc as int]) {
            lemma_effect_moves_pc(after_opcode(c), m, mn, mode);
        }
    }
}

/// Every instruction that updates N and Z sets Z exactly when its result is
/// zero and N exactly when bit 7 of its result is set.
pub proof fn lemma_step_sets_nz(c: CPU, m: Seq<u8>)
    requires
        !c.halted,
    ensures
        ({
            let (c2, m2, r) = transition(c, m);
            instruction_of(m[c.pc as int]) matches Some((mn, mode)) ==> (nz_result(
                after_opcode(c),
                m,
                mn,
                mode,
            ) matches Some(result) ==> flag_set(c2.status, ZERO_FLAG) == (result == 0) && flag_set(
                c2.status,
                NEGATIVE_FLAG,
            ) == ((result & 0x80) != 0))
        }),
{
    if let Some((mn, mode)) = instruction_of(m[c.pc as int]) {
        let c1 = after_opcode(c);
        if let Some(result) = nz_result(c1, m, mn, mode) {
            let (c2, m2) = effect(c1, m, mn, mode);
            let v = operand_value(c1, m, mode);
            let st = match mn {
                Mnemonic::Adc => with_flag(
                    with_flag(c.status, CARRY_FLAG, c.a as int + v as int + (if flag_set(c.status, CARRY_FLAG) { 1int } else { 0int }) > 255),
                    OVERFLOW_FLAG,
                    ((c.a ^ result) & (v ^ result) & 0x80) != 0,
                ),
                Mnemonic::Sbc => with_flag(
                    with_flag(c.status, CARRY_FLAG, c.a as int - v as int - (if flag_set(c.status, CARRY_FLAG) { 0int } else { 1int }) >= 0),
                    OVERFLOW_FLAG,
                    ((c.a ^ v) & (c.a ^ result) & 0x80) != 0,
                ),
                Mnemonic::Cmp => with_flag(c.status, CARRY_FLAG, c.a >= v),
                Mnemonic::Cpx => with_flag(c.status, CARRY_FLAG, c.x >= v),
                Mnemonic::Cpy => with_flag(c.status, CARRY_FLAG, c.y >= v),
                _ => c.status,
            };
            assert(c2.status == with_nz(st, result));
            lemma_with_nz(st, result, CARRY_FLAG);
        }
    }
}

/// `CMP`, `CPX` and `CPY` leave every register and all of memory unchanged
/// and set carry exactly when the register is at least the operand, both
/// read as unsigned bytes.
pub proof fn lemma_step_compare(c: CPU, m: Seq<u8>)
    requires
        !c.halted,
    ensures
        ({
            let (c2, m2, r) = transition(c, m);
            instruction_of(m[c.pc as int]) matches Some((mn, mode)) ==> ((mn == Mnemonic::Cmp
                || mn == Mnemonic::Cpx || mn == Mnemonic::Cpy) ==> {
                let reg = if mn == Mnemonic::Cmp {
                    c.a
                } else if mn == Mnemonic::Cpx {
                    c.x
                } else {
                    c.y
                };
                &&& r is Ok
                &&& m2 == m
                &&& c2.a == c.a && c2.x == c.x && c2.y == c.y && c2.sp == c.sp
                &&& flag_set(c2.status, CARRY_FLAG) == (reg >= operand_value(after_opcode(c), m, mode))
            })
        }),
{
    if let Some((mn, mode)) = instruction_of(m[c.pc as int]) {
        if mn == Mnemonic::Cmp || mn == Mnemonic::Cpx || mn == Mnemonic::Cpy {
            let c1 = after_opcode(c);
            let v = operand_value(c1, m, mode);
            let reg = if mn == Mnemonic::Cmp {
                c.a
            } else if mn == Mnemonic::Cpx {
                c.x
            } else {
                c.y
            };
            let st = with_flag(c.status, CARRY_FLAG, reg >= v);
            lemma_with_flag(c.status, CARRY_FLAG, CARRY_FLAG, reg >= v);
            lemma_with_nz(st, add8(reg, -(v as int)), CARRY_FLAG);
        }
    }
}

impl CPU {
    /// The power-on register values.
    pub open spec fn new_state() -> CPU {
        CPU {
            a: 0,
            x: 0,
            y: 0,
            pc: 0,
            sp: 0xFD,
            status: UNUSED_FLAG | INTERRUPT_DISABLE,
            cycles: 0,
            halted: false,
        }
    }

    /// Power-on register values, before any reset.
    pub fn new() -> (c: Self)
        ensures
            c == CPU::new_state(),
    {
        CPU {
            a: 0,
            x: 0,
            y: 0,
            pc: 0,
            sp: 0xFD,
            status: UNUSED_FLAG | INTERRUPT_DISABLE,
            cycles: 0,
            halted: false,
        }
    }

    /// Clears the registers, sets `SP = 0xFD` and `P = U|I`, leaves the
    /// halted latch open and loads `PC` from the reset vector at `0xFFFC`.
    pub fn reset(&mut self, memory: &mut Memory)
        ensures
            *final(self) == reset_state(old(memory)@),
            final(memory)@ == old(memory)@,
            final(self).status & 0x24 == 0x24,
    {
        let low = memory.read(0xFFFC) as u16;
        let high = memory.read(0xFFFD) as u16;
        self.pc = high * 256 + low;
        self.a = 0;
        self.x = 0;
        self.y = 0;
        self.sp = 0xFD;
        self.status = UNUSED_FLAG | INTERRUPT_DISABLE;
        self.cycles = 0;
        self.halted = false;
        assert((UNUSED_FLAG | INTERRUPT_DISABLE) & 0x24 == 0x24) by (bit_vector);
    }

    pub fn get_register_a(&self) -> (r: u8)
        ensures
            r == self.a,
    {
        self.a
    }

    pub fn get_register_x(&self) -> (r: u8)
        ensures
            r == self.x,
    {
        self.x
    }

    pub fn get_register_y(&self) -> (r: u8)
        ensures
            r == self.y,
    {
        self.y
    }

    pub fn get_pc(&self) -> (r: u16)
        ensures
            r == self.pc,
    {
        self.pc
    }

    pub fn get_sp(&self) -> (r: u8)
        ensures
            r == self.sp,
    {
        self.sp
    }

    pub fn get_status(&self) -> (r: u8)
        ensures
            r == self.status,
    {
        self.status
    }

    pub fn is_halted(&self) -> (r: bool)
        ensures
            r == self.halted,
    {
        self.halted
    }

    pub fn set_register_a(&mut self, value: u8)
        ensures
            *final(self) == (CPU { a: value, ..*old(self) }),
    {
        self.a = value;
    }

    pub fn set_register_x(&mut self, value: u8)
        ensures
            *final(self) == (CPU { x: value, ..*old(self) }),
    {
        self.x = value;
    }

    pub fn set_register_y(&mut self, value: u8)
        ensures
            *final(self) == (CPU { y: value, ..*old(self) }),
    {
        self.y = value;
    }

    pub fn set_pc(&mut self, value: u16)
        ensures
            *final(self) == (CPU { pc: value, ..*old(self) }),
    {
        self.pc = value;
    }

    pub fn set_sp(&mut self, value: u8)
        ensures
            *final(self) == (CPU { sp: value, ..*old(self) }),
    {
        self.sp = value;
    }

    /// Replaces the status byte; the unused bit 5 stays set whatever
    /// `value` holds.
    pub fn set_status(&mut self, value: u8)
        ensures
            *final(self) == (CPU { status: value | UNUSED_FLAG, ..*old(self) }),
    {
        self.status = value | UNUSED_FLAG;
    }

    /// Sets the halted latch, as `BRK` does.
    pub fn halt(&mut self)
        ensures
            *final(self) == (CPU { halted: true, ..*old(self) }),
    {
        self.halted = true;
    }

    /// Opens the halted latch without touching anything else.
    pub fn resume(&mut self)
        ensures
            *final(self) == (CPU { halted: false, ..*old(self) }),
    {
        self.halted = false;
    }

    /// Sets the bits of `flag` in the status byte when `value` holds,
    /// clears them otherwise; the unused bit 5 stays set in any case.
    pub fn set_flag(&mut self, flag: u8, value: bool)
        ensures
            *final(self) == (CPU {
                status: with_flag(old(self).status, flag, value) | UNUSED_FLAG,
                ..*old(self)
            }),
    {
        self.put_flag(flag, value);
        self.status = self.status | UNUSED_FLAG;
    }

    /// Sets or clears exactly the bits of `flag`, as the instructions do.
    fn put_flag(&mut self, flag: u8, value: bool)
        ensures
            *final(self) == (CPU { status: with_flag(old(self).status, flag, value), ..*old(self) }),
    {
        if value {
            self.status = self.status | flag;
        } else {
            self.status = self.status & !flag;
        }
    }

    /// Whether any bit of `flag` is set in the status byte.
    pub fn get_flag(&self, flag: u8) -> (r: bool)
        ensures
            r == flag_set(self.status, flag),
    {
        (self.status & flag) != 0
    }

    fn update_zero_and_negative_flags(&mut self, value: u8)
        ensures
            *final(self) == (CPU { status: with_nz(old(self).status, value), ..*old(self) }),
            flag_set(final(self).status, ZERO_FLAG) == (value == 0),
            flag_set(final(self).status, NEGATIVE_FLAG) == ((value & 0x80) != 0),
            final(self).status & 0x7D == old(self).status & 0x7D,
    {
        proof {
            lemma_with_nz_keeps_others(old(self).status, value);
            lemma_with_nz(old(self).status, value, CARRY_FLAG);
        }
        self.put_flag(ZERO_FLAG, value == 0);
        self.put_flag(NEGATIVE_FLAG, (value & 0x80) != 0);
    }

    /// Writes `value` at the top of the stack, then moves `SP` down
    /// (wrapping within the stack page).
    pub fn push(&mut self, memory: &mut Memory, value: u8)
        ensures
            final(memory)@ == old(memory)@.update(stack_addr(old(self).sp), value),
            *final(self) == (CPU { sp: add8(old(self).sp, -1), ..*old(self) }),
    {
        memory.write(STACK_BASE + self.sp as u16, value);
        self.sp = self.sp.wrapping_sub(1);
    }

    /// Moves `SP` up (wrapping within the stack page), then reads the byte
    /// it names.
    pub fn pop(&mut self, memory: &Memory) -> (r: u8)
        ensures
            *final(self) == (CPU { sp: add8(old(self).sp, 1), ..*old(self) }),
            r == memory@[stack_addr(add8(old(self).sp, 1))],
    {
        self.sp = self.sp.wrapping_add(1);
        memory.read(STACK_BASE + self.sp as u16)
    }

    /// The byte at `pc`; `pc` moves past it.
    fn fetch_byte(&mut self, memory: &Memory) -> (r: u8)
        ensures
            r == memory@[old(self).pc as int],
            *final(self) == (CPU { pc: add16(old(self).pc, 1), ..*old(self) }),
    {
        let value = memory.read(self.pc);
        self.pc = self.pc.wrapping_add(1);
        value
    }

    /// The little-endian word at `pc`; `pc` moves past both bytes.
    fn fetch_word(&mut self, memory: &Memory) -> (r: u16)
        ensures
            r == word_at(memory@, old(self).pc),
            *final(self) == (CPU { pc: add16(old(self).pc, 2), ..*old(self) }),
    {
        let low = self.fetch_byte(memory) as u16;
        let high = self.fetch_byte(memory) as u16;
        high * 256 + low
    }

    /// Consumes the operand bytes of `mode` and returns the effective
    /// address.
    fn operand_address(&mut self, memory: &Memory, mode: AddressingMode) -> (addr: u16)
        ensures
            (addr, final(self).pc) == operand(*old(self), memory@, mode),
            *final(self) == (CPU { pc: final(self).pc, ..*old(self) }),
    {
        match mode {
            AddressingMode::Implicit | AddressingMode::Accumulator => self.pc,
            AddressingMode::Immediate | AddressingMode::Relative => {
                let addr = self.pc;
                self.pc = self.pc.wrapping_add(1);
                addr
            },
            AddressingMode::ZeroPage => self.fetch_byte(memory) as u16,
            AddressingMode::ZeroPageX => self.fetch_byte(memory).wrapping_add(self.x) as u16,
            AddressingMode::ZeroPageY => self.fetch_byte(memory).wrapping_add(self.y) as u16,
            AddressingMode::Absolute => self.fetch_word(memory),
            AddressingMode::AbsoluteX => self.fetch_word(memory).wrapping_add(self.x as u16),
            AddressingMode::AbsoluteY => self.fetch_word(memory).wrapping_add(self.y as u16),
            AddressingMode::Indirect => {
                let ptr = self.fetch_word(memory);
                self.indirect_pointer(memory, ptr)
            },
            AddressingMode::IndexedIndirect => {
                let ptr = self.fetch_byte(memory).wrapping_add(self.x);
                self.zero_page_pointer(memory, ptr)
            },
            AddressingMode::IndirectIndexed => {
                let ptr = self.fetch_byte(memory);
                self.zero_page_pointer(memory, ptr).wrapping_add(self.y as u16)
            },
        }
    }

    /// The jump target stored at `ptr`, with the NMOS 6502 page wrap when
    /// `ptr` ends in `0xFF`.
    fn indirect_pointer(&self, memory: &Memory, ptr: u16) -> (r: u16)
        ensures
            r == indirect_target(memory@, ptr),
    {
        let low = memory.read(ptr) as u16;
        let high_addr = if ptr % 256 == 255 {
            ptr - 255
        } else {
            ptr + 1
        };
        let high = memory.read(high_addr) as u16;
        high * 256 + low
    }

    /// The pointer stored at zero-page address `ptr`, its high byte read
    /// from `(ptr + 1) mod 256`.
    fn zero_page_pointer(&self, memory: &Memory, ptr: u8) -> (r: u16)
        ensures
            r == zero_page_word(memory@, ptr),
    {
        let low = memory.read(ptr as u16) as u16;
        let high = memory.read(ptr.wrapping_add(1) as u16) as u16;
        high * 256 + low
    }

    /// `LDA`: loads A from the operand.
    fn lda(&mut self, memory: &mut Memory, mode: AddressingMode)
        ensures
            (*final(self), final(memory)@) == effect(*old(self), old(memory)@, Mnemonic::Lda, mode),
    {
        let addr = self.operand_address(memory, mode);
        let value = memory.read(addr);
        self.a = value;
        self.update_zero_and_negative_flags(value);
    }

    /// `LDX`: loads X from the operand.
    fn ldx(&mut self, memory: &mut Memory, mode: AddressingMode)
        ensures
            (*final(self), final(memory)@) == effect(*old(self), old(memory)@, Mnemonic::Ldx, mode),
    {
        let addr = self.operand_address(memory, mode);
        let value = memory.read(addr);
        self.x = value;
        self.update_zero_and_negative_flags(value);
    }

    /// `LDY`: loads Y from the operand.
    fn ldy(&mut self, memory: &mut Memory, mode: AddressingMode)
        ensures
            (*final(self), final(memory)@) == effect(*old(self), old(memory)@, Mnemonic::Ldy, mode),
    {
        let addr = self.operand_address(memory, mode);
        let value = memory.read(addr);
        self.y = value;
        self.update_zero_and_negative_flags(value);
    }

    /// `STA`: stores A; no flag changes.
    fn sta(&mut self, memory: &mut Memory, mode: AddressingMode)
        ensures
            (*final(self), final(memory)@) == effect(*old(self), old(memory)@, Mnemonic::Sta, mode),
    {
        let addr = self.operand_address(memory, mode);
        memory.write(addr, self.a);
    }

    /// `STX`: stores X; no flag changes.
    fn stx(&mut self, memory: &mut Memory, mode: AddressingMode)
        ensures
            (*final(self), final(memory)@) == effect(*old(self), old(memory)@, Mnemonic::Stx, mode),
    {
        let addr = self.operand_address(memory, mode);
        memory.write(addr, self.x);
    }

    /// `STY`: stores Y; no flag changes.
    fn sty(&mut self, memory: &mut Memory, mode: AddressingMode)
        ensures
            (*final(self), final(memory)@) == effect(*old(self), old(memory)@, Mnemonic::Sty, mode),
    {
        let addr = self.operand_address(memory, mode);
        memory.write(addr, self.y);
    }

    /// `ADC`: adds the operand and the carry to A.
    fn adc(&mut self, memory: &mut Memory, mode: AddressingMode)
        ensures
            (*final(self), final(memory)@) == effect(*old(self), old(memory)@, Mnemonic::Adc, mode),
    {
        let addr = self.operand_address(memory, mode);
        let value = memory.read(addr);
        let carry: u16 = if self.get_flag(CARRY_FLAG) {
            1
        } else {
            0
        };
        let sum: u16 = self.a as u16 + value as u16 + carry;
        let result: u8 = if sum > 255 {
            (sum - 256) as u8
        } else {
            sum as u8
        };
        let overflow = ((self.a ^ result) & (value ^ result) & 0x80) != 0;
        self.put_flag(CARRY_FLAG, sum > 255);
        self.put_flag(OVERFLOW_FLAG, overflow);
        self.a = result;
        self.update_zero_and_negative_flags(result);
    }

    /// `SBC`: subtracts the operand and the borrow (`1 - C`) from A.
    fn sbc(&mut self, memory: &mut Memory, mode: AddressingMode)
        ensures
            (*final(self), final(memory)@) == effect(*old(self), old(memory)@, Mnemonic::Sbc, mode),
    {
        let addr = self.operand_address(memory, mode);
        let value = memory.read(addr);
        let borrow: i16 = if self.get_flag(CARRY_FLAG) {
            0
        } else {
            1
        };
        let diff: i16 = self.a as i16 - value as i16 - borrow;
        let result: u8 = if diff < 0 {
            (diff + 256) as u8
        } else {
            diff as u8
        };
        let overflow = ((self.a ^ value) & (self.a ^ result) & 0x80) != 0;
        self.put_flag(CARRY_FLAG, diff >= 0);
        self.put_flag(OVERFLOW_FLAG, overflow);
        self.a = result;
        self.update_zero_and_negative_flags(result);
    }

    /// `CMP`: compares A with the operand.
    fn cmp(&mut self, memory: &mut Memory, mode: AddressingMode)
        ensures
            (*final(self), final(memory)@) == effect(*old(self), old(memory)@, Mnemonic::Cmp, mode),
    {
        let addr = self.operand_address(memory, mode);
        let value = memory.read(addr);
        let register = self.a;
        self.compare(register, value);
    }

    /// `CPX`: compares X with the operand.
    fn cpx(&mut self, memory: &mut Memory, mode: AddressingMode)
        ensures
            (*final(self), final(memory)@) == effect(*old(self), old(memory)@, Mnemonic::Cpx, mode),
    {
        let addr = self.operand_address(memory, mode);
        let value = memory.read(addr);
        let register = self.x;
        self.compare(register, value);
    }

    /// `CPY`: compares Y with the operand.
    fn cpy(&mut self, memory: &mut Memory, mode: AddressingMode)
        ensures
            (*final(self), final(memory)@) == effect(*old(self), old(memory)@, Mnemonic::Cpy, mode),
    {
        let addr = self.operand_address(memory, mode);
        let value = memory.read(addr);
        let register = self.y;
        self.compare(register, value);
    }

    /// `AND`: combines the operand into A.
    fn and_op(&mut self, memory: &mut Memory, mode: AddressingMode)
        ensures
            (*final(self), final(memory)@) == effect(*old(self), old(memory)@, Mnemonic::And, mode),
    {
        let addr = self.operand_address(memory, mode);
        let value = self.a & memory.read(addr);
        self.a = value;
        self.update_zero_and_negative_flags(value);
    }

    /// `ORA`: combines the operand into A.
    fn ora(&mut self, memory: &mut Memory, mode: AddressingMode)
        ensures
            (*final(self), final(memory)@) == effect(*old(self), old(memory)@, Mnemonic::Ora, mode),
    {
        let addr = self.operand_address(memory, mode);
        let value = self.a | memory.read(addr);
        self.a = value;
        self.update_zero_and_negative_flags(value);
    }

    /// `EOR`: combines the operand into A.
    fn eor(&mut self, memory: &mut Memory, mode: AddressingMode)
        ensures
            (*final(self), final(memory)@) == effect(*old(self), old(memory)@, Mnemonic::Eor, mode),
    {
        let addr = self.operand_address(memory, mode);
        let value = self.a ^ memory.read(addr);
        self.a = value;
        self.update_zero_and_negative_flags(value);
    }

    /// `INC`: increments the operand in memory.
    fn inc(&mut self, memory: &mut Memory, mode: AddressingMode)
        ensures
            (*final(self), final(memory)@) == effect(*old(self), old(memory)@, Mnemonic::Inc, mode),
    {
        let addr = self.operand_address(memory, mode);
        let value = memory.read(addr).wrapping_add(1);
        memory.write(addr, value);
        self.update_zero_and_negative_flags(value);
    }

    /// `DEC`: decrements the operand in memory.
    fn dec(&mut self, memory: &mut Memory, mode: AddressingMode)
        ensures
            (*final(self), final(memory)@) == effect(*old(self), old(memory)@, Mnemonic::Dec, mode),
    {
        let addr = self.operand_address(memory, mode);
        let value = memory.read(addr).wrapping_sub(1);
        memory.write(addr, value);
        self.update_zero_and_negative_flags(value);
    }

    /// `INX`: increments X.
    fn inx(&mut self, memory: &mut Memory, mode: AddressingMode)
        ensures
            (*final(self), final(memory)@) == effect(*old(self), old(memory)@, Mnemonic::Inx, mode),
    {
        let _ = self.operand_address(memory, mode);
        let value = self.x.wrapping_add(1);
        self.x = value;
        self.update_zero_and_negative_flags(value);
    }

    /// `INY`: increments Y.
    fn iny(&mut self, memory: &mut Memory, mode: AddressingMode)
        ensures
            (*final(self), final(memory)@) == effect(*old(self), old(memory)@, Mnemonic::Iny, mode),
    {
        let _ = self.operand_address(memory, mode);
        let value = self.y.wrapping_add(1);
        self.y = value;
        self.update_zero_and_negative_flags(value);
    }

    /// `DEX`: decrements X.
    fn dex(&mut self, memory: &mut Memory, mode: AddressingMode)
        ensures
            (*final(self), final(memory)@) == effect(*old(self), old(memory)@, Mnemonic::Dex, mode),
    {
        let _ = self.operand_address(memory, mode);
        let value = self.x.wrapping_sub(1);
        self.x = value;
        self.update_zero_and_negative_flags(value);
    }

    /// `DEY`: decrements Y.
    fn dey(&mut self, memory: &mut Memory, mode: AddressingMode)
        ensures
            (*final(self), final(memory)@) == effect(*old(self), old(memory)@, Mnemonic::Dey, mode),
    {
        let _ = self.operand_address(memory, mode);
        let value = self.y.wrapping_sub(1);
        self.y = value;
        self.update_zero_and_negative_flags(value);
    }

    /// `TAX`: copies A to X.
    fn tax(&mut self, memory: &mut Memory, mode: AddressingMode)
        ensures
            (*final(self), final(memory)@) == effect(*old(self), old(memory)@, Mnemonic::Tax, mode),
    {
        let _ = self.operand_address(memory, mode);
        let value = self.a;
        self.x = value;
        self.update_zero_and_negative_flags(value);
    }

    /// `TAY`: copies A to Y.
    fn tay(&mut self, memory: &mut Memory, mode: AddressingMode)
        ensures
            (*final(self), final(memory)@) == effect(*old(self), old(memory)@, Mnemonic::Tay, mode),
    {
        let _ = self.operand_address(memory, mode);
        let value = self.a;
        self.y = value;
        self.update_zero_and_negative_flags(value);
    }

    /// `TXA`: copies X to A.
    fn txa(&mut self, memory: &mut Memory, mode: AddressingMode)
        ensures
            (*final(self), final(memory)@) == effect(*old(self), old(memory)@, Mnemonic::Txa, mode),
    {
        let _ = self.operand_address(memory, mode);
        let value = self.x;
        self.a = value;
        self.update_zero_and_negative_flags(value);
    }

    /// `TYA`: copies Y to A.
    fn tya(&mut self, memory: &mut Memory, mode: AddressingMode)
        ensures
            (*final(self), final(memory)@) == effect(*old(self), old(memory)@, Mnemonic::Tya, mode),
    {
        let _ = self.operand_address(memory, mode);
        let value = self.y;
        self.a = value;
        self.update_zero_and_negative_flags(value);
    }

    /// `TSX`: copies SP to X.
    fn tsx(&mut self, memory: &mut Memory, mode: AddressingMode)
        ensures
            (*final(self), final(memory)@) == effect(*old(self), old(memory)@, Mnemonic::Tsx, mode),
    {
        let _ = self.operand_address(memory, mode);
        let value = self.sp;
        self.x = value;
        self.update_zero_and_negative_flags(value);
    }

    /// `TXS`: copies X to SP; no flag changes.
    fn txs(&mut self, memory: &mut Memory, mode: AddressingMode)
        ensures
            (*final(self), final(memory)@) == effect(*old(self), old(memory)@, Mnemonic::Txs, mode),
    {
        let _ = self.operand_address(memory, mode);
        self.sp = self.x;
    }

    /// `JMP`: continues at the effective address.
    fn jmp(&mut self, memory: &mut Memory, mode: AddressingMode)
        ensures
            (*final(self), final(memory)@) == effect(*old(self), old(memory)@, Mnemonic::Jmp, mode),
    {
        self.pc = self.operand_address(memory, mode);
    }

    /// `JSR`: pushes the address of its last operand byte, high byte first, and
    /// continues at the target.
    fn jsr(&mut self, memory: &mut Memory, mode: AddressingMode)
        ensures
            (*final(self), final(memory)@) == effect(*old(self), old(memory)@, Mnemonic::Jsr, mode),
    {
        let return_addr = self.pc.wrapping_add(1);
        let target = self.operand_address(memory, mode);
        self.push_u16(memory, return_addr);
        self.pc = target;
    }

    /// `RTS`: pops the return address, low byte first, and continues one past it.
    fn rts(&mut self, memory: &mut Memory, mode: AddressingMode)
        ensures
            (*final(self), final(memory)@) == effect(*old(self), old(memory)@, Mnemonic::Rts, mode),
    {
        let _ = self.operand_address(memory, mode);
        let return_addr = self.pop_u16(memory);
        self.pc = return_addr.wrapping_add(1);
    }

    /// `BRK`: sets the halted latch; nothing is pushed and no vector is read.
    fn brk(&mut self, memory: &mut Memory, mode: AddressingMode)
        ensures
            (*final(self), final(memory)@) == effect(*old(self), old(memory)@, Mnemonic::Brk, mode),
    {
        let _ = self.operand_address(memory, mode);
        self.halted = true;
    }

    fn compare(&mut self, register: u8, value: u8)
        ensures
            *final(self) == (CPU { status: compared(register, value, old(self).status), ..*old(self) }),
            flag_set(final(self).status, CARRY_FLAG) == (register >= value),
            flag_set(final(self).status, ZERO_FLAG) == (register == value),
            flag_set(final(self).status, NEGATIVE_FLAG) == ((add8(register, -(value as int)) & 0x80)
                != 0),
            final(self).status & 0x7C == old(self).status & 0x7C,
    {
        proof {
            let st = with_flag(old(self).status, CARRY_FLAG, register >= value);
            lemma_with_flag(old(self).status, CARRY_FLAG, CARRY_FLAG, register >= value);
            lemma_with_nz(st, add8(register, -(value as int)), CARRY_FLAG);
            lemma_with_flag_keeps_others(old(self).status, register >= value);
            lemma_with_nz_keeps_others(st, add8(register, -(value as int)));
            lemma_masked_bits(st, false, false, false);
            lemma_masked_bits(compared(register, value, old(self).status), false, false, false);
        }
        let result = register.wrapping_sub(value);
        self.put_flag(CARRY_FLAG, register >= value);
        self.update_zero_and_negative_flags(result);
    }

    /// Pushes `value` high byte first.
    fn push_u16(&mut self, memory: &mut Memory, value: u16)
        ensures
            final(memory)@ == old(memory)@.update(stack_addr(old(self).sp), (value / 256) as u8).update(
                stack_addr(add8(old(self).sp, -1)),
                (value % 256) as u8,
            ),
            *final(self) == (CPU { sp: add8(old(self).sp, -2), ..*old(self) }),
    {
        self.push(memory, (value / 256) as u8);
        self.push(memory, (value % 256) as u8);
    }

    /// Pops a word, low byte first.
    fn pop_u16(&mut self, memory: &Memory) -> (r: u16)
        ensures
            r == memory@[stack_addr(add8(old(self).sp, 1))] as int + 256 * memory@[stack_addr(
                add8(old(self).sp, 2),
            )] as int,
            *final(self) == (CPU { sp: add8(old(self).sp, 2), ..*old(self) }),
    {
        let low = self.pop(memory) as u16;
        let high = self.pop(memory) as u16;
        high * 256 + low
    }

    /// Consumes the displacement byte; when `condition` holds, moves `PC` by
    /// it (as a signed value) from the address after it.
    fn branch_if(&mut self, memory: &Memory, mode: AddressingMode, condition: bool)
        ensures
            *final(self) == (CPU {
                pc: if condition {
                    branch_target(operand(*old(self), memory@, mode).1, memory@[operand(*old(self), memory@, mode).0 as int])
                } else {
                    operand(*old(self), memory@, mode).1
                },
                ..*old(self)
            }),
    {
        let addr = self.operand_address(memory, mode);
        let offset = memory.read(addr);
        if condition {
            self.pc = if offset < 128 {
                self.pc.wrapping_add(offset as u16)
            } else {
                self.pc.wrapping_sub(256 - offset as u16)
            };
        }
    }

    /// The flag instructions: consume the (absent) operand and set or clear
    /// the bits of `flag`.
    fn change_flag(&mut self, memory: &Memory, mode: AddressingMode, flag: u8, value: bool)
        ensures
            *final(self) == (CPU {
                pc: operand(*old(self), memory@, mode).1,
                status: with_flag(old(self).status, flag, value),
                ..*old(self)
            }),
    {
        let _ = self.operand_address(memory, mode);
        self.put_flag(flag, value);
    }

    /// `NOP`: consumes its (absent) operand and nothing else.
    fn nop(&mut self, memory: &mut Memory, mode: AddressingMode)
        ensures
            (*final(self), final(memory)@) == effect(*old(self), old(memory)@, Mnemonic::Nop, mode),
    {
        let _ = self.operand_address(memory, mode);
    }

    /// `CLC`: clears carry.
    fn clc(&mut self, memory: &mut Memory, mode: AddressingMode)
        ensures
            (*final(self), final(memory)@) == effect(*old(self), old(memory)@, Mnemonic::Clc, mode),
    {
        self.change_flag(memory, mode, CARRY_FLAG, false);
    }

    /// `SEC`: sets carry.
    fn sec(&mut self, memory: &mut Memory, mode: AddressingMode)
        ensures
            (*final(self), final(memory)@) == effect(*old(self), old(memory)@, Mnemonic::Sec, mode),
    {
        self.change_flag(memory, mode, CARRY_FLAG, true);
    }

    /// `CLI`: clears interrupt disable.
    fn cli(&mut self, memory: &mut Memory, mode: AddressingMode)
        ensures
            (*final(self), final(memory)@) == effect(*old(self), old(memory)@, Mnemonic::Cli, mode),
    {
        self.change_flag(memory, mode, INTERRUPT_DISABLE, false);
    }

    /// `SEI`: sets interrupt disable.
    fn sei(&mut self, memory: &mut Memory, mode: AddressingMode)
        ensures
            (*final(self), final(memory)@) == effect(*old(self), old(memory)@, Mnemonic::Sei, mode),
    {
        self.change_flag(memory, mode, INTERRUPT_DISABLE, true);
    }

    /// `CLD`: clears decimal mode.
    fn cld(&mut self, memory: &mut Memory, mode: AddressingMode)
        ensures
            (*final(self), final(memory)@) == effect(*old(self), old(memory)@, Mnemonic::Cld, mode),
    {
        self.change_flag(memory, mode, DECIMAL_MODE, false);
    }

    /// `SED`: sets decimal mode.
    fn sed(&mut self, memory: &mut Memory, mode: AddressingMode)
        ensures
            (*final(self), final(memory)@) == effect(*old(self), old(memory)@, Mnemonic::Sed, mode),
    {
        self.change_flag(memory, mode, DECIMAL_MODE, true);
    }

    /// `CLV`: clears overflow.
    fn clv(&mut self, memory: &mut Memory, mode: AddressingMode)
        ensures
            (*final(self), final(memory)@) == effect(*old(self), old(memory)@, Mnemonic::Clv, mode),
    {
        self.change_flag(memory, mode, OVERFLOW_FLAG, false);
    }

    /// `BCC`: branches if carry clear.
    fn bcc(&mut self, memory: &mut Memory, mode: AddressingMode)
        ensures
            (*final(self), final(memory)@) == effect(*old(self), old(memory)@, Mnemonic::Bcc, mode),
    {
        let taken = !self.get_flag(CARRY_FLAG);
        self.branch_if(memory, mode, taken);
    }

    /// `BCS`: branches if carry set.
    fn bcs(&mut self, memory: &mut Memory, mode: AddressingMode)
        ensures
            (*final(self), final(memory)@) == effect(*old(self), old(memory)@, Mnemonic::Bcs, mode),
    {
        let taken = self.get_flag(CARRY_FLAG);
        self.branch_if(memory, mode, taken);
    }

    /// `BEQ`: branches if zero set.
    fn beq(&mut self, memory: &mut Memory, mode: AddressingMode)
        ensures
            (*final(self), final(memory)@) == effect(*old(self), old(memory)@, Mnemonic::Beq, mode),
    {
        let taken = self.get_flag(ZERO_FLAG);
        self.branch_if(memory, mode, taken);
    }

    /// `BNE`: branches if zero clear.
    fn bne(&mut self, memory: &mut Memory, mode: AddressingMode)
        ensures
            (*final(self), final(memory)@) == effect(*old(self), old(memory)@, Mnemonic::Bne, mode),
    {
        let taken = !self.get_flag(ZERO_FLAG);
        self.branch_if(memory, mode, taken);
    }

    /// `BMI`: branches if negative set.
    fn bmi(&mut self, memory: &mut Memory, mode: AddressingMode)
        ensures
            (*final(self), final(memory)@) == effect(*old(self), old(memory)@, Mnemonic::Bmi, mode),
    {
        let taken = self.get_flag(NEGATIVE_FLAG);
        self.branch_if(memory, mode, taken);
    }

    /// `BPL`: branches if negative clear.
    fn bpl(&mut self, memory: &mut Memory, mode: AddressingMode)
        ensures
            (*final(self), final(memory)@) == effect(*old(self), old(memory)@, Mnemonic::Bpl, mode),
    {
        let taken = !self.get_flag(NEGATIVE_FLAG);
        self.branch_if(memory, mode, taken);
    }

    /// `BVC`: branches if overflow clear.
    fn bvc(&mut self, memory: &mut Memory, mode: AddressingMode)
        ensures
            (*final(self), final(memory)@) == effect(*old(self), old(memory)@, Mnemonic::Bvc, mode),
    {
        let taken = !self.get_flag(OVERFLOW_FLAG);
        self.branch_if(memory, mode, taken);
    }

    /// `BVS`: branches if overflow set.
    fn bvs(&mut self, memory: &mut Memory, mode: AddressingMode)
        ensures
            (*final(self), final(memory)@) == effect(*old(self), old(memory)@, Mnemonic::Bvs, mode),
    {
        let taken = self.get_flag(OVERFLOW_FLAG);
        self.branch_if(memory, mode, taken);
    }

    /// Executes one decoded instruction whose opcode byte has been consumed.
    fn execute(&mut self, memory: &mut Memory, mnemonic: Mnemonic, mode: AddressingMode)
        ensures
            (*final(self), final(memory)@) == effect(*old(self), old(memory)@, mnemonic, mode),
    {
        match mnemonic {
            Mnemonic::Lda => self.lda(memory, mode),
            Mnemonic::Ldx => self.ldx(memory, mode),
            Mnemonic::Ldy => self.ldy(memory, mode),
            Mnemonic::Sta => self.sta(memory, mode),
            Mnemonic::Stx => self.stx(memory, mode),
            Mnemonic::Sty => self.sty(memory, mode),
            Mnemonic::Adc => self.adc(memory, mode),
            Mnemonic::Sbc => self.sbc(memory, mode),
            Mnemonic::Cmp => self.cmp(memory, mode),
            Mnemonic::Cpx => self.cpx(memory, mode),
            Mnemonic::Cpy => self.cpy(memory, mode),
            Mnemonic::And => self.and_op(memory, mode),
            Mnemonic::Ora => self.ora(memory, mode),
            Mnemonic::Eor => self.eor(memory, mode),
            Mnemonic::Inc => self.inc(memory, mode),
            Mnemonic::Dec => self.dec(memory, mode),
            Mnemonic::Inx => self.inx(memory, mode),
            Mnemonic::Iny => self.iny(memory, mode),
            Mnemonic::Dex => self.dex(memory, mode),
            Mnemonic::Dey => self.dey(memory, mode),
            Mnemonic::Tax => self.tax(memory, mode),
            Mnemonic::Tay => self.tay(memory, mode),
            Mnemonic::Txa => self.txa(memory, mode),
            Mnemonic::Tya => self.tya(memory, mode),
            Mnemonic::Tsx => self.tsx(memory, mode),
            Mnemonic::Txs => self.txs(memory, mode),
            Mnemonic::Rts => self.rts(memory, mode),
            Mnemonic::Brk => self.brk(memory, mode),
            Mnemonic::Nop => self.nop(memory, mode),
            Mnemonic::Clc => self.clc(memory, mode),
            Mnemonic::Sec => self.sec(memory, mode),
            Mnemonic::Cli => self.cli(memory, mode),
            Mnemonic::Sei => self.sei(memory, mode),
            Mnemonic::Cld => self.cld(memory, mode),
            Mnemonic::Sed => self.sed(memory, mode),
            Mnemonic::Clv => self.clv(memory, mode),
            Mnemonic::Jmp => self.jmp(memory, mode),
            Mnemonic::Jsr => self.jsr(memory, mode),
            Mnemonic::Bcc => self.bcc(memory, mode),
            Mnemonic::Bcs => self.bcs(memory, mode),
            Mnemonic::Beq => self.beq(memory, mode),
            Mnemonic::Bne => self.bne(memory, mode),
            Mnemonic::Bmi => self.bmi(memory, mode),
            Mnemonic::Bpl => self.bpl(memory, mode),
            Mnemonic::Bvc => self.bvc(memory, mode),
            Mnemonic::Bvs => self.bvs(memory, mode),
        }
    }

    /// Executes one instruction: does nothing on a halted core; otherwise
    /// consumes the opcode at `PC`, executes it and counts it, or reports an
    /// unknown opcode with `PC` already past it.
    pub fn step(&mut self, memory: &mut Memory) -> (r: Result<(), StepError>)
        ensures
            (*final(self), final(memory)@, r) == transition(*old(self), old(memory)@),
    {
        if self.halted {
            return Ok(());
        }
        let pc_of_opcode = self.pc;
        let opcode = self.fetch_byte(memory);
        match decode(opcode) {
            None => Err(StepError::UnknownOpcode { opcode, pc_of_opcode }),
            Some((mnemonic, mode)) => {
                self.execute(memory, mnemonic, mode);
                self.cycles = self.cycles.wrapping_add(1);
                Ok(())
            },
        }
    }
}

} // verus!
