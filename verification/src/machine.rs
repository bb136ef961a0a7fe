//! The mathematical model of the CPU-visible machine state.
//!
//! A [`Machine`] value holds the register file, the status byte and the
//! whole 64 KiB address space as a sequence of bytes.  The instruction
//! semantics are stated as pure functions over this model.

use vstd::prelude::*;

verus! {

/// Mask of the carry flag (bit 0 of the status register).
pub const FLAG_CARRY: u8 = 0x01;

/// Mask of the zero flag (bit 1 of the status register).
pub const FLAG_ZERO: u8 = 0x02;

/// Mask of the interrupt-disable flag (bit 2 of the status register).
pub const FLAG_INTERRUPT_DISABLE: u8 = 0x04;

/// Mask of the decimal flag (bit 3 of the status register).
pub const FLAG_DECIMAL: u8 = 0x08;

/// Mask of the break flag (bit 4 of the status register).
pub const FLAG_BREAK: u8 = 0x10;

/// Mask of the unused flag (bit 5 of the status register).
pub const FLAG_UNUSED: u8 = 0x20;

/// Mask of the overflow flag (bit 6 of the status register).
pub const FLAG_OVERFLOW: u8 = 0x40;

/// Mask of the negative flag (bit 7 of the status register).
pub const FLAG_NEGATIVE: u8 = 0x80;

/// Number of addressable bytes: the 6502 has a 16-bit address space.
pub const MEMORY_SIZE: usize = 0x10000;

/// The CPU-visible machine state, used by specifications.
///
/// `mem` always has length `MEMORY_SIZE`; the byte visible at address
/// `a` is `mem[a as int]`.
#[verifier::ext_equal]
pub struct Machine {
    /// Accumulator.
    pub a: u8,
    /// X index register.
    pub x: u8,
    /// Y index register.
    pub y: u8,
    /// Stack pointer; the stack lives at `0x0100 | sp`.
    pub sp: u8,
    /// Status register P.
    pub p: u8,
    /// Program counter.
    pub pc: u16,
    /// Whether the indirect-JMP page-wrap bug of the real 6502 is emulated.
    pub jmp_compat: bool,
    /// The 64 KiB of CPU-visible memory.
    pub mem: Seq<u8>,
}

/// The byte visible at address `addr`.
pub open spec fn mem_at(m: Seq<u8>, addr: u16) -> u8 {
    m[addr as int]
}

/// The 16-bit word with low byte `lo` and high byte `hi`.
pub open spec fn word_from(lo: u8, hi: u8) -> u16 {
    (lo + hi * 0x100) as u16
}

/// Little-endian word read at `addr`; the high byte comes from
/// `addr + 1` with 16-bit wrap-around.
pub open spec fn read16(m: Seq<u8>, addr: u16) -> u16 {
    word_from(mem_at(m, addr), mem_at(m, addr.wrapping_add(1)))
}

/// Little-endian word read within the zero page: both byte addresses
/// are reduced modulo 256, so reading at 0xFF takes its high byte
/// from 0x00.
pub open spec fn read16_zero_page(m: Seq<u8>, addr: u16) -> u16 {
    word_from(
        mem_at(m, (addr % 256) as u16),
        mem_at(m, (addr.wrapping_add(1) % 256) as u16),
    )
}

/// 1 when the flag selected by `mask` is set in `p`, 0 otherwise.
pub open spec fn flag_bit(p: u8, mask: u8) -> u8 {
    if p & mask != 0 {
        1
    } else {
        0
    }
}

/// `p` with the flag selected by `mask` set when `v == 1` and cleared
/// otherwise.
pub open spec fn set_flag_val(p: u8, mask: u8, v: u8) -> u8 {
    if v == 1 {
        p | mask
    } else {
        p & !mask
    }
}

/// `p` with the zero flag derived from `r == 0` and the negative flag
/// derived from bit 7 of `r`.
pub open spec fn with_zn(p: u8, r: u8) -> u8 {
    set_flag_val(
        set_flag_val(p, FLAG_ZERO, if r == 0 { 1 } else { 0 }),
        FLAG_NEGATIVE,
        r >> 7,
    )
}

/// The stack address that corresponds to a stack pointer value.
pub open spec fn stack_addr(sp: u8) -> u16 {
    (0x100 + sp) as u16
}

/// Reading one flag through a write of another: writing the flag
/// selected by `m1` leaves every disjoint flag `m2` unchanged, and a
/// written flag reads back as written.
pub proof fn lemma_flag_bit_ops()
    by (bit_vector)
    ensures
        forall|p: u8, m1: u8, m2: u8, v: u8|
            m1 & m2 == 0 ==> #[trigger] flag_bit(set_flag_val(p, m1, v), m2) == flag_bit(p, m2),
        forall|p: u8, m: u8, v: u8|
            m != 0 ==> #[trigger] flag_bit(set_flag_val(p, m, v), m) == (if v == 1 {
                1u8
            } else {
                0u8
            }),
{
}

/// The status-flag masks are pairwise disjoint single bits.
pub proof fn lemma_flag_masks()
    by (bit_vector)
    ensures
        FLAG_CARRY & FLAG_ZERO == 0,
        FLAG_CARRY & FLAG_OVERFLOW == 0,
        FLAG_CARRY & FLAG_NEGATIVE == 0,
        FLAG_ZERO & FLAG_CARRY == 0,
        FLAG_ZERO & FLAG_OVERFLOW == 0,
        FLAG_ZERO & FLAG_NEGATIVE == 0,
        FLAG_OVERFLOW & FLAG_CARRY == 0,
        FLAG_OVERFLOW & FLAG_ZERO == 0,
        FLAG_OVERFLOW & FLAG_NEGATIVE == 0,
        FLAG_NEGATIVE & FLAG_CARRY == 0,
        FLAG_NEGATIVE & FLAG_ZERO == 0,
        FLAG_NEGATIVE & FLAG_OVERFLOW == 0,
{
}

/// Bit 7 of a byte, as the shift expression the semantics use: it is
/// 0 or 1, and 1 exactly for bytes of 0x80 and above.
pub proof fn lemma_high_bit(v: u8)
    by (bit_vector)
    ensures
        v >> 7 == 0 || v >> 7 == 1,
        (v >> 7 == 1) <==> v >= 0x80,
{
}

/// How the machine state after an operation relates to the state
/// `target` computed by the specification: registers, flags and the
/// program counter agree exactly; the memory agrees whenever the bus
/// promises that writes change only the written cell (`exact`).
pub open spec fn machine_matches(post: Machine, target: Machine, exact: bool) -> bool {
    &&& post.a == target.a
    &&& post.x == target.x
    &&& post.y == target.y
    &&& post.sp == target.sp
    &&& post.p == target.p
    &&& post.pc == target.pc
    &&& post.jmp_compat == target.jmp_compat
    &&& post.mem.len() == target.mem.len()
    &&& (exact ==> post.mem == target.mem)
}

} // verus!
