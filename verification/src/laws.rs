//! Proved laws of the instruction semantics: statements that hold of
//! every machine state, over the single-step function
//! [`spec_step`].
//!
//! The executable interpreter follows [`spec_step`] exactly (see
//! [`crate::cpu::CPU::next`]), so each law carries over to runs of
//! the CPU on a bus whose writes land exactly where stored.

use vstd::prelude::*;

use crate::machine::FLAG_CARRY;
use crate::machine::FLAG_NEGATIVE;
use crate::machine::FLAG_ZERO;
use crate::machine::MEMORY_SIZE;
use crate::machine::Machine;
use crate::machine::flag_bit;
use crate::machine::lemma_flag_bit_ops;
use crate::machine::lemma_flag_masks;
use crate::machine::lemma_high_bit;
use crate::machine::mem_at;
use crate::machine::stack_addr;
use crate::machine::word_from;
use crate::opcodes::spec_opcode;
use crate::semantics::spec_branch;
use crate::semantics::spec_compare;
use crate::semantics::spec_jmp;
use crate::semantics::spec_lda;
use crate::semantics::spec_pha;
use crate::semantics::spec_pla;
use crate::semantics::spec_step;

verus! {

/// Loading an immediate value sets the zero flag exactly when the
/// value is zero and copies its bit 7 into the negative flag.
pub proof fn lemma_lda_immediate_flags(s: Machine, v: u8)
    requires
        s.mem.len() == MEMORY_SIZE,
        mem_at(s.mem, s.pc) == 0xA9,
        mem_at(s.mem, s.pc.wrapping_add(1)) == v,
    ensures
        spec_step(s).m.a == v,
        flag_bit(spec_step(s).m.p, FLAG_ZERO) == (if v == 0 { 1u8 } else { 0u8 }),
        flag_bit(spec_step(s).m.p, FLAG_NEGATIVE) == v >> 7,
{
    reveal(spec_opcode);
    reveal(spec_lda);
    lemma_flag_bit_ops();
    lemma_flag_masks();
    lemma_high_bit(v);
}

/// Comparing the accumulator against the value it holds leaves
/// C = 1, Z = 1 and N = 0, and the accumulator untouched: here for
/// `CMP immediate` directly after `LDA immediate` of the same byte.
pub proof fn lemma_cmp_after_lda_equal(s: Machine, v: u8)
    requires
        s.mem.len() == MEMORY_SIZE,
        mem_at(s.mem, s.pc) == 0xA9,
        mem_at(s.mem, s.pc.wrapping_add(1)) == v,
        mem_at(s.mem, s.pc.wrapping_add(2)) == 0xC9,
        mem_at(s.mem, s.pc.wrapping_add(3)) == v,
    ensures
        ({
            let m = spec_step(spec_step(s).m).m;
            &&& m.a == v
            &&& flag_bit(m.p, FLAG_CARRY) == 1
            &&& flag_bit(m.p, FLAG_ZERO) == 1
            &&& flag_bit(m.p, FLAG_NEGATIVE) == 0
        }),
{
    reveal(spec_opcode);
    reveal(spec_lda);
    reveal(spec_compare);
    lemma_flag_bit_ops();
    lemma_flag_masks();
    lemma_high_bit(0);
    let m1 = spec_step(s).m;
    assert(m1.pc == s.pc.wrapping_add(2));
    assert(m1.a == v);
}

/// Pushing the accumulator, overwriting it, and popping restores the
/// accumulator and derives Z and N from the restored value.  The
/// stack slot must not overlap the three-instruction program text.
pub proof fn lemma_pha_lda_pla_round_trip(s: Machine)
    requires
        s.mem.len() == MEMORY_SIZE,
        mem_at(s.mem, s.pc) == 0x48,
        mem_at(s.mem, s.pc.wrapping_add(1)) == 0xA9,
        mem_at(s.mem, s.pc.wrapping_add(2)) == 0x00,
        mem_at(s.mem, s.pc.wrapping_add(3)) == 0x68,
        stack_addr(s.sp) != s.pc.wrapping_add(1),
        stack_addr(s.sp) != s.pc.wrapping_add(2),
        stack_addr(s.sp) != s.pc.wrapping_add(3),
    ensures
        ({
            let m = spec_step(spec_step(spec_step(s).m).m).m;
            &&& m.a == s.a
            &&& m.sp == s.sp
            &&& flag_bit(m.p, FLAG_ZERO) == (if s.a == 0 { 1u8 } else { 0u8 })
            &&& flag_bit(m.p, FLAG_NEGATIVE) == s.a >> 7
        }),
{
    reveal(spec_opcode);
    reveal(spec_pha);
    reveal(spec_lda);
    reveal(spec_pla);
    lemma_flag_bit_ops();
    lemma_flag_masks();
    lemma_high_bit(s.a);
    let m1 = spec_step(s).m;
    assert(m1.mem.len() == s.mem.len());
    assert(m1.mem[stack_addr(s.sp) as int] == s.a);
    let m2 = spec_step(m1).m;
    assert(m2.a == 0);
    assert(m2.sp == s.sp.wrapping_sub(1));
    assert(m2.mem == m1.mem);
    let m3 = spec_step(m2).m;
    assert(m3.a == mem_at(m2.mem, stack_addr(m2.sp.wrapping_add(1))));
    assert(m2.sp.wrapping_add(1) == s.sp);
}

/// PHA moves the stack pointer down by one, modulo 256.
pub proof fn lemma_pha_stack_pointer(s: Machine)
    requires
        s.mem.len() == MEMORY_SIZE,
        mem_at(s.mem, s.pc) == 0x48,
    ensures
        spec_step(s).m.sp == s.sp.wrapping_sub(1),
{
    reveal(spec_opcode);
    reveal(spec_pha);
}

/// PLA moves the stack pointer up by one, modulo 256.
pub proof fn lemma_pla_stack_pointer(s: Machine)
    requires
        s.mem.len() == MEMORY_SIZE,
        mem_at(s.mem, s.pc) == 0x68,
    ensures
        spec_step(s).m.sp == s.sp.wrapping_add(1),
{
    reveal(spec_opcode);
    reveal(spec_pla);
}

/// The indirect-JMP page-wrap bug: with `jmp_compat` set and a
/// pointer whose low byte is 0xFF, the jump target's low byte comes
/// from the pointer address and its high byte from the *start of the
/// same page*, not from the following page.
pub proof fn lemma_jmp_indirect_page_wrap(s: Machine, hi: u8)
    requires
        s.mem.len() == MEMORY_SIZE,
        s.jmp_compat,
        mem_at(s.mem, s.pc) == 0x6C,
        mem_at(s.mem, s.pc.wrapping_add(1)) == 0xFF,
        mem_at(s.mem, s.pc.wrapping_add(2)) == hi,
    ensures
        spec_step(s).m.pc == word_from(
            mem_at(s.mem, word_from(0xFF, hi)),
            mem_at(s.mem, (hi as u16 * 0x100) as u16),
        ),
{
    reveal(spec_opcode);
    reveal(spec_jmp);
    let ptr = word_from(0xFF, hi);
    assert(ptr % 256 == 255);
    assert((ptr / 256) * 256 == hi as u16 * 0x100);
}

/// Branch offsets are sign-extended: BEQ with operand 0x80 and the
/// zero flag set moves the program counter 128 bytes *back* from the
/// position after the operand.
pub proof fn lemma_beq_sign_extension(s: Machine)
    requires
        s.mem.len() == MEMORY_SIZE,
        mem_at(s.mem, s.pc) == 0xF0,
        mem_at(s.mem, s.pc.wrapping_add(1)) == 0x80,
        flag_bit(s.p, FLAG_ZERO) == 1,
    ensures
        spec_step(s).m.pc == s.pc.wrapping_add(2).wrapping_sub(128),
{
    reveal(spec_opcode);
    reveal(spec_branch);
}

/// Page-cross cycle cost of `LDA absolute,X`: the base cycle count
/// of 4 is charged, plus one exactly when the indexed address leaves
/// the page of the base address.
pub proof fn lemma_lda_absolute_x_cycles(s: Machine, lo: u8, hi: u8)
    requires
        s.mem.len() == MEMORY_SIZE,
        mem_at(s.mem, s.pc) == 0xBD,
        mem_at(s.mem, s.pc.wrapping_add(1)) == lo,
        mem_at(s.mem, s.pc.wrapping_add(2)) == hi,
    ensures
        spec_step(s).cycles == 4 + (if lo + s.x > 255 { 1u8 } else { 0u8 }),
{
    reveal(spec_opcode);
    reveal(spec_lda);
    let base = word_from(lo, hi);
    assert(base % 256 == lo);
}

} // verus!
