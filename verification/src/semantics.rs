//! The instruction semantics: one pure function per mnemonic, plus
//! the single-step function [`spec_step`] that the executable
//! interpreter is proved to follow.
//!
//! Every function here takes the machine state whose program counter
//! already points past the opcode byte, at the first operand byte.

use vstd::prelude::*;

use crate::machine::FLAG_BREAK;
use crate::machine::FLAG_CARRY;
use crate::machine::FLAG_DECIMAL;
use crate::machine::FLAG_INTERRUPT_DISABLE;
use crate::machine::FLAG_NEGATIVE;
use crate::machine::FLAG_OVERFLOW;
use crate::machine::FLAG_ZERO;
use crate::machine::Machine;
use crate::machine::flag_bit;
use crate::machine::mem_at;
use crate::machine::set_flag_val;
use crate::machine::stack_addr;
use crate::machine::with_zn;
use crate::machine::word_from;
use crate::cpu::RunOutcome;
use crate::memory::resolve;
use crate::memory::resolve_reads;
use crate::opcodes::AddressingMode;
use crate::opcodes::Mnemonic;
use crate::opcodes::spec_opcode;

verus! {

/// The addressing modes that can incur a page-crossing penalty.
pub open spec fn crossing_mode(mode: AddressingMode) -> bool {
    mode is AbsoluteX || mode is AbsoluteY || mode is IndirectY
}

/// The extra cycle count of a read-style instruction: 1 exactly when
/// an indexed mode crossed a page boundary.
pub open spec fn extra_cycles(mode: AddressingMode, crossed: bool) -> u8 {
    if crossing_mode(mode) && crossed {
        1
    } else {
        0
    }
}

/// ADC: add memory and carry to the accumulator.  Sets C on unsigned
/// overflow and V on signed overflow; Z and N follow the result.
#[verifier::opaque]
pub open spec fn spec_adc(s: Machine, mode: AddressingMode) -> (Machine, u8) {
    let r = resolve(s, mode);
    let v = mem_at(s.mem, r.address);
    let cin = flag_bit(s.p, FLAG_CARRY);
    let sum = ((s.a + v + cin) % 256) as u8;
    let p1 = set_flag_val(s.p, FLAG_CARRY, if s.a + v + cin > 255 { 1u8 } else { 0u8 });
    let p2 = set_flag_val(
        p1,
        FLAG_OVERFLOW,
        if (sum >> 7 != s.a >> 7) && (s.a >> 7 == v >> 7) { 1u8 } else { 0u8 },
    );
    (Machine { a: sum, p: with_zn(p2, sum), pc: r.pc, ..s }, extra_cycles(mode, r.page_crossed))
}

/// SBC: subtract memory and borrow from the accumulator.  C is the
/// complement of the borrow; V reports signed overflow.
#[verifier::opaque]
pub open spec fn spec_sbc(s: Machine, mode: AddressingMode) -> (Machine, u8) {
    let r = resolve(s, mode);
    let v = mem_at(s.mem, r.address);
    let borrow = if flag_bit(s.p, FLAG_CARRY) == 1 { 0u8 } else { 1u8 };
    let diff = ((256 + s.a - v - borrow) % 256) as u8;
    let p1 = set_flag_val(s.p, FLAG_CARRY, if s.a >= v + borrow { 1u8 } else { 0u8 });
    let p2 = set_flag_val(
        p1,
        FLAG_OVERFLOW,
        if (diff >> 7 != s.a >> 7) && (s.a >> 7 != v >> 7) { 1u8 } else { 0u8 },
    );
    (Machine { a: diff, p: with_zn(p2, diff), pc: r.pc, ..s }, extra_cycles(mode, r.page_crossed))
}

/// AND, ORA, EOR share this shape; `v` is already combined with A.
pub open spec fn accumulator_result(s: Machine, r: crate::memory::Resolved, v: u8) -> Machine {
    Machine { a: v, p: with_zn(s.p, v), pc: r.pc, ..s }
}

/// AND: bitwise conjunction into the accumulator.
#[verifier::opaque]
pub open spec fn spec_and(s: Machine, mode: AddressingMode) -> (Machine, u8) {
    let r = resolve(s, mode);
    let v = mem_at(s.mem, r.address);
    (accumulator_result(s, r, s.a & v), extra_cycles(mode, r.page_crossed))
}

/// ORA: bitwise disjunction into the accumulator.
#[verifier::opaque]
pub open spec fn spec_ora(s: Machine, mode: AddressingMode) -> (Machine, u8) {
    let r = resolve(s, mode);
    let v = mem_at(s.mem, r.address);
    (accumulator_result(s, r, s.a | v), extra_cycles(mode, r.page_crossed))
}

/// EOR: bitwise exclusive or into the accumulator.
#[verifier::opaque]
pub open spec fn spec_eor(s: Machine, mode: AddressingMode) -> (Machine, u8) {
    let r = resolve(s, mode);
    let v = mem_at(s.mem, r.address);
    (accumulator_result(s, r, s.a ^ v), extra_cycles(mode, r.page_crossed))
}

/// LDA: load the accumulator, setting Z and N.
#[verifier::opaque]
pub open spec fn spec_lda(s: Machine, mode: AddressingMode) -> (Machine, u8) {
    let r = resolve(s, mode);
    let v = mem_at(s.mem, r.address);
    (accumulator_result(s, r, v), extra_cycles(mode, r.page_crossed))
}

/// LDX: load the X register, setting Z and N.
#[verifier::opaque]
pub open spec fn spec_ldx(s: Machine, mode: AddressingMode) -> (Machine, u8) {
    let r = resolve(s, mode);
    let v = mem_at(s.mem, r.address);
    (
        Machine { x: v, p: with_zn(s.p, v), pc: r.pc, ..s },
        extra_cycles(mode, r.page_crossed),
    )
}

/// LDY: load the Y register, setting Z and N.
#[verifier::opaque]
pub open spec fn spec_ldy(s: Machine, mode: AddressingMode) -> (Machine, u8) {
    let r = resolve(s, mode);
    let v = mem_at(s.mem, r.address);
    (
        Machine { y: v, p: with_zn(s.p, v), pc: r.pc, ..s },
        extra_cycles(mode, r.page_crossed),
    )
}

/// CMP, CPX and CPY: compare `reg` with memory without storing.
/// C = reg >= M, Z = reg == M, N = bit 7 of (reg - M) mod 256.
#[verifier::opaque]
pub open spec fn spec_compare(s: Machine, mode: AddressingMode, reg: u8) -> (Machine, u8) {
    let r = resolve(s, mode);
    let v = mem_at(s.mem, r.address);
    let diff = ((256 + reg - v) % 256) as u8;
    let p1 = set_flag_val(s.p, FLAG_CARRY, if reg >= v { 1u8 } else { 0u8 });
    let p2 = set_flag_val(p1, FLAG_ZERO, if reg == v { 1u8 } else { 0u8 });
    let p3 = set_flag_val(p2, FLAG_NEGATIVE, diff >> 7);
    (Machine { p: p3, pc: r.pc, ..s }, extra_cycles(mode, r.page_crossed))
}

/// BIT: Z from `A & M`, V from bit 6 of M, N from bit 7 of M.
#[verifier::opaque]
pub open spec fn spec_bit(s: Machine, mode: AddressingMode) -> Machine {
    let r = resolve(s, mode);
    let v = mem_at(s.mem, r.address);
    let p1 = set_flag_val(s.p, FLAG_ZERO, if v & s.a == 0 { 1u8 } else { 0u8 });
    let p2 = set_flag_val(p1, FLAG_OVERFLOW, (v & 0x40) >> 6);
    let p3 = set_flag_val(p2, FLAG_NEGATIVE, (v & 0x80) >> 7);
    Machine { p: p3, pc: r.pc, ..s }
}

/// The byte shifted left with `carry_in` entering bit 0.
pub open spec fn shl_result(v: u8, carry_in: u8) -> u8 {
    ((v * 2 + carry_in) % 256) as u8
}

/// The byte shifted right with `carry_in` entering bit 7.
pub open spec fn shr_result(v: u8, carry_in: u8) -> u8 {
    (v / 2 + carry_in * 128) as u8
}

/// ASL: shift left; C takes the old bit 7.  With `NoneAddressing`
/// the accumulator is shifted, otherwise memory in place.
#[verifier::opaque]
pub open spec fn spec_asl(s: Machine, mode: AddressingMode) -> Machine {
    if mode is NoneAddressing {
        let nv = shl_result(s.a, 0);
        Machine { a: nv, p: with_zn(set_flag_val(s.p, FLAG_CARRY, s.a >> 7), nv), ..s }
    } else {
        let r = resolve(s, mode);
        let v = mem_at(s.mem, r.address);
        let nv = shl_result(v, 0);
        Machine {
            mem: s.mem.update(r.address as int, nv),
            p: with_zn(set_flag_val(s.p, FLAG_CARRY, v >> 7), nv),
            pc: r.pc,
            ..s
        }
    }
}

/// LSR: shift right; C takes the old bit 0.
#[verifier::opaque]
pub open spec fn spec_lsr(s: Machine, mode: AddressingMode) -> Machine {
    if mode is NoneAddressing {
        let nv = shr_result(s.a, 0);
        Machine { a: nv, p: with_zn(set_flag_val(s.p, FLAG_CARRY, s.a % 2), nv), ..s }
    } else {
        let r = resolve(s, mode);
        let v = mem_at(s.mem, r.address);
        let nv = shr_result(v, 0);
        Machine {
            mem: s.mem.update(r.address as int, nv),
            p: with_zn(set_flag_val(s.p, FLAG_CARRY, v % 2), nv),
            pc: r.pc,
            ..s
        }
    }
}

/// ROL: rotate left through the carry flag.
#[verifier::opaque]
pub open spec fn spec_rol(s: Machine, mode: AddressingMode) -> Machine {
    let cin = flag_bit(s.p, FLAG_CARRY);
    if mode is NoneAddressing {
        let nv = shl_result(s.a, cin);
        Machine { a: nv, p: with_zn(set_flag_val(s.p, FLAG_CARRY, s.a >> 7), nv), ..s }
    } else {
        let r = resolve(s, mode);
        let v = mem_at(s.mem, r.address);
        let nv = shl_result(v, cin);
        Machine {
            mem: s.mem.update(r.address as int, nv),
            p: with_zn(set_flag_val(s.p, FLAG_CARRY, v >> 7), nv),
            pc: r.pc,
            ..s
        }
    }
}

/// ROR: rotate right through the carry flag.
#[verifier::opaque]
pub open spec fn spec_ror(s: Machine, mode: AddressingMode) -> Machine {
    let cin = flag_bit(s.p, FLAG_CARRY);
    if mode is NoneAddressing {
        let nv = shr_result(s.a, cin);
        Machine { a: nv, p: with_zn(set_flag_val(s.p, FLAG_CARRY, s.a % 2), nv), ..s }
    } else {
        let r = resolve(s, mode);
        let v = mem_at(s.mem, r.address);
        let nv = shr_result(v, cin);
        Machine {
            mem: s.mem.update(r.address as int, nv),
            p: with_zn(set_flag_val(s.p, FLAG_CARRY, v % 2), nv),
            pc: r.pc,
            ..s
        }
    }
}

/// INC: increment a memory byte, wrapping modulo 256.
#[verifier::opaque]
pub open spec fn spec_inc(s: Machine, mode: AddressingMode) -> Machine {
    let r = resolve(s, mode);
    let nv = mem_at(s.mem, r.address).wrapping_add(1);
    Machine { mem: s.mem.update(r.address as int, nv), p: with_zn(s.p, nv), pc: r.pc, ..s }
}

/// DEC: decrement a memory byte, wrapping modulo 256.
#[verifier::opaque]
pub open spec fn spec_dec(s: Machine, mode: AddressingMode) -> Machine {
    let r = resolve(s, mode);
    let nv = mem_at(s.mem, r.address).wrapping_sub(1);
    Machine { mem: s.mem.update(r.address as int, nv), p: with_zn(s.p, nv), pc: r.pc, ..s }
}

/// INX: increment the X register.
#[verifier::opaque]
pub open spec fn spec_inx(s: Machine) -> Machine {
    let nv = s.x.wrapping_add(1);
    Machine { x: nv, p: with_zn(s.p, nv), ..s }
}

/// INY: increment the Y register.
#[verifier::opaque]
pub open spec fn spec_iny(s: Machine) -> Machine {
    let nv = s.y.wrapping_add(1);
    Machine { y: nv, p: with_zn(s.p, nv), ..s }
}

/// DEX: decrement the X register.
#[verifier::opaque]
pub open spec fn spec_dex(s: Machine) -> Machine {
    let nv = s.x.wrapping_sub(1);
    Machine { x: nv, p: with_zn(s.p, nv), ..s }
}

/// DEY: decrement the Y register.
#[verifier::opaque]
pub open spec fn spec_dey(s: Machine) -> Machine {
    let nv = s.y.wrapping_sub(1);
    Machine { y: nv, p: with_zn(s.p, nv), ..s }
}

/// A conditional branch: the operand byte is always consumed; when
/// `taken`, the program counter moves to the resolved target.
#[verifier::opaque]
pub open spec fn spec_branch(s: Machine, mode: AddressingMode, taken: bool) -> Machine {
    let r = resolve(s, mode);
    Machine { pc: if taken { r.address } else { r.pc }, ..s }
}

/// JMP: the program counter moves to the resolved target; the
/// indirect form goes through [`resolve`], which models the 6502
/// page-wrap bug when `jmp_compat` is set.
#[verifier::opaque]
pub open spec fn spec_jmp(s: Machine, mode: AddressingMode) -> Machine {
    let r = resolve(s, mode);
    Machine { pc: r.address, ..s }
}

/// JSR: push the address of the last operand byte (return address
/// minus one), high byte first, then jump.
#[verifier::opaque]
pub open spec fn spec_jsr(s: Machine, mode: AddressingMode) -> Machine {
    let r = resolve(s, mode);
    let ret = r.pc.wrapping_sub(1);
    Machine {
        mem: s.mem.update(stack_addr(s.sp) as int, (ret / 256) as u8).update(
            stack_addr(s.sp.wrapping_sub(1)) as int,
            (ret % 256) as u8,
        ),
        sp: s.sp.wrapping_sub(2),
        pc: r.address,
        ..s
    }
}

/// RTS: pop a word and continue one byte past it.
#[verifier::opaque]
pub open spec fn spec_rts(s: Machine) -> Machine {
    let w = word_from(
        mem_at(s.mem, stack_addr(s.sp.wrapping_add(1))),
        mem_at(s.mem, stack_addr(s.sp.wrapping_add(2))),
    );
    Machine { sp: s.sp.wrapping_add(2), pc: w.wrapping_add(1), ..s }
}

/// STA, STX, STY: store `v` at the resolved address; flags untouched.
#[verifier::opaque]
pub open spec fn spec_store(s: Machine, mode: AddressingMode, v: u8) -> Machine {
    let r = resolve(s, mode);
    Machine { mem: s.mem.update(r.address as int, v), pc: r.pc, ..s }
}

/// PHA: push the accumulator.
#[verifier::opaque]
pub open spec fn spec_pha(s: Machine) -> Machine {
    Machine {
        mem: s.mem.update(stack_addr(s.sp) as int, s.a),
        sp: s.sp.wrapping_sub(1),
        ..s
    }
}

/// PHP: push the status byte with the break flag forced on in the
/// pushed copy.
#[verifier::opaque]
pub open spec fn spec_php(s: Machine) -> Machine {
    Machine {
        mem: s.mem.update(stack_addr(s.sp) as int, s.p | FLAG_BREAK),
        sp: s.sp.wrapping_sub(1),
        ..s
    }
}

/// PLA: pop into the accumulator, setting Z and N.
#[verifier::opaque]
pub open spec fn spec_pla(s: Machine) -> Machine {
    let v = mem_at(s.mem, stack_addr(s.sp.wrapping_add(1)));
    Machine { a: v, sp: s.sp.wrapping_add(1), p: with_zn(s.p, v), ..s }
}

/// PLP: pop into the status register, keeping the internal bits 4
/// and 5 (break and unused) of the present value.
#[verifier::opaque]
pub open spec fn spec_plp(s: Machine) -> Machine {
    let v = mem_at(s.mem, stack_addr(s.sp.wrapping_add(1)));
    Machine { p: (s.p & 0x30) | (v & 0xCF), sp: s.sp.wrapping_add(1), ..s }
}

/// TAX, TAY, TXA, TYA, TSX: copy `v` into a register and derive Z
/// and N from it.
pub open spec fn transfer_flags(s: Machine, v: u8) -> u8 {
    with_zn(s.p, v)
}

/// A flag instruction: set or clear one status bit.
#[verifier::opaque]
pub open spec fn spec_set_flag(s: Machine, mask: u8, v: u8) -> Machine {
    Machine { p: set_flag_val(s.p, mask, v), ..s }
}

/// What one instruction does, given the mnemonic and addressing mode
/// of an opcode-table entry: the next machine state and the extra
/// cycles beyond the base count.
pub open spec fn spec_exec(s: Machine, m: Mnemonic, mode: AddressingMode) -> (Machine, u8) {
    match m {
        Mnemonic::Adc => spec_adc(s, mode),
        Mnemonic::And => spec_and(s, mode),
        Mnemonic::Asl => (spec_asl(s, mode), 0),
        Mnemonic::Bcc => (spec_branch(s, mode, flag_bit(s.p, FLAG_CARRY) == 0), 0),
        Mnemonic::Bcs => (spec_branch(s, mode, flag_bit(s.p, FLAG_CARRY) == 1), 0),
        Mnemonic::Beq => (spec_branch(s, mode, flag_bit(s.p, FLAG_ZERO) == 1), 0),
        Mnemonic::Bit => (spec_bit(s, mode), 0),
        Mnemonic::Bmi => (spec_branch(s, mode, flag_bit(s.p, FLAG_NEGATIVE) == 1), 0),
        Mnemonic::Bne => (spec_branch(s, mode, flag_bit(s.p, FLAG_ZERO) == 0), 0),
        Mnemonic::Bpl => (spec_branch(s, mode, flag_bit(s.p, FLAG_NEGATIVE) == 0), 0),
        Mnemonic::Brk => (s, 0),
        Mnemonic::Bvc => (spec_branch(s, mode, flag_bit(s.p, FLAG_OVERFLOW) == 0), 0),
        Mnemonic::Bvs => (spec_branch(s, mode, flag_bit(s.p, FLAG_OVERFLOW) == 1), 0),
        Mnemonic::Clc => (spec_set_flag(s, FLAG_CARRY, 0), 0),
        Mnemonic::Cld => (spec_set_flag(s, FLAG_DECIMAL, 0), 0),
        Mnemonic::Cli => (spec_set_flag(s, FLAG_INTERRUPT_DISABLE, 0), 0),
        Mnemonic::Clv => (spec_set_flag(s, FLAG_OVERFLOW, 0), 0),
        Mnemonic::Cmp => spec_compare(s, mode, s.a),
        Mnemonic::Cpx => spec_compare(s, mode, s.x),
        Mnemonic::Cpy => spec_compare(s, mode, s.y),
        Mnemonic::Dec => (spec_dec(s, mode), 0),
        Mnemonic::Dex => (spec_dex(s), 0),
        Mnemonic::Dey => (spec_dey(s), 0),
        Mnemonic::Eor => spec_eor(s, mode),
        Mnemonic::Inc => (spec_inc(s, mode), 0),
        Mnemonic::Inx => (spec_inx(s), 0),
        Mnemonic::Iny => (spec_iny(s), 0),
        Mnemonic::Jmp => (spec_jmp(s, mode), 0),
        Mnemonic::Jsr => (spec_jsr(s, mode), 0),
        Mnemonic::Lda => spec_lda(s, mode),
        Mnemonic::Ldx => spec_ldx(s, mode),
        Mnemonic::Ldy => spec_ldy(s, mode),
        Mnemonic::Lsr => (spec_lsr(s, mode), 0),
        Mnemonic::Nop => (s, 0),
        Mnemonic::Ora => spec_ora(s, mode),
        Mnemonic::Pha => (spec_pha(s), 0),
        Mnemonic::Php => (spec_php(s), 0),
        Mnemonic::Pla => (spec_pla(s), 0),
        Mnemonic::Plp => (spec_plp(s), 0),
        Mnemonic::Rol => (spec_rol(s, mode), 0),
        Mnemonic::Ror => (spec_ror(s, mode), 0),
        Mnemonic::Rti => (s, 0),
        Mnemonic::Rts => (spec_rts(s), 0),
        Mnemonic::Sbc => spec_sbc(s, mode),
        Mnemonic::Sec => (spec_set_flag(s, FLAG_CARRY, 1), 0),
        Mnemonic::Sed => (spec_set_flag(s, FLAG_DECIMAL, 1), 0),
        Mnemonic::Sei => (spec_set_flag(s, FLAG_INTERRUPT_DISABLE, 1), 0),
        Mnemonic::Sta => (spec_store(s, mode, s.a), 0),
        Mnemonic::Stx => (spec_store(s, mode, s.x), 0),
        Mnemonic::Sty => (spec_store(s, mode, s.y), 0),
        Mnemonic::Tax => (Machine { x: s.a, p: transfer_flags(s, s.a), ..s }, 0),
        Mnemonic::Tay => (Machine { y: s.a, p: transfer_flags(s, s.a), ..s }, 0),
        Mnemonic::Tsx => (Machine { x: s.sp, p: transfer_flags(s, s.sp), ..s }, 0),
        Mnemonic::Txa => (Machine { a: s.x, p: transfer_flags(s, s.x), ..s }, 0),
        Mnemonic::Txs => (Machine { sp: s.x, ..s }, 0),
        Mnemonic::Tya => (Machine { a: s.y, p: transfer_flags(s, s.y), ..s }, 0),
    }
}

/// The outcome of one instruction step.
pub struct StepOut {
    /// The machine state after the instruction.
    pub m: Machine,
    /// Base cycles of the opcode plus the page-crossing penalty.
    pub cycles: u8,
    /// True exactly when the opcode was BRK.
    pub end: bool,
}

/// Whether the byte at the program counter is a defined opcode, so
/// that a step is possible.
pub open spec fn step_enabled(s: Machine) -> bool {
    spec_opcode(mem_at(s.mem, s.pc)) is Some
}

/// One instruction step: fetch the opcode at the program counter,
/// advance past it, execute, and report the cycle count.
pub open spec fn spec_step(s: Machine) -> StepOut {
    let op = mem_at(s.mem, s.pc);
    let s1 = Machine { pc: s.pc.wrapping_add(1), ..s };
    match spec_opcode(op) {
        None => StepOut { m: s, cycles: 0, end: false },
        Some(oc) => {
            let (m2, extra) = spec_exec(s1, oc.mnemonic, oc.mode);
            StepOut {
                m: m2,
                cycles: ((oc.cycles + extra) % 256) as u8,
                end: oc.mnemonic is Brk,
            }
        },
    }
}

/// A bounded run: step until BRK, an undefined opcode or the end of
/// the fuel, and report the final state with the outcome tag.
pub open spec fn spec_run(s: Machine, fuel: nat) -> (Machine, RunOutcome)
    decreases fuel,
{
    if fuel == 0 {
        (s, RunOutcome::StepLimit)
    } else if !step_enabled(s) {
        (s, RunOutcome::UnknownOpcode(mem_at(s.mem, s.pc)))
    } else {
        let o = spec_step(s);
        if o.end {
            (o.m, RunOutcome::EndOfProgram)
        } else {
            spec_run(o.m, (fuel - 1) as nat)
        }
    }
}

/// The addresses that the next instruction reads: the opcode byte,
/// what the resolver consumes, and the operand or stack bytes the
/// executor loads.  The bus must accept reads there.
pub open spec fn step_reads(s: Machine) -> Set<u16> {
    let op = mem_at(s.mem, s.pc);
    let s1 = Machine { pc: s.pc.wrapping_add(1), ..s };
    let fetch = set![s.pc];
    match spec_opcode(op) {
        None => fetch,
        Some(oc) => fetch.union(resolve_reads(s1, oc.mode)).union(
            match oc.mnemonic {
                Mnemonic::Adc | Mnemonic::And | Mnemonic::Bit | Mnemonic::Cmp | Mnemonic::Cpx
                    | Mnemonic::Cpy | Mnemonic::Eor | Mnemonic::Lda | Mnemonic::Ldx
                    | Mnemonic::Ldy | Mnemonic::Ora | Mnemonic::Sbc | Mnemonic::Inc
                    | Mnemonic::Dec => set![resolve(s1, oc.mode).address],
                Mnemonic::Asl | Mnemonic::Lsr | Mnemonic::Rol | Mnemonic::Ror => {
                    if oc.mode is NoneAddressing {
                        Set::empty()
                    } else {
                        set![resolve(s1, oc.mode).address]
                    }
                },
                Mnemonic::Pla | Mnemonic::Plp => set![stack_addr(s1.sp.wrapping_add(1))],
                Mnemonic::Rts => set![
                    stack_addr(s1.sp.wrapping_add(1)),
                    stack_addr(s1.sp.wrapping_add(2)),
                ],
                _ => Set::empty(),
            },
        ),
    }
}

/// The addresses that the next instruction stores to; the bus must
/// accept writes there.
pub open spec fn step_writes(s: Machine) -> Set<u16> {
    let op = mem_at(s.mem, s.pc);
    let s1 = Machine { pc: s.pc.wrapping_add(1), ..s };
    match spec_opcode(op) {
        None => Set::empty(),
        Some(oc) => match oc.mnemonic {
            Mnemonic::Sta | Mnemonic::Stx | Mnemonic::Sty | Mnemonic::Inc | Mnemonic::Dec => set![
                resolve(s1, oc.mode).address,
            ],
            Mnemonic::Asl | Mnemonic::Lsr | Mnemonic::Rol | Mnemonic::Ror => {
                if oc.mode is NoneAddressing {
                    Set::empty()
                } else {
                    set![resolve(s1, oc.mode).address]
                }
            },
            Mnemonic::Pha | Mnemonic::Php => set![stack_addr(s1.sp)],
            Mnemonic::Jsr => set![stack_addr(s1.sp), stack_addr(s1.sp.wrapping_sub(1))],
            _ => Set::empty(),
        },
    }
}

} // verus!
