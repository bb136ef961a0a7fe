//! The instruction executors: one method per mnemonic, each proved
//! against its specification in [`crate::semantics`].
//!
//! Every executor runs with the program counter already past the
//! opcode byte and returns the extra cycles beyond the base count.

use vstd::prelude::*;

use crate::bus::Bus;
use crate::cpu::CPU;
use crate::cpu::cpu_frame;
use crate::machine::FLAG_BREAK;
use crate::machine::FLAG_CARRY;
use crate::machine::FLAG_DECIMAL;
use crate::machine::FLAG_INTERRUPT_DISABLE;
use crate::machine::FLAG_NEGATIVE;
use crate::machine::FLAG_OVERFLOW;
use crate::machine::FLAG_ZERO;
use crate::machine::Machine;
use crate::machine::flag_bit;
use crate::machine::machine_matches;
use crate::machine::stack_addr;
use crate::memory::operand_readable;
use crate::memory::resolve;
use crate::opcodes::AddressingMode;
use crate::semantics::extra_cycles;
use crate::semantics::spec_adc;
use crate::semantics::spec_and;
use crate::semantics::spec_asl;
use crate::semantics::spec_bit;
use crate::semantics::spec_branch;
use crate::semantics::spec_compare;
use crate::semantics::spec_dec;
use crate::semantics::spec_dex;
use crate::semantics::spec_dey;
use crate::semantics::spec_eor;
use crate::semantics::spec_inc;
use crate::semantics::spec_inx;
use crate::semantics::spec_iny;
use crate::semantics::spec_jmp;
use crate::semantics::spec_jsr;
use crate::semantics::spec_lda;
use crate::semantics::spec_ldx;
use crate::semantics::spec_ldy;
use crate::semantics::spec_lsr;
use crate::semantics::spec_ora;
use crate::semantics::spec_pha;
use crate::semantics::spec_php;
use crate::semantics::spec_pla;
use crate::semantics::spec_plp;
use crate::semantics::spec_rol;
use crate::semantics::spec_ror;
use crate::semantics::spec_rts;
use crate::semantics::spec_sbc;
use crate::semantics::spec_set_flag;
use crate::semantics::spec_store;
use crate::semantics::shl_result;
use crate::semantics::shr_result;
use crate::semantics::transfer_flags;

verus! {

/// The page-crossing penalty as reported by a read-style executor.
fn extra_for(mode: &AddressingMode, crossed: bool) -> (r: u8)
    ensures
        r == extra_cycles(*mode, crossed),
{
    match mode {
        AddressingMode::AbsoluteX | AddressingMode::AbsoluteY | AddressingMode::IndirectY => {
            if crossed {
                1
            } else {
                0
            }
        },
        _ => 0,
    }
}

impl<B: Bus> CPU<B> {
    /// ADC: add memory and carry to the accumulator.
    pub fn adc(&mut self, mode: &AddressingMode) -> (r: u8)
        requires
            old(self).wf(),
            !(*mode is NoneAddressing),
            operand_readable(&old(self).bus, old(self)@, *mode),
            old(self).bus.readable(resolve(old(self)@, *mode).address),
        ensures
            final(self).bus == old(self).bus,
            final(self)@ == spec_adc(old(self)@, *mode).0,
            r == spec_adc(old(self)@, *mode).1,
    {
        proof {
            reveal(spec_adc);
        }
        let ar = self.get_operand_address(mode);
        let value = self.mem_read(ar.address);
        let carry_in = self.get_carry_flag();
        let sum16: u16 = self.register_a as u16 + value as u16 + carry_in as u16;
        let result = (sum16 % 256) as u8;
        self.set_carry_flag(if sum16 > 255 { 1 } else { 0 });
        self.set_overflow_flag(
            if (result >> 7 != self.register_a >> 7) && (self.register_a >> 7 == value >> 7) {
                1
            } else {
                0
            },
        );
        self.register_a = result;
        self.calc_zn_flags(result);
        extra_for(mode, ar.page_crossed)
    }

    /// SBC: subtract memory and borrow from the accumulator.
    pub fn sbc(&mut self, mode: &AddressingMode) -> (r: u8)
        requires
            old(self).wf(),
            !(*mode is NoneAddressing),
            operand_readable(&old(self).bus, old(self)@, *mode),
            old(self).bus.readable(resolve(old(self)@, *mode).address),
        ensures
            final(self).bus == old(self).bus,
            final(self)@ == spec_sbc(old(self)@, *mode).0,
            r == spec_sbc(old(self)@, *mode).1,
    {
        proof {
            reveal(spec_sbc);
        }
        let ar = self.get_operand_address(mode);
        let value = self.mem_read(ar.address);
        let borrow = 1 - self.get_carry_flag();
        let t: u16 = 256 + self.register_a as u16 - value as u16 - borrow as u16;
        let result = (t % 256) as u8;
        self.set_carry_flag(
            if self.register_a as u16 >= value as u16 + borrow as u16 {
                1
            } else {
                0
            },
        );
        self.set_overflow_flag(
            if (result >> 7 != self.register_a >> 7) && (self.register_a >> 7 != value >> 7) {
                1
            } else {
                0
            },
        );
        self.register_a = result;
        self.calc_zn_flags(result);
        extra_for(mode, ar.page_crossed)
    }

    /// AND: bitwise conjunction into the accumulator.
    pub fn and(&mut self, mode: &AddressingMode) -> (r: u8)
        requires
            old(self).wf(),
            !(*mode is NoneAddressing),
            operand_readable(&old(self).bus, old(self)@, *mode),
            old(self).bus.readable(resolve(old(self)@, *mode).address),
        ensures
            final(self).bus == old(self).bus,
            final(self)@ == spec_and(old(self)@, *mode).0,
            r == spec_and(old(self)@, *mode).1,
    {
        proof {
            reveal(spec_and);
        }
        let ar = self.get_operand_address(mode);
        let value = self.mem_read(ar.address);
        let result = self.register_a & value;
        self.register_a = result;
        self.calc_zn_flags(result);
        extra_for(mode, ar.page_crossed)
    }

    /// ORA: bitwise disjunction into the accumulator.
    pub fn ora(&mut self, mode: &AddressingMode) -> (r: u8)
        requires
            old(self).wf(),
            !(*mode is NoneAddressing),
            operand_readable(&old(self).bus, old(self)@, *mode),
            old(self).bus.readable(resolve(old(self)@, *mode).address),
        ensures
            final(self).bus == old(self).bus,
            final(self)@ == spec_ora(old(self)@, *mode).0,
            r == spec_ora(old(self)@, *mode).1,
    {
        proof {
            reveal(spec_ora);
        }
        let ar = self.get_operand_address(mode);
        let value = self.mem_read(ar.address);
        let result = self.register_a | value;
        self.register_a = result;
        self.calc_zn_flags(result);
        extra_for(mode, ar.page_crossed)
    }

    /// EOR: bitwise exclusive or into the accumulator.
    pub fn eor(&mut self, mode: &AddressingMode) -> (r: u8)
        requires
            old(self).wf(),
            !(*mode is NoneAddressing),
            operand_readable(&old(self).bus, old(self)@, *mode),
            old(self).bus.readable(resolve(old(self)@, *mode).address),
        ensures
            final(self).bus == old(self).bus,
            final(self)@ == spec_eor(old(self)@, *mode).0,
            r == spec_eor(old(self)@, *mode).1,
    {
        proof {
            reveal(spec_eor);
        }
        let ar = self.get_operand_address(mode);
        let value = self.mem_read(ar.address);
        let result = self.register_a ^ value;
        self.register_a = result;
        self.calc_zn_flags(result);
        extra_for(mode, ar.page_crossed)
    }

    /// LDA: load the accumulator.
    pub fn lda(&mut self, mode: &AddressingMode) -> (r: u8)
        requires
            old(self).wf(),
            !(*mode is NoneAddressing),
            operand_readable(&old(self).bus, old(self)@, *mode),
            old(self).bus.readable(resolve(old(self)@, *mode).address),
        ensures
            final(self).bus == old(self).bus,
            final(self)@ == spec_lda(old(self)@, *mode).0,
            r == spec_lda(old(self)@, *mode).1,
    {
        proof {
            reveal(spec_lda);
        }
        let ar = self.get_operand_address(mode);
        let value = self.mem_read(ar.address);
        self.register_a = value;
        self.calc_zn_flags(value);
        extra_for(mode, ar.page_crossed)
    }

    /// LDX: load the X register.
    pub fn ldx(&mut self, mode: &AddressingMode) -> (r: u8)
        requires
            old(self).wf(),
            !(*mode is NoneAddressing),
            operand_readable(&old(self).bus, old(self)@, *mode),
            old(self).bus.readable(resolve(old(self)@, *mode).address),
        ensures
            final(self).bus == old(self).bus,
            final(self)@ == spec_ldx(old(self)@, *mode).0,
            r == spec_ldx(old(self)@, *mode).1,
    {
        proof {
            reveal(spec_ldx);
        }
        let ar = self.get_operand_address(mode);
        let value = self.mem_read(ar.address);
        self.register_x = value;
        self.calc_zn_flags(value);
        extra_for(mode, ar.page_crossed)
    }

    /// LDY: load the Y register.
    pub fn ldy(&mut self, mode: &AddressingMode) -> (r: u8)
        requires
            old(self).wf(),
            !(*mode is NoneAddressing),
            operand_readable(&old(self).bus, old(self)@, *mode),
            old(self).bus.readable(resolve(old(self)@, *mode).address),
        ensures
            final(self).bus == old(self).bus,
            final(self)@ == spec_ldy(old(self)@, *mode).0,
            r == spec_ldy(old(self)@, *mode).1,
    {
        proof {
            reveal(spec_ldy);
        }
        let ar = self.get_operand_address(mode);
        let value = self.mem_read(ar.address);
        self.register_y = value;
        self.calc_zn_flags(value);
        extra_for(mode, ar.page_crossed)
    }

    /// The shared body of CMP, CPX and CPY.
    fn compare_with(&mut self, mode: &AddressingMode, reg: u8) -> (r: u8)
        requires
            old(self).wf(),
            !(*mode is NoneAddressing),
            operand_readable(&old(self).bus, old(self)@, *mode),
            old(self).bus.readable(resolve(old(self)@, *mode).address),
        ensures
            final(self).bus == old(self).bus,
            final(self)@ == spec_compare(old(self)@, *mode, reg).0,
            r == spec_compare(old(self)@, *mode, reg).1,
    {
        proof {
            reveal(spec_compare);
        }
        let ar = self.get_operand_address(mode);
        let value = self.mem_read(ar.address);
        self.set_carry_flag(if reg >= value { 1 } else { 0 });
        self.set_zero_flag(if reg == value { 1 } else { 0 });
        let diff = ((256 + reg as u16 - value as u16) % 256) as u8;
        self.set_negative_flag(diff >> 7);
        extra_for(mode, ar.page_crossed)
    }

    /// CMP: compare the accumulator with memory.
    pub fn cmp(&mut self, mode: &AddressingMode) -> (r: u8)
        requires
            old(self).wf(),
            !(*mode is NoneAddressing),
            operand_readable(&old(self).bus, old(self)@, *mode),
            old(self).bus.readable(resolve(old(self)@, *mode).address),
        ensures
            final(self).bus == old(self).bus,
            final(self)@ == spec_compare(old(self)@, *mode, old(self)@.a).0,
            r == spec_compare(old(self)@, *mode, old(self)@.a).1,
    {
        let reg = self.register_a;
        self.compare_with(mode, reg)
    }

    /// CPX: compare the X register with memory.
    pub fn cpx(&mut self, mode: &AddressingMode) -> (r: u8)
        requires
            old(self).wf(),
            !(*mode is NoneAddressing),
            operand_readable(&old(self).bus, old(self)@, *mode),
            old(self).bus.readable(resolve(old(self)@, *mode).address),
        ensures
            final(self).bus == old(self).bus,
            final(self)@ == spec_compare(old(self)@, *mode, old(self)@.x).0,
            r == spec_compare(old(self)@, *mode, old(self)@.x).1,
    {
        let reg = self.register_x;
        self.compare_with(mode, reg)
    }

    /// CPY: compare the Y register with memory.
    pub fn cpy(&mut self, mode: &AddressingMode) -> (r: u8)
        requires
            old(self).wf(),
            !(*mode is NoneAddressing),
            operand_readable(&old(self).bus, old(self)@, *mode),
            old(self).bus.readable(resolve(old(self)@, *mode).address),
        ensures
            final(self).bus == old(self).bus,
            final(self)@ == spec_compare(old(self)@, *mode, old(self)@.y).0,
            r == spec_compare(old(self)@, *mode, old(self)@.y).1,
    {
        let reg = self.register_y;
        self.compare_with(mode, reg)
    }

    /// BIT: test memory bits against the accumulator.
    pub fn bit(&mut self, mode: &AddressingMode) -> (r: u8)
        requires
            old(self).wf(),
            !(*mode is NoneAddressing),
            operand_readable(&old(self).bus, old(self)@, *mode),
            old(self).bus.readable(resolve(old(self)@, *mode).address),
        ensures
            final(self).bus == old(self).bus,
            final(self)@ == spec_bit(old(self)@, *mode),
            r == 0,
    {
        proof {
            reveal(spec_bit);
        }
        let ar = self.get_operand_address(mode);
        let value = self.mem_read(ar.address);
        self.calc_zero_flag(value & self.register_a);
        self.set_overflow_flag((value & 0x40) >> 6);
        self.set_negative_flag((value & 0x80) >> 7);
        0
    }

    /// ASL: arithmetic shift left, on the accumulator or in memory.
    pub fn asl(&mut self, mode: &AddressingMode) -> (r: u8)
        requires
            old(self).wf(),
            !(*mode is NoneAddressing) ==> operand_readable(&old(self).bus, old(self)@, *mode)
                && old(self).bus.readable(resolve(old(self)@, *mode).address)
                && old(self).bus.writable(resolve(old(self)@, *mode).address),
        ensures
            cpu_frame(*old(self), *final(self)),
            machine_matches(
                final(self)@,
                spec_asl(old(self)@, *mode),
                old(self).bus.exact_writes(),
            ),
            r == 0,
            !(*mode is NoneAddressing) ==> final(self)@.mem == old(self).bus.write_view(resolve(old(self)@, *mode).address, shl_result(crate::machine::mem_at(old(self)@.mem, resolve(old(self)@, *mode).address), 0)),
    {
        proof {
            reveal(spec_asl);
        }
        match mode {
            AddressingMode::NoneAddressing => {
                let old_a = self.register_a;
                self.set_carry_flag(old_a >> 7);
                let nv = ((old_a as u16 * 2) % 256) as u8;
                self.register_a = nv;
                self.calc_zn_flags(nv);
            },
            m => {
                let ar = self.get_operand_address(m);
                let value = self.mem_read(ar.address);
                self.set_carry_flag(value >> 7);
                let nv = ((value as u16 * 2) % 256) as u8;
                self.mem_write(ar.address, nv);
                self.calc_zn_flags(nv);
            },
        }
        0
    }

    /// LSR: logical shift right, on the accumulator or in memory.
    pub fn lsr(&mut self, mode: &AddressingMode) -> (r: u8)
        requires
            old(self).wf(),
            !(*mode is NoneAddressing) ==> operand_readable(&old(self).bus, old(self)@, *mode)
                && old(self).bus.readable(resolve(old(self)@, *mode).address)
                && old(self).bus.writable(resolve(old(self)@, *mode).address),
        ensures
            cpu_frame(*old(self), *final(self)),
            machine_matches(
                final(self)@,
                spec_lsr(old(self)@, *mode),
                old(self).bus.exact_writes(),
            ),
            r == 0,
            !(*mode is NoneAddressing) ==> final(self)@.mem == old(self).bus.write_view(resolve(old(self)@, *mode).address, shr_result(crate::machine::mem_at(old(self)@.mem, resolve(old(self)@, *mode).address), 0)),
    {
        proof {
            reveal(spec_lsr);
        }
        match mode {
            AddressingMode::NoneAddressing => {
                let old_a = self.register_a;
                self.set_carry_flag(old_a % 2);
                let nv = old_a / 2;
                self.register_a = nv;
                self.calc_zn_flags(nv);
            },
            m => {
                let ar = self.get_operand_address(m);
                let value = self.mem_read(ar.address);
                self.set_carry_flag(value % 2);
                let nv = value / 2;
                self.mem_write(ar.address, nv);
                self.calc_zn_flags(nv);
            },
        }
        0
    }

    /// ROL: rotate left through the carry flag.
    pub fn rol(&mut self, mode: &AddressingMode) -> (r: u8)
        requires
            old(self).wf(),
            !(*mode is NoneAddressing) ==> operand_readable(&old(self).bus, old(self)@, *mode)
                && old(self).bus.readable(resolve(old(self)@, *mode).address)
                && old(self).bus.writable(resolve(old(self)@, *mode).address),
        ensures
            cpu_frame(*old(self), *final(self)),
            machine_matches(
                final(self)@,
                spec_rol(old(self)@, *mode),
                old(self).bus.exact_writes(),
            ),
            r == 0,
            !(*mode is NoneAddressing) ==> final(self)@.mem == old(self).bus.write_view(resolve(old(self)@, *mode).address, shl_result(crate::machine::mem_at(old(self)@.mem, resolve(old(self)@, *mode).address), flag_bit(old(self)@.p, FLAG_CARRY))),
    {
        proof {
            reveal(spec_rol);
        }
        let carry_in = self.get_carry_flag();
        match mode {
            AddressingMode::NoneAddressing => {
                let old_a = self.register_a;
                self.set_carry_flag(old_a >> 7);
                let nv = ((old_a as u16 * 2 + carry_in as u16) % 256) as u8;
                self.register_a = nv;
                self.calc_zn_flags(nv);
            },
            m => {
                let ar = self.get_operand_address(m);
                let value = self.mem_read(ar.address);
                self.set_carry_flag(value >> 7);
                let nv = ((value as u16 * 2 + carry_in as u16) % 256) as u8;
                self.mem_write(ar.address, nv);
                self.calc_zn_flags(nv);
            },
        }
        0
    }

    /// ROR: rotate right through the carry flag.
    pub fn ror(&mut self, mode: &AddressingMode) -> (r: u8)
        requires
            old(self).wf(),
            !(*mode is NoneAddressing) ==> operand_readable(&old(self).bus, old(self)@, *mode)
                && old(self).bus.readable(resolve(old(self)@, *mode).address)
                && old(self).bus.writable(resolve(old(self)@, *mode).address),
        ensures
            cpu_frame(*old(self), *final(self)),
            machine_matches(
                final(self)@,
                spec_ror(old(self)@, *mode),
                old(self).bus.exact_writes(),
            ),
            r == 0,
            !(*mode is NoneAddressing) ==> final(self)@.mem == old(self).bus.write_view(resolve(old(self)@, *mode).address, shr_result(crate::machine::mem_at(old(self)@.mem, resolve(old(self)@, *mode).address), flag_bit(old(self)@.p, FLAG_CARRY))),
    {
        proof {
            reveal(spec_ror);
        }
        let carry_in = self.get_carry_flag();
        match mode {
            AddressingMode::NoneAddressing => {
                let old_a = self.register_a;
                self.set_carry_flag(old_a % 2);
                let nv = old_a / 2 + carry_in * 128;
                self.register_a = nv;
                self.calc_zn_flags(nv);
            },
            m => {
                let ar = self.get_operand_address(m);
                let value = self.mem_read(ar.address);
                self.set_carry_flag(value % 2);
                let nv = value / 2 + carry_in * 128;
                self.mem_write(ar.address, nv);
                self.calc_zn_flags(nv);
            },
        }
        0
    }

    /// INC: increment a memory byte.
    pub fn inc(&mut self, mode: &AddressingMode) -> (r: u8)
        requires
            old(self).wf(),
            !(*mode is NoneAddressing),
            operand_readable(&old(self).bus, old(self)@, *mode),
            old(self).bus.readable(resolve(old(self)@, *mode).address),
            old(self).bus.writable(resolve(old(self)@, *mode).address),
        ensures
            cpu_frame(*old(self), *final(self)),
            machine_matches(
                final(self)@,
                spec_inc(old(self)@, *mode),
                old(self).bus.exact_writes(),
            ),
            r == 0,
            final(self)@.mem == old(self).bus.write_view(resolve(old(self)@, *mode).address, crate::machine::mem_at(old(self)@.mem, resolve(old(self)@, *mode).address).wrapping_add(1)),
    {
        proof {
            reveal(spec_inc);
        }
        let ar = self.get_operand_address(mode);
        let value = self.mem_read(ar.address).wrapping_add(1);
        self.mem_write(ar.address, value);
        self.calc_zn_flags(value);
        0
    }

    /// DEC: decrement a memory byte.
    pub fn dec(&mut self, mode: &AddressingMode) -> (r: u8)
        requires
            old(self).wf(),
            !(*mode is NoneAddressing),
            operand_readable(&old(self).bus, old(self)@, *mode),
            old(self).bus.readable(resolve(old(self)@, *mode).address),
            old(self).bus.writable(resolve(old(self)@, *mode).address),
        ensures
            cpu_frame(*old(self), *final(self)),
            machine_matches(
                final(self)@,
                spec_dec(old(self)@, *mode),
                old(self).bus.exact_writes(),
            ),
            r == 0,
            final(self)@.mem == old(self).bus.write_view(resolve(old(self)@, *mode).address, crate::machine::mem_at(old(self)@.mem, resolve(old(self)@, *mode).address).wrapping_sub(1)),
    {
        proof {
            reveal(spec_dec);
        }
        let ar = self.get_operand_address(mode);
        let value = self.mem_read(ar.address).wrapping_sub(1);
        self.mem_write(ar.address, value);
        self.calc_zn_flags(value);
        0
    }

    /// INX: increment the X register.
    pub fn inx(&mut self) -> (r: u8)
        ensures
            final(self).bus == old(self).bus,
            final(self)@ == spec_inx(old(self)@),
            r == 0,
    {
        proof {
            reveal(spec_inx);
        }
        let nv = self.register_x.wrapping_add(1);
        self.register_x = nv;
        self.calc_zn_flags(nv);
        0
    }

    /// INY: increment the Y register.
    pub fn iny(&mut self) -> (r: u8)
        ensures
            final(self).bus == old(self).bus,
            final(self)@ == spec_iny(old(self)@),
            r == 0,
    {
        proof {
            reveal(spec_iny);
        }
        let nv = self.register_y.wrapping_add(1);
        self.register_y = nv;
        self.calc_zn_flags(nv);
        0
    }

    /// DEX: decrement the X register.
    pub fn dex(&mut self) -> (r: u8)
        ensures
            final(self).bus == old(self).bus,
            final(self)@ == spec_dex(old(self)@),
            r == 0,
    {
        proof {
            reveal(spec_dex);
        }
        let nv = self.register_x.wrapping_sub(1);
        self.register_x = nv;
        self.calc_zn_flags(nv);
        0
    }

    /// DEY: decrement the Y register.
    pub fn dey(&mut self) -> (r: u8)
        ensures
            final(self).bus == old(self).bus,
            final(self)@ == spec_dey(old(self)@),
            r == 0,
    {
        proof {
            reveal(spec_dey);
        }
        let nv = self.register_y.wrapping_sub(1);
        self.register_y = nv;
        self.calc_zn_flags(nv);
        0
    }

    /// The shared body of the eight conditional branches.
    fn branch_on(&mut self, mode: &AddressingMode, taken: bool) -> (r: u8)
        requires
            old(self).wf(),
            !(*mode is NoneAddressing),
            operand_readable(&old(self).bus, old(self)@, *mode),
        ensures
            final(self).bus == old(self).bus,
            final(self)@ == spec_branch(old(self)@, *mode, taken),
            r == 0,
    {
        proof {
            reveal(spec_branch);
        }
        let ar = self.get_operand_address(mode);
        if taken {
            self.program_counter = ar.address;
        }
        0
    }

    /// BCC: branch when the carry flag is clear.
    pub fn bcc(&mut self, mode: &AddressingMode) -> (r: u8)
        requires
            old(self).wf(),
            !(*mode is NoneAddressing),
            operand_readable(&old(self).bus, old(self)@, *mode),
        ensures
            final(self).bus == old(self).bus,
            final(self)@ == spec_branch(
                old(self)@,
                *mode,
                flag_bit(old(self)@.p, FLAG_CARRY) == 0,
            ),
            r == 0,
    {
        let taken = self.get_carry_flag() == 0;
        self.branch_on(mode, taken)
    }

    /// BCS: branch when the carry flag is set.
    pub fn bcs(&mut self, mode: &AddressingMode) -> (r: u8)
        requires
            old(self).wf(),
            !(*mode is NoneAddressing),
            operand_readable(&old(self).bus, old(self)@, *mode),
        ensures
            final(self).bus == old(self).bus,
            final(self)@ == spec_branch(
                old(self)@,
                *mode,
                flag_bit(old(self)@.p, FLAG_CARRY) == 1,
            ),
            r == 0,
    {
        let taken = self.get_carry_flag() == 1;
        self.branch_on(mode, taken)
    }

    /// BEQ: branch when the zero flag is set.
    pub fn beq(&mut self, mode: &AddressingMode) -> (r: u8)
        requires
            old(self).wf(),
            !(*mode is NoneAddressing),
            operand_readable(&old(self).bus, old(self)@, *mode),
        ensures
            final(self).bus == old(self).bus,
            final(self)@ == spec_branch(
                old(self)@,
                *mode,
                flag_bit(old(self)@.p, FLAG_ZERO) == 1,
            ),
            r == 0,
    {
        let taken = self.get_zero_flag() == 1;
        self.branch_on(mode, taken)
    }

    /// BNE: branch when the zero flag is clear.
    pub fn bne(&mut self, mode: &AddressingMode) -> (r: u8)
        requires
            old(self).wf(),
            !(*mode is NoneAddressing),
            operand_readable(&old(self).bus, old(self)@, *mode),
        ensures
            final(self).bus == old(self).bus,
            final(self)@ == spec_branch(
                old(self)@,
                *mode,
                flag_bit(old(self)@.p, FLAG_ZERO) == 0,
            ),
            r == 0,
    {
        let taken = self.get_zero_flag() == 0;
        self.branch_on(mode, taken)
    }

    /// BMI: branch when the negative flag is set.
    pub fn bmi(&mut self, mode: &AddressingMode) -> (r: u8)
        requires
            old(self).wf(),
            !(*mode is NoneAddressing),
            operand_readable(&old(self).bus, old(self)@, *mode),
        ensures
            final(self).bus == old(self).bus,
            final(self)@ == spec_branch(
                old(self)@,
                *mode,
                flag_bit(old(self)@.p, FLAG_NEGATIVE) == 1,
            ),
            r == 0,
    {
        let taken = self.get_negative_flag() == 1;
        self.branch_on(mode, taken)
    }

    /// BPL: branch when the negative flag is clear.
    pub fn bpl(&mut self, mode: &AddressingMode) -> (r: u8)
        requires
            old(self).wf(),
            !(*mode is NoneAddressing),
            operand_readable(&old(self).bus, old(self)@, *mode),
        ensures
            final(self).bus == old(self).bus,
            final(self)@ == spec_branch(
                old(self)@,
                *mode,
                flag_bit(old(self)@.p, FLAG_NEGATIVE) == 0,
            ),
            r == 0,
    {
        let taken = self.get_negative_flag() == 0;
        self.branch_on(mode, taken)
    }

    /// BVC: branch when the overflow flag is clear.
    pub fn bvc(&mut self, mode: &AddressingMode) -> (r: u8)
        requires
            old(self).wf(),
            !(*mode is NoneAddressing),
            operand_readable(&old(self).bus, old(self)@, *mode),
        ensures
            final(self).bus == old(self).bus,
            final(self)@ == spec_branch(
                old(self)@,
                *mode,
                flag_bit(old(self)@.p, FLAG_OVERFLOW) == 0,
            ),
            r == 0,
    {
        let taken = self.get_overflow_flag() == 0;
        self.branch_on(mode, taken)
    }

    /// BVS: branch when the overflow flag is set.
    pub fn bvs(&mut self, mode: &AddressingMode) -> (r: u8)
        requires
            old(self).wf(),
            !(*mode is NoneAddressing),
            operand_readable(&old(self).bus, old(self)@, *mode),
        ensures
            final(self).bus == old(self).bus,
            final(self)@ == spec_branch(
                old(self)@,
                *mode,
                flag_bit(old(self)@.p, FLAG_OVERFLOW) == 1,
            ),
            r == 0,
    {
        let taken = self.get_overflow_flag() == 1;
        self.branch_on(mode, taken)
    }

    /// JMP: jump to the resolved target.
    pub fn jmp(&mut self, mode: &AddressingMode) -> (r: u8)
        requires
            old(self).wf(),
            !(*mode is NoneAddressing),
            operand_readable(&old(self).bus, old(self)@, *mode),
        ensures
            final(self).bus == old(self).bus,
            final(self)@ == spec_jmp(old(self)@, *mode),
            r == 0,
    {
        proof {
            reveal(spec_jmp);
        }
        let ar = self.get_operand_address(mode);
        self.program_counter = ar.address;
        0
    }

    /// JSR: push the return address minus one and jump.
    pub fn jsr(&mut self, mode: &AddressingMode) -> (r: u8)
        requires
            old(self).wf(),
            !(*mode is NoneAddressing),
            operand_readable(&old(self).bus, old(self)@, *mode),
            old(self).bus.writable(stack_addr(old(self)@.sp)),
            old(self).bus.writable(stack_addr(old(self)@.sp.wrapping_sub(1))),
        ensures
            cpu_frame(*old(self), *final(self)),
            machine_matches(
                final(self)@,
                spec_jsr(old(self)@, *mode),
                old(self).bus.exact_writes(),
            ),
            r == 0,
    {
        proof {
            reveal(spec_jsr);
        }
        let ar = self.get_operand_address(mode);
        let ret = self.program_counter.wrapping_sub(1);
        self.stack_push_u16(ret);
        self.program_counter = ar.address;
        0
    }

    /// RTS: pop a word and continue one byte past it.
    pub fn rts(&mut self) -> (r: u8)
        requires
            old(self).wf(),
            old(self).bus.readable(stack_addr(old(self)@.sp.wrapping_add(1))),
            old(self).bus.readable(stack_addr(old(self)@.sp.wrapping_add(2))),
        ensures
            final(self).bus == old(self).bus,
            final(self)@ == spec_rts(old(self)@),
            r == 0,
    {
        proof {
            reveal(spec_rts);
        }
        let w = self.stack_pop_u16();
        self.program_counter = w.wrapping_add(1);
        0
    }

    /// STA: store the accumulator.
    pub fn sta(&mut self, mode: &AddressingMode) -> (r: u8)
        requires
            old(self).wf(),
            !(*mode is NoneAddressing),
            operand_readable(&old(self).bus, old(self)@, *mode),
            old(self).bus.writable(resolve(old(self)@, *mode).address),
        ensures
            cpu_frame(*old(self), *final(self)),
            machine_matches(
                final(self)@,
                spec_store(old(self)@, *mode, old(self)@.a),
                old(self).bus.exact_writes(),
            ),
            r == 0,
            final(self)@.mem == old(self).bus.write_view(resolve(old(self)@, *mode).address, old(self)@.a),
    {
        proof {
            reveal(spec_store);
        }
        let ar = self.get_operand_address(mode);
        self.mem_write(ar.address, self.register_a);
        0
    }

    /// STX: store the X register.
    pub fn stx(&mut self, mode: &AddressingMode) -> (r: u8)
        requires
            old(self).wf(),
            !(*mode is NoneAddressing),
            operand_readable(&old(self).bus, old(self)@, *mode),
            old(self).bus.writable(resolve(old(self)@, *mode).address),
        ensures
            cpu_frame(*old(self), *final(self)),
            machine_matches(
                final(self)@,
                spec_store(old(self)@, *mode, old(self)@.x),
                old(self).bus.exact_writes(),
            ),
            r == 0,
            final(self)@.mem == old(self).bus.write_view(resolve(old(self)@, *mode).address, old(self)@.x),
    {
        proof {
            reveal(spec_store);
        }
        let ar = self.get_operand_address(mode);
        self.mem_write(ar.address, self.register_x);
        0
    }

    /// STY: store the Y register.
    pub fn sty(&mut self, mode: &AddressingMode) -> (r: u8)
        requires
            old(self).wf(),
            !(*mode is NoneAddressing),
            operand_readable(&old(self).bus, old(self)@, *mode),
            old(self).bus.writable(resolve(old(self)@, *mode).address),
        ensures
            cpu_frame(*old(self), *final(self)),
            machine_matches(
                final(self)@,
                spec_store(old(self)@, *mode, old(self)@.y),
                old(self).bus.exact_writes(),
            ),
            r == 0,
            final(self)@.mem == old(self).bus.write_view(resolve(old(self)@, *mode).address, old(self)@.y),
    {
        proof {
            reveal(spec_store);
        }
        let ar = self.get_operand_address(mode);
        self.mem_write(ar.address, self.register_y);
        0
    }

    /// PHA: push the accumulator.
    pub fn pha(&mut self) -> (r: u8)
        requires
            old(self).wf(),
            old(self).bus.writable(stack_addr(old(self)@.sp)),
        ensures
            cpu_frame(*old(self), *final(self)),
            machine_matches(final(self)@, spec_pha(old(self)@), old(self).bus.exact_writes()),
            r == 0,
            final(self)@.mem == old(self).bus.write_view(stack_addr(old(self)@.sp), old(self)@.a),
    {
        proof {
            reveal(spec_pha);
        }
        self.stack_push(self.register_a);
        0
    }

    /// PHP: push the status byte with the break flag forced on.
    pub fn php(&mut self) -> (r: u8)
        requires
            old(self).wf(),
            old(self).bus.writable(stack_addr(old(self)@.sp)),
        ensures
            cpu_frame(*old(self), *final(self)),
            machine_matches(final(self)@, spec_php(old(self)@), old(self).bus.exact_writes()),
            r == 0,
            final(self)@.mem == old(self).bus.write_view(stack_addr(old(self)@.sp), old(self)@.p | FLAG_BREAK),
    {
        proof {
            reveal(spec_php);
        }
        self.stack_push(self.status | FLAG_BREAK);
        0
    }

    /// PLA: pop into the accumulator.
    pub fn pla(&mut self) -> (r: u8)
        requires
            old(self).wf(),
            old(self).bus.readable(stack_addr(old(self)@.sp.wrapping_add(1))),
        ensures
            final(self).bus == old(self).bus,
            final(self)@ == spec_pla(old(self)@),
            r == 0,
    {
        proof {
            reveal(spec_pla);
        }
        let v = self.stack_pop();
        self.register_a = v;
        self.calc_zn_flags(v);
        0
    }

    /// PLP: pop into the status register, keeping the internal break
    /// and unused bits.
    pub fn plp(&mut self) -> (r: u8)
        requires
            old(self).wf(),
            old(self).bus.readable(stack_addr(old(self)@.sp.wrapping_add(1))),
        ensures
            final(self).bus == old(self).bus,
            final(self)@ == spec_plp(old(self)@),
            r == 0,
    {
        proof {
            reveal(spec_plp);
        }
        let v = self.stack_pop();
        self.status = (self.status & 0x30) | (v & 0xCF);
        0
    }

    /// TAX: copy the accumulator into X.
    pub fn tax(&mut self) -> (r: u8)
        ensures
            final(self).bus == old(self).bus,
            final(self)@ == (Machine {
                x: old(self)@.a,
                p: transfer_flags(old(self)@, old(self)@.a),
                ..old(self)@
            }),
            r == 0,
    {
        let v = self.register_a;
        self.register_x = v;
        self.calc_zn_flags(v);
        0
    }

    /// TAY: copy the accumulator into Y.
    pub fn tay(&mut self) -> (r: u8)
        ensures
            final(self).bus == old(self).bus,
            final(self)@ == (Machine {
                y: old(self)@.a,
                p: transfer_flags(old(self)@, old(self)@.a),
                ..old(self)@
            }),
            r == 0,
    {
        let v = self.register_a;
        self.register_y = v;
        self.calc_zn_flags(v);
        0
    }

    /// TSX: copy the stack pointer into X.
    pub fn tsx(&mut self) -> (r: u8)
        ensures
            final(self).bus == old(self).bus,
            final(self)@ == (Machine {
                x: old(self)@.sp,
                p: transfer_flags(old(self)@, old(self)@.sp),
                ..old(self)@
            }),
            r == 0,
    {
        let v = self.stack_pointer;
        self.register_x = v;
        self.calc_zn_flags(v);
        0
    }

    /// TXA: copy X into the accumulator.
    pub fn txa(&mut self) -> (r: u8)
        ensures
            final(self).bus == old(self).bus,
            final(self)@ == (Machine {
                a: old(self)@.x,
                p: transfer_flags(old(self)@, old(self)@.x),
                ..old(self)@
            }),
            r == 0,
    {
        let v = self.register_x;
        self.register_a = v;
        self.calc_zn_flags(v);
        0
    }

    /// TXS: copy X into the stack pointer; flags untouched.
    pub fn txs(&mut self) -> (r: u8)
        ensures
            final(self).bus == old(self).bus,
            final(self)@ == (Machine { sp: old(self)@.x, ..old(self)@ }),
            r == 0,
    {
        self.stack_pointer = self.register_x;
        0
    }

    /// TYA: copy Y into the accumulator.
    pub fn tya(&mut self) -> (r: u8)
        ensures
            final(self).bus == old(self).bus,
            final(self)@ == (Machine {
                a: old(self)@.y,
                p: transfer_flags(old(self)@, old(self)@.y),
                ..old(self)@
            }),
            r == 0,
    {
        let v = self.register_y;
        self.register_a = v;
        self.calc_zn_flags(v);
        0
    }

    /// CLC: clear the carry flag.
    pub fn clc(&mut self) -> (r: u8)
        ensures
            final(self).bus == old(self).bus,
            final(self)@ == spec_set_flag(old(self)@, FLAG_CARRY, 0),
            r == 0,
    {
        proof {
            reveal(spec_set_flag);
        }
        self.set_carry_flag(0);
        0
    }

    /// SEC: set the carry flag.
    pub fn sec(&mut self) -> (r: u8)
        ensures
            final(self).bus == old(self).bus,
            final(self)@ == spec_set_flag(old(self)@, FLAG_CARRY, 1),
            r == 0,
    {
        proof {
            reveal(spec_set_flag);
        }
        self.set_carry_flag(1);
        0
    }

    /// CLD: clear the decimal flag.
    pub fn cld(&mut self) -> (r: u8)
        ensures
            final(self).bus == old(self).bus,
            final(self)@ == spec_set_flag(old(self)@, FLAG_DECIMAL, 0),
            r == 0,
    {
        proof {
            reveal(spec_set_flag);
        }
        self.set_decimal_flag(0);
        0
    }

    /// SED: set the decimal flag.
    pub fn sed(&mut self) -> (r: u8)
        ensures
            final(self).bus == old(self).bus,
            final(self)@ == spec_set_flag(old(self)@, FLAG_DECIMAL, 1),
            r == 0,
    {
        proof {
            reveal(spec_set_flag);
        }
        self.set_decimal_flag(1);
        0
    }

    /// CLI: clear the interrupt-disable flag.
    pub fn cli(&mut self) -> (r: u8)
        ensures
            final(self).bus == old(self).bus,
            final(self)@ == spec_set_flag(old(self)@, FLAG_INTERRUPT_DISABLE, 0),
            r == 0,
    {
        proof {
            reveal(spec_set_flag);
        }
        self.set_interrupt_disable_flag(0);
        0
    }

    /// SEI: set the interrupt-disable flag.
    pub fn sei(&mut self) -> (r: u8)
        ensures
            final(self).bus == old(self).bus,
            final(self)@ == spec_set_flag(old(self)@, FLAG_INTERRUPT_DISABLE, 1),
            r == 0,
    {
        proof {
            reveal(spec_set_flag);
        }
        self.set_interrupt_disable_flag(1);
        0
    }

    /// CLV: clear the overflow flag.
    pub fn clv(&mut self) -> (r: u8)
        ensures
            final(self).bus == old(self).bus,
            final(self)@ == spec_set_flag(old(self)@, FLAG_OVERFLOW, 0),
            r == 0,
    {
        proof {
            reveal(spec_set_flag);
        }
        self.set_overflow_flag(0);
        0
    }
}

} // verus!
