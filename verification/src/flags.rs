//! Accessors for the individual bits of the status register P.

use vstd::prelude::*;

use crate::bus::Bus;
use crate::cpu::CPU;
use crate::machine::FLAG_CARRY;
use crate::machine::FLAG_DECIMAL;
use crate::machine::FLAG_INTERRUPT_DISABLE;
use crate::machine::FLAG_NEGATIVE;
use crate::machine::FLAG_OVERFLOW;
use crate::machine::FLAG_ZERO;
use crate::machine::Machine;
use crate::machine::flag_bit;
use crate::machine::set_flag_val;
use crate::machine::with_zn;

verus! {

impl<B: Bus> CPU<B> {
    /// 1 when the flag selected by `flag_mask` is set, 0 otherwise.
    pub fn get_flag(&self, flag_mask: u8) -> (r: u8)
        ensures
            r == flag_bit(self@.p, flag_mask),
    {
        if (self.status & flag_mask) != 0 {
            1
        } else {
            0
        }
    }

    /// Sets the flag selected by `flag_mask` when `value == 1`,
    /// clears it otherwise.
    pub fn set_flag(&mut self, flag_mask: u8, value: u8)
        ensures
            final(self).bus == old(self).bus,
            final(self)@ == (Machine {
                p: set_flag_val(old(self)@.p, flag_mask, value),
                ..old(self)@
            }),
    {
        if value == 1 {
            self.status = self.status | flag_mask;
        } else {
            self.status = self.status & !flag_mask;
        }
    }

    /// Derives the zero flag from `result == 0`.
    pub fn calc_zero_flag(&mut self, result: u8)
        ensures
            final(self).bus == old(self).bus,
            final(self)@ == (Machine {
                p: set_flag_val(old(self)@.p, FLAG_ZERO, if result == 0 { 1u8 } else { 0u8 }),
                ..old(self)@
            }),
    {
        if result == 0 {
            self.set_flag(FLAG_ZERO, 1);
        } else {
            self.set_flag(FLAG_ZERO, 0);
        }
    }

    /// Derives the negative flag from bit 7 of `result`.
    pub fn calc_negative_flag(&mut self, result: u8)
        ensures
            final(self).bus == old(self).bus,
            final(self)@ == (Machine {
                p: set_flag_val(old(self)@.p, FLAG_NEGATIVE, result >> 7),
                ..old(self)@
            }),
    {
        self.set_flag(FLAG_NEGATIVE, result >> 7);
    }

    /// Derives both the zero and the negative flag from `result`.
    pub fn calc_zn_flags(&mut self, result: u8)
        ensures
            final(self).bus == old(self).bus,
            final(self)@ == (Machine { p: with_zn(old(self)@.p, result), ..old(self)@ }),
    {
        self.calc_zero_flag(result);
        self.calc_negative_flag(result);
    }

    /// The carry flag as 0 or 1.
    pub fn get_carry_flag(&self) -> (r: u8)
        ensures
            r == flag_bit(self@.p, FLAG_CARRY),
    {
        self.get_flag(FLAG_CARRY)
    }

    /// Sets or clears the carry flag.
    pub fn set_carry_flag(&mut self, value: u8)
        ensures
            final(self).bus == old(self).bus,
            final(self)@ == (Machine {
                p: set_flag_val(old(self)@.p, FLAG_CARRY, value),
                ..old(self)@
            }),
    {
        self.set_flag(FLAG_CARRY, value);
    }

    /// The zero flag as 0 or 1.
    pub fn get_zero_flag(&self) -> (r: u8)
        ensures
            r == flag_bit(self@.p, FLAG_ZERO),
    {
        self.get_flag(FLAG_ZERO)
    }

    /// Sets or clears the zero flag.
    pub fn set_zero_flag(&mut self, value: u8)
        ensures
            final(self).bus == old(self).bus,
            final(self)@ == (Machine {
                p: set_flag_val(old(self)@.p, FLAG_ZERO, value),
                ..old(self)@
            }),
    {
        self.set_flag(FLAG_ZERO, value);
    }

    /// The interrupt-disable flag as 0 or 1.
    pub fn get_interrupt_disable_flag(&self) -> (r: u8)
        ensures
            r == flag_bit(self@.p, FLAG_INTERRUPT_DISABLE),
    {
        self.get_flag(FLAG_INTERRUPT_DISABLE)
    }

    /// Sets or clears the interrupt-disable flag.
    pub fn set_interrupt_disable_flag(&mut self, value: u8)
        ensures
            final(self).bus == old(self).bus,
            final(self)@ == (Machine {
                p: set_flag_val(old(self)@.p, FLAG_INTERRUPT_DISABLE, value),
                ..old(self)@
            }),
    {
        self.set_flag(FLAG_INTERRUPT_DISABLE, value);
    }

    /// The decimal flag as 0 or 1.
    pub fn get_decimal_flag(&self) -> (r: u8)
        ensures
            r == flag_bit(self@.p, FLAG_DECIMAL),
    {
        self.get_flag(FLAG_DECIMAL)
    }

    /// Sets or clears the decimal flag.
    pub fn set_decimal_flag(&mut self, value: u8)
        ensures
            final(self).bus == old(self).bus,
            final(self)@ == (Machine {
                p: set_flag_val(old(self)@.p, FLAG_DECIMAL, value),
                ..old(self)@
            }),
    {
        self.set_flag(FLAG_DECIMAL, value);
    }

    /// The overflow flag as 0 or 1.
    pub fn get_overflow_flag(&self) -> (r: u8)
        ensures
            r == flag_bit(self@.p, FLAG_OVERFLOW),
    {
        self.get_flag(FLAG_OVERFLOW)
    }

    /// Sets or clears the overflow flag.
    pub fn set_overflow_flag(&mut self, value: u8)
        ensures
            final(self).bus == old(self).bus,
            final(self)@ == (Machine {
                p: set_flag_val(old(self)@.p, FLAG_OVERFLOW, value),
                ..old(self)@
            }),
    {
        self.set_flag(FLAG_OVERFLOW, value);
    }

    /// The negative flag as 0 or 1.
    pub fn get_negative_flag(&self) -> (r: u8)
        ensures
            r == flag_bit(self@.p, FLAG_NEGATIVE),
    {
        self.get_flag(FLAG_NEGATIVE)
    }

    /// Sets or clears the negative flag.
    pub fn set_negative_flag(&mut self, value: u8)
        ensures
            final(self).bus == old(self).bus,
            final(self)@ == (Machine {
                p: set_flag_val(old(self)@.p, FLAG_NEGATIVE, value),
                ..old(self)@
            }),
    {
        self.set_flag(FLAG_NEGATIVE, value);
    }
}

} // verus!
