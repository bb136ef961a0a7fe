//! Memory access, stack traffic and the addressing-mode resolver.

use vstd::prelude::*;

use crate::bus::Bus;
use crate::cpu::CPU;
use crate::machine::Machine;
use crate::machine::machine_matches;
use crate::machine::mem_at;
use crate::machine::read16;
use crate::machine::read16_zero_page;
use crate::machine::stack_addr;
use crate::machine::word_from;
use crate::opcodes::AddressingMode;

verus! {

/// What the addressing-mode resolver hands back to an executor.
pub struct AddressResult {
    /// The effective address of the operand.
    pub address: u16,
    /// Whether an indexed address crossed a page boundary.
    pub page_crossed: bool,
}

/// Specification-level result of resolving an operand: the effective
/// address, the page-cross indicator and the program counter after
/// the operand bytes have been consumed.
pub struct Resolved {
    pub address: u16,
    pub page_crossed: bool,
    pub pc: u16,
}

/// The addressing-mode resolver as a pure function of the machine
/// state `s`, whose `pc` points at the first operand byte.
pub open spec fn resolve(s: Machine, mode: AddressingMode) -> Resolved {
    let pc1 = s.pc.wrapping_add(1);
    let pc2 = s.pc.wrapping_add(2);
    let op0 = mem_at(s.mem, s.pc);
    match mode {
        AddressingMode::Immediate => Resolved { address: s.pc, page_crossed: false, pc: pc1 },
        AddressingMode::ZeroPage => Resolved {
            address: op0 as u16,
            page_crossed: false,
            pc: pc1,
        },
        AddressingMode::ZeroPageX => Resolved {
            address: op0.wrapping_add(s.x) as u16,
            page_crossed: false,
            pc: pc1,
        },
        AddressingMode::ZeroPageY => Resolved {
            address: op0.wrapping_add(s.y) as u16,
            page_crossed: false,
            pc: pc1,
        },
        AddressingMode::Absolute => Resolved {
            address: read16(s.mem, s.pc),
            page_crossed: false,
            pc: pc2,
        },
        AddressingMode::AbsoluteX => {
            let base = read16(s.mem, s.pc);
            Resolved {
                address: base.wrapping_add(s.x as u16),
                page_crossed: (base % 256) + s.x > 255,
                pc: pc2,
            }
        },
        AddressingMode::AbsoluteY => {
            let base = read16(s.mem, s.pc);
            Resolved {
                address: base.wrapping_add(s.y as u16),
                page_crossed: (base % 256) + s.y > 255,
                pc: pc2,
            }
        },
        AddressingMode::IndirectX => Resolved {
            address: read16_zero_page(s.mem, op0.wrapping_add(s.x) as u16),
            page_crossed: false,
            pc: pc1,
        },
        AddressingMode::IndirectY => {
            let base = read16_zero_page(s.mem, op0 as u16);
            Resolved {
                address: base.wrapping_add(s.y as u16),
                page_crossed: (base % 256) + s.y > 255,
                pc: pc1,
            }
        },
        AddressingMode::Relative => Resolved {
            address: if op0 < 0x80 {
                pc1.wrapping_add(op0 as u16)
            } else {
                pc1.wrapping_sub((256 - op0) as u16)
            },
            page_crossed: false,
            pc: pc1,
        },
        AddressingMode::Indirect => {
            let ptr = read16(s.mem, s.pc);
            Resolved {
                address: if s.jmp_compat && ptr % 256 == 255 {
                    word_from(mem_at(s.mem, ptr), mem_at(s.mem, ((ptr / 256) * 256) as u16))
                } else {
                    read16(s.mem, ptr)
                },
                page_crossed: false,
                pc: pc2,
            }
        },
        AddressingMode::NoneAddressing => Resolved { address: 0, page_crossed: false, pc: s.pc },
    }
}

/// The addresses the resolver itself reads while decoding an operand
/// of `mode` in state `s`: the operand bytes at the program counter
/// and, for the indirect modes, the pointer bytes.
pub open spec fn resolve_reads(s: Machine, mode: AddressingMode) -> Set<u16> {
    let pc1 = s.pc.wrapping_add(1);
    let op0 = mem_at(s.mem, s.pc);
    match mode {
        AddressingMode::Immediate => Set::empty(),
        AddressingMode::ZeroPage | AddressingMode::ZeroPageX | AddressingMode::ZeroPageY
            | AddressingMode::Relative => set![s.pc],
        AddressingMode::Absolute | AddressingMode::AbsoluteX | AddressingMode::AbsoluteY => set![
            s.pc,
            pc1,
        ],
        AddressingMode::IndirectX => {
            let zp = op0.wrapping_add(s.x) as u16;
            set![s.pc, (zp % 256) as u16, (zp.wrapping_add(1) % 256) as u16]
        },
        AddressingMode::IndirectY => {
            let zp = op0 as u16;
            set![s.pc, (zp % 256) as u16, (zp.wrapping_add(1) % 256) as u16]
        },
        AddressingMode::Indirect => {
            let ptr = read16(s.mem, s.pc);
            if s.jmp_compat && ptr % 256 == 255 {
                set![s.pc, pc1, ptr, ((ptr / 256) * 256) as u16]
            } else {
                set![s.pc, pc1, ptr, ptr.wrapping_add(1)]
            }
        },
        AddressingMode::NoneAddressing => Set::empty(),
    }
}

/// The bus accepts every read the resolver makes for `mode` in
/// state `s`.
pub open spec fn operand_readable<B: Bus>(b: &B, s: Machine, mode: AddressingMode) -> bool {
    forall|a: u16| resolve_reads(s, mode).contains(a) ==> b.readable(a)
}

impl<B: Bus> CPU<B> {
    /// Reads the byte visible at `addr`.
    pub fn mem_read(&self, addr: u16) -> (r: u8)
        requires
            self.wf(),
            self.bus.readable(addr),
        ensures
            r == mem_at(self@.mem, addr),
    {
        self.bus.mem_read(addr)
    }

    /// Stores `data` at `addr`.
    pub fn mem_write(&mut self, addr: u16, data: u8)
        requires
            old(self).wf(),
            old(self).bus.writable(addr),
        ensures
            crate::cpu::cpu_frame(*old(self), *final(self)),
            machine_matches(
                final(self)@,
                (Machine { mem: old(self)@.mem.update(addr as int, data), ..old(self)@ }),
                old(self).bus.exact_writes(),
            ),
            final(self)@.mem[addr as int] == data,
            final(self)@.mem == old(self).bus.write_view(addr, data),
    {
        proof {
            self.bus.mem_len();
        }
        self.bus.mem_write(addr, data);
    }

    /// Reads the little-endian word at `addr`; the high byte comes
    /// from `addr + 1` with 16-bit wrap-around.
    pub fn mem_read_u16(&self, addr: u16) -> (r: u16)
        requires
            self.wf(),
            self.bus.readable(addr),
            self.bus.readable(addr.wrapping_add(1)),
        ensures
            r == read16(self@.mem, addr),
    {
        let lo = self.mem_read(addr);
        let hi = self.mem_read(addr.wrapping_add(1));
        lo as u16 + (hi as u16) * 0x100
    }

    /// Reads a little-endian word within the zero page: both byte
    /// addresses are reduced modulo 256.
    pub fn mem_read_u16_zero_page(&self, addr: u16) -> (r: u16)
        requires
            self.wf(),
            self.bus.readable((addr % 256) as u16),
            self.bus.readable((addr.wrapping_add(1) % 256) as u16),
        ensures
            r == read16_zero_page(self@.mem, addr),
    {
        let lo = self.mem_read(addr % 256);
        let hi = self.mem_read(addr.wrapping_add(1) % 256);
        lo as u16 + (hi as u16) * 0x100
    }

    /// Stores the word `data` little-endian at `addr`; the high byte
    /// goes to `addr + 1` with 16-bit wrap-around.
    pub fn mem_write_u16(&mut self, addr: u16, data: u16)
        requires
            old(self).wf(),
            old(self).bus.writable(addr),
            old(self).bus.writable(addr.wrapping_add(1)),
        ensures
            crate::cpu::cpu_frame(*old(self), *final(self)),
            machine_matches(
                final(self)@,
                (Machine {
                    mem: old(self)@.mem.update(addr as int, (data % 256) as u8).update(
                        addr.wrapping_add(1) as int,
                        (data / 256) as u8,
                    ),
                    ..old(self)@
                }),
                old(self).bus.exact_writes(),
            ),
    {
        proof {
            self.bus.mem_len();
        }
        self.mem_write(addr, (data % 256) as u8);
        self.mem_write(addr.wrapping_add(1), (data / 256) as u8);
    }

    /// Pushes one byte: stores it at `0x0100 | SP` and decrements SP.
    pub fn stack_push(&mut self, value: u8)
        requires
            old(self).wf(),
            old(self).bus.writable(stack_addr(old(self)@.sp)),
        ensures
            crate::cpu::cpu_frame(*old(self), *final(self)),
            machine_matches(
                final(self)@,
                (Machine {
                    mem: old(self)@.mem.update(stack_addr(old(self)@.sp) as int, value),
                    sp: old(self)@.sp.wrapping_sub(1),
                    ..old(self)@
                }),
                old(self).bus.exact_writes(),
            ),
            final(self)@.mem == old(self).bus.write_view(stack_addr(old(self)@.sp), value),
    {
        proof {
            self.bus.mem_len();
        }
        self.mem_write(0x100 + self.stack_pointer as u16, value);
        self.stack_pointer = self.stack_pointer.wrapping_sub(1);
    }

    /// Pushes a word: high byte first, then the low byte one slot
    /// below, decrementing SP by two.
    pub fn stack_push_u16(&mut self, value: u16)
        requires
            old(self).wf(),
            old(self).bus.writable(stack_addr(old(self)@.sp)),
            old(self).bus.writable(stack_addr(old(self)@.sp.wrapping_sub(1))),
        ensures
            crate::cpu::cpu_frame(*old(self), *final(self)),
            machine_matches(
                final(self)@,
                (Machine {
                    mem: old(self)@.mem.update(
                        stack_addr(old(self)@.sp) as int,
                        (value / 256) as u8,
                    ).update(
                        stack_addr(old(self)@.sp.wrapping_sub(1)) as int,
                        (value % 256) as u8,
                    ),
                    sp: old(self)@.sp.wrapping_sub(2),
                    ..old(self)@
                }),
                old(self).bus.exact_writes(),
            ),
    {
        proof {
            self.bus.mem_len();
        }
        self.mem_write(0x100 + self.stack_pointer as u16, (value / 256) as u8);
        self.mem_write(0x100 + self.stack_pointer.wrapping_sub(1) as u16, (value % 256) as u8);
        self.stack_pointer = self.stack_pointer.wrapping_sub(2);
    }

    /// Pops one byte: increments SP and reads from `0x0100 | SP`.
    pub fn stack_pop(&mut self) -> (r: u8)
        requires
            old(self).wf(),
            old(self).bus.readable(stack_addr(old(self)@.sp.wrapping_add(1))),
        ensures
            final(self).bus == old(self).bus,
            r == mem_at(old(self)@.mem, stack_addr(old(self)@.sp.wrapping_add(1))),
            final(self)@ == (Machine { sp: old(self)@.sp.wrapping_add(1), ..old(self)@ }),
    {
        let value = self.mem_read(0x100 + self.stack_pointer.wrapping_add(1) as u16);
        self.stack_pointer = self.stack_pointer.wrapping_add(1);
        value
    }

    /// Pops a word: the low byte lies one slot above SP, the high
    /// byte two slots above; SP increases by two.
    pub fn stack_pop_u16(&mut self) -> (r: u16)
        requires
            old(self).wf(),
            old(self).bus.readable(stack_addr(old(self)@.sp.wrapping_add(1))),
            old(self).bus.readable(stack_addr(old(self)@.sp.wrapping_add(2))),
        ensures
            final(self).bus == old(self).bus,
            r == word_from(
                mem_at(old(self)@.mem, stack_addr(old(self)@.sp.wrapping_add(1))),
                mem_at(old(self)@.mem, stack_addr(old(self)@.sp.wrapping_add(2))),
            ),
            final(self)@ == (Machine { sp: old(self)@.sp.wrapping_add(2), ..old(self)@ }),
    {
        let lo = self.mem_read(0x100 + self.stack_pointer.wrapping_add(1) as u16);
        let hi = self.mem_read(0x100 + self.stack_pointer.wrapping_add(2) as u16);
        self.stack_pointer = self.stack_pointer.wrapping_add(2);
        lo as u16 + (hi as u16) * 0x100
    }

    /// Returns the current program counter and advances it by one.
    pub fn pop_next(&mut self) -> (r: u16)
        ensures
            final(self).bus == old(self).bus,
            r == old(self)@.pc,
            final(self)@ == (Machine { pc: old(self)@.pc.wrapping_add(1), ..old(self)@ }),
    {
        let value = self.program_counter;
        self.program_counter = self.program_counter.wrapping_add(1);
        value
    }

    /// Consumes one instruction byte at the program counter.
    pub fn pop_read(&mut self) -> (r: u8)
        requires
            old(self).wf(),
            old(self).bus.readable(old(self)@.pc),
        ensures
            final(self).bus == old(self).bus,
            r == mem_at(old(self)@.mem, old(self)@.pc),
            final(self)@ == (Machine { pc: old(self)@.pc.wrapping_add(1), ..old(self)@ }),
    {
        let addr = self.pop_next();
        self.mem_read(addr)
    }

    /// Consumes a little-endian instruction word at the program counter.
    pub fn pop_read_u16(&mut self) -> (r: u16)
        requires
            old(self).wf(),
            old(self).bus.readable(old(self)@.pc),
            old(self).bus.readable(old(self)@.pc.wrapping_add(1)),
        ensures
            final(self).bus == old(self).bus,
            r == read16(old(self)@.mem, old(self)@.pc),
            final(self)@ == (Machine { pc: old(self)@.pc.wrapping_add(2), ..old(self)@ }),
    {
        let lo = self.pop_read();
        let hi = self.pop_read();
        lo as u16 + (hi as u16) * 0x100
    }

    /// Consumes the operand bytes of `mode` and computes the effective
    /// address together with the page-cross indicator.
    pub fn get_operand_address(&mut self, mode: &AddressingMode) -> (r: AddressResult)
        requires
            old(self).wf(),
            !(*mode is NoneAddressing),
            operand_readable(&old(self).bus, old(self)@, *mode),
        ensures
            final(self).bus == old(self).bus,
            r.address == resolve(old(self)@, *mode).address,
            r.page_crossed == resolve(old(self)@, *mode).page_crossed,
            final(self)@ == (Machine { pc: resolve(old(self)@, *mode).pc, ..old(self)@ }),
    {
        match mode {
            AddressingMode::Immediate => AddressResult {
                address: self.pop_next(),
                page_crossed: false,
            },
            AddressingMode::ZeroPage => AddressResult {
                address: self.pop_read() as u16,
                page_crossed: false,
            },
            AddressingMode::ZeroPageX => AddressResult {
                address: self.pop_read().wrapping_add(self.register_x) as u16,
                page_crossed: false,
            },
            AddressingMode::ZeroPageY => AddressResult {
                address: self.pop_read().wrapping_add(self.register_y) as u16,
                page_crossed: false,
            },
            AddressingMode::Absolute => AddressResult {
                address: self.pop_read_u16(),
                page_crossed: false,
            },
            AddressingMode::AbsoluteX => {
                let base = self.pop_read_u16();
                AddressResult {
                    address: base.wrapping_add(self.register_x as u16),
                    page_crossed: base % 256 + self.register_x as u16 > 255,
                }
            },
            AddressingMode::AbsoluteY => {
                let base = self.pop_read_u16();
                AddressResult {
                    address: base.wrapping_add(self.register_y as u16),
                    page_crossed: base % 256 + self.register_y as u16 > 255,
                }
            },
            AddressingMode::IndirectX => {
                let zp = self.pop_read().wrapping_add(self.register_x);
                AddressResult {
                    address: self.mem_read_u16_zero_page(zp as u16),
                    page_crossed: false,
                }
            },
            AddressingMode::IndirectY => {
                let zp = self.pop_read();
                let base = self.mem_read_u16_zero_page(zp as u16);
                AddressResult {
                    address: base.wrapping_add(self.register_y as u16),
                    page_crossed: base % 256 + self.register_y as u16 > 255,
                }
            },
            AddressingMode::Relative => {
                let offset = self.pop_read();
                AddressResult {
                    address: if offset < 0x80 {
                        self.program_counter.wrapping_add(offset as u16)
                    } else {
                        self.program_counter.wrapping_sub(256u16 - offset as u16)
                    },
                    page_crossed: false,
                }
            },
            AddressingMode::Indirect => {
                let ptr = self.pop_read_u16();
                let address = if self.jmp_compat && ptr % 256 == 255 {
                    let lo = self.mem_read(ptr);
                    let hi = self.mem_read((ptr / 256) * 256);
                    lo as u16 + (hi as u16) * 0x100
                } else {
                    self.mem_read_u16(ptr)
                };
                AddressResult { address, page_crossed: false }
            },
            AddressingMode::NoneAddressing => {
                proof {
                    assert(false);
                }
                AddressResult { address: 0, page_crossed: false }
            },
        }
    }
}

} // verus!
