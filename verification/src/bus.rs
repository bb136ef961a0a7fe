//! The memory bus: the abstraction that separates the CPU core from
//! RAM, cartridge ROM and the PPU register window.
//!
//! A bus exposes the whole 16-bit address space as a sequence of bytes
//! (`mem`).  Reads are pure and allowed only at `readable` addresses;
//! writes only at `writable` ones.  Where the hardware would fault
//! (unmapped regions, stores to ROM, reads of write-only registers)
//! the address is simply not readable or not writable, and the caller
//! has to establish access before touching it.  A bus whose writes
//! change exactly the stored cell reports `exact_writes`; the NES bus
//! does not, because its 2 KiB of RAM are mirrored four times over
//! the low address range.

use vstd::prelude::*;

use crate::machine::MEMORY_SIZE;
use crate::ppu::PPU;
use crate::rom::Rom;

verus! {

/// Abstraction over 16-bit address-space reads and writes.
pub trait Bus: Sized {
    /// Well-formedness of the bus state.
    spec fn inv(&self) -> bool;

    /// The byte visible at each of the 65536 addresses.
    spec fn mem(&self) -> Seq<u8>;

    /// Whether a read at `addr` is accepted.
    spec fn readable(&self, addr: u16) -> bool;

    /// Whether a store at `addr` is accepted.
    spec fn writable(&self, addr: u16) -> bool;

    /// Whether every accepted store changes exactly the stored cell.
    spec fn exact_writes(&self) -> bool;

    /// The visible memory after a store of `data` at `addr`: the
    /// bus's own write semantics.  The flat bus updates one cell; the
    /// NES bus updates a RAM cell that shows through every one of its
    /// mirrors.
    spec fn write_view(&self, addr: u16, data: u8) -> Seq<u8>;

    /// The visible memory covers the whole address space.
    proof fn mem_len(&self)
        requires
            self.inv(),
        ensures
            self.mem().len() == MEMORY_SIZE,
    ;

    /// Reads the byte at `addr`.
    fn mem_read(&self, addr: u16) -> (r: u8)
        requires
            self.inv(),
            self.readable(addr),
        ensures
            r == self.mem()[addr as int],
    ;

    /// Stores `data` at `addr`.
    fn mem_write(&mut self, addr: u16, data: u8)
        requires
            old(self).inv(),
            old(self).writable(addr),
        ensures
            final(self).inv(),
            final(self).mem().len() == old(self).mem().len(),
            final(self).mem()[addr as int] == data,
            final(self).mem() == old(self).write_view(addr, data),
            old(self).exact_writes() ==> final(self).mem() == old(self).mem().update(
                addr as int,
                data,
            ),
            final(self).exact_writes() == old(self).exact_writes(),
            forall|a: u16| final(self).readable(a) == old(self).readable(a),
            forall|a: u16| final(self).writable(a) == old(self).writable(a),
    ;
}

/// A flat 64 KiB bus with no mirroring and no access restrictions,
/// intended for tests and for running raw programs.
pub struct TestBus {
    /// The flat 64 KiB backing store.
    pub memory: Vec<u8>,
}

impl Bus for TestBus {
    open spec fn inv(&self) -> bool {
        self.memory@.len() == MEMORY_SIZE
    }

    open spec fn mem(&self) -> Seq<u8> {
        self.memory@
    }

    open spec fn readable(&self, addr: u16) -> bool {
        true
    }

    open spec fn writable(&self, addr: u16) -> bool {
        true
    }

    open spec fn exact_writes(&self) -> bool {
        true
    }

    open spec fn write_view(&self, addr: u16, data: u8) -> Seq<u8> {
        self.mem().update(addr as int, data)
    }

    proof fn mem_len(&self) {
    }

    fn mem_read(&self, addr: u16) -> (r: u8) {
        self.memory[addr as usize]
    }

    fn mem_write(&mut self, addr: u16, data: u8) {
        self.memory.set(addr as usize, data);
    }
}

impl TestBus {
    /// A fresh bus with every byte zero.
    pub fn new() -> (r: TestBus)
        ensures
            r.inv(),
            r.mem() == Seq::new(MEMORY_SIZE as nat, |i: int| 0u8),
    {
        let mut memory: Vec<u8> = Vec::new();
        let mut i: usize = 0;
        while i < MEMORY_SIZE
            invariant
                i <= MEMORY_SIZE,
                memory@.len() == i,
                forall|j: int| 0 <= j < i ==> memory@[j] == 0u8,
            decreases MEMORY_SIZE - i,
        {
            memory.push(0u8);
            i = i + 1;
        }
        proof {
            assert(memory@ =~= Seq::new(MEMORY_SIZE as nat, |i: int| 0u8));
        }
        TestBus { memory }
    }

    /// Copies `program` to 0x8000 and points the reset vector there.
    pub fn load(&mut self, program: Vec<u8>)
        requires
            old(self).inv(),
            program@.len() <= 0x8000,
        ensures
            final(self).inv(),
            forall|a: u16|
                final(self).mem()[a as int] == (if a == 0xFFFC {
                    0x00u8
                } else if a == 0xFFFD {
                    0x80u8
                } else if 0x8000 <= a < 0x8000 + program@.len() {
                    program@[a - 0x8000]
                } else {
                    old(self).mem()[a as int]
                }),
    {
        self.load_to_specific_address(0x8000, program);
    }

    /// Copies `program` to `addr` and points the reset vector at `addr`.
    pub fn load_to_specific_address(&mut self, addr: u16, program: Vec<u8>)
        requires
            old(self).inv(),
            addr + program@.len() <= 0x10000,
        ensures
            final(self).inv(),
            forall|a: u16|
                final(self).mem()[a as int] == (if a == 0xFFFC {
                    (addr % 256) as u8
                } else if a == 0xFFFD {
                    (addr / 256) as u8
                } else if addr <= a < addr + program@.len() {
                    program@[a - addr]
                } else {
                    old(self).mem()[a as int]
                }),
    {
        let mut i: usize = 0;
        let n = program.len();
        while i < n
            invariant
                old(self).inv(),
                self.inv(),
                i <= n,
                n == program@.len(),
                addr + n <= 0x10000,
                forall|j: int|
                    0 <= j < MEMORY_SIZE ==> self.memory@[j] == (if addr <= j < addr + i {
                        program@[j - addr]
                    } else {
                        old(self).memory@[j]
                    }),
            decreases n - i,
        {
            self.memory.set(addr as usize + i, program[i]);
            i = i + 1;
        }
        self.memory.set(0xFFFC, (addr % 256) as u8);
        self.memory.set(0xFFFD, (addr / 256) as u8);
    }
}


/// The byte a NES-mapped bus shows at address `i`: the 2 KiB of RAM
/// mirrored across the low 8 KiB and program ROM from 0x8000 up (a
/// 16 KiB cartridge mirrored twice).  The bytes given for the region
/// in between are unobservable: no read is accepted there.
pub open spec fn nes_byte(ram: Seq<u8>, prg: Seq<u8>, i: int) -> u8 {
    if 0 <= i < 0x2000 {
        ram[i % 0x800]
    } else if 0x8000 <= i < 0x10000 {
        if prg.len() == 0x4000 {
            prg[(i - 0x8000) % 0x4000]
        } else {
            prg[i - 0x8000]
        }
    } else {
        0
    }
}

/// The NES memory map: RAM with mirrors, the PPU register window,
/// and cartridge program ROM.
///
/// Plain memory reads are accepted in RAM and ROM; the PPU register
/// window and the unmapped regions are not `readable`, since a read
/// there either faults or goes through the PPU's stateful data port,
/// which the pure read of the trait cannot express.  The data port is
/// reached through [`NesBus::ppu_read_data`].  Writes are accepted
/// only in the RAM region; stores to ROM or unmapped space, which the
/// hardware treats as faults, are excluded by precondition.
pub struct NesBus {
    /// The 2 KiB of console RAM.
    pub ram: Vec<u8>,
    /// Program ROM from the cartridge: 16 KiB or 32 KiB.
    pub prg_rom: Vec<u8>,
    /// The picture-processing unit fed from the cartridge.
    pub ppu: PPU,
}

impl Bus for NesBus {
    open spec fn inv(&self) -> bool {
        &&& self.ram@.len() == 0x800
        &&& (self.prg_rom@.len() == 0x4000 || self.prg_rom@.len() == 0x8000)
    }

    open spec fn mem(&self) -> Seq<u8> {
        Seq::new(MEMORY_SIZE as nat, |i: int| nes_byte(self.ram@, self.prg_rom@, i))
    }

    open spec fn readable(&self, addr: u16) -> bool {
        addr < 0x2000 || addr >= 0x8000
    }

    open spec fn writable(&self, addr: u16) -> bool {
        addr < 0x2000
    }

    open spec fn exact_writes(&self) -> bool {
        false
    }

    open spec fn write_view(&self, addr: u16, data: u8) -> Seq<u8> {
        Seq::new(
            MEMORY_SIZE as nat,
            |i: int|
                if 0 <= i < 0x2000 && i % 0x800 == addr as int % 0x800 {
                    data
                } else {
                    self.mem()[i]
                },
        )
    }

    proof fn mem_len(&self) {
    }

    fn mem_read(&self, addr: u16) -> (r: u8) {
        if addr < 0x2000 {
            self.ram[(addr % 0x800) as usize]
        } else {
            self.read_prg_rom(addr)
        }
    }

    fn mem_write(&mut self, addr: u16, data: u8) {
        self.ram.set((addr % 0x800) as usize, data);
        proof {
            assert(final(self).mem()[addr as int] == data);
            assert(final(self).mem() =~= old(self).write_view(addr, data));
        }
    }
}

impl NesBus {
    /// A bus over a parsed cartridge: clear RAM, the cartridge's
    /// program ROM, and a PPU over its character ROM.
    pub fn new(rom: Rom) -> (r: NesBus)
        requires
            rom.prg_rom@.len() == 0x4000 || rom.prg_rom@.len() == 0x8000,
        ensures
            r.inv(),
            r.prg_rom == rom.prg_rom,
            forall|i: int| 0 <= i < 0x800 ==> r.ram@[i] == 0u8,
            r.ppu.chr_rom == rom.chr_rom,
            r.ppu.mirroring == rom.screen_mirroring,
            r.ppu.inv(),
    {
        let mut ram: Vec<u8> = Vec::new();
        let mut i: usize = 0;
        while i < 0x800
            invariant
                i <= 0x800,
                ram@.len() == i,
                forall|j: int| 0 <= j < i ==> ram@[j] == 0u8,
            decreases 0x800 - i,
        {
            ram.push(0u8);
            i = i + 1;
        }
        NesBus {
            ram,
            prg_rom: rom.prg_rom,
            ppu: PPU::new(rom.chr_rom, rom.screen_mirroring),
        }
    }

    /// The program-ROM byte visible at a CPU address of 0x8000 and
    /// up, mirroring a 16 KiB cartridge across both banks.
    pub fn read_prg_rom(&self, addr: u16) -> (r: u8)
        requires
            self.inv(),
            addr >= 0x8000,
        ensures
            r == self.mem()[addr as int],
    {
        let offset = addr - 0x8000;
        if self.prg_rom.len() == 0x4000 {
            self.prg_rom[(offset % 0x4000) as usize]
        } else {
            self.prg_rom[offset as usize]
        }
    }

    /// A write to the PPU control register (port 0x2000).
    pub fn ppu_write_ctrl(&mut self, value: u8)
        ensures
            final(self).ram == old(self).ram,
            final(self).prg_rom == old(self).prg_rom,
            final(self).ppu == (PPU {
                ctrl: crate::ppu::ControlRegister { status: value },
                ..old(self).ppu
            }),
    {
        self.ppu.write_to_ctrl(value);
    }

    /// A write to the PPU address latch (port 0x2006).
    pub fn ppu_write_addr(&mut self, value: u8)
        requires
            old(self).ppu.inv(),
        ensures
            final(self).ram == old(self).ram,
            final(self).prg_rom == old(self).prg_rom,
            final(self).ppu.inv(),
            final(self).ppu == (PPU { addr: final(self).ppu.addr, ..old(self).ppu }),
            final(self).ppu.addr.hi_ptr == !old(self).ppu.addr.hi_ptr,
    {
        self.ppu.write_to_ppu_addr(value);
    }

    /// A read of the PPU data port (port 0x2007), with the buffering
    /// and address increment of [`PPU::read_data`].
    pub fn ppu_read_data(&mut self) -> (r: u8)
        requires
            old(self).ppu.inv(),
            old(self).ppu.addr.spec_get() <= 0x1FFF ==> old(self).ppu.addr.spec_get() < old(
                self,
            ).ppu.chr_rom@.len(),
            0x2000 <= old(self).ppu.addr.spec_get() <= 0x2FFF
                ==> 0 <= crate::ppu::mirror_vram_index(
                old(self).ppu.mirroring,
                old(self).ppu.addr.spec_get(),
            ) < 0x800,
            !(0x3000 <= old(self).ppu.addr.spec_get() <= 0x3EFF),
            old(self).ppu.addr.spec_get() >= 0x3F00 ==> old(self).ppu.addr.spec_get() <= 0x3F1F,
        ensures
            final(self).ram == old(self).ram,
            final(self).prg_rom == old(self).prg_rom,
            final(self).ppu.inv(),
            ({
                let a = old(self).ppu.addr.spec_get();
                if a <= 0x1FFF {
                    r == old(self).ppu.internal_data_buf
                } else if a <= 0x2FFF {
                    r == old(self).ppu.internal_data_buf
                } else {
                    r == old(self).ppu.palette_table@[a - 0x3F00]
                }
            }),
    {
        self.ppu.read_data()
    }
}

} // verus!


