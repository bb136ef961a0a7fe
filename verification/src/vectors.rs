//! Replaying single-instruction test vectors: the comparison logic
//! of a per-opcode conformance case, verified against the step
//! semantics.
//!
//! A case gives a starting register file, bytes to place in a flat
//! memory, the expected register file afterwards, and the memory
//! cells to check.  [`replay_case`] returns true exactly when one
//! step of the machine from the starting state produces the expected
//! outcome.

use vstd::prelude::*;

use crate::bus::Bus;
use crate::bus::TestBus;
use crate::cpu::CPU;
use crate::machine::MEMORY_SIZE;
use crate::machine::Machine;
use crate::machine::mem_at;
use crate::opcodes::opcode_lookup;
use crate::semantics::spec_step;
use crate::semantics::step_enabled;

verus! {

/// The register file of one side of a test case.
#[derive(Clone, Copy, PartialEq, Eq, Structural, Debug)]
pub struct CpuSnapshot {
    pub pc: u16,
    pub sp: u8,
    pub a: u8,
    pub x: u8,
    pub y: u8,
    pub p: u8,
}

/// Memory after storing each listed `(address, value)` pair in
/// order, later entries winning.
pub open spec fn overlay(m: Seq<u8>, entries: Seq<(u16, u8)>) -> Seq<u8>
    decreases entries.len(),
{
    if entries.len() == 0 {
        m
    } else {
        overlay(m, entries.subrange(0, entries.len() - 1)).update(
            entries.last().0 as int,
            entries.last().1,
        )
    }
}

/// The machine state a snapshot describes over the given memory,
/// with the indirect-JMP compatibility bug enabled.
pub open spec fn snapshot_machine(snap: CpuSnapshot, mem: Seq<u8>) -> Machine {
    Machine {
        a: snap.a,
        x: snap.x,
        y: snap.y,
        sp: snap.sp,
        p: snap.p,
        pc: snap.pc,
        jmp_compat: true,
        mem,
    }
}

/// All-zero memory.
pub open spec fn zero_memory() -> Seq<u8> {
    Seq::new(MEMORY_SIZE as nat, |i: int| 0u8)
}

/// Whether one machine step from the state that `init` and
/// `init_ram` describe reaches the state that `fin` and `fin_ram`
/// describe: the opcode must be defined, every register of the
/// stepped state must equal `fin`, and every listed memory cell must
/// hold its expected byte.
pub open spec fn case_holds(
    init: CpuSnapshot,
    init_ram: Seq<(u16, u8)>,
    fin: CpuSnapshot,
    fin_ram: Seq<(u16, u8)>,
) -> bool {
    let s0 = snapshot_machine(init, overlay(zero_memory(), init_ram));
    &&& step_enabled(s0)
    &&& {
        let m = spec_step(s0).m;
        &&& m.pc == fin.pc
        &&& m.sp == fin.sp
        &&& m.a == fin.a
        &&& m.x == fin.x
        &&& m.y == fin.y
        &&& m.p == fin.p
        &&& forall|i: int|
            0 <= i < fin_ram.len() ==> mem_at(m.mem, fin_ram[i].0) == fin_ram[i].1
    }
}

/// Plays one test vector: loads the initial bytes into a flat bus,
/// sets the registers, performs one instruction step, and compares
/// the outcome field by field.
pub fn replay_case(
    init: &CpuSnapshot,
    init_ram: &Vec<(u16, u8)>,
    fin: &CpuSnapshot,
    fin_ram: &Vec<(u16, u8)>,
) -> (r: bool)
    ensures
        r == case_holds(*init, init_ram@, *fin, fin_ram@),
{
    let mut bus = TestBus::new();
    let n = init_ram.len();
    let mut i: usize = 0;
    while i < n
        invariant
            i <= n,
            n == init_ram@.len(),
            bus.inv(),
            bus.mem() == overlay(zero_memory(), init_ram@.subrange(0, i as int)),
        decreases n - i,
    {
        let entry = init_ram[i];
        proof {
            assert(init_ram@.subrange(0, i + 1).subrange(0, i as int) =~= init_ram@.subrange(
                0,
                i as int,
            ));
            assert(init_ram@.subrange(0, i + 1).last() == init_ram@[i as int]);
        }
        bus.mem_write(entry.0, entry.1);
        i = i + 1;
    }
    proof {
        assert(init_ram@.subrange(0, n as int) =~= init_ram@);
    }
    let mut cpu = CPU::new(bus);
    cpu.program_counter = init.pc;
    cpu.stack_pointer = init.sp;
    cpu.register_a = init.a;
    cpu.register_x = init.x;
    cpu.register_y = init.y;
    cpu.status = init.p;
    let ghost s0 = snapshot_machine(*init, overlay(zero_memory(), init_ram@));
    proof {
        assert(cpu@ =~= s0);
    }
    let opcode = cpu.mem_read(cpu.program_counter);
    match opcode_lookup(opcode) {
        None => {
            return false;
        },
        Some(_) => {},
    }
    cpu.next();
    proof {
        assert(cpu@ =~= spec_step(s0).m);
    }
    if cpu.program_counter != fin.pc {
        return false;
    }
    if cpu.stack_pointer != fin.sp {
        return false;
    }
    if cpu.register_a != fin.a {
        return false;
    }
    if cpu.register_x != fin.x {
        return false;
    }
    if cpu.register_y != fin.y {
        return false;
    }
    if cpu.status != fin.p {
        return false;
    }
    let m = fin_ram.len();
    let mut j: usize = 0;
    while j < m
        invariant
            j <= m,
            m == fin_ram@.len(),
            cpu.wf(),
            s0 == snapshot_machine(*init, overlay(zero_memory(), init_ram@)),
            cpu@ == spec_step(s0).m,
            forall|k: int| 0 <= k < j ==> mem_at(spec_step(s0).m.mem, fin_ram@[k].0) == fin_ram@[
                k
            ].1,
        decreases m - j,
    {
        let entry = fin_ram[j];
        if cpu.mem_read(entry.0) != entry.1 {
            proof {
                let sm = snapshot_machine(*init, overlay(zero_memory(), init_ram@));
                assert(sm == s0);
                assert(mem_at(spec_step(sm).m.mem, fin_ram@[j as int].0) != fin_ram@[
                    j as int
                ].1);
                assert(!(forall|k: int|
                    0 <= k < fin_ram@.len() ==> mem_at(spec_step(sm).m.mem, fin_ram@[k].0)
                        == fin_ram@[k].1)) by {
                    let k = j as int;
                    assert(0 <= k < fin_ram@.len());
                    assert(mem_at(spec_step(sm).m.mem, fin_ram@[k].0) != fin_ram@[k].1);
                }
            }
            return false;
        }
        j = j + 1;
    }
    true
}

} // verus!
