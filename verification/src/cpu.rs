//! The CPU register file and the instruction driver.

use vstd::prelude::*;

use crate::bus::Bus;
use crate::machine::Machine;
use crate::machine::MEMORY_SIZE;
use crate::machine::machine_matches;
use crate::machine::read16;
use crate::machine::stack_addr;
use crate::opcodes::Mnemonic;
use crate::opcodes::OpCode;
use crate::opcodes::lemma_opcode_mode_consistent;
use crate::opcodes::mode_consistent;
use crate::opcodes::opcode_lookup;
use crate::memory::operand_readable;
use crate::memory::resolve;
use crate::semantics::spec_exec;
use crate::semantics::step_reads;
use crate::semantics::spec_run;
use crate::semantics::spec_step;
use crate::semantics::step_enabled;
use crate::semantics::step_writes;

verus! {

/// A MOS 6502 CPU connected to a memory bus.
pub struct CPU<B: Bus> {
    /// Accumulator.
    pub register_a: u8,
    /// X index register.
    pub register_x: u8,
    /// Y index register.
    pub register_y: u8,
    /// Stack pointer.
    pub stack_pointer: u8,
    /// Status register P.
    pub status: u8,
    /// Program counter.
    pub program_counter: u16,
    /// Whether the indirect-JMP page-wrap bug is emulated.
    pub jmp_compat: bool,
    /// The memory bus the CPU owns.
    pub bus: B,
}

impl<B: Bus> View for CPU<B> {
    type V = Machine;

    open spec fn view(&self) -> Machine {
        Machine {
            a: self.register_a,
            x: self.register_x,
            y: self.register_y,
            sp: self.stack_pointer,
            p: self.status,
            pc: self.program_counter,
            jmp_compat: self.jmp_compat,
            mem: self.bus.mem(),
        }
    }
}

/// The parts of a CPU that every instruction preserves: the bus stays
/// well formed and keeps its writability map and write discipline.
pub open spec fn cpu_frame<B: Bus>(pre: CPU<B>, post: CPU<B>) -> bool {
    &&& post.wf()
    &&& post.bus.exact_writes() == pre.bus.exact_writes()
    &&& forall|a: u16| post.bus.readable(a) == pre.bus.readable(a)
    &&& forall|a: u16| post.bus.writable(a) == pre.bus.writable(a)
}

/// What one call of [`CPU::next`] reports: whether the program ended
/// with BRK and how many clock cycles the instruction took.
pub struct InstructionResult {
    /// True exactly when the executed opcode was BRK.
    pub end_of_program: bool,
    /// Base cycles of the opcode plus the page-crossing penalty.
    pub cycles: u8,
}

/// The outcome of a bounded run of the CPU.
#[derive(PartialEq, Eq, Structural, Debug, Clone, Copy)]
pub enum RunOutcome {
    /// A BRK instruction was executed.
    EndOfProgram,
    /// The byte at the program counter is not a defined opcode.
    UnknownOpcode(u8),
    /// The step budget ran out before BRK was reached.
    StepLimit,
}

impl<B: Bus> CPU<B> {
    /// Well-formedness: the bus is in its invariant.
    pub open spec fn wf(&self) -> bool {
        self.bus.inv()
    }

    /// The memory view has one byte per address.
    pub proof fn wf_mem_len(&self)
        requires
            self.wf(),
        ensures
            self@.mem.len() == MEMORY_SIZE,
    {
        self.bus.mem_len();
    }

    /// A fresh CPU on `bus`, with every register zero and the
    /// indirect-JMP compatibility bug enabled.
    pub fn new(bus: B) -> (r: CPU<B>)
        ensures
            r.register_a == 0,
            r.register_x == 0,
            r.register_y == 0,
            r.stack_pointer == 0,
            r.status == 0,
            r.program_counter == 0,
            r.jmp_compat == true,
            r.bus == bus,
    {
        CPU {
            register_a: 0,
            register_x: 0,
            register_y: 0,
            stack_pointer: 0,
            status: 0,
            program_counter: 0,
            jmp_compat: true,
            bus,
        }
    }

    /// Zeroes the registers and loads the program counter from the
    /// reset vector at 0xFFFC.
    pub fn reset(&mut self)
        requires
            old(self).wf(),
            old(self).bus.readable(0xFFFC),
            old(self).bus.readable(0xFFFD),
        ensures
            cpu_frame(*old(self), *final(self)),
            final(self)@ == (Machine {
                a: 0,
                x: 0,
                y: 0,
                sp: 0,
                p: 0,
                pc: read16(old(self)@.mem, 0xFFFC),
                ..old(self)@
            }),
    {
        self.register_a = 0;
        self.register_x = 0;
        self.register_y = 0;
        self.stack_pointer = 0;
        self.status = 0;
        self.program_counter = self.mem_read_u16(0xFFFC);
    }

    /// The store addresses that executing `ins` in state `s` must
    /// find writable on the bus.
    pub open spec fn writes_allowed(&self, ins: OpCode, s: Machine) -> bool {
        match ins.mnemonic {
            Mnemonic::Sta | Mnemonic::Stx | Mnemonic::Sty | Mnemonic::Inc | Mnemonic::Dec => self
                .bus.writable(resolve(s, ins.mode).address),
            Mnemonic::Asl | Mnemonic::Lsr | Mnemonic::Rol | Mnemonic::Ror => !(ins.mode
                is NoneAddressing) ==> self.bus.writable(resolve(s, ins.mode).address),
            Mnemonic::Pha | Mnemonic::Php => self.bus.writable(stack_addr(s.sp)),
            Mnemonic::Jsr => self.bus.writable(stack_addr(s.sp)) && self.bus.writable(
                stack_addr(s.sp.wrapping_sub(1)),
            ),
            _ => true,
        }
    }

    /// The addresses that executing `ins` in state `s` must find
    /// readable on the bus: what the resolver consumes and what the
    /// executor loads.
    pub open spec fn reads_allowed(&self, ins: OpCode, s: Machine) -> bool {
        match ins.mnemonic {
            Mnemonic::Adc | Mnemonic::And | Mnemonic::Bit | Mnemonic::Cmp | Mnemonic::Cpx
                | Mnemonic::Cpy | Mnemonic::Eor | Mnemonic::Lda | Mnemonic::Ldx | Mnemonic::Ldy
                | Mnemonic::Ora | Mnemonic::Sbc | Mnemonic::Inc | Mnemonic::Dec => operand_readable(
                &self.bus,
                s,
                ins.mode,
            ) && self.bus.readable(resolve(s, ins.mode).address),
            Mnemonic::Asl | Mnemonic::Lsr | Mnemonic::Rol | Mnemonic::Ror => !(ins.mode
                is NoneAddressing) ==> operand_readable(&self.bus, s, ins.mode)
                && self.bus.readable(resolve(s, ins.mode).address),
            Mnemonic::Sta | Mnemonic::Stx | Mnemonic::Sty | Mnemonic::Bcc | Mnemonic::Bcs
                | Mnemonic::Beq | Mnemonic::Bmi | Mnemonic::Bne | Mnemonic::Bpl | Mnemonic::Bvc
                | Mnemonic::Bvs | Mnemonic::Jmp | Mnemonic::Jsr => operand_readable(
                &self.bus,
                s,
                ins.mode,
            ),
            Mnemonic::Pla | Mnemonic::Plp => self.bus.readable(stack_addr(s.sp.wrapping_add(1))),
            Mnemonic::Rts => self.bus.readable(stack_addr(s.sp.wrapping_add(1)))
                && self.bus.readable(stack_addr(s.sp.wrapping_add(2))),
            _ => true,
        }
    }

    /// Executes loads, arithmetic, logic, compares and BIT.
    #[verifier::rlimit(100)]
    #[verifier::spinoff_prover]
    fn execute_alu(&mut self, ins: &OpCode) -> (r: (u8, bool))
        requires
            old(self).wf(),
            mode_consistent(*ins),
            old(self).reads_allowed(*ins, old(self)@),
            old(self).writes_allowed(*ins, old(self)@),
            (ins.mnemonic is Adc
                || ins.mnemonic is And
                || ins.mnemonic is Bit
                || ins.mnemonic is Cmp
                || ins.mnemonic is Cpx
                || ins.mnemonic is Cpy
                || ins.mnemonic is Eor
                || ins.mnemonic is Lda
                || ins.mnemonic is Ldx
                || ins.mnemonic is Ldy
                || ins.mnemonic is Ora
                || ins.mnemonic is Sbc),
        ensures
            cpu_frame(*old(self), *final(self)),
            machine_matches(
                final(self)@,
                spec_exec(old(self)@, ins.mnemonic, ins.mode).0,
                old(self).bus.exact_writes(),
            ),
            r.0 == spec_exec(old(self)@, ins.mnemonic, ins.mode).1,
            r.1 == (ins.mnemonic is Brk),
    {
        let additional_cycles: u8 = match ins.mnemonic {
            Mnemonic::Adc => self.adc(&ins.mode),
            Mnemonic::And => self.and(&ins.mode),
            Mnemonic::Bit => self.bit(&ins.mode),
            Mnemonic::Cmp => self.cmp(&ins.mode),
            Mnemonic::Cpx => self.cpx(&ins.mode),
            Mnemonic::Cpy => self.cpy(&ins.mode),
            Mnemonic::Eor => self.eor(&ins.mode),
            Mnemonic::Lda => self.lda(&ins.mode),
            Mnemonic::Ldx => self.ldx(&ins.mode),
            Mnemonic::Ldy => self.ldy(&ins.mode),
            Mnemonic::Ora => self.ora(&ins.mode),
            Mnemonic::Sbc => self.sbc(&ins.mode),
            _ => vstd::pervasive::unreached(),
        };
        (additional_cycles, false)
    }

    /// Executes stores, read-modify-write shifts, increments and stack pushes.
    #[verifier::rlimit(100)]
    #[verifier::spinoff_prover]
    fn execute_rmw(&mut self, ins: &OpCode) -> (r: (u8, bool))
        requires
            old(self).wf(),
            mode_consistent(*ins),
            old(self).reads_allowed(*ins, old(self)@),
            old(self).writes_allowed(*ins, old(self)@),
            (ins.mnemonic is Asl
                || ins.mnemonic is Lsr
                || ins.mnemonic is Rol
                || ins.mnemonic is Ror
                || ins.mnemonic is Inc
                || ins.mnemonic is Dec
                || ins.mnemonic is Sta
                || ins.mnemonic is Stx
                || ins.mnemonic is Sty
                || ins.mnemonic is Pha
                || ins.mnemonic is Php
                || ins.mnemonic is Jsr),
        ensures
            cpu_frame(*old(self), *final(self)),
            machine_matches(
                final(self)@,
                spec_exec(old(self)@, ins.mnemonic, ins.mode).0,
                old(self).bus.exact_writes(),
            ),
            r.0 == spec_exec(old(self)@, ins.mnemonic, ins.mode).1,
            r.1 == (ins.mnemonic is Brk),
    {
        let additional_cycles: u8 = match ins.mnemonic {
            Mnemonic::Asl => self.asl(&ins.mode),
            Mnemonic::Lsr => self.lsr(&ins.mode),
            Mnemonic::Rol => self.rol(&ins.mode),
            Mnemonic::Ror => self.ror(&ins.mode),
            Mnemonic::Inc => self.inc(&ins.mode),
            Mnemonic::Dec => self.dec(&ins.mode),
            Mnemonic::Sta => self.sta(&ins.mode),
            Mnemonic::Stx => self.stx(&ins.mode),
            Mnemonic::Sty => self.sty(&ins.mode),
            Mnemonic::Pha => self.pha(),
            Mnemonic::Php => self.php(),
            Mnemonic::Jsr => self.jsr(&ins.mode),
            _ => vstd::pervasive::unreached(),
        };
        (additional_cycles, false)
    }

    /// Executes branches, jumps, returns, BRK, NOP and RTI.
    #[verifier::rlimit(100)]
    #[verifier::spinoff_prover]
    fn execute_flow(&mut self, ins: &OpCode) -> (r: (u8, bool))
        requires
            old(self).wf(),
            mode_consistent(*ins),
            old(self).reads_allowed(*ins, old(self)@),
            old(self).writes_allowed(*ins, old(self)@),
            (ins.mnemonic is Bcc
                || ins.mnemonic is Bcs
                || ins.mnemonic is Beq
                || ins.mnemonic is Bmi
                || ins.mnemonic is Bne
                || ins.mnemonic is Bpl
                || ins.mnemonic is Bvc
                || ins.mnemonic is Bvs
                || ins.mnemonic is Brk
                || ins.mnemonic is Jmp
                || ins.mnemonic is Nop
                || ins.mnemonic is Rti
                || ins.mnemonic is Rts),
        ensures
            cpu_frame(*old(self), *final(self)),
            machine_matches(
                final(self)@,
                spec_exec(old(self)@, ins.mnemonic, ins.mode).0,
                old(self).bus.exact_writes(),
            ),
            r.0 == spec_exec(old(self)@, ins.mnemonic, ins.mode).1,
            r.1 == (ins.mnemonic is Brk),
    {
        let mut end_of_program = false;
        let additional_cycles: u8 = match ins.mnemonic {
            Mnemonic::Bcc => self.bcc(&ins.mode),
            Mnemonic::Bcs => self.bcs(&ins.mode),
            Mnemonic::Beq => self.beq(&ins.mode),
            Mnemonic::Bmi => self.bmi(&ins.mode),
            Mnemonic::Bne => self.bne(&ins.mode),
            Mnemonic::Bpl => self.bpl(&ins.mode),
            Mnemonic::Bvc => self.bvc(&ins.mode),
            Mnemonic::Bvs => self.bvs(&ins.mode),
            Mnemonic::Brk => {
                end_of_program = true;
                0
            },
            Mnemonic::Jmp => self.jmp(&ins.mode),
            Mnemonic::Nop => 0,
            Mnemonic::Rti => 0,
            Mnemonic::Rts => self.rts(),
            _ => vstd::pervasive::unreached(),
        };
        (additional_cycles, end_of_program)
    }

    /// Executes register transfers, register increments, flag instructions and stack pops.
    #[verifier::rlimit(100)]
    #[verifier::spinoff_prover]
    fn execute_reg(&mut self, ins: &OpCode) -> (r: (u8, bool))
        requires
            old(self).wf(),
            mode_consistent(*ins),
            old(self).reads_allowed(*ins, old(self)@),
            old(self).writes_allowed(*ins, old(self)@),
            (ins.mnemonic is Clc
                || ins.mnemonic is Cld
                || ins.mnemonic is Cli
                || ins.mnemonic is Clv
                || ins.mnemonic is Sec
                || ins.mnemonic is Sed
                || ins.mnemonic is Sei
                || ins.mnemonic is Dex
                || ins.mnemonic is Dey
                || ins.mnemonic is Inx
                || ins.mnemonic is Iny
                || ins.mnemonic is Pla
                || ins.mnemonic is Plp
                || ins.mnemonic is Tax
                || ins.mnemonic is Tay
                || ins.mnemonic is Tsx
                || ins.mnemonic is Txa
                || ins.mnemonic is Txs
                || ins.mnemonic is Tya),
        ensures
            cpu_frame(*old(self), *final(self)),
            machine_matches(
                final(self)@,
                spec_exec(old(self)@, ins.mnemonic, ins.mode).0,
                old(self).bus.exact_writes(),
            ),
            r.0 == spec_exec(old(self)@, ins.mnemonic, ins.mode).1,
            r.1 == (ins.mnemonic is Brk),
    {
        let additional_cycles: u8 = match ins.mnemonic {
            Mnemonic::Clc => self.clc(),
            Mnemonic::Cld => self.cld(),
            Mnemonic::Cli => self.cli(),
            Mnemonic::Clv => self.clv(),
            Mnemonic::Sec => self.sec(),
            Mnemonic::Sed => self.sed(),
            Mnemonic::Sei => self.sei(),
            Mnemonic::Dex => self.dex(),
            Mnemonic::Dey => self.dey(),
            Mnemonic::Inx => self.inx(),
            Mnemonic::Iny => self.iny(),
            Mnemonic::Pla => self.pla(),
            Mnemonic::Plp => self.plp(),
            Mnemonic::Tax => self.tax(),
            Mnemonic::Tay => self.tay(),
            Mnemonic::Tsx => self.tsx(),
            Mnemonic::Txa => self.txa(),
            Mnemonic::Txs => self.txs(),
            Mnemonic::Tya => self.tya(),
            _ => vstd::pervasive::unreached(),
        };
        (additional_cycles, false)
    }

    /// Executes one decoded instruction: the dispatch from the
    /// opcode-table entry to the executor.  Reports the extra cycles
    /// and whether the mnemonic was BRK.
    fn execute(&mut self, ins: &OpCode) -> (r: (u8, bool))
        requires
            old(self).wf(),
            mode_consistent(*ins),
            old(self).reads_allowed(*ins, old(self)@),
            old(self).writes_allowed(*ins, old(self)@),
        ensures
            cpu_frame(*old(self), *final(self)),
            machine_matches(
                final(self)@,
                spec_exec(old(self)@, ins.mnemonic, ins.mode).0,
                old(self).bus.exact_writes(),
            ),
            r.0 == spec_exec(old(self)@, ins.mnemonic, ins.mode).1,
            r.1 == (ins.mnemonic is Brk),
    {
        match ins.mnemonic {
            Mnemonic::Adc
            | Mnemonic::And
            | Mnemonic::Bit
            | Mnemonic::Cmp
            | Mnemonic::Cpx
            | Mnemonic::Cpy
            | Mnemonic::Eor
            | Mnemonic::Lda
            | Mnemonic::Ldx
            | Mnemonic::Ldy
            | Mnemonic::Ora
            | Mnemonic::Sbc => self.execute_alu(ins),
            Mnemonic::Asl
            | Mnemonic::Lsr
            | Mnemonic::Rol
            | Mnemonic::Ror
            | Mnemonic::Inc
            | Mnemonic::Dec
            | Mnemonic::Sta
            | Mnemonic::Stx
            | Mnemonic::Sty
            | Mnemonic::Pha
            | Mnemonic::Php
            | Mnemonic::Jsr => self.execute_rmw(ins),
            Mnemonic::Bcc
            | Mnemonic::Bcs
            | Mnemonic::Beq
            | Mnemonic::Bmi
            | Mnemonic::Bne
            | Mnemonic::Bpl
            | Mnemonic::Bvc
            | Mnemonic::Bvs
            | Mnemonic::Brk
            | Mnemonic::Jmp
            | Mnemonic::Nop
            | Mnemonic::Rti
            | Mnemonic::Rts => self.execute_flow(ins),
            Mnemonic::Clc
            | Mnemonic::Cld
            | Mnemonic::Cli
            | Mnemonic::Clv
            | Mnemonic::Sec
            | Mnemonic::Sed
            | Mnemonic::Sei
            | Mnemonic::Dex
            | Mnemonic::Dey
            | Mnemonic::Inx
            | Mnemonic::Iny
            | Mnemonic::Pla
            | Mnemonic::Plp
            | Mnemonic::Tax
            | Mnemonic::Tay
            | Mnemonic::Tsx
            | Mnemonic::Txa
            | Mnemonic::Txs
            | Mnemonic::Tya => self.execute_reg(ins),
        }
    }

    /// Executes one instruction: fetches and decodes the opcode at
    /// the program counter, runs it, and reports the cycle count and
    /// whether the program ended with BRK.
    ///
    /// The resulting state is exactly the one that [`spec_step`]
    /// computes from the starting state.
    pub fn next(&mut self) -> (r: InstructionResult)
        requires
            old(self).wf(),
            step_enabled(old(self)@),
            forall|a: u16| step_reads(old(self)@).contains(a) ==> old(self).bus.readable(a),
            forall|a: u16| step_writes(old(self)@).contains(a) ==> old(self).bus.writable(a),
        ensures
            cpu_frame(*old(self), *final(self)),
            machine_matches(
                final(self)@,
                spec_step(old(self)@).m,
                old(self).bus.exact_writes(),
            ),
            r.cycles == spec_step(old(self)@).cycles,
            r.end_of_program == spec_step(old(self)@).end,
    {
        let opcode = self.pop_read();
        let ins = match opcode_lookup(opcode) {
            Some(ins) => ins,
            None => vstd::pervasive::unreached(),
        };
        proof {
            lemma_opcode_mode_consistent(opcode);
        }
        let (additional_cycles, end_of_program) = self.execute(&ins);
        let cycles = ins.cycles.wrapping_add(additional_cycles);
        InstructionResult { end_of_program, cycles }
    }

    /// Runs instructions until BRK, an undefined opcode or the step
    /// budget is reached.
    ///
    /// The bus must land writes exactly where stored and accept every
    /// access the run makes ([`run_steps_ok`]); the result is then
    /// precisely the bounded run of the step semantics.  On a bus
    /// that accepts every access, such as the flat test bus,
    /// [`lemma_run_steps_ok_open`] discharges the footprint
    /// condition.
    pub fn run(&mut self, max_steps: u64) -> (r: RunOutcome)
        requires
            old(self).wf(),
            old(self).bus.exact_writes(),
            run_steps_ok(&old(self).bus, old(self)@, max_steps as nat),
        ensures
            cpu_frame(*old(self), *final(self)),
            final(self)@ == spec_run(old(self)@, max_steps as nat).0,
            r == spec_run(old(self)@, max_steps as nat).1,
    {
        let mut steps: u64 = 0;
        loop
            invariant
                steps <= max_steps,
                cpu_frame(*old(self), *self),
                old(self).bus.exact_writes(),
                run_steps_ok(&old(self).bus, self@, (max_steps - steps) as nat),
                spec_run(old(self)@, max_steps as nat) == spec_run(
                    self@,
                    (max_steps - steps) as nat,
                ),
            decreases max_steps - steps,
        {
            if steps >= max_steps {
                return RunOutcome::StepLimit;
            }
            steps = steps + 1;
            let opcode = self.mem_read(self.program_counter);
            match opcode_lookup(opcode) {
                None => {
                    return RunOutcome::UnknownOpcode(opcode);
                },
                Some(_) => {},
            }
            let ghost pre = self@;
            let result = self.next();
            proof {
                assert(self@ =~= spec_step(pre).m);
            }
            if result.end_of_program {
                return RunOutcome::EndOfProgram;
            }
        }
    }
}

/// Every access a bounded run makes from `s` is accepted by the bus
/// `b`: at each step that is taken, the read and store footprints of
/// the coming instruction are readable and writable.
pub open spec fn run_steps_ok<B: Bus>(b: &B, s: Machine, fuel: nat) -> bool
    decreases fuel,
{
    fuel > 0 ==> {
        &&& forall|a: u16| step_reads(s).contains(a) ==> b.readable(a)
        &&& (step_enabled(s) ==> {
            &&& forall|a: u16| step_writes(s).contains(a) ==> b.writable(a)
            &&& (!spec_step(s).end ==> run_steps_ok(b, spec_step(s).m, (fuel - 1) as nat))
        })
    }
}

/// A bus that accepts every read and every write, such as the flat
/// test bus, satisfies [`run_steps_ok`] from any state and for any
/// budget.
pub proof fn lemma_run_steps_ok_open<B: Bus>(b: &B, s: Machine, fuel: nat)
    requires
        forall|a: u16| b.readable(a),
        forall|a: u16| b.writable(a),
    ensures
        run_steps_ok(b, s, fuel),
    decreases fuel,
{
    if fuel > 0 {
        if step_enabled(s) && !spec_step(s).end {
            lemma_run_steps_ok_open(b, spec_step(s).m, (fuel - 1) as nat);
        }
    }
}

} // verus!

