//! A core bound to its own memory, as a host drives it: reset, step, batch
//! runs under a budget, memory access, snapshot and restore.

use vstd::prelude::*;

use crate::cpu::{transition, StepError, CPU};
use crate::memory::{loaded, Memory};
use crate::snapshots::{
    blob_of, core_of, encode_snapshot, parse_blob, restore_snapshot, snapshot_of, CpuSnapshot,
    RestoreError,
};

verus! {

broadcast use crate::memory::Memory::lemma_size;

/// The registers and internal state of a core, as a host sees them.
#[derive(Debug, Clone, Copy, PartialEq, Eq, Structural)]
pub struct CpuState {
    pub a: u8,
    pub x: u8,
    pub y: u8,
    pub pc: u16,
    pub sp: u8,
    pub status: u8,
    pub cycles: u64,
    pub halted: bool,
}

/// What a batch run did.
#[derive(Debug, Clone, Copy, PartialEq, Eq, Structural)]
pub struct ExecutionResult {
    /// Instructions executed, never more than the budget.
    pub steps_executed: u32,
    /// Whether the core is halted afterwards.
    pub halted: bool,
    /// The core afterwards.
    pub final_state: CpuState,
    /// The unknown opcode that stopped the run, if one did.
    pub error: Option<StepError>,
}

/// The view a host gets of core `c`.
pub open spec fn state_of(c: CPU) -> CpuState {
    CpuState {
        a: c.a,
        x: c.x,
        y: c.y,
        pc: c.pc,
        sp: c.sp,
        status: c.status,
        cycles: c.cycles,
        halted: c.halted,
    }
}

/// Up to `budget` steps from core `c` over memory `m`, stopping early on a
/// halted core or an unknown opcode: the final core and memory, the number
/// of instructions executed, and the fault that stopped the run, if any.
pub open spec fn run(c: CPU, m: Seq<u8>, budget: nat) -> (CPU, Seq<u8>, nat, Option<StepError>)
    decreases budget,
{
    if budget == 0 || c.halted {
        (c, m, 0, None)
    } else {
        let (c1, m1, outcome) = transition(c, m);
        match outcome {
            Err(e) => (c1, m1, 0, Some(e)),
            Ok(_) => {
                let (c2, m2, n, fault) = run(c1, m1, (budget - 1) as nat);
                (c2, m2, n + 1, fault)
            },
        }
    }
}

/// The cells `address, address + 1, ...` (wrapping past `0xFFFF`), `length`
/// of them.
pub open spec fn window(m: Seq<u8>, address: u16, length: u16) -> Seq<u8> {
    Seq::new(length as nat, |i: int| m[(address as int + i) % 65536])
}

/// A CPU core bound to its own 64 KiB address space.
pub struct Emulator {
    pub cpu: CPU,
    pub memory: Memory,
}

impl Emulator {
    /// Zeroed memory and power-on registers; call `reset` before running.
    pub fn new() -> (e: Self)
        ensures
            e.cpu == CPU::new_state(),
            e.memory@ == Seq::new(65536, |i: int| 0u8),
    {
        Emulator { cpu: CPU::new(), memory: Memory::new() }
    }

    /// Runs the reset sequence of the core.
    pub fn reset(&mut self)
        ensures
            final(self).cpu == crate::cpu::reset_state(old(self).memory@),
            final(self).memory@ == old(self).memory@,
    {
        self.cpu.reset(&mut self.memory);
    }

    /// Executes one instruction.
    pub fn step(&mut self) -> (r: Result<(), StepError>)
        ensures
            (final(self).cpu, final(self).memory@, r) == transition(old(self).cpu, old(self).memory@),
    {
        self.cpu.step(&mut self.memory)
    }

    /// Steps until the core halts, an unknown opcode stops it, or `steps`
    /// instructions have run. The core is left exactly as the calls of
    /// `step` made would leave it: the `steps_executed` successful ones, plus
    /// the failing one (which moved `PC` past the unknown opcode and is not
    /// counted) when an unknown opcode stopped the run.
    pub fn execute_steps(&mut self, steps: u32) -> (r: ExecutionResult)
        ensures
            ({
                let (c, m, n, fault) = run(old(self).cpu, old(self).memory@, steps as nat);
                &&& final(self).cpu == c
                &&& final(self).memory@ == m
                &&& r.steps_executed == n
                &&& r.error == fault
            }),
            r.steps_executed <= steps,
            r.halted == final(self).cpu.halted,
            r.final_state == state_of(final(self).cpu),
    {
        let ghost c0 = self.cpu;
        let ghost m0 = self.memory@;
        let mut executed: u32 = 0;
        let mut fault: Option<StepError> = None;
        while executed < steps && !self.cpu.is_halted() && fault.is_none()
            invariant
                executed <= steps,
                fault is None ==> ({
                    let (c, m, n, f) = run(self.cpu, self.memory@, (steps - executed) as nat);
                    run(c0, m0, steps as nat) == (c, m, (n + executed) as nat, f)
                }),
                fault is Some ==> run(c0, m0, steps as nat) == (
                    self.cpu,
                    self.memory@,
                    executed as nat,
                    fault,
                ),
            decreases steps - executed, if fault is None { 1int } else { 0int },
        {
            match self.cpu.step(&mut self.memory) {
                Ok(()) => {
                    executed = executed + 1;
                },
                Err(e) => {
                    fault = Some(e);
                },
            }
        }
        let final_state = self.get_state();
        ExecutionResult {
            steps_executed: executed,
            halted: self.cpu.is_halted(),
            final_state,
            error: fault,
        }
    }

    /// Copies `data` into memory from `address` on, dropping what would fall
    /// past `0xFFFF`.
    pub fn load_program(&mut self, address: u16, data: &[u8])
        ensures
            final(self).memory@ == loaded(old(self).memory@, address, data@),
            final(self).cpu == old(self).cpu,
    {
        self.memory.load_rom(data, address);
    }

    /// `length` bytes from `address` on, wrapping past `0xFFFF`.
    pub fn read_memory(&self, address: u16, length: u16) -> (r: Vec<u8>)
        ensures
            r@ == window(self.memory@, address, length),
    {
        let mut out: Vec<u8> = Vec::new();
        let mut i: u16 = 0;
        while i < length
            invariant
                i <= length,
                out@ == window(self.memory@, address, i),
            decreases length - i,
        {
            out.push(self.memory.read(address.wrapping_add(i)));
            i = i + 1;
            assert(out@ =~= window(self.memory@, address, i));
        }
        out
    }

    pub fn write_memory(&mut self, address: u16, value: u8)
        ensures
            final(self).memory@ == old(self).memory@.update(address as int, value),
            final(self).cpu == old(self).cpu,
    {
        self.memory.write(address, value);
    }

    /// The registers, instruction count and halted latch.
    pub fn get_state(&self) -> (r: CpuState)
        ensures
            r == state_of(self.cpu),
    {
        CpuState {
            a: self.cpu.get_register_a(),
            x: self.cpu.get_register_x(),
            y: self.cpu.get_register_y(),
            pc: self.cpu.get_pc(),
            sp: self.cpu.get_sp(),
            status: self.cpu.get_status(),
            cycles: self.cpu.cycles,
            halted: self.cpu.is_halted(),
        }
    }

    /// All 65536 cells, address `0x0000` first.
    pub fn get_memory_dump(&self) -> (r: Vec<u8>)
        ensures
            r@ == self.memory@,
    {
        self.memory.dump()
    }

    /// Freezes the machine into a portable blob.
    pub fn snapshot(&self) -> (r: Vec<u8>)
        ensures
            r@ == blob_of(snapshot_of(self.cpu), self.memory@),
    {
        encode_snapshot(&self.cpu, &self.memory)
    }

    /// Replaces the whole machine state with the one a blob holds; on
    /// failure nothing changes.
    pub fn restore(&mut self, blob: &[u8]) -> (r: Result<(), RestoreError>)
        ensures
            match parse_blob(blob@) {
                Ok((s, image)) => r is Ok && final(self).cpu == core_of(s) && final(self).memory@
                    == image,
                Err(e) => r == Err::<(), RestoreError>(e) && final(self).cpu == old(self).cpu
                    && final(self).memory@ == old(self).memory@,
            },
    {
        restore_snapshot(blob, &mut self.cpu, &mut self.memory)
    }
}

} // verus!
