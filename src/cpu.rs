//! Machine state (registers, program counter, memory) and the
//! fetch/decode/execute cycle that advances it.

use vstd::prelude::*;
use crate::decode::{Op, decode, decode_spec};

verus! {

/// Top of the conventional memory arena (128 MiB); register 2 starts here.
pub const MEMORY_SIZE: u64 = 1024 * 1024 * 128;

/// Width in bytes of every instruction word.
pub const INSTRUCTION_WIDTH: u64 = 4;

/// Index of the register that software uses as its stack pointer.
pub const STACK_POINTER: usize = 2;

/// Why the machine could not go on.
#[derive(Clone, Copy, Debug, PartialEq, Eq, Structural)]
pub enum Fault {
    /// Fewer than four bytes of memory remain at the program counter `pc`.
    FetchOutOfBounds { pc: u64 },
}

/// Addition modulo 2^64.
pub open spec fn wrap_add(a: u64, b: u64) -> u64 {
    ((a as int + b as int) % 0x1_0000_0000_0000_0000) as u64
}

/// The little-endian word made of the four bytes at `addr`.
pub open spec fn word_at(mem: Seq<u8>, addr: int) -> u32 {
    (mem[addr] as int + 0x100 * mem[addr + 1] + 0x1_0000 * mem[addr + 2] + 0x100_0000 * mem[
        addr + 3]) as u32
}

/// Whether a whole instruction word lies in memory at `pc`.
pub open spec fn fetchable(mem: Seq<u8>, pc: int) -> bool {
    pc + INSTRUCTION_WIDTH <= mem.len()
}

/// A register write; writes to register 0 are discarded.
pub open spec fn write_reg(regs: Seq<u64>, rd: int, v: u64) -> Seq<u64> {
    if rd == 0 {
        regs
    } else {
        regs.update(rd, v)
    }
}

/// The register file after applying `op`: register 0 is cleared first, then
/// the operation's result is written.
pub open spec fn apply_spec(regs: Seq<u64>, op: Op) -> Seq<u64> {
    let r = regs.update(0, 0);
    match op {
        Op::AddImmediate { rd, rs1, imm } => write_reg(r, rd as int, wrap_add(r[rs1 as int], imm)),
        Op::AddRegister { rd, rs1, rs2 } => write_reg(
            r,
            rd as int,
            wrap_add(r[rs1 as int], r[rs2 as int]),
        ),
        Op::Undefined { .. } => r,
    }
}

/// The register file after executing the instruction word `inst`.
pub open spec fn execute_spec(regs: Seq<u64>, inst: u32) -> Seq<u64> {
    apply_spec(regs, decode_spec(inst))
}

/// Where a run that starts with registers `regs` at `pc` over `mem` stops:
/// the registers then, the program counter then, and whether it stopped by
/// reaching the end of memory (`true`) or on a word cut short by it (`false`).
pub open spec fn run_spec(regs: Seq<u64>, pc: int, mem: Seq<u8>) -> (Seq<u64>, int, bool)
    decreases mem.len() - pc,
{
    if pc >= mem.len() {
        (regs, pc, true)
    } else if !fetchable(mem, pc) {
        (regs, pc, false)
    } else {
        run_spec(execute_spec(regs, word_at(mem, pc)), pc + INSTRUCTION_WIDTH, mem)
    }
}

/// The emulated machine: 32 registers, a program counter and a flat memory.
pub struct Cpu {
    /// The register file; register 0 always reads 0 after an instruction.
    pub regs: [u64; 32],
    /// Byte address of the next instruction to fetch.
    pub pc: u64,
    /// Byte-addressable memory, loaded with the binary image.
    pub memory: Vec<u8>,
}

impl Cpu {
    /// A machine whose memory is `binary`, with every register 0 but register 2,
    /// which holds `stack_top`, and the program counter at 0.
    pub fn with_stack_top(binary: Vec<u8>, stack_top: u64) -> (cpu: Cpu)
        ensures
            cpu.regs@ == Seq::new(32, |i: int| if i == STACK_POINTER { stack_top } else { 0 }),
            cpu.pc == 0,
            cpu.memory@ == binary@,
    {
        let mut regs = [0u64; 32];
        regs[STACK_POINTER] = stack_top;
        let cpu = Cpu { regs, pc: 0, memory: binary };
        assert(cpu.regs@ =~= Seq::new(32, |i: int| if i == STACK_POINTER { stack_top } else { 0 }));
        cpu
    }

    /// A machine whose memory is `binary`, with register 2 at the top of the
    /// conventional arena (`MEMORY_SIZE`).
    pub fn new(binary: Vec<u8>) -> (cpu: Cpu)
        ensures
            cpu.regs@ == Seq::new(32, |i: int| if i == STACK_POINTER { MEMORY_SIZE } else { 0 }),
            cpu.pc == 0,
            cpu.memory@ == binary@,
    {
        Cpu::with_stack_top(binary, MEMORY_SIZE)
    }

    /// Whether the program counter has reached or passed the end of memory.
    pub fn halted(&self) -> (r: bool)
        ensures
            r == (self.pc >= self.memory@.len()),
    {
        self.pc >= self.memory.len() as u64
    }

    /// The little-endian word at the program counter, or `None` where fewer
    /// than four bytes of memory remain there.
    pub fn fetch(&self) -> (r: Option<u32>)
        ensures
            r == if fetchable(self.memory@, self.pc as int) {
                Some(word_at(self.memory@, self.pc as int))
            } else {
                None::<u32>
            },
    {
        let len = self.memory.len() as u64;
        if self.pc > len || len - self.pc < INSTRUCTION_WIDTH {
            return None;
        }
        let index = self.pc as usize;
        let b0 = self.memory[index];
        let b1 = self.memory[index + 1];
        let b2 = self.memory[index + 2];
        let b3 = self.memory[index + 3];
        assert((b0 as u32) | ((b1 as u32) << 8) | ((b2 as u32) << 16) | ((b3 as u32) << 24) == (b0
            + 0x100 * b1 + 0x1_0000 * b2 + 0x100_0000 * b3) as u32) by (bit_vector);
        Some((b0 as u32) | ((b1 as u32) << 8) | ((b2 as u32) << 16) | ((b3 as u32) << 24))
    }

    /// Applies a decoded operation to the register file: register 0 is cleared,
    /// then the result, if any, is written (a write to register 0 is dropped).
    pub fn apply(&mut self, op: Op)
        requires
            op.wf(),
        ensures
            final(self).regs@ == apply_spec(old(self).regs@, op),
            final(self).regs[0] == 0,
            final(self).pc == old(self).pc,
            final(self).memory@ == old(self).memory@,
    {
        self.regs[0] = 0;
        match op {
            Op::AddImmediate { rd, rs1, imm } => {
                let v = self.regs[rs1].wrapping_add(imm);
                if rd != 0 {
                    self.regs[rd] = v;
                }
            },
            Op::AddRegister { rd, rs1, rs2 } => {
                let v = self.regs[rs1].wrapping_add(self.regs[rs2]);
                if rd != 0 {
                    self.regs[rd] = v;
                }
            },
            Op::Undefined { .. } => {},
        }
        assert(self.regs@ =~= apply_spec(old(self).regs@, op));
    }

    /// Decodes and executes one instruction word; the program counter and the
    /// memory are left alone.
    pub fn execute(&mut self, inst: u32)
        ensures
            final(self).regs@ == execute_spec(old(self).regs@, inst),
            final(self).regs[0] == 0,
            final(self).pc == old(self).pc,
            final(self).memory@ == old(self).memory@,
    {
        self.apply(decode(inst));
    }

    /// One cycle: fetch the word at the program counter, advance the program
    /// counter by four, then execute the word. Returns the decoded operation,
    /// or a fault, with the machine unchanged, where the word is cut short by
    /// the end of memory.
    pub fn step(&mut self) -> (r: Result<Op, Fault>)
        ensures
            final(self).memory@ == old(self).memory@,
            fetchable(old(self).memory@, old(self).pc as int) ==> {
                let inst = word_at(old(self).memory@, old(self).pc as int);
                &&& r == Ok::<Op, Fault>(decode_spec(inst))
                &&& final(self).pc == old(self).pc + INSTRUCTION_WIDTH
                &&& final(self).regs@ == execute_spec(old(self).regs@, inst)
                &&& final(self).regs[0] == 0
            },
            !fetchable(old(self).memory@, old(self).pc as int) ==> {
                &&& r == Err::<Op, Fault>(Fault::FetchOutOfBounds { pc: old(self).pc })
                &&& *final(self) == *old(self)
            },
    {
        match self.fetch() {
            None => Err(Fault::FetchOutOfBounds { pc: self.pc }),
            Some(inst) => {
                // The memory length, a usize, bounds the advanced program counter.
                let len = self.memory.len();
                assert(self.pc + INSTRUCTION_WIDTH <= len);
                self.pc = self.pc + INSTRUCTION_WIDTH;
                let op = decode(inst);
                self.apply(op);
                Ok(op)
            },
        }
    }

    /// Steps until the program counter reaches or passes the end of memory.
    /// Fails, with the machine stopped at the faulting address, where a word
    /// is cut short by the end of memory.
    pub fn run(&mut self) -> (r: Result<(), Fault>)
        ensures
            final(self).memory@ == old(self).memory@,
            ({
                let (regs, pc, completed) = run_spec(
                    old(self).regs@,
                    old(self).pc as int,
                    old(self).memory@,
                );
                &&& final(self).regs@ == regs
                &&& final(self).pc == pc
                &&& completed ==> r == Ok::<(), Fault>(())
                &&& !completed ==> r == Err::<(), Fault>(Fault::FetchOutOfBounds { pc: pc as u64 })
            }),
    {
        while self.pc < self.memory.len() as u64
            invariant
                self.memory@ == old(self).memory@,
                run_spec(self.regs@, self.pc as int, self.memory@) == run_spec(
                    old(self).regs@,
                    old(self).pc as int,
                    old(self).memory@,
                ),
            decreases self.memory@.len() - self.pc,
        {
            match self.step() {
                Err(f) => return Err(f),
                Ok(_) => {},
            }
        }
        Ok(())
    }
}

} // verus!
