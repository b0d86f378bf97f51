//! Register file of the emulated AArch64 CPU and the decisions made on it.
//!
//! Running guest code is done by the dynamic recompiler, which lives outside
//! this library; here is the register state the rest of the emulator reads
//! and writes around those runs, and the decoding of a run's result.
use vstd::prelude::*;

verus! {

/// Number of 64-bit registers exposed by the CPU: X0-X30, SP and PC.
pub const REG_COUNT: usize = 33;

/// Register state of the emulated CPU.
pub struct Cpu {
    regs: Vec<u64>,
}

/// Why a run of the CPU stopped.
#[derive(Debug, PartialEq, Eq, Structural)]
pub enum CpuState {
    Normal,
    Svc(u32),
    Error(CpuError),
}

#[derive(Debug, Clone, Copy, PartialEq, Eq, Structural)]
pub enum CpuError {
    MemoryError,
    UndefinedInstruction,
    Breakpoint,
}

/// What a raw result code of a CPU run means. Codes below -4 are never
/// produced.
pub open spec fn run_result_meaning(res: i32) -> CpuState {
    if res == -1 {
        CpuState::Normal
    } else if res == -2 {
        CpuState::Error(CpuError::MemoryError)
    } else if res == -3 {
        CpuState::Error(CpuError::UndefinedInstruction)
    } else if res == -4 {
        CpuState::Error(CpuError::Breakpoint)
    } else {
        CpuState::Svc(res as u32)
    }
}

/// Decodes the result code of a CPU run: -1 is a normal stop, -2 to -4 are
/// errors and any non-negative code is the number of the SVC that stopped it.
pub fn decode_run_result(res: i32) -> (state: CpuState)
    requires
        res >= -4,
    ensures
        state == run_result_meaning(res),
{
    if res == -1 {
        CpuState::Normal
    } else if res == -2 {
        CpuState::Error(CpuError::MemoryError)
    } else if res == -3 {
        CpuState::Error(CpuError::UndefinedInstruction)
    } else if res == -4 {
        CpuState::Error(CpuError::Breakpoint)
    } else {
        CpuState::Svc(res as u32)
    }
}

impl Cpu {
    pub const SP: usize = 31;
    pub const PC: usize = 32;
    pub const LR: usize = 30;

    pub closed spec fn view_regs(&self) -> Seq<u64> {
        self.regs@
    }

    pub open spec fn wf(&self) -> bool {
        self.view_regs().len() == REG_COUNT
    }

    /// A CPU with all registers zeroed.
    pub fn new() -> (cpu: Cpu)
        ensures
            cpu.wf(),
            forall|i: int| 0 <= i < REG_COUNT ==> cpu.view_regs()[i] == 0,
    {
        let mut regs: Vec<u64> = Vec::new();
        let mut i: usize = 0;
        while i < REG_COUNT
            invariant
                i <= REG_COUNT,
                regs@.len() == i,
                forall|j: int| 0 <= j < i ==> regs@[j] == 0,
            decreases REG_COUNT - i,
        {
            regs.push(0);
            i = i + 1;
        }
        Cpu { regs }
    }

    /// The registers, X0-X30, SP, PC.
    pub fn regs(&self) -> (r: &[u64])
        ensures
            r@ == self.view_regs(),
    {
        self.regs.as_slice()
    }

    /// The registers, for writing.
    pub fn regs_mut(&mut self) -> (r: &mut [u64])
        ensures
            r@ == old(self).view_regs(),
            final(self).view_regs() == final(r)@,
    {
        self.regs.as_mut_slice()
    }

    pub fn reg(&self, i: usize) -> (v: u64)
        requires
            self.wf(),
            i < REG_COUNT,
        ensures
            v == self.view_regs()[i as int],
    {
        self.regs[i]
    }

    pub fn set_reg(&mut self, i: usize, v: u64)
        requires
            old(self).wf(),
            i < REG_COUNT,
        ensures
            final(self).wf(),
            final(self).view_regs() == old(self).view_regs().update(i as int, v),
    {
        self.regs.set(i, v);
    }

    /// Jumps to `new_pc`. AArch64 has no Thumb bit, so the address is used as
    /// it is.
    pub fn branch(&mut self, new_pc: u64)
        requires
            old(self).wf(),
        ensures
            final(self).wf(),
            final(self).view_regs() == old(self).view_regs().update(Cpu::PC as int, new_pc),
    {
        self.regs.set(Cpu::PC, new_pc);
    }

    /// Jumps to `new_pc` with `new_lr` as the return address, and gives back
    /// the previous PC and LR so that they can be restored afterwards.
    pub fn branch_with_link(&mut self, new_pc: u64, new_lr: u64) -> (old_pc_lr: (u64, u64))
        requires
            old(self).wf(),
        ensures
            final(self).wf(),
            old_pc_lr == (old(self).view_regs()[Cpu::PC as int], old(self).view_regs()[Cpu::LR as int]),
            final(self).view_regs() == old(self).view_regs().update(Cpu::PC as int, new_pc).update(
                Cpu::LR as int,
                new_lr,
            ),
    {
        let old_pc = self.regs[Cpu::PC];
        let old_lr = self.regs[Cpu::LR];
        self.branch(new_pc);
        self.regs.set(Cpu::LR, new_lr);
        (old_pc, old_lr)
    }
}

/// Branching with link and then branching back to the returned PC and
/// restoring the returned LR gives back the PC and LR from before the call.
pub proof fn law_branch_with_link_undone(regs: Seq<u64>, new_pc: u64, new_lr: u64)
    requires
        regs.len() == REG_COUNT,
    ensures
        ({
            let after = regs.update(Cpu::PC as int, new_pc).update(Cpu::LR as int, new_lr);
            after.update(Cpu::PC as int, regs[Cpu::PC as int]).update(
                Cpu::LR as int,
                regs[Cpu::LR as int],
            ) =~= regs
        }),
{
}

} // verus!
