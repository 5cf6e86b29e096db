//! The hart: fetch, decode, execute, and trap entry or commit.
use crate::bus::Bus;
use crate::csrs::CsrFile;
use crate::isa::{
    Instr, PrivilegeMode, INSTRUCTION_SIZE, OP_AUIPC, OP_BRANCH, OP_IMM, OP_JAL, OP_JALR, OP_LOAD,
    OP_LUI, OP_REG, OP_STORE, OP_SYSTEM,
};
use crate::privileged::{exec_privileged, is_privileged};
use crate::registers::RegFile;
use crate::rv32i::{
    exec_auipc, exec_branch, exec_jal, exec_jalr, exec_load, exec_lui, exec_op_imm, exec_op_reg,
    exec_store,
};
use crate::semantics::{self, applied, trap_entry, CpuState};
use crate::trap::Trap;
use crate::zicsr::exec_csr;
use vstd::prelude::*;

verus! {

/// Where execution starts when no reset vector is given.
pub const DEFAULT_RESET_VECTOR: u32 = 0x8000_0000;

pub struct Cpu {
    pub pc: u32,
    pub next_pc: u32,
    pub reg_file: RegFile,
    pub csr_file: CsrFile,
    pub bus: Bus,
    pub priv_mode: PrivilegeMode,
}

impl View for Cpu {
    type V = CpuState;

    open spec fn view(&self) -> CpuState {
        CpuState {
            pc: self.pc,
            next_pc: self.next_pc,
            regs: self.reg_file@,
            csrs: self.csr_file,
            bus: self.bus@,
            priv_mode: self.priv_mode,
        }
    }
}

impl Cpu {
    pub open spec fn wf(&self) -> bool {
        self.reg_file.wf() && self.bus.wf()
    }

    /// A hart at reset: registers zero, Machine mode, `pc` at the reset vector.
    pub fn new(bus: Bus, reset_vector: Option<u32>) -> (r: Cpu)
        requires
            bus.wf(),
        ensures
            r.wf(),
            r.pc == (match reset_vector {
                Some(v) => v,
                None => DEFAULT_RESET_VECTOR,
            }),
            r.next_pc == r.pc,
            r@.regs == Seq::new(32, |i: int| 0u32),
            r.csr_file == CsrFile::new_spec(),
            r@.bus == bus@,
            r.priv_mode == PrivilegeMode::Machine,
    {
        let start = match reset_vector {
            Some(v) => v,
            None => DEFAULT_RESET_VECTOR,
        };
        Cpu {
            pc: start,
            next_pc: start,
            reg_file: RegFile::new(),
            csr_file: CsrFile::new(),
            bus,
            priv_mode: PrivilegeMode::Machine,
        }
    }

    /// Sv32 translation of `vaddr` under the current `satp`.
    pub fn translate(&mut self, vaddr: u32) -> (r: Result<u32, Trap>)
        requires
            old(self).wf(),
        ensures
            final(self).wf(),
            final(self)@ == old(self)@,
            r == semantics::translate(old(self)@, vaddr),
    {
        let satp = self.csr_file.get_satp();
        if satp & 0x8000_0000 == 0 {
            return Ok(vaddr);
        }
        let root = (satp & 0x003f_ffff) << 12;
        let pte1_addr = root | (((vaddr >> 22) & 0x3ff) << 2);
        let pte1 = match self.bus.load(pte1_addr, 4) {
            Ok(v) => v,
            Err(e) => return Err(Trap::from(e)),
        };
        let table = ((pte1 >> 10) & 0x003f_ffff) << 12;
        let pte0_addr = table | (((vaddr >> 12) & 0x3ff) << 2);
        let pte0 = match self.bus.load(pte0_addr, 4) {
            Ok(v) => v,
            Err(e) => return Err(Trap::from(e)),
        };
        Ok((((pte0 >> 10) & 0x003f_ffff) << 12) | (vaddr & 0xfff))
    }

    /// The instruction at `pc`.
    pub fn fetch(&mut self) -> (r: Result<Instr, Trap>)
        requires
            old(self).wf(),
        ensures
            final(self).wf(),
            final(self)@ == old(self)@,
            r == (match semantics::fetch(old(self)@) {
                Ok(w) => Ok(Instr(w)),
                Err(t) => Err(t),
            }),
    {
        let pc = self.pc;
        let pa = match self.translate(pc) {
            Ok(pa) => pa,
            Err(t) => return Err(t),
        };
        match self.bus.load(pa, INSTRUCTION_SIZE) {
            Ok(w) => Ok(Instr::new(w)),
            Err(e) => Err(Trap::from(e)),
        }
    }

    /// Executes `instr`, with `next_pc` already past it.
    pub fn execute(&mut self, instr: Instr) -> (r: Result<(), Trap>)
        requires
            old(self).wf(),
        ensures
            final(self).wf(),
            applied(old(self)@, final(self)@, r, semantics::execute(old(self)@, instr.0)),
    {
        let op = instr.opcode();
        if op == OP_IMM {
            exec_op_imm(self, instr)
        } else if op == OP_REG {
            exec_op_reg(self, instr)
        } else if op == OP_LUI {
            exec_lui(self, instr)
        } else if op == OP_AUIPC {
            exec_auipc(self, instr)
        } else if op == OP_JAL {
            exec_jal(self, instr)
        } else if op == OP_JALR {
            exec_jalr(self, instr)
        } else if op == OP_BRANCH {
            exec_branch(self, instr)
        } else if op == OP_LOAD {
            exec_load(self, instr)
        } else if op == OP_STORE {
            exec_store(self, instr)
        } else if op == OP_SYSTEM {
            if is_privileged(instr) {
                exec_privileged(self, instr)
            } else {
                exec_csr(self, instr)
            }
        } else {
            Err(Trap::IllegalInstruction(instr))
        }
    }

    /// One instruction: fetch, execute, then trap entry or `minstret` + 1; then `pc` takes
    /// `next_pc` and `mcycle` counts the step.
    pub fn step(&mut self)
        requires
            old(self).wf(),
        ensures
            final(self).wf(),
            final(self)@ == semantics::step(old(self)@),
            final(self).pc == final(self).next_pc,
            final(self).reg_file@[0] == 0,
    {
        match self.try_step() {
            Ok(()) => self.csr_file.increment_instret(),
            Err(trap) => self.handle_trap(trap),
        }
        self.pc = self.next_pc;
        self.csr_file.increment_cycle();
    }

    fn try_step(&mut self) -> (r: Result<(), Trap>)
        requires
            old(self).wf(),
        ensures
            final(self).wf(),
            match semantics::step_outcome(old(self)@) {
                Ok(s) => r is Ok && final(self)@ == s,
                Err(t) => r == Err::<(), Trap>(t) && final(self)@ == (CpuState {
                    next_pc: final(self).next_pc,
                    ..old(self)@
                }),
            },
    {
        let instr = match self.fetch() {
            Ok(i) => i,
            Err(t) => return Err(t),
        };
        self.next_pc = self.pc.wrapping_add(INSTRUCTION_SIZE as u32);
        self.execute(instr)
    }

    /// Trap entry (see `trap_entry`).
    pub fn handle_trap(&mut self, trap: Trap)
        requires
            old(self).wf(),
        ensures
            final(self).wf(),
            final(self)@ == trap_entry(old(self)@, trap),
    {
        let pc = self.pc;
        let prev = self.priv_mode;
        self.csr_file.set_exception_pc(pc);
        self.csr_file.set_cause(trap.cause_code());
        self.csr_file.set_mtval(trap.value());
        self.csr_file.enter_exception_mode(prev);
        self.priv_mode = PrivilegeMode::Machine;
        self.next_pc = self.csr_file.get_mtvec();
    }
}

} // verus!
