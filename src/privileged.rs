//! ECALL and MRET.
use crate::cpu::Cpu;
use crate::isa::{funct3_of, Instr};
use crate::semantics::{applied, exec_privileged_spec, MRET_FUNCT12};
use crate::trap::Trap;
use vstd::prelude::*;

verus! {

/// SYSTEM instructions with `funct3` zero are privileged; the others are Zicsr.
pub fn is_privileged(instr: Instr) -> (r: bool)
    ensures
        r == (funct3_of(instr.0) == 0),
{
    instr.funct3() == 0
}

/// ECALL raises an environment call from the current mode; MRET returns from a trap.
pub fn exec_privileged(cpu: &mut Cpu, instr: Instr) -> (r: Result<(), Trap>)
    requires
        old(cpu).wf(),
    ensures
        final(cpu).wf(),
        applied(old(cpu)@, final(cpu)@, r, exec_privileged_spec(old(cpu)@, instr.0)),
{
    let funct12 = instr.as_i_type().uimm();
    if funct12 == 0 {
        Err(Trap::EnvironmentCall(cpu.priv_mode))
    } else if funct12 as u32 == MRET_FUNCT12 {
        cpu.priv_mode = cpu.csr_file.return_from_exception_mode();
        cpu.next_pc = cpu.csr_file.get_mepc();
        Ok(())
    } else {
        Err(Trap::IllegalInstruction(instr))
    }
}

} // verus!
