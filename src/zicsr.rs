//! CSRRW, CSRRS and CSRRC.
use crate::cpu::Cpu;
use crate::isa::Instr;
use crate::semantics::{applied, exec_csr_spec};
use crate::trap::Trap;
use vstd::prelude::*;

verus! {

/// Reads the CSR into `rd` and writes `rs1` (W), old | `rs1` (S) or old & !`rs1` (C) back.
/// An unknown CSR is an illegal instruction.
pub fn exec_csr(cpu: &mut Cpu, instr: Instr) -> (r: Result<(), Trap>)
    requires
        old(cpu).wf(),
    ensures
        final(cpu).wf(),
        applied(old(cpu)@, final(cpu)@, r, exec_csr_spec(old(cpu)@, instr.0)),
{
    let i = instr.as_i_type();
    let csr_addr = i.uimm();
    let funct3 = instr.funct3();
    if funct3 != 1 && funct3 != 2 && funct3 != 3 {
        return Err(Trap::IllegalInstruction(instr));
    }
    let csr_val = match cpu.csr_file.read(csr_addr) {
        Ok(v) => v,
        Err(_) => return Err(Trap::IllegalInstruction(instr)),
    };
    let rs1_val = cpu.reg_file.read(i.rs1());
    let new_val = if funct3 == 1 {
        rs1_val
    } else if funct3 == 2 {
        csr_val | rs1_val
    } else {
        csr_val & !rs1_val
    };
    if cpu.csr_file.write(csr_addr, new_val).is_err() {
        return Err(Trap::IllegalInstruction(instr));
    }
    cpu.reg_file.write(i.rd(), csr_val);
    Ok(())
}

} // verus!
