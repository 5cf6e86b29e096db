//! The base integer instructions.
use crate::cpu::Cpu;
use crate::isa::Instr;
use crate::semantics::{
    applied, exec_auipc_spec, exec_branch_spec, exec_jal_spec, exec_jalr_spec, exec_load_spec,
    exec_lui_spec, exec_op_imm_spec, exec_op_reg_spec, exec_store_spec,
};
use crate::trap::Trap;
use vstd::prelude::*;

verus! {

/// ADDI, SLTI, SLTIU, XORI, ORI, ANDI, SLLI, SRLI and SRAI.
pub fn exec_op_imm(cpu: &mut Cpu, instr: Instr) -> (r: Result<(), Trap>)
    requires
        old(cpu).wf(),
    ensures
        final(cpu).wf(),
        applied(old(cpu)@, final(cpu)@, r, exec_op_imm_spec(old(cpu)@, instr.0)),
{
    let i = instr.as_i_type();
    let a = cpu.reg_file.read(i.rs1());
    let imm = i.imm();
    let b = imm as u32;
    let shamt = b & 0x1f;
    assert(b & 0x1f < 32) by (bit_vector);
    let funct7 = instr.funct7();
    let v: u32 = match instr.funct3() {
        0 => a.wrapping_add_signed(imm),
        2 => if (a as i32) < imm {
            1
        } else {
            0
        },
        3 => if a < b {
            1
        } else {
            0
        },
        4 => a ^ b,
        6 => a | b,
        7 => a & b,
        1 => {
            if funct7 != 0 {
                return Err(Trap::IllegalInstruction(instr));
            }
            a << shamt
        },
        5 => {
            if funct7 == 0 {
                a >> shamt
            } else if funct7 == 0x20 {
                ((a as i32) >> shamt) as u32
            } else {
                return Err(Trap::IllegalInstruction(instr));
            }
        },
        _ => return Err(Trap::IllegalInstruction(instr)),
    };
    cpu.reg_file.write(i.rd(), v);
    Ok(())
}

/// ADD, SUB, SLL, SLT, SLTU, XOR, SRL, SRA, OR and AND.
pub fn exec_op_reg(cpu: &mut Cpu, instr: Instr) -> (r: Result<(), Trap>)
    requires
        old(cpu).wf(),
    ensures
        final(cpu).wf(),
        applied(old(cpu)@, final(cpu)@, r, exec_op_reg_spec(old(cpu)@, instr.0)),
{
    let rt = instr.as_r_type();
    let a = cpu.reg_file.read(rt.rs1());
    let b = cpu.reg_file.read(rt.rs2());
    let shamt = b & 0x1f;
    assert(b & 0x1f < 32) by (bit_vector);
    let funct3 = instr.funct3();
    let funct7 = instr.funct7();
    let v: u32 = if funct7 == 0 {
        match funct3 {
            0 => a.wrapping_add(b),
            1 => a << shamt,
            2 => if (a as i32) < (b as i32) {
                1
            } else {
                0
            },
            3 => if a < b {
                1
            } else {
                0
            },
            4 => a ^ b,
            5 => a >> shamt,
            6 => a | b,
            _ => a & b,
        }
    } else if funct7 == 0x20 && funct3 == 0 {
        a.wrapping_sub(b)
    } else if funct7 == 0x20 && funct3 == 5 {
        ((a as i32) >> shamt) as u32
    } else {
        return Err(Trap::IllegalInstruction(instr));
    };
    cpu.reg_file.write(rt.rd(), v);
    Ok(())
}

/// LUI: `rd` takes the U-immediate.
pub fn exec_lui(cpu: &mut Cpu, instr: Instr) -> (r: Result<(), Trap>)
    requires
        old(cpu).wf(),
    ensures
        final(cpu).wf(),
        applied(old(cpu)@, final(cpu)@, r, exec_lui_spec(old(cpu)@, instr.0)),
{
    let u = instr.as_u_type();
    cpu.reg_file.write(u.rd(), u.imm());
    Ok(())
}

/// AUIPC: `rd` takes `pc` plus the U-immediate.
pub fn exec_auipc(cpu: &mut Cpu, instr: Instr) -> (r: Result<(), Trap>)
    requires
        old(cpu).wf(),
    ensures
        final(cpu).wf(),
        applied(old(cpu)@, final(cpu)@, r, exec_auipc_spec(old(cpu)@, instr.0)),
{
    let u = instr.as_u_type();
    let v = cpu.pc.wrapping_add(u.imm());
    cpu.reg_file.write(u.rd(), v);
    Ok(())
}

/// JAL: `rd` takes the return address; the jump is relative to `pc`.
pub fn exec_jal(cpu: &mut Cpu, instr: Instr) -> (r: Result<(), Trap>)
    requires
        old(cpu).wf(),
    ensures
        final(cpu).wf(),
        applied(old(cpu)@, final(cpu)@, r, exec_jal_spec(old(cpu)@, instr.0)),
{
    let j = instr.as_j_type();
    let link = cpu.pc.wrapping_add(4);
    cpu.next_pc = cpu.pc.wrapping_add_signed(j.imm());
    cpu.reg_file.write(j.rd(), link);
    Ok(())
}

/// JALR: `rd` takes the return address; the target is `rs1` plus the immediate, bit 0 cleared.
pub fn exec_jalr(cpu: &mut Cpu, instr: Instr) -> (r: Result<(), Trap>)
    requires
        old(cpu).wf(),
    ensures
        final(cpu).wf(),
        applied(old(cpu)@, final(cpu)@, r, exec_jalr_spec(old(cpu)@, instr.0)),
{
    if instr.funct3() != 0 {
        return Err(Trap::IllegalInstruction(instr));
    }
    let i = instr.as_i_type();
    let base = cpu.reg_file.read(i.rs1());
    let link = cpu.pc.wrapping_add(4);
    cpu.next_pc = base.wrapping_add_signed(i.imm()) & !1u32;
    cpu.reg_file.write(i.rd(), link);
    Ok(())
}

/// BEQ, BNE, BLT, BGE, BLTU and BGEU: a taken branch jumps relative to `pc`.
pub fn exec_branch(cpu: &mut Cpu, instr: Instr) -> (r: Result<(), Trap>)
    requires
        old(cpu).wf(),
    ensures
        final(cpu).wf(),
        applied(old(cpu)@, final(cpu)@, r, exec_branch_spec(old(cpu)@, instr.0)),
{
    let bt = instr.as_b_type();
    let a = cpu.reg_file.read(bt.rs1());
    let b = cpu.reg_file.read(bt.rs2());
    let taken = match instr.funct3() {
        0 => a == b,
        1 => a != b,
        4 => (a as i32) < (b as i32),
        5 => (a as i32) >= (b as i32),
        6 => a < b,
        7 => a >= b,
        _ => return Err(Trap::IllegalInstruction(instr)),
    };
    if taken {
        cpu.next_pc = cpu.pc.wrapping_add_signed(bt.imm());
    }
    Ok(())
}

/// LB, LH, LW, LBU and LHU at `rs1` plus the immediate, translated.
pub fn exec_load(cpu: &mut Cpu, instr: Instr) -> (r: Result<(), Trap>)
    requires
        old(cpu).wf(),
    ensures
        final(cpu).wf(),
        applied(old(cpu)@, final(cpu)@, r, exec_load_spec(old(cpu)@, instr.0)),
{
    let funct3 = instr.funct3();
    let size: u8 = match funct3 {
        0 | 4 => 1,
        1 | 5 => 2,
        2 => 4,
        _ => return Err(Trap::IllegalInstruction(instr)),
    };
    let i = instr.as_i_type();
    let vaddr = cpu.reg_file.read(i.rs1()).wrapping_add_signed(i.imm());
    let paddr = match cpu.translate(vaddr) {
        Ok(pa) => pa,
        Err(t) => return Err(t),
    };
    let raw = match cpu.bus.load(paddr, size) {
        Ok(v) => v,
        Err(e) => return Err(Trap::from(e)),
    };
    let v = match funct3 {
        0 => (raw as u8 as i8 as i32) as u32,
        1 => (raw as u16 as i16 as i32) as u32,
        _ => raw,
    };
    cpu.reg_file.write(i.rd(), v);
    Ok(())
}

/// SB, SH and SW of `rs2` at `rs1` plus the immediate, translated.
pub fn exec_store(cpu: &mut Cpu, instr: Instr) -> (r: Result<(), Trap>)
    requires
        old(cpu).wf(),
    ensures
        final(cpu).wf(),
        applied(old(cpu)@, final(cpu)@, r, exec_store_spec(old(cpu)@, instr.0)),
{
    let size: u8 = match instr.funct3() {
        0 => 1,
        1 => 2,
        2 => 4,
        _ => return Err(Trap::IllegalInstruction(instr)),
    };
    let st = instr.as_s_type();
    let vaddr = cpu.reg_file.read(st.rs1()).wrapping_add_signed(st.imm());
    let val = cpu.reg_file.read(st.rs2());
    let paddr = match cpu.translate(vaddr) {
        Ok(pa) => pa,
        Err(t) => return Err(t),
    };
    match cpu.bus.store(paddr, size, val) {
        Ok(()) => Ok(()),
        Err(e) => Err(Trap::from(e)),
    }
}

} // verus!
