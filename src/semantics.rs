//! The machine as a mathematical state, and what one step does to it.
use crate::bus::{bus_after_store, bus_load, bus_store_result, DeviceState};
use crate::csrs::{csr_value, csr_written, is_csr, mpp_bits, mstatus_on_return, mstatus_on_trap, CsrFile};
use crate::isa::{
    b_imm, funct3_of, funct7_of, i_field, i_imm, j_imm, opcode_of, rd_of, rs1_of, rs2_of, s_imm,
    u_imm, Instr, PrivilegeMode, OP_AUIPC, OP_BRANCH, OP_IMM, OP_JAL, OP_JALR, OP_LOAD, OP_LUI,
    OP_REG, OP_STORE, OP_SYSTEM,
};
use crate::registers::write_reg;
use crate::trap::{trap_of_bus_error, Trap};
use vstd::prelude::*;

verus! {

/// Everything that a step reads or changes.
pub struct CpuState {
    pub pc: u32,
    pub next_pc: u32,
    pub regs: Seq<u32>,
    pub csrs: CsrFile,
    pub bus: Seq<(u32, DeviceState)>,
    pub priv_mode: PrivilegeMode,
}

impl CpuState {
    pub open spec fn wf(self) -> bool {
        &&& self.regs.len() == 32
        &&& self.regs[0] == 0
        &&& forall|i: int| 0 <= i < self.bus.len() ==> (#[trigger] self.bus[i]).1.wf()
    }

    pub open spec fn reg(self, idx: u8) -> u32 {
        self.regs[idx as int]
    }

    /// The state with `val` written to register `rd` (dropped for x0).
    pub open spec fn with_reg(self, rd: u8, val: u32) -> CpuState {
        CpuState { regs: write_reg(self.regs, rd as int, val), ..self }
    }
}

/// Sv32: the physical address of `vaddr` under the current `satp`. In bare mode the address
/// is its own translation; otherwise the two page-table entries are read from the bus, and a
/// failed read faults at the entry's address.
pub open spec fn translate(s: CpuState, vaddr: u32) -> Result<u32, Trap> {
    let satp = s.csrs.satp;
    if satp & 0x8000_0000 == 0 {
        Ok(vaddr)
    } else {
        let root = (satp & 0x003f_ffff) << 12;
        let pte1_addr = root | (((vaddr >> 22) & 0x3ff) << 2);
        match bus_load(s.bus, pte1_addr, 4) {
            Err(e) => Err(trap_of_bus_error(e)),
            Ok(pte1) => {
                let table = ((pte1 >> 10) & 0x003f_ffff) << 12;
                let pte0_addr = table | (((vaddr >> 12) & 0x3ff) << 2);
                match bus_load(s.bus, pte0_addr, 4) {
                    Err(e) => Err(trap_of_bus_error(e)),
                    Ok(pte0) => Ok((((pte0 >> 10) & 0x003f_ffff) << 12) | (vaddr & 0xfff)),
                }
            },
        }
    }
}

/// The instruction word at `pc`.
pub open spec fn fetch(s: CpuState) -> Result<u32, Trap> {
    match translate(s, s.pc) {
        Err(t) => Err(t),
        Ok(pa) => match bus_load(s.bus, pa, 4) {
            Err(e) => Err(trap_of_bus_error(e)),
            Ok(w) => Ok(w),
        },
    }
}

/// OP-IMM: the result for `funct3`/`funct7` on `a` and the immediate, or `None` for an
/// encoding that is not an instruction.
pub open spec fn alu_imm(funct3: u8, funct7: u8, a: u32, imm: i32) -> Option<u32> {
    let b = imm as u32;
    let shamt = b & 0x1f;
    if funct3 == 0 {
        Some(a.wrapping_add_signed(imm))
    } else if funct3 == 2 {
        Some(if (a as i32) < imm { 1u32 } else { 0u32 })
    } else if funct3 == 3 {
        Some(if a < b { 1u32 } else { 0u32 })
    } else if funct3 == 4 {
        Some(a ^ b)
    } else if funct3 == 6 {
        Some(a | b)
    } else if funct3 == 7 {
        Some(a & b)
    } else if funct3 == 1 {
        if funct7 == 0 { Some(a << shamt) } else { None }
    } else if funct3 == 5 {
        if funct7 == 0 {
            Some(a >> shamt)
        } else if funct7 == 0x20 {
            Some(((a as i32) >> shamt) as u32)
        } else {
            None
        }
    } else {
        None
    }
}

/// OP: the result for `funct3`/`funct7` on `a` and `b`, or `None`.
pub open spec fn alu_reg(funct3: u8, funct7: u8, a: u32, b: u32) -> Option<u32> {
    let shamt = b & 0x1f;
    if funct7 == 0 {
        if funct3 == 0 {
            Some(a.wrapping_add(b))
        } else if funct3 == 1 {
            Some(a << shamt)
        } else if funct3 == 2 {
            Some(if (a as i32) < (b as i32) { 1u32 } else { 0u32 })
        } else if funct3 == 3 {
            Some(if a < b { 1u32 } else { 0u32 })
        } else if funct3 == 4 {
            Some(a ^ b)
        } else if funct3 == 5 {
            Some(a >> shamt)
        } else if funct3 == 6 {
            Some(a | b)
        } else if funct3 == 7 {
            Some(a & b)
        } else {
            None
        }
    } else if funct7 == 0x20 {
        if funct3 == 0 {
            Some(a.wrapping_sub(b))
        } else if funct3 == 5 {
            Some(((a as i32) >> shamt) as u32)
        } else {
            None
        }
    } else {
        None
    }
}

/// BRANCH: whether the branch is taken, or `None`.
pub open spec fn branch_taken(funct3: u8, a: u32, b: u32) -> Option<bool> {
    if funct3 == 0 {
        Some(a == b)
    } else if funct3 == 1 {
        Some(a != b)
    } else if funct3 == 4 {
        Some((a as i32) < (b as i32))
    } else if funct3 == 5 {
        Some((a as i32) >= (b as i32))
    } else if funct3 == 6 {
        Some(a < b)
    } else if funct3 == 7 {
        Some(a >= b)
    } else {
        None
    }
}

/// LOAD: the access width of LB, LH, LW, LBU and LHU, or `None`.
pub open spec fn load_width(funct3: u8) -> Option<u8> {
    if funct3 == 0 || funct3 == 4 {
        Some(1u8)
    } else if funct3 == 1 || funct3 == 5 {
        Some(2u8)
    } else if funct3 == 2 {
        Some(4u8)
    } else {
        None
    }
}

/// LOAD: the register value for a raw zero-extended load; LB and LH sign-extend.
pub open spec fn load_extend(funct3: u8, raw: u32) -> u32 {
    if funct3 == 0 {
        (raw as u8 as i8 as i32) as u32
    } else if funct3 == 1 {
        (raw as u16 as i16 as i32) as u32
    } else {
        raw
    }
}

/// STORE: the access width of SB, SH and SW, or `None`.
pub open spec fn store_width(funct3: u8) -> Option<u8> {
    if funct3 == 0 {
        Some(1u8)
    } else if funct3 == 1 {
        Some(2u8)
    } else if funct3 == 2 {
        Some(4u8)
    } else {
        None
    }
}

pub open spec fn illegal(w: u32) -> Trap {
    Trap::IllegalInstruction(Instr(w))
}

pub open spec fn exec_op_imm_spec(s: CpuState, w: u32) -> Result<CpuState, Trap> {
    match alu_imm(funct3_of(w), funct7_of(w), s.reg(rs1_of(w)), i_imm(w)) {
        Some(v) => Ok(s.with_reg(rd_of(w), v)),
        None => Err(illegal(w)),
    }
}

pub open spec fn exec_op_reg_spec(s: CpuState, w: u32) -> Result<CpuState, Trap> {
    match alu_reg(funct3_of(w), funct7_of(w), s.reg(rs1_of(w)), s.reg(rs2_of(w))) {
        Some(v) => Ok(s.with_reg(rd_of(w), v)),
        None => Err(illegal(w)),
    }
}

pub open spec fn exec_lui_spec(s: CpuState, w: u32) -> Result<CpuState, Trap> {
    Ok(s.with_reg(rd_of(w), u_imm(w)))
}

pub open spec fn exec_auipc_spec(s: CpuState, w: u32) -> Result<CpuState, Trap> {
    Ok(s.with_reg(rd_of(w), s.pc.wrapping_add(u_imm(w))))
}

pub open spec fn exec_jal_spec(s: CpuState, w: u32) -> Result<CpuState, Trap> {
    Ok(CpuState { next_pc: s.pc.wrapping_add_signed(j_imm(w)), ..s }.with_reg(
        rd_of(w),
        s.pc.wrapping_add(4),
    ))
}

pub open spec fn exec_jalr_spec(s: CpuState, w: u32) -> Result<CpuState, Trap> {
    if funct3_of(w) != 0 {
        Err(illegal(w))
    } else {
        let target = s.reg(rs1_of(w)).wrapping_add_signed(i_imm(w)) & !1u32;
        Ok(CpuState { next_pc: target, ..s }.with_reg(rd_of(w), s.pc.wrapping_add(4)))
    }
}

pub open spec fn exec_branch_spec(s: CpuState, w: u32) -> Result<CpuState, Trap> {
    match branch_taken(funct3_of(w), s.reg(rs1_of(w)), s.reg(rs2_of(w))) {
        Some(true) => Ok(CpuState { next_pc: s.pc.wrapping_add_signed(b_imm(w)), ..s }),
        Some(false) => Ok(s),
        None => Err(illegal(w)),
    }
}

pub open spec fn exec_load_spec(s: CpuState, w: u32) -> Result<CpuState, Trap> {
    match load_width(funct3_of(w)) {
        None => Err(illegal(w)),
        Some(size) => match translate(s, s.reg(rs1_of(w)).wrapping_add_signed(i_imm(w))) {
            Err(t) => Err(t),
            Ok(pa) => match bus_load(s.bus, pa, size) {
                Err(e) => Err(trap_of_bus_error(e)),
                Ok(raw) => Ok(s.with_reg(rd_of(w), load_extend(funct3_of(w), raw))),
            },
        },
    }
}

pub open spec fn exec_store_spec(s: CpuState, w: u32) -> Result<CpuState, Trap> {
    match store_width(funct3_of(w)) {
        None => Err(illegal(w)),
        Some(size) => match translate(s, s.reg(rs1_of(w)).wrapping_add_signed(s_imm(w))) {
            Err(t) => Err(t),
            Ok(pa) => match bus_store_result(s.bus, pa, size) {
                Err(e) => Err(trap_of_bus_error(e)),
                Ok(_) => Ok(
                    CpuState { bus: bus_after_store(s.bus, pa, size, s.reg(rs2_of(w))), ..s },
                ),
            },
        },
    }
}

/// Zicsr: CSRRW, CSRRS and CSRRC. The old value goes to `rd`; an unknown CSR is illegal.
pub open spec fn exec_csr_spec(s: CpuState, w: u32) -> Result<CpuState, Trap> {
    let f3 = funct3_of(w);
    let addr = i_field(w) as u16;
    if !(f3 == 1 || f3 == 2 || f3 == 3) || !is_csr(addr) {
        Err(illegal(w))
    } else {
        let old_val = csr_value(s.csrs, addr);
        let src = s.reg(rs1_of(w));
        let new_val = if f3 == 1 {
            src
        } else if f3 == 2 {
            old_val | src
        } else {
            old_val & !src
        };
        Ok(CpuState { csrs: csr_written(s.csrs, addr, new_val), ..s }.with_reg(rd_of(w), old_val))
    }
}

/// The word of MRET.
pub const MRET_FUNCT12: u32 = 0x302;

/// ECALL traps; MRET restores `mstatus`, returns to the mode in MPP and jumps to `mepc`.
pub open spec fn exec_privileged_spec(s: CpuState, w: u32) -> Result<CpuState, Trap> {
    let funct12 = i_field(w);
    if funct12 == 0 {
        Err(Trap::EnvironmentCall(s.priv_mode))
    } else if funct12 == MRET_FUNCT12 {
        Ok(
            CpuState {
                csrs: CsrFile { mstatus: mstatus_on_return(s.csrs.mstatus), ..s.csrs },
                priv_mode: PrivilegeMode::spec_from_bits(mpp_bits(s.csrs.mstatus)),
                next_pc: s.csrs.mepc,
                ..s
            },
        )
    } else {
        Err(illegal(w))
    }
}

/// What executing `w` does, given that `next_pc` already points past it.
pub open spec fn execute(s: CpuState, w: u32) -> Result<CpuState, Trap> {
    let op = opcode_of(w);
    if op == OP_IMM {
        exec_op_imm_spec(s, w)
    } else if op == OP_REG {
        exec_op_reg_spec(s, w)
    } else if op == OP_LUI {
        exec_lui_spec(s, w)
    } else if op == OP_AUIPC {
        exec_auipc_spec(s, w)
    } else if op == OP_JAL {
        exec_jal_spec(s, w)
    } else if op == OP_JALR {
        exec_jalr_spec(s, w)
    } else if op == OP_BRANCH {
        exec_branch_spec(s, w)
    } else if op == OP_LOAD {
        exec_load_spec(s, w)
    } else if op == OP_STORE {
        exec_store_spec(s, w)
    } else if op == OP_SYSTEM {
        if funct3_of(w) == 0 {
            exec_privileged_spec(s, w)
        } else {
            exec_csr_spec(s, w)
        }
    } else {
        Err(illegal(w))
    }
}

/// Trap entry: `mepc` takes `pc`, `mcause` and `mtval` describe the trap, `mstatus` saves
/// the interrupt enable and the mode, the hart enters Machine mode at the vector base.
pub open spec fn trap_entry(s: CpuState, t: Trap) -> CpuState {
    CpuState {
        csrs: CsrFile {
            mepc: s.pc,
            mcause: t.spec_cause_code(),
            mtval: t.spec_value(),
            mstatus: mstatus_on_trap(s.csrs.mstatus, s.priv_mode),
            ..s.csrs
        },
        priv_mode: PrivilegeMode::Machine,
        next_pc: s.csrs.mtvec & !3u32,
        ..s
    }
}

/// Fetch and execute: the state that the instruction leaves, or the trap that it raised.
pub open spec fn step_outcome(s: CpuState) -> Result<CpuState, Trap> {
    match fetch(s) {
        Err(t) => Err(t),
        Ok(w) => execute(CpuState { next_pc: s.pc.wrapping_add(4), ..s }, w),
    }
}

/// One full step: fetch, execute, trap entry or `minstret` + 1, commit of `next_pc`,
/// `mcycle` + 1.
pub open spec fn step(s: CpuState) -> CpuState {
    let done = match step_outcome(s) {
        Ok(s1) => CpuState {
            csrs: CsrFile { minstret: s1.csrs.minstret.wrapping_add(1), ..s1.csrs },
            ..s1
        },
        Err(t) => trap_entry(s, t),
    };
    CpuState {
        pc: done.next_pc,
        csrs: CsrFile { mcycle: done.csrs.mcycle.wrapping_add(1), ..done.csrs },
        ..done
    }
}

/// How a handler that returned `r`, taking `before` to `after`, meets the `expected`
/// outcome: on success the state is the expected one; on a trap nothing has changed.
pub open spec fn applied(
    before: CpuState,
    after: CpuState,
    r: Result<(), Trap>,
    expected: Result<CpuState, Trap>,
) -> bool {
    match expected {
        Ok(s) => r is Ok && after == s,
        Err(t) => r == Err::<(), Trap>(t) && after == before,
    }
}

/// The state after `n` steps.
pub open spec fn run(s: CpuState, n: nat) -> CpuState
    decreases n,
{
    if n == 0 {
        s
    } else {
        run(step(s), (n - 1) as nat)
    }
}

} // verus!
