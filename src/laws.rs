//! Properties of the step function that hold for every state.
use crate::bus::lemma_bus_after_store_wf;
use crate::csrs::{lemma_mstatus_on_return, lemma_mstatus_on_trap, mie_bit};
use crate::isa::{
    funct3_of, i_field, lemma_privilege_bits_round_trip, lemma_small_fields, opcode_of, rd_of,
    rs1_of, rs2_of, s_imm, PrivilegeMode, OP_AUIPC, OP_IMM, OP_JAL, OP_JALR, OP_LOAD, OP_LUI,
    OP_REG, OP_STORE, OP_SYSTEM,
};
use crate::semantics::{execute, fetch, run, step, step_outcome, store_width, translate, CpuState};
use crate::trap::Trap;
use vstd::prelude::*;

verus! {

/// The word of MRET.
pub const MRET: u32 = 0x3020_0073;

/// Executing any instruction keeps the state well formed.
proof fn lemma_execute_wf(s: CpuState, w: u32)
    requires
        s.wf(),
    ensures
        execute(s, w) matches Ok(s1) ==> s1.wf(),
{
    lemma_small_fields(w);
    if opcode_of(w) == OP_STORE {
        if let (Some(size), Ok(pa)) = (
            store_width(funct3_of(w)),
            translate(s, s.reg(rs1_of(w)).wrapping_add_signed(s_imm(w))),
        ) {
            lemma_bus_after_store_wf(s.bus, pa, size, s.reg(rs2_of(w)));
        }
    }
}

/// A step keeps the state well formed.
pub proof fn lemma_step_wf(s: CpuState)
    requires
        s.wf(),
    ensures
        step(s).wf(),
{
    if let Ok(w) = fetch(s) {
        lemma_execute_wf(CpuState { next_pc: s.pc.wrapping_add(4), ..s }, w);
    }
}

/// Register x0 reads zero after any number of steps.
pub proof fn lemma_x0_stays_zero(s: CpuState, n: nat)
    requires
        s.wf(),
    ensures
        run(s, n).wf(),
        run(s, n).regs[0] == 0,
    decreases n,
{
    if n > 0 {
        lemma_step_wf(s);
        lemma_x0_stays_zero(step(s), (n - 1) as nat);
    }
}


/// Whether executing `w` writes register `r`: `r` is the instruction's `rd`, not x0, and the
/// instruction is of a kind that writes `rd`.
pub open spec fn writes_register(w: u32, r: int) -> bool {
    let op = opcode_of(w);
    &&& r != 0
    &&& r == rd_of(w)
    &&& (op == OP_IMM || op == OP_REG || op == OP_LUI || op == OP_AUIPC || op == OP_JAL || op
        == OP_JALR || op == OP_LOAD || (op == OP_SYSTEM && funct3_of(w) != 0))
}

/// A register that the step's instruction does not write keeps its value; so does every
/// register in a step that traps.
pub proof fn lemma_unwritten_register_kept(s: CpuState, r: int)
    requires
        s.wf(),
        0 <= r < 32,
        fetch(s) matches Ok(w) ==> !writes_register(w, r),
    ensures
        step(s).regs[r] == s.regs[r],
{
    if let Ok(w) = fetch(s) {
        lemma_small_fields(w);
    }
}

/// Every step adds one to `mcycle`, and one to `minstret` exactly when it does not trap
/// (for an instruction that does not itself write the counters).
pub proof fn lemma_step_counters(s: CpuState)
    requires
        step_outcome(s) matches Ok(s1) ==> s1.csrs.mcycle == s.csrs.mcycle && s1.csrs.minstret
            == s.csrs.minstret,
    ensures
        step(s).csrs.mcycle == s.csrs.mcycle.wrapping_add(1),
        step(s).csrs.minstret == if step_outcome(s) is Ok {
            s.csrs.minstret.wrapping_add(1)
        } else {
            s.csrs.minstret
        },
{
}

/// On a trap the step ends at the vector base in Machine mode, with `mepc` at the faulting
/// `pc` and `mcause` and `mtval` describing the trap.
pub proof fn lemma_trap_protocol(s: CpuState)
    ensures
        step_outcome(s) matches Err(t) ==> {
            &&& step(s).pc == s.csrs.mtvec & !3u32
            &&& step(s).csrs.mepc == s.pc
            &&& step(s).csrs.mcause == t.spec_cause_code()
            &&& step(s).csrs.mtval == t.spec_value()
            &&& step(s).priv_mode == PrivilegeMode::Machine
        },
{
}

/// A trap followed at once by MRET returns to the mode, the interrupt enable and the `pc`
/// of the faulting instruction.
pub proof fn lemma_mret_round_trip(s: CpuState)
    requires
        step_outcome(s) is Err,
        fetch(step(s)) == Ok::<u32, Trap>(MRET),
    ensures
        step(step(s)).priv_mode == s.priv_mode,
        mie_bit(step(step(s)).csrs.mstatus) == mie_bit(s.csrs.mstatus),
        step(step(s)).pc == s.pc,
{
    let p = s.priv_mode.spec_bits();
    assert(p < 4);
    lemma_mstatus_on_trap(s.csrs.mstatus, p);
    lemma_mstatus_on_return(step(s).csrs.mstatus);
    lemma_privilege_bits_round_trip(s.priv_mode);
    assert(opcode_of(MRET) == OP_SYSTEM && funct3_of(MRET) == 0 && i_field(MRET) == 0x302)
        by (bit_vector);
}

} // verus!
