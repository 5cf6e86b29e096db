use riscv::isa::{Instr, PrivilegeMode};

#[test]
fn fields_of_add() {
    // add a2, a1, a1
    let i = Instr::new(0x00b58633);
    assert_eq!(i.opcode(), 0b0110011);
    assert_eq!(i.funct3(), 0);
    assert_eq!(i.funct7(), 0);
    let r = i.as_r_type();
    assert_eq!((r.rd(), r.rs1(), r.rs2()), (12, 11, 11));
}

#[test]
fn i_immediate_sign_extends() {
    let i = Instr::new(0xFFF02083).as_i_type();
    assert_eq!(i.imm(), -1);
    assert_eq!(i.uimm(), 0xFFF);
    assert_eq!((i.rd(), i.rs1()), (1, 0));
    assert_eq!(Instr::new(0x01050593).as_i_type().imm(), 16);
    assert_eq!(Instr::new(0x80000013).as_i_type().imm(), -2048);
    assert_eq!(Instr::new(0x7FF00013).as_i_type().imm(), 2047);
}

#[test]
fn s_immediate_joins_two_fields() {
    // sw x2, -4(x1)
    let s = Instr::new(0xFE20AE23).as_s_type();
    assert_eq!(s.imm(), -4);
    assert_eq!((s.rs1(), s.rs2()), (1, 2));
    // sw x2, 36(x1)
    assert_eq!(Instr::new(0x0220A223).as_s_type().imm(), 36);
}

#[test]
fn b_immediate_offsets() {
    assert_eq!(Instr::new(0x00050463).as_b_type().imm(), 8);
    // beq zero, zero, -4
    assert_eq!(Instr::new(0xFE000EE3).as_b_type().imm(), -4);
    // beq zero, zero, -4096
    assert_eq!(Instr::new(0x80000063).as_b_type().imm(), -4096);
    // beq zero, zero, 2048
    assert_eq!(Instr::new(0x00000063 | (1 << 7)).as_b_type().imm(), 2048);
}

#[test]
fn j_immediate_offsets() {
    let j = Instr::new(0x008000EF).as_j_type();
    assert_eq!(j.imm(), 8);
    assert_eq!(j.rd(), 1);
    // jal zero, -8
    assert_eq!(Instr::new(0xFF9FF06F).as_j_type().imm(), -8);
    // jal zero, -(1 << 20)
    assert_eq!(Instr::new(0x8000006F).as_j_type().imm(), -(1 << 20));
    // jal zero, 2048
    assert_eq!(Instr::new(0x0010006F).as_j_type().imm(), 2048);
}

#[test]
fn u_immediate_keeps_upper_bits() {
    let u = Instr::new(0xDEADC0B7).as_u_type();
    assert_eq!(u.imm(), 0xDEADC000);
    assert_eq!(u.rd(), 1);
}

#[test]
fn privilege_mode_bits() {
    assert_eq!(PrivilegeMode::User.bits(), 0);
    assert_eq!(PrivilegeMode::Supervisor.bits(), 1);
    assert_eq!(PrivilegeMode::Machine.bits(), 3);
    assert_eq!(PrivilegeMode::from_bits(3), PrivilegeMode::Machine);
    assert_eq!(PrivilegeMode::from_bits(1), PrivilegeMode::Supervisor);
    assert_eq!(PrivilegeMode::from_bits(0), PrivilegeMode::User);
}
