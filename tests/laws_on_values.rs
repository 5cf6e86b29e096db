use riscv::bus::{AnyDevice, Bus};
use riscv::cpu::Cpu;
use riscv::csrs::{MSTATUS, MTVEC};
use riscv::dram::Dram;
use riscv::isa::{Instr, PrivilegeMode};
use riscv::trap::Trap;

fn machine_at(words: &[u32], offset: usize, ram: &mut Dram) {
    let mut bytes: Vec<u8> = Vec::new();
    for w in words {
        bytes.extend_from_slice(&w.to_le_bytes());
    }
    ram.flash(&bytes, offset).unwrap();
}

fn machine(words: &[u32]) -> Cpu {
    let mut ram = Dram::new(0x1_0000);
    machine_at(words, 0, &mut ram);
    let mut bus = Bus::new();
    bus.map_to(0x8000_0000, AnyDevice::Dram(ram));
    Cpu::new(bus, None)
}

#[test]
fn x0_ignores_writes() {
    // addi x0, x0, 5; lui x0, 0xdeadc; csrrs x0, mstatus, zero
    let mut cpu = machine(&[0x00500013, 0xDEADC037, 0x30002073]);
    for _ in 0..3 {
        cpu.step();
        assert_eq!(cpu.reg_file.read(0), 0);
    }
}

#[test]
fn store_leaves_registers() {
    // addi a0, zero, 7; sw a0, 0x100(zero)... stored into RAM via a base in a1
    // lui a1, 0x80001; sw a0, 0(a1)
    let mut cpu = machine(&[0x00700513, 0x800015B7, 0x00A5A023]);
    cpu.step();
    cpu.step();
    let before: Vec<u32> = (0..32u8).map(|i| cpu.reg_file.read(i)).collect();
    cpu.step();
    let after: Vec<u32> = (0..32u8).map(|i| cpu.reg_file.read(i)).collect();
    assert_eq!(before, after);
    assert_eq!(cpu.bus.load(0x8000_1000, 4), Ok(7));
}

#[test]
fn counters_on_success_and_trap() {
    // nop; then an all-ones word, which is illegal
    let mut cpu = machine(&[0x00000013, 0xFFFF_FFFF]);
    cpu.csr_file.write(MTVEC, 0x8000_0100).unwrap();
    cpu.step();
    assert_eq!((cpu.csr_file.get_cycle(), cpu.csr_file.get_instret()), (1, 1));
    cpu.step();
    assert_eq!((cpu.csr_file.get_cycle(), cpu.csr_file.get_instret()), (2, 1));
}

#[test]
fn illegal_instruction_trap_fields() {
    let mut cpu = machine(&[0x00000013, 0xFFFF_FFFF]);
    cpu.csr_file.write(MTVEC, 0x8000_0103).unwrap();
    cpu.step();
    cpu.step();
    assert_eq!(cpu.pc, 0x8000_0100);
    assert_eq!(cpu.csr_file.get_mepc(), 0x8000_0004);
    assert_eq!(cpu.csr_file.read(0x342), Ok(2));
    assert_eq!(cpu.csr_file.read(0x343), Ok(0xFFFF_FFFF));
}

#[test]
fn trap_then_mret_returns() {
    let mut ram = Dram::new(0x1_0000);
    machine_at(&[0x00000073], 0, &mut ram);
    machine_at(&[0x30200073], 0x100, &mut ram);
    let mut bus = Bus::new();
    bus.map_to(0x8000_0000, AnyDevice::Dram(ram));
    let mut cpu = Cpu::new(bus, None);
    cpu.csr_file.write(MTVEC, 0x8000_0100).unwrap();
    cpu.csr_file.write(MSTATUS, 0x8).unwrap();
    cpu.priv_mode = PrivilegeMode::User;
    cpu.step();
    assert_eq!(cpu.priv_mode, PrivilegeMode::Machine);
    assert_eq!(cpu.csr_file.read(0x342), Ok(8));
    assert!(!cpu.csr_file.get_mie());
    assert!(cpu.csr_file.get_mpie());
    assert_eq!(cpu.csr_file.get_mpp(), 0);
    cpu.step();
    assert_eq!(cpu.priv_mode, PrivilegeMode::User);
    assert!(cpu.csr_file.get_mie());
    assert_eq!(cpu.pc, 0x8000_0000);
}

#[test]
fn execute_reports_illegal_word() {
    let mut cpu = machine(&[]);
    let word = 0x0000_007F;
    assert_eq!(cpu.execute(Instr::new(word)), Err(Trap::IllegalInstruction(Instr::new(word))));
}
