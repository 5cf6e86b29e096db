use riscv::bus::{AnyDevice, Bus};
use riscv::cpu::Cpu;
use riscv::csrs::{MSCRATCH, SATP};
use riscv::dram::Dram;
use riscv::isa::Instr;
use riscv::privileged::is_privileged;
use riscv::profiling::{cycles_since, is_sample_point};
use riscv::trap::Trap;

fn bytes_of(words: &[u32]) -> Vec<u8> {
    let mut bytes: Vec<u8> = Vec::new();
    for w in words {
        bytes.extend_from_slice(&w.to_le_bytes());
    }
    bytes
}

fn machine(words: &[u32]) -> Cpu {
    let mut ram = Dram::new(0x1_0000);
    ram.flash(&bytes_of(words), 0).unwrap();
    let mut bus = Bus::new();
    bus.map_to(0x8000_0000, AnyDevice::Dram(ram));
    Cpu::new(bus, None)
}

fn run(words: &[u32], steps: usize) -> Cpu {
    let mut cpu = machine(words);
    for _ in 0..steps {
        cpu.step();
    }
    cpu
}

#[test]
fn reset_vector_is_configurable() {
    let cpu = Cpu::new(Bus::new(), Some(0x1000));
    assert_eq!((cpu.pc, cpu.next_pc), (0x1000, 0x1000));
    let cpu = Cpu::new(Bus::new(), None);
    assert_eq!(cpu.pc, 0x8000_0000);
}

#[test]
fn op_imm_variants() {
    // addi a0, zero, -5; slti a1, a0, 0; sltiu a2, a0, 1; xori a3, a0, -1;
    // ori a4, zero, 0x0f0; andi a5, a0, 0x0ff; slli a6, a0, 4; srli a7, a0, 28; srai s2, a0, 1
    let cpu = run(
        &[
            0xFFB00513, 0x00052593, 0x00153613, 0xFFF54693, 0x0F006713, 0x0FF57793, 0x00451813,
            0x01C55893, 0x40155913,
        ],
        9,
    );
    assert_eq!(cpu.reg_file.read(10), (-5i32) as u32);
    assert_eq!(cpu.reg_file.read(11), 1);
    assert_eq!(cpu.reg_file.read(12), 0);
    assert_eq!(cpu.reg_file.read(13), 4);
    assert_eq!(cpu.reg_file.read(14), 0x0F0);
    assert_eq!(cpu.reg_file.read(15), 0xFB);
    assert_eq!(cpu.reg_file.read(16), 0xFFFF_FFB0);
    assert_eq!(cpu.reg_file.read(17), 0xF);
    assert_eq!(cpu.reg_file.read(18), (-3i32) as u32);
}

#[test]
fn op_reg_variants() {
    // addi a0, zero, -8; addi a1, zero, 3;
    // sub a2, a1, a0; sll a3, a1, a1; slt a4, a0, a1; sltu a5, a0, a1;
    // xor a6, a0, a1; srl a7, a0, a1; sra s2, a0, a1; or s3, a0, a1; and s4, a0, a1
    let cpu = run(
        &[
            0xFF800513, 0x00300593, 0x40A58633, 0x00B596B3, 0x00B52733, 0x00B537B3, 0x00B54833,
            0x00B558B3, 0x40B55933, 0x00B569B3, 0x00B57A33,
        ],
        11,
    );
    assert_eq!(cpu.reg_file.read(12), 11);
    assert_eq!(cpu.reg_file.read(13), 24);
    assert_eq!(cpu.reg_file.read(14), 1);
    assert_eq!(cpu.reg_file.read(15), 0);
    assert_eq!(cpu.reg_file.read(16), 0xFFFF_FFFB);
    assert_eq!(cpu.reg_file.read(17), 0x1FFF_FFFF);
    assert_eq!(cpu.reg_file.read(18), 0xFFFF_FFFF);
    assert_eq!(cpu.reg_file.read(19), 0xFFFF_FFFB);
    assert_eq!(cpu.reg_file.read(20), 0);
}

#[test]
fn add_wraps() {
    // addi a0, zero, -1; addi a1, a0, 2
    let cpu = run(&[0xFFF00513, 0x00250593], 2);
    assert_eq!(cpu.reg_file.read(11), 1);
}

#[test]
fn upper_immediates() {
    // lui a0, 0xdeadc; auipc a1, 0x1
    let cpu = run(&[0xDEADC537, 0x00001597], 2);
    assert_eq!(cpu.reg_file.read(10), 0xDEAD_C000);
    assert_eq!(cpu.reg_file.read(11), 0x8000_1004);
}

#[test]
fn jalr_clears_low_bit() {
    // lui a0, 0x80000; jalr ra, 9(a0)
    let cpu = run(&[0x80000537, 0x009500E7], 2);
    assert_eq!(cpu.reg_file.read(1), 0x8000_0008);
    assert_eq!(cpu.pc, 0x8000_0008);
}

#[test]
fn loads_extend_by_kind() {
    // lui a0, 0x80001; lb a1, 0(a0); lbu a2, 0(a0); lh a3, 0(a0); lhu a4, 0(a0); lw a5, 0(a0)
    let mut ram = Dram::new(0x2000);
    ram.flash(&bytes_of(&[0x80001537, 0x00050583, 0x00054603, 0x00051683, 0x00055703, 0x00052783]), 0)
        .unwrap();
    ram.flash(&[0x80, 0x90, 0x12, 0x34], 0x1000).unwrap();
    let mut bus = Bus::new();
    bus.map_to(0x8000_0000, AnyDevice::Dram(ram));
    let mut cpu = Cpu::new(bus, None);
    for _ in 0..6 {
        cpu.step();
    }
    assert_eq!(cpu.reg_file.read(11), 0xFFFF_FF80);
    assert_eq!(cpu.reg_file.read(12), 0x80);
    assert_eq!(cpu.reg_file.read(13), 0xFFFF_9080);
    assert_eq!(cpu.reg_file.read(14), 0x9080);
    assert_eq!(cpu.reg_file.read(15), 0x3412_9080);
}

#[test]
fn stores_write_only_their_width() {
    // lui a0, 0x80001; addi a1, zero, -1; sw a1, 0(a0); sb zero, 1(a0); sh zero, 2(a0)
    let mut cpu = run(&[0x80001537, 0xFFF00593, 0x00B52023, 0x000500A3, 0x00051123], 5);
    assert_eq!(cpu.bus.load(0x8000_1000, 4), Ok(0x0000_00FF));
}

#[test]
fn store_fault_trap() {
    // sw zero, 0(zero): nothing is mapped at 0
    let mut cpu = run(&[0x00002023], 1);
    assert_eq!(cpu.csr_file.read(0x342), Ok(7));
    assert_eq!(cpu.csr_file.read(0x343), Ok(0));
    assert_eq!(cpu.bus.load(0x8000_0000, 4), Ok(0x00002023));
}

#[test]
fn unknown_csr_is_illegal() {
    // csrrw zero, 0x7c0, zero
    let cpu = run(&[0x7C001073], 1);
    assert_eq!(cpu.csr_file.read(0x342), Ok(2));
    assert_eq!(cpu.csr_file.read(0x343), Ok(0x7C001073));
}

#[test]
fn csr_set_and_clear() {
    // addi a0, zero, 0x0f; csrrw zero, mscratch, a0; addi a1, zero, 0x30; csrrs a2, mscratch, a1;
    // addi a3, zero, 0x03; csrrc a4, mscratch, a3
    let cpu = run(&[0x00F00513, 0x34051073, 0x03000593, 0x3405A673, 0x00300693, 0x3406B773], 6);
    assert_eq!(cpu.reg_file.read(12), 0x0F);
    assert_eq!(cpu.reg_file.read(14), 0x3F);
    assert_eq!(cpu.csr_file.read(MSCRATCH), Ok(0x3C));
}

#[test]
fn mcycle_is_reachable_by_csr() {
    // addi zero, zero, 0; csrrs a0, mcycle, zero
    let cpu = run(&[0x00000013, 0xB0002573], 2);
    assert_eq!(cpu.reg_file.read(10), 1);
}

#[test]
fn unknown_system_function_is_illegal() {
    // wfi: funct12 0x105
    let cpu = run(&[0x10500073], 1);
    assert_eq!(cpu.csr_file.read(0x342), Ok(2));
    assert!(is_privileged(Instr::new(0x10500073)));
    assert!(!is_privileged(Instr::new(0x30029073)));
}

#[test]
fn sv32_translates_through_two_levels() {
    let mut ram = Dram::new(0x4000);
    // root table at 0x8000_1000: entry 1 points at the table at 0x8000_2000
    ram.flash(&bytes_of(&[(0x80002 << 10) | 1]), 0x1004).unwrap();
    // leaf table entry 0 points at the page at 0x8000_3000
    ram.flash(&bytes_of(&[(0x80003 << 10) | 0xF]), 0x2000).unwrap();
    let mut bus = Bus::new();
    bus.map_to(0x8000_0000, AnyDevice::Dram(ram));
    let mut cpu = Cpu::new(bus, None);
    assert_eq!(cpu.translate(0x0040_0123), Ok(0x0040_0123));
    cpu.csr_file.write(SATP, 0x8000_0000 | 0x80001).unwrap();
    assert_eq!(cpu.translate(0x0040_0123), Ok(0x8000_3123));
    // entry 2 of the root table is zero: its table is at 0, which is unmapped
    assert_eq!(cpu.translate(0x0080_0000), Err(Trap::LoadAccessFault(0)));
    cpu.csr_file.write(SATP, 0x8000_0000 | 0x1).unwrap();
    assert_eq!(cpu.translate(0x0040_0000), Err(Trap::LoadAccessFault(0x1004)));
}

#[test]
fn fetch_reads_the_word_at_pc() {
    let mut cpu = machine(&[0x00000513]);
    assert_eq!(cpu.fetch(), Ok(Instr::new(0x00000513)));
    cpu.pc = 0;
    assert_eq!(cpu.fetch(), Err(Trap::LoadAccessFault(0)));
}

#[test]
fn trap_codes_and_values() {
    assert_eq!(Trap::IllegalInstruction(Instr::new(0x1234)).cause_code(), 2);
    assert_eq!(Trap::IllegalInstruction(Instr::new(0x1234)).value(), 0x1234);
    assert_eq!(Trap::LoadAccessFault(9).cause_code(), 5);
    assert_eq!(Trap::StoreAccessFault(9).value(), 9);
    assert_eq!(Trap::EnvironmentCall(riscv::isa::PrivilegeMode::User).cause_code(), 8);
    assert_eq!(Trap::EnvironmentCall(riscv::isa::PrivilegeMode::Supervisor).cause_code(), 9);
    assert_eq!(Trap::EnvironmentCall(riscv::isa::PrivilegeMode::Machine).value(), 0);
    let t: Trap = riscv::bus::BusError::StoreAccessFault(3).into();
    assert_eq!(t, Trap::StoreAccessFault(3));
}

#[test]
fn sampling_schedule() {
    assert!(is_sample_point(0));
    assert!(is_sample_point(3_000_000));
    assert!(!is_sample_point(999_999));
    assert_eq!(cycles_since(1_000_000, 3_000_000), 2_000_000);
    assert_eq!(cycles_since(u64::MAX, 1), 2);
}
