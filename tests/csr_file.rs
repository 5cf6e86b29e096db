use riscv::csrs::{CsrFile, MCYCLE, MEPC, MINSTRET, MIP, MISA, MSTATUS, SATP};
use riscv::isa::PrivilegeMode;

#[test]
fn reset_values() {
    let c = CsrFile::new();
    assert_eq!(c.read(MISA), Ok(0x4000_1100));
    assert_eq!(c.read(MSTATUS), Ok(0));
    assert_eq!(c.get_mtvec(), 0);
}

#[test]
fn unknown_address_is_an_error() {
    let mut c = CsrFile::new();
    assert_eq!(c.read(0x7C0), Err(()));
    assert_eq!(c.write(0x7C0, 1), Err(()));
}

#[test]
fn write_masks() {
    let mut c = CsrFile::new();
    c.write(MSTATUS, 0xFFFF_FFFF).unwrap();
    assert_eq!(c.read(MSTATUS), Ok(0x1888));
    c.write(MEPC, 0x8000_0007).unwrap();
    assert_eq!(c.get_mepc(), 0x8000_0004);
    c.write(MIP, 0xFFFF_FFFF).unwrap();
    assert_eq!(c.read(MIP), Ok(0x888));
    c.write(0x305, 0x8000_0103).unwrap();
    assert_eq!(c.get_mtvec(), 0x8000_0100);
    c.set_satp(0x8000_0001);
    assert_eq!(c.read(SATP), Ok(0x8000_0001));
    assert_eq!(c.get_satp(), 0x8000_0001);
}

#[test]
fn counters_keep_their_high_half() {
    let mut c = CsrFile::new();
    for _ in 0..3 {
        c.increment_cycle();
    }
    c.increment_instret();
    assert_eq!(c.read(MCYCLE), Ok(3));
    assert_eq!(c.read(MINSTRET), Ok(1));
    c.mcycle = 0x0000_0001_FFFF_FFFF;
    c.increment_cycle();
    assert_eq!(c.get_cycle(), 0x0000_0002_0000_0000);
    c.write(MCYCLE, 0x1234).unwrap();
    assert_eq!(c.get_cycle(), 0x0000_0002_0000_1234);
    c.minstret = u64::MAX;
    c.increment_instret();
    assert_eq!(c.get_instret(), 0);
}

#[test]
fn trap_entry_and_return() {
    let mut c = CsrFile::new();
    c.write(MSTATUS, 0x8).unwrap();
    c.enter_exception_mode(PrivilegeMode::Supervisor);
    assert!(!c.get_mie());
    assert!(c.get_mpie());
    assert_eq!(c.get_mpp(), 1);
    let back = c.return_from_exception_mode();
    assert_eq!(back, PrivilegeMode::Supervisor);
    assert!(c.get_mie());
    assert!(c.get_mpie());
    assert_eq!(c.get_mpp(), 0);
}

#[test]
fn trap_entry_with_interrupts_off() {
    let mut c = CsrFile::new();
    c.enter_exception_mode(PrivilegeMode::Machine);
    assert!(!c.get_mpie());
    assert_eq!(c.get_mpp(), 3);
    assert_eq!(c.read(MSTATUS), Ok(0x1800));
    assert_eq!(c.return_from_exception_mode(), PrivilegeMode::Machine);
    assert!(!c.get_mie());
    assert_eq!(c.read(MSTATUS), Ok(0x80));
}

#[test]
fn trap_registers_are_settable() {
    let mut c = CsrFile::new();
    c.set_exception_pc(0x8000_0002);
    c.set_cause(7);
    c.set_mtval(0x10);
    assert_eq!(c.read(MEPC), Ok(0x8000_0002));
    assert_eq!(c.read(0x342), Ok(7));
    assert_eq!(c.read(0x343), Ok(0x10));
}

#[test]
fn default_is_reset() {
    assert_eq!(CsrFile::default(), CsrFile::new());
    let r = riscv::registers::RegFile::default();
    for i in 0..32u8 {
        assert_eq!(r.read(i), 0);
    }
}
