use riscv::bus::{AnyDevice, Bus, BusError, Device};
use riscv::dram::Dram;
use riscv::uart::Uart;

#[test]
fn dram_is_little_endian() {
    let mut ram = Dram::new(16);
    ram.store(4, 4, 0x1122_3344).unwrap();
    assert_eq!(ram.load(4, 1), Ok(0x44));
    assert_eq!(ram.load(5, 2), Ok(0x2233));
    assert_eq!(ram.load(4, 4), Ok(0x1122_3344));
    ram.store(4, 1, 0xAB).unwrap();
    assert_eq!(ram.load(4, 4), Ok(0x1122_33AB));
    ram.store(6, 2, 0xFFFF_CDEF).unwrap();
    assert_eq!(ram.load(4, 4), Ok(0xCDEF_33AB));
}

#[test]
fn dram_refuses_straddling_access() {
    let mut ram = Dram::new(16);
    assert_eq!(ram.size(), 16);
    assert_eq!(ram.name(), "DRAM");
    assert_eq!(ram.load(14, 4), Err(BusError::LoadAccessFault(14)));
    assert_eq!(ram.store(15, 2, 1), Err(BusError::StoreAccessFault(15)));
    assert_eq!(ram.load(12, 4), Ok(0));
}

#[test]
fn flash_checks_bounds() {
    let mut ram = Dram::new(8);
    assert_eq!(ram.flash(&[1, 2, 3], 6), Err(()));
    assert_eq!(ram.flash(&[1, 2, 3], 5), Ok(()));
    assert_eq!(ram.load(4, 4), Ok(0x0302_0100));
}

#[test]
fn bus_faults_outside_every_device() {
    let mut bus = Bus::new();
    bus.map_to(0x1000, AnyDevice::Dram(Dram::new(0x100)));
    assert_eq!(bus.load(0x0FFF, 1), Err(BusError::LoadAccessFault(0x0FFF)));
    // one past the end is outside: the range is half-open
    assert_eq!(bus.load(0x1100, 1), Err(BusError::LoadAccessFault(0x1100)));
    assert_eq!(bus.store(0x1100, 1, 0), Err(BusError::StoreAccessFault(0x1100)));
    // an access that runs past the end faults at the bus address
    assert_eq!(bus.load(0x10FE, 4), Err(BusError::LoadAccessFault(0x10FE)));
    assert_eq!(bus.store(0x10FC, 4, 0xCAFE_F00D), Ok(()));
    assert_eq!(bus.load(0x10FC, 4), Ok(0xCAFE_F00D));
}

#[test]
fn bus_first_mapping_wins() {
    let mut first = Dram::new(0x100);
    first.flash(&[0xAA], 0x10).unwrap();
    let mut second = Dram::new(0x200);
    second.flash(&[0xBB], 0x10).unwrap();
    second.flash(&[0xCC], 0x150).unwrap();
    let mut bus = Bus::new();
    bus.map_to(0x1000, AnyDevice::Dram(first));
    bus.map_to(0x1000, AnyDevice::Dram(second));
    assert_eq!(bus.load(0x1010, 1), Ok(0xAA));
    assert_eq!(bus.load(0x1150, 1), Ok(0xCC));
}

#[test]
fn uart_emits_low_bytes() {
    let mut bus = Bus::new();
    bus.map_to(0x8000_0000, AnyDevice::Dram(Dram::new(0x100)));
    bus.map_to(0x1000_0000, AnyDevice::Uart(Uart::new()));
    assert_eq!(bus.store(0x1000_0000, 1, 0x148), Ok(()));
    assert_eq!(bus.store(0x1000_0000, 4, 0x69), Ok(()));
    assert_eq!(bus.load(0x1000_0000, 4), Ok(0));
    assert_eq!(bus.take_console_output(1), vec![0x48, 0x69]);
    assert_eq!(bus.take_console_output(1), Vec::<u8>::new());
    assert_eq!(bus.take_console_output(0), Vec::<u8>::new());
    assert_eq!(bus.load(0x1000_1000, 1), Err(BusError::LoadAccessFault(0x1000_1000)));
}

#[test]
fn uart_device_interface() {
    let mut u = Uart::new();
    assert_eq!(u.name(), "UART");
    assert_eq!(u.size(), 0x1000);
    assert_eq!(u.store(0, 1, 0x41), Ok(()));
    assert_eq!(u.take_output(), vec![0x41]);
    assert_eq!(u.store(0xFFF, 2, 0x41), Err(BusError::StoreAccessFault(0xFFF)));
}
