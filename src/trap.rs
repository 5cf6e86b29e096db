//! The synchronous exceptions that a step can raise.
use crate::bus::BusError;
use crate::isa::{Instr, PrivilegeMode};
use vstd::prelude::*;

verus! {

#[derive(Debug, Clone, Copy, PartialEq, Eq, Structural)]
pub enum Trap {
    IllegalInstruction(Instr),
    LoadAccessFault(u32),
    StoreAccessFault(u32),
    EnvironmentCall(PrivilegeMode),
}

impl Trap {
    /// The `mcause` code of the trap.
    pub open spec fn spec_cause_code(self) -> u32 {
        match self {
            Trap::IllegalInstruction(_) => 2,
            Trap::LoadAccessFault(_) => 5,
            Trap::StoreAccessFault(_) => 7,
            Trap::EnvironmentCall(m) => (8 + m.spec_bits()) as u32,
        }
    }

    /// The `mtval` payload of the trap.
    pub open spec fn spec_value(self) -> u32 {
        match self {
            Trap::IllegalInstruction(i) => i.0,
            Trap::LoadAccessFault(addr) => addr,
            Trap::StoreAccessFault(addr) => addr,
            Trap::EnvironmentCall(_) => 0,
        }
    }

    pub fn cause_code(&self) -> (r: u32)
        ensures
            r == self.spec_cause_code(),
    {
        match self {
            Trap::IllegalInstruction(_) => 2,
            Trap::LoadAccessFault(_) => 5,
            Trap::StoreAccessFault(_) => 7,
            Trap::EnvironmentCall(m) => 8 + m.bits(),
        }
    }

    pub fn value(&self) -> (r: u32)
        ensures
            r == self.spec_value(),
    {
        match self {
            Trap::IllegalInstruction(i) => i.0,
            Trap::LoadAccessFault(addr) => *addr,
            Trap::StoreAccessFault(addr) => *addr,
            Trap::EnvironmentCall(_) => 0,
        }
    }
}

/// The trap that a bus error raises: the access fault of the same kind, at the same address.
pub open spec fn trap_of_bus_error(e: BusError) -> Trap {
    match e {
        BusError::LoadAccessFault(addr) => Trap::LoadAccessFault(addr),
        BusError::StoreAccessFault(addr) => Trap::StoreAccessFault(addr),
    }
}

impl From<BusError> for Trap {
    fn from(err: BusError) -> (r: Trap) {
        match err {
            BusError::LoadAccessFault(addr) => Trap::LoadAccessFault(addr),
            BusError::StoreAccessFault(addr) => Trap::StoreAccessFault(addr),
        }
    }
}

impl vstd::std_specs::convert::FromSpecImpl<BusError> for Trap {
    open spec fn obeys_from_spec() -> bool {
        true
    }

    open spec fn from_spec(v: BusError) -> Trap {
        trap_of_bus_error(v)
    }
}

} // verus!
