//! The machine-mode control and status registers.
use crate::isa::PrivilegeMode;
use vstd::prelude::*;

verus! {

pub const MSTATUS: u16 = 0x300;
pub const MISA: u16 = 0x301;
pub const MIE: u16 = 0x304;
pub const MTVEC: u16 = 0x305;
pub const MSCRATCH: u16 = 0x340;
pub const MEPC: u16 = 0x341;
pub const MCAUSE: u16 = 0x342;
pub const MTVAL: u16 = 0x343;
pub const MIP: u16 = 0x344;
pub const SATP: u16 = 0x180;
pub const MCYCLE: u16 = 0xb00;
pub const MINSTRET: u16 = 0xb02;

/// Bits of `mstatus` that software can write: MIE, MPIE and MPP.
pub const MSTATUS_WRITABLE: u32 = 0x0000_1888;
/// Bits of `mip` that software can write: MSIP, MTIP and MEIP.
pub const MIP_WRITABLE: u32 = 0x888;
pub const MSTATUS_MIE: u32 = 0x8;
pub const MSTATUS_MPIE: u32 = 0x80;
pub const MSTATUS_MPP: u32 = 0x1800;
/// `misa` at reset: MXL = 32 bits, with the I extension.
pub const MISA_RV32I: u32 = 0x4000_1100;

#[derive(Debug, Clone, Copy, PartialEq, Eq, Structural)]
pub struct CsrFile {
    pub mstatus: u32,
    pub misa: u32,
    pub mie: u32,
    pub mtvec: u32,
    pub mscratch: u32,
    pub mepc: u32,
    pub mcause: u32,
    pub mtval: u32,
    pub mip: u32,
    pub satp: u32,
    pub mcycle: u64,
    pub minstret: u64,
}

/// The addresses that name a register of the file.
pub open spec fn is_csr(addr: u16) -> bool {
    addr == MSTATUS || addr == MISA || addr == MIE || addr == MTVEC || addr == MSCRATCH || addr
        == MEPC || addr == MCAUSE || addr == MTVAL || addr == MIP || addr == SATP || addr == MCYCLE
        || addr == MINSTRET
}

/// What a 32-bit read of the register at `addr` gives; the counters give their low half.
pub open spec fn csr_value(c: CsrFile, addr: u16) -> u32 {
    if addr == MSTATUS {
        c.mstatus
    } else if addr == MISA {
        c.misa
    } else if addr == MIE {
        c.mie
    } else if addr == MTVEC {
        c.mtvec
    } else if addr == MSCRATCH {
        c.mscratch
    } else if addr == MEPC {
        c.mepc
    } else if addr == MCAUSE {
        c.mcause
    } else if addr == MTVAL {
        c.mtval
    } else if addr == MIP {
        c.mip
    } else if addr == SATP {
        c.satp
    } else if addr == MCYCLE {
        (c.mcycle & 0xffff_ffff) as u32
    } else {
        (c.minstret & 0xffff_ffff) as u32
    }
}

/// The low half of a counter replaced by `val`, the high half kept.
pub open spec fn with_low_half(counter: u64, val: u32) -> u64 {
    (counter & 0xffff_ffff_0000_0000) | (val as u64)
}

/// The file after a 32-bit write of `val` to the register at `addr`, with its write mask.
pub open spec fn csr_written(c: CsrFile, addr: u16, val: u32) -> CsrFile {
    if addr == MSTATUS {
        CsrFile { mstatus: val & MSTATUS_WRITABLE, ..c }
    } else if addr == MISA {
        CsrFile { misa: val, ..c }
    } else if addr == MIE {
        CsrFile { mie: val, ..c }
    } else if addr == MTVEC {
        CsrFile { mtvec: val, ..c }
    } else if addr == MSCRATCH {
        CsrFile { mscratch: val, ..c }
    } else if addr == MEPC {
        CsrFile { mepc: val & !3u32, ..c }
    } else if addr == MCAUSE {
        CsrFile { mcause: val, ..c }
    } else if addr == MTVAL {
        CsrFile { mtval: val, ..c }
    } else if addr == MIP {
        CsrFile { mip: val & MIP_WRITABLE, ..c }
    } else if addr == SATP {
        CsrFile { satp: val, ..c }
    } else if addr == MCYCLE {
        CsrFile { mcycle: with_low_half(c.mcycle, val), ..c }
    } else {
        CsrFile { minstret: with_low_half(c.minstret, val), ..c }
    }
}

pub open spec fn mie_bit(mstatus: u32) -> bool {
    mstatus & MSTATUS_MIE != 0
}

pub open spec fn mpie_bit(mstatus: u32) -> bool {
    mstatus & MSTATUS_MPIE != 0
}

pub open spec fn mpp_bits(mstatus: u32) -> u32 {
    (mstatus & MSTATUS_MPP) >> 11
}

/// `mstatus` on trap entry from `prev`: MPIE takes MIE, MIE clears, MPP takes `prev`.
pub open spec fn mstatus_on_trap(mstatus: u32, prev: PrivilegeMode) -> u32 {
    (mstatus & !MSTATUS_WRITABLE) | (if mie_bit(mstatus) {
        MSTATUS_MPIE
    } else {
        0
    }) | (prev.spec_bits() << 11)
}

/// `mstatus` on MRET: MIE takes MPIE, MPIE sets, MPP clears.
pub open spec fn mstatus_on_return(mstatus: u32) -> u32 {
    (mstatus & !MSTATUS_WRITABLE) | (if mpie_bit(mstatus) {
        MSTATUS_MIE
    } else {
        0
    }) | MSTATUS_MPIE
}

pub(crate) proof fn lemma_mstatus_on_trap(mstatus: u32, prev: u32)
    by (bit_vector)
    requires
        prev < 4,
    ensures
        !mie_bit(
            (mstatus & !MSTATUS_WRITABLE) | (if mie_bit(mstatus) {
                MSTATUS_MPIE
            } else {
                0
            }) | (prev << 11),
        ),
        mpie_bit(
            (mstatus & !MSTATUS_WRITABLE) | (if mie_bit(mstatus) {
                MSTATUS_MPIE
            } else {
                0
            }) | (prev << 11),
        ) == mie_bit(mstatus),
        mpp_bits(
            (mstatus & !MSTATUS_WRITABLE) | (if mie_bit(mstatus) {
                MSTATUS_MPIE
            } else {
                0
            }) | (prev << 11),
        ) == prev,
{
}

pub(crate) proof fn lemma_mstatus_on_return(mstatus: u32)
    by (bit_vector)
    ensures
        mie_bit(mstatus_on_return(mstatus)) == mpie_bit(mstatus),
        mpie_bit(mstatus_on_return(mstatus)),
        mpp_bits(mstatus_on_return(mstatus)) == 0,
{
}

impl CsrFile {
    /// The file at reset: all zero but `misa`.
    pub open spec fn new_spec() -> CsrFile {
        CsrFile {
            mstatus: 0,
            misa: MISA_RV32I,
            mie: 0,
            mtvec: 0,
            mscratch: 0,
            mepc: 0,
            mcause: 0,
            mtval: 0,
            mip: 0,
            satp: 0,
            mcycle: 0,
            minstret: 0,
        }
    }

    pub fn new() -> (r: CsrFile)
        ensures
            r == CsrFile::new_spec(),
    {
        CsrFile {
            mstatus: 0,
            misa: MISA_RV32I,
            mie: 0,
            mtvec: 0,
            mscratch: 0,
            mepc: 0,
            mcause: 0,
            mtval: 0,
            mip: 0,
            satp: 0,
            mcycle: 0,
            minstret: 0,
        }
    }

    pub fn read(&self, addr: u16) -> (r: Result<u32, ()>)
        ensures
            is_csr(addr) ==> r == Ok::<u32, ()>(csr_value(*self, addr)),
            !is_csr(addr) ==> r is Err,
    {
        match addr {
            MSTATUS => Ok(self.mstatus),
            MISA => Ok(self.misa),
            MIE => Ok(self.mie),
            MTVEC => Ok(self.mtvec),
            MSCRATCH => Ok(self.mscratch),
            MEPC => Ok(self.mepc),
            MCAUSE => Ok(self.mcause),
            MTVAL => Ok(self.mtval),
            MIP => Ok(self.mip),
            SATP => Ok(self.satp),
            MCYCLE => Ok((self.mcycle & 0xffff_ffff) as u32),
            MINSTRET => Ok((self.minstret & 0xffff_ffff) as u32),
            _ => Err(()),
        }
    }

    pub fn write(&mut self, addr: u16, val: u32) -> (r: Result<(), ()>)
        ensures
            is_csr(addr) ==> r is Ok && *final(self) == csr_written(*old(self), addr, val),
            !is_csr(addr) ==> r is Err && *final(self) == *old(self),
    {
        match addr {
            MSTATUS => {
                self.mstatus = val & MSTATUS_WRITABLE;
                Ok(())
            },
            MISA => {
                self.misa = val;
                Ok(())
            },
            MIE => {
                self.mie = val;
                Ok(())
            },
            MTVEC => {
                self.mtvec = val;
                Ok(())
            },
            MSCRATCH => {
                self.mscratch = val;
                Ok(())
            },
            MEPC => {
                self.mepc = val & !3u32;
                Ok(())
            },
            MCAUSE => {
                self.mcause = val;
                Ok(())
            },
            MTVAL => {
                self.mtval = val;
                Ok(())
            },
            MIP => {
                self.mip = val & MIP_WRITABLE;
                Ok(())
            },
            SATP => {
                self.satp = val;
                Ok(())
            },
            MCYCLE => {
                self.mcycle = (self.mcycle & 0xffff_ffff_0000_0000) | (val as u64);
                Ok(())
            },
            MINSTRET => {
                self.minstret = (self.minstret & 0xffff_ffff_0000_0000) | (val as u64);
                Ok(())
            },
            _ => Err(()),
        }
    }

    pub fn set_exception_pc(&mut self, pc: u32)
        ensures
            *final(self) == (CsrFile { mepc: pc, ..*old(self) }),
    {
        self.mepc = pc;
    }

    pub fn set_cause(&mut self, cause: u32)
        ensures
            *final(self) == (CsrFile { mcause: cause, ..*old(self) }),
    {
        self.mcause = cause;
    }

    pub fn set_mtval(&mut self, value: u32)
        ensures
            *final(self) == (CsrFile { mtval: value, ..*old(self) }),
    {
        self.mtval = value;
    }

    /// The trap vector base: `mtvec` with its two mode bits cleared.
    pub fn get_mtvec(&self) -> (r: u32)
        ensures
            r == self.mtvec & !3u32,
    {
        self.mtvec & !3u32
    }

    pub fn get_mepc(&self) -> (r: u32)
        ensures
            r == self.mepc,
    {
        self.mepc
    }

    pub fn get_cycle(&self) -> (r: u64)
        ensures
            r == self.mcycle,
    {
        self.mcycle
    }

    pub fn get_instret(&self) -> (r: u64)
        ensures
            r == self.minstret,
    {
        self.minstret
    }

    pub fn get_mie(&self) -> (r: bool)
        ensures
            r == mie_bit(self.mstatus),
    {
        (self.mstatus & MSTATUS_MIE) != 0
    }

    pub fn get_mpie(&self) -> (r: bool)
        ensures
            r == mpie_bit(self.mstatus),
    {
        (self.mstatus & MSTATUS_MPIE) != 0
    }

    pub fn get_mpp(&self) -> (r: u8)
        ensures
            r as u32 == mpp_bits(self.mstatus),
    {
        let m = self.mstatus;
        assert((m & MSTATUS_MPP) >> 11 < 4) by (bit_vector);
        ((self.mstatus & MSTATUS_MPP) >> 11) as u8
    }

    pub fn get_satp(&self) -> (r: u32)
        ensures
            r == self.satp,
    {
        self.satp
    }

    pub fn set_satp(&mut self, value: u32)
        ensures
            *final(self) == (CsrFile { satp: value, ..*old(self) }),
    {
        self.satp = value;
    }

    pub fn increment_cycle(&mut self)
        ensures
            *final(self) == (CsrFile { mcycle: old(self).mcycle.wrapping_add(1), ..*old(self) }),
    {
        self.mcycle = self.mcycle.wrapping_add(1);
    }

    pub fn increment_instret(&mut self)
        ensures
            *final(self) == (CsrFile {
                minstret: old(self).minstret.wrapping_add(1),
                ..*old(self)
            }),
    {
        self.minstret = self.minstret.wrapping_add(1);
    }

    /// Trap entry from privilege `prev`: MPIE takes MIE, MIE clears, MPP records `prev`.
    pub fn enter_exception_mode(&mut self, prev: PrivilegeMode)
        ensures
            *final(self) == (CsrFile {
                mstatus: mstatus_on_trap(old(self).mstatus, prev),
                ..*old(self)
            }),
            !mie_bit(final(self).mstatus),
            mpie_bit(final(self).mstatus) == mie_bit(old(self).mstatus),
            mpp_bits(final(self).mstatus) == prev.spec_bits(),
            final(self).mstatus & !MSTATUS_WRITABLE == old(self).mstatus & !MSTATUS_WRITABLE,
    {
        let m = self.mstatus;
        let saved: u32 = if (m & MSTATUS_MIE) != 0 {
            MSTATUS_MPIE
        } else {
            0
        };
        let p = prev.bits();
        proof {
            lemma_mstatus_on_trap(m, p);
            assert(((m & !MSTATUS_WRITABLE) | saved | (p << 11)) & !MSTATUS_WRITABLE == m
                & !MSTATUS_WRITABLE) by (bit_vector)
                requires
                    saved == 0 || saved == MSTATUS_MPIE,
                    p < 4,
            ;
        }
        self.mstatus = (m & !MSTATUS_WRITABLE) | saved | (p << 11);
    }

    /// MRET: MIE takes MPIE, MPIE sets, MPP clears; returns the mode that MPP held.
    pub fn return_from_exception_mode(&mut self) -> (r: PrivilegeMode)
        ensures
            *final(self) == (CsrFile {
                mstatus: mstatus_on_return(old(self).mstatus),
                ..*old(self)
            }),
            r == PrivilegeMode::spec_from_bits(mpp_bits(old(self).mstatus)),
            mie_bit(final(self).mstatus) == mpie_bit(old(self).mstatus),
            mpie_bit(final(self).mstatus),
            mpp_bits(final(self).mstatus) == 0,
            final(self).mstatus & !MSTATUS_WRITABLE == old(self).mstatus & !MSTATUS_WRITABLE,
    {
        let m = self.mstatus;
        let mpp = (m & MSTATUS_MPP) >> 11;
        let restored: u32 = if (m & MSTATUS_MPIE) != 0 {
            MSTATUS_MIE
        } else {
            0
        };
        proof {
            lemma_mstatus_on_return(m);
            assert(((m & !MSTATUS_WRITABLE) | restored | MSTATUS_MPIE) & !MSTATUS_WRITABLE == m
                & !MSTATUS_WRITABLE) by (bit_vector)
                requires
                    restored == 0 || restored == MSTATUS_MIE,
            ;
        }
        self.mstatus = (m & !MSTATUS_WRITABLE) | restored | MSTATUS_MPIE;
        PrivilegeMode::from_bits(mpp)
    }
}

impl Default for CsrFile {
    fn default() -> (r: CsrFile)
        ensures
            r == CsrFile::new_spec(),
    {
        CsrFile::new()
    }
}

} // verus!
