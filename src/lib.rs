//! An RV32I + Zicsr machine-mode emulator core with Sv32 translation.
pub mod isa;
pub mod registers;
pub mod csrs;
pub mod trap;
pub mod bus;
pub mod dram;
pub mod uart;
pub mod semantics;
pub mod cpu;
pub mod rv32i;
pub mod zicsr;
pub mod privileged;
pub mod laws;
pub mod profiling;
