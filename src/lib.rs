//! A benchmarking harness for a RISC-V virtual machine: a debug-print
//! environment call for guest programs, and the bookkeeping that runs one
//! program many times from a cold start and insists that every run ends the
//! same way.

mod vm;

pub mod debug_print;
pub mod harness;

pub use debug_print::DebugSyscall;
