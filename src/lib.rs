//! Processor status flags and real-mode segmented memory access for an
//! x86-compatible emulator core.

pub mod flags;
pub mod memory;
pub mod mmu;
