//! Machine-mode trap handling for a RISC-V supervisor binary interface:
//! hart lifecycle, SBI call routing, register access and atomic-instruction
//! emulation, all as plain state machines over plain values.
pub mod hsm;
pub mod regs;
pub mod decode;
pub mod atomic;
pub mod sbi;
pub mod trap;
pub mod pin;
pub mod timer;
pub mod board;
