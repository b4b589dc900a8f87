//! A 16-bit dual-stack virtual machine built to host a Forth
//! environment: a fixed core of 0x8000 cells, a bit-packed instruction
//! set with literal, ALU, call and branch families, a little-endian
//! image codec, and a per-cycle CSV trace record.
//!
//! The machine itself is pure: one instruction cycle is a function of
//! the registers, the core and, for the three I/O operations, the
//! outside world's 16-bit answer. The host drives the cycle loop,
//! performs the requested byte I/O and block saves, and feeds the
//! answers back in.

pub mod codec;
pub mod cycle;
pub mod laws;
pub mod runner;
pub mod state;
pub mod tracer;
pub mod vm;

pub use cycle::IoReq;
pub use runner::RunReport;
pub use vm::VM;
