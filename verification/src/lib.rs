//! Abstract-interpretation virtual machine for 32-bit PowerPC (750CL) code.
//!
//! The core is [`vm::VM`]: it consumes one decoded instruction at a time and
//! returns a [`vm::StepResult`] describing the instruction's effect on control
//! flow and externally visible memory operations.  Register contents are
//! tracked as abstract values ([`value::GprValue`]) precise enough to recover
//! addresses materialised by `lis`/`addi` pairs, comparison-refined ranges,
//! and jump-table dispatches.

pub mod bits;
pub mod ins;
pub mod laws;
pub mod obj;
pub mod value;
pub mod vm;
