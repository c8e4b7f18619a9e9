//! The instruction set: one byte per instruction.
//!
//! A byte that stands for no instruction is carried out as a no-op, so that
//! programs keep running where instructions are added later.
use vstd::prelude::*;

verus! {

/// Register-indexed read, by data counter 0; the next three bytes read by
/// data counters 1 to 3.
pub const RREAD: u8 = 0x00;

/// Register-indexed add, by data counter 0; the next three bytes add by data
/// counters 1 to 3.
pub const ADD: u8 = 0x04;

/// Add one to the top of the stack.
pub const INC: u8 = 0x08;

/// Subtract one from the top of the stack.
pub const DEC: u8 = 0x09;

/// Carry on a chain of additions.
pub const CARRY: u8 = 0x0A;

/// Carry on a chain of subtractions.
pub const BORROW: u8 = 0x0B;

/// Complement the top of the stack bit by bit.
pub const INV: u8 = 0x0C;

/// Do nothing.
pub const FLUSH: u8 = 0x0D;

/// Direct read: replace an address by the word of memory there.
pub const READS: u8 = 0x0E;

/// Return to the context saved last.
pub const RET: u8 = 0x0F;

/// Enable the interrupts of the selected buses.
pub const IEN: u8 = 0x10;

/// Disable the interrupts of all buses.
pub const IDI: u8 = 0x11;

/// Wait for an interrupt over a bus whose interrupts are enabled.
pub const RECV: u8 = 0x12;

} // verus!
