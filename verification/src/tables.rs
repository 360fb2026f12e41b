//! Per-opcode instruction-length and cycle-cost tables.
//!
//! There is one table pair for the base 256-entry opcode space and one for
//! the extended space reached through the prefix byte.  An opcode with no
//! entry (`None`) is not part of the instruction set this core executes, and
//! the dispatcher surfaces it as a typed failure.  Extended-space
//! instructions are always two bytes long (prefix byte plus sub-opcode);
//! their cycle cost is higher when the operand is the memory location
//! addressed by the HL pair than when it is a plain register.

use vstd::prelude::*;

verus! {

/// Instruction length in bytes for a base-space opcode; `None` when the
/// opcode has no table entry.
pub open spec fn base_size(op: u8) -> Option<u8> {
    if op == 0x00 {
        Some(1)
    } else if op == 0x02 {
        Some(1)
    } else if op == 0x03 {
        Some(1)
    } else if op == 0x0A {
        Some(1)
    } else if op == 0x0B {
        Some(1)
    } else if op == 0x10 {
        Some(2)
    } else if op == 0x12 {
        Some(1)
    } else if op == 0x13 {
        Some(1)
    } else if op == 0x1A {
        Some(1)
    } else if op == 0x1B {
        Some(1)
    } else if op == 0x21 {
        Some(3)
    } else if op == 0x23 {
        Some(1)
    } else if op == 0x2B {
        Some(1)
    } else if op == 0x2F {
        Some(1)
    } else if op == 0x31 {
        Some(3)
    } else if op == 0x32 {
        Some(2)
    } else if op == 0x33 {
        Some(1)
    } else if op == 0x3B {
        Some(1)
    } else if op == 0x3E {
        Some(2)
    } else if 0x40 <= op && op < 0x80 {
        Some(1)
    } else if op == 0xAF {
        Some(1)
    } else if op == 0xC2 {
        Some(3)
    } else if op == 0xC3 {
        Some(3)
    } else if op == 0xCA {
        Some(3)
    } else if op == 0xD2 {
        Some(3)
    } else if op == 0xDA {
        Some(3)
    } else if op == 0xEA {
        Some(3)
    } else if op == 0xFA {
        Some(3)
    } else {
        None
    }
}

/// True when the base-space opcode has a table entry.
pub open spec fn base_implemented(op: u8) -> bool {
    base_size(op) is Some
}

/// Cycle cost for a base-space opcode; `None` when the opcode has no table
/// entry.  Register-to-register transfers cost 4 cycles; transfers through
/// memory cost 8; three-byte loads and jumps cost 12 or 16.
pub open spec fn base_cycles(op: u8) -> Option<u8> {
    if op == 0x00 {
        Some(4)
    } else if op == 0x02 {
        Some(8)
    } else if op == 0x03 {
        Some(8)
    } else if op == 0x0A {
        Some(8)
    } else if op == 0x0B {
        Some(8)
    } else if op == 0x10 {
        Some(4)
    } else if op == 0x12 {
        Some(8)
    } else if op == 0x13 {
        Some(8)
    } else if op == 0x1A {
        Some(8)
    } else if op == 0x1B {
        Some(8)
    } else if op == 0x21 {
        Some(12)
    } else if op == 0x23 {
        Some(8)
    } else if op == 0x2B {
        Some(8)
    } else if op == 0x2F {
        Some(4)
    } else if op == 0x31 {
        Some(12)
    } else if op == 0x32 {
        Some(12)
    } else if op == 0x33 {
        Some(8)
    } else if op == 0x3B {
        Some(8)
    } else if op == 0x3E {
        Some(8)
    } else if op == 0x76 {
        Some(4)
    } else if 0x40 <= op && op < 0x80 {
        if op % 8 == 6 || (0x70 <= op && op < 0x78) {
            Some(8)
        } else {
            Some(4)
        }
    } else if op == 0xAF {
        Some(4)
    } else if op == 0xC2 {
        Some(12)
    } else if op == 0xC3 {
        Some(16)
    } else if op == 0xCA {
        Some(12)
    } else if op == 0xD2 {
        Some(12)
    } else if op == 0xDA {
        Some(12)
    } else if op == 0xEA {
        Some(16)
    } else if op == 0xFA {
        Some(16)
    } else {
        None
    }
}

/// True when the extended-space sub-opcode has a table entry.  The rotate-
/// through-carry rows are the only hole in the extended space.
pub open spec fn cb_implemented(op: u8) -> bool {
    !(0x10 <= op && op < 0x20)
}

/// Instruction length in bytes for an extended-space sub-opcode: always 2
/// (prefix byte plus sub-opcode) when the entry exists.
pub open spec fn cb_size(op: u8) -> Option<u8> {
    if cb_implemented(op) {
        Some(2)
    } else {
        None
    }
}

/// Cycle cost for an extended-space sub-opcode: 8 for a register operand;
/// 16 when the operand is memory addressed by HL, except the bit test,
/// which only reads and costs 12 there.
pub open spec fn cb_cycles(op: u8) -> Option<u8> {
    if !cb_implemented(op) {
        None
    } else if op % 8 == 6 {
        if 0x40 <= op && op < 0x80 {
            Some(12)
        } else {
            Some(16)
        }
    } else {
        Some(8)
    }
}

/// Base-space entries give a length exactly when they give a cycle cost.
pub proof fn lemma_base_tables_agree(op: u8)
    ensures
        base_size(op) is Some <==> base_cycles(op) is Some,
{
}

/// Extended-space entries give a length exactly when they give a cycle cost.
pub proof fn lemma_cb_tables_agree(op: u8)
    ensures
        cb_size(op) is Some <==> cb_cycles(op) is Some,
{
}

/// Looks up the instruction length of a base-space opcode.
pub fn instruction_size(op: u8) -> (r: Option<u8>)
    ensures
        r == base_size(op),
{
    if op == 0x00 || op == 0x02 || op == 0x03 || op == 0x0A || op == 0x0B || op == 0x12 || op
        == 0x13 || op == 0x1A || op == 0x1B || op == 0x23 || op == 0x2B || op == 0x2F || op == 0x33
        || op == 0x3B || (0x40 <= op && op < 0x80) || op == 0xAF {
        Some(1)
    } else if op == 0x10 || op == 0x32 || op == 0x3E {
        Some(2)
    } else if op == 0x21 || op == 0x31 || op == 0xC2 || op == 0xC3 || op == 0xCA || op == 0xD2 || op
        == 0xDA || op == 0xEA || op == 0xFA {
        Some(3)
    } else {
        None
    }
}

/// Looks up the cycle cost of a base-space opcode.
pub fn cycle_time(op: u8) -> (r: Option<u8>)
    ensures
        r == base_cycles(op),
{
    if op == 0x00 || op == 0x10 || op == 0x2F || op == 0xAF || op == 0x76 {
        Some(4)
    } else if 0x40 <= op && op < 0x80 {
        if op % 8 == 6 || (0x70 <= op && op < 0x78) {
            Some(8)
        } else {
            Some(4)
        }
    } else if op == 0x02 || op == 0x03 || op == 0x0A || op == 0x0B || op == 0x12 || op == 0x13 || op
        == 0x1A || op == 0x1B || op == 0x23 || op == 0x2B || op == 0x33 || op == 0x3B || op
        == 0x3E {
        Some(8)
    } else if op == 0x21 || op == 0x31 || op == 0x32 || op == 0xC2 || op == 0xCA || op == 0xD2 || op
        == 0xDA {
        Some(12)
    } else if op == 0xC3 || op == 0xEA || op == 0xFA {
        Some(16)
    } else {
        None
    }
}

/// Looks up the instruction length of an extended-space sub-opcode.
pub fn cb_prefixed_instruction_size(op: u8) -> (r: Option<u8>)
    ensures
        r == cb_size(op),
{
    if 0x10 <= op && op < 0x20 {
        None
    } else {
        Some(2)
    }
}

/// Looks up the cycle cost of an extended-space sub-opcode.
pub fn cb_prefixed_cycle_time(op: u8) -> (r: Option<u8>)
    ensures
        r == cb_cycles(op),
{
    if 0x10 <= op && op < 0x20 {
        None
    } else if op % 8 == 6 {
        if 0x40 <= op && op < 0x80 {
            Some(12)
        } else {
            Some(16)
        }
    } else {
        Some(8)
    }
}

} // verus!
