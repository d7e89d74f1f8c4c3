//! The operand fields of an instruction word.
//!
//! Bit 0 is the least significant bit of the word. The class of the
//! instruction is in bits 15 to 12; what the other bits mean depends on the
//! class.

use crate::bits::{extend_sign, sign_extension};
use vstd::prelude::*;

verus! {

/// Bits 11 to 9: the destination register of the instructions that write
/// one, the source register of the stores, the condition mask of a branch.
pub open spec fn dr(instr: u16) -> u16 {
    (instr >> 9) & 0x7
}

/// Bits 8 to 6: the first source register, or the base register.
pub open spec fn sr1(instr: u16) -> u16 {
    (instr >> 6) & 0x7
}

/// Bits 2 to 0: the second source register.
pub open spec fn sr2(instr: u16) -> u16 {
    instr & 0x7
}

/// Bit 5: whether the second operand is an immediate.
pub open spec fn has_immediate(instr: u16) -> bool {
    (instr >> 5) & 0x1 == 1
}

/// Bit 11: whether a subroutine call gives its target as an offset.
pub open spec fn has_offset_target(instr: u16) -> bool {
    (instr >> 11) & 0x1 == 1
}

/// Bits 4 to 0, sign-extended.
pub open spec fn imm5(instr: u16) -> u16 {
    sign_extension(instr & 0x1F, 5)
}

/// Bits 5 to 0, sign-extended.
pub open spec fn offset6(instr: u16) -> u16 {
    sign_extension(instr & 0x3F, 6)
}

/// Bits 8 to 0, sign-extended.
pub open spec fn pc_offset9(instr: u16) -> u16 {
    sign_extension(instr & 0x1FF, 9)
}

/// Bits 10 to 0, sign-extended.
pub open spec fn pc_offset11(instr: u16) -> u16 {
    sign_extension(instr & 0x7FF, 11)
}

/// Bits 7 to 0: the trap vector.
pub open spec fn trap_vector(instr: u16) -> u8 {
    (instr & 0xFF) as u8
}

/// Reads the register selector in bits 11 to 9.
pub fn field_dr(instr: u16) -> (r: u16)
    ensures
        r == dr(instr),
        r < 8,
{
    assert((instr >> 9) & 0x7 < 8) by (bit_vector);
    (instr >> 9) & 0x7
}

/// Reads the register selector in bits 8 to 6.
pub fn field_sr1(instr: u16) -> (r: u16)
    ensures
        r == sr1(instr),
        r < 8,
{
    assert((instr >> 6) & 0x7 < 8) by (bit_vector);
    (instr >> 6) & 0x7
}

/// Reads the register selector in bits 2 to 0.
pub fn field_sr2(instr: u16) -> (r: u16)
    ensures
        r == sr2(instr),
        r < 8,
{
    assert(instr & 0x7 < 8) by (bit_vector);
    instr & 0x7
}

/// Tests bit 5.
pub fn field_has_immediate(instr: u16) -> (flag: bool)
    ensures
        flag == has_immediate(instr),
{
    (instr >> 5) & 0x1 == 1
}

/// Tests bit 11.
pub fn field_has_offset_target(instr: u16) -> (flag: bool)
    ensures
        flag == has_offset_target(instr),
{
    (instr >> 11) & 0x1 == 1
}

/// Reads the sign-extended immediate in bits 4 to 0.
pub fn field_imm5(instr: u16) -> (value: u16)
    ensures
        value == imm5(instr),
{
    extend_sign(instr & 0x1F, 5)
}

/// Reads the sign-extended offset in bits 5 to 0.
pub fn field_offset6(instr: u16) -> (value: u16)
    ensures
        value == offset6(instr),
{
    extend_sign(instr & 0x3F, 6)
}

/// Reads the sign-extended offset in bits 8 to 0.
pub fn field_pc_offset9(instr: u16) -> (value: u16)
    ensures
        value == pc_offset9(instr),
{
    extend_sign(instr & 0x1FF, 9)
}

/// Reads the sign-extended offset in bits 10 to 0.
pub fn field_pc_offset11(instr: u16) -> (value: u16)
    ensures
        value == pc_offset11(instr),
{
    extend_sign(instr & 0x7FF, 11)
}

/// Reads the trap vector in bits 7 to 0.
pub fn field_trap_vector(instr: u16) -> (vector: u8)
    ensures
        vector == trap_vector(instr),
{
    assert(instr & 0xFF < 256) by (bit_vector);
    (instr & 0xFF) as u8
}

} // verus!
