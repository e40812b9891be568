//! Operand fetches and flag rules shared by the shift and rotate instructions.
use vstd::prelude::*;
use crate::addressing::{absolute_reg_addr, carry_in, zero_page_x_addr, zn_status};
use crate::flags::{assign_flag, with_flag, CARRY_BIT};
use crate::memory::{is_mapped, RAM};

verus! {

/// Shift left: bit 7 falls out, zero comes in.
pub open spec fn asl_value(v: u8) -> u8 {
    ((v * 2) % 256) as u8
}

/// Shift right: bit 0 falls out, zero comes in.
pub open spec fn lsr_value(v: u8) -> u8 {
    (v / 2) as u8
}

/// Rotate left: bit 7 falls out, the Carry of `status` comes in.
pub open spec fn rol_value(v: u8, status: u8) -> u8 {
    ((v * 2 + carry_in(status)) % 256) as u8
}

/// Rotate right: bit 0 falls out, the Carry of `status` comes in at bit 7.
pub open spec fn ror_value(v: u8, status: u8) -> u8 {
    (v / 2 + 128 * carry_in(status)) as u8
}

/// Carry takes the bit shifted out; Zero and Negative follow the result.
pub open spec fn shift_status(status: u8, result: u8, carry_out: bool) -> u8 {
    with_flag(zn_status(status, result), CARRY_BIT, carry_out)
}

/// Sets Carry to the bit shifted out and Zero and Negative from the result.
pub fn set_shift_flags(status_flags: &mut u8, result: u8, carry_out: bool)
    ensures
        *final(status_flags) == shift_status(*old(status_flags), result, carry_out),
{
    crate::addressing::set_flags_zn(result, status_flags);
    assign_flag(status_flags, CARRY_BIT, carry_out);
}

/// The byte at the zero-page operand.
pub fn shift_zero_page(operand: u8, memory: &mut RAM) -> (r: u8)
    ensures
        r == old(memory)@.byte(operand as u16),
        final(memory)@ == old(memory)@.after_read(operand as u16),
{
    memory.read_mem_value(operand as u16)
}

/// The byte at the zero-page operand plus X, wrapping inside page zero.
pub fn shift_zero_page_x(x_val: u8, operand: u8, memory: &mut RAM) -> (r: u8)
    ensures
        r == old(memory)@.byte(zero_page_x_addr(operand, x_val)),
        final(memory)@ == old(memory)@.after_read(zero_page_x_addr(operand, x_val)),
{
    memory.read_mem_value(operand.wrapping_add(x_val) as u16)
}

/// The byte at the absolute operand.
pub fn shift_absolute(operand: u16, memory: &mut RAM) -> (r: u8)
    requires
        is_mapped(operand),
    ensures
        r == old(memory)@.byte(operand),
        final(memory)@ == old(memory)@.after_read(operand),
{
    memory.read_mem_value(operand)
}

/// The byte at the absolute operand plus the index register.
pub fn shift_absolute_x(reg: u8, operand: u16, memory: &mut RAM) -> (r: u8)
    requires
        is_mapped(absolute_reg_addr(operand, reg)),
    ensures
        r == old(memory)@.byte(absolute_reg_addr(operand, reg)),
        final(memory)@ == old(memory)@.after_read(absolute_reg_addr(operand, reg)),
{
    memory.read_mem_value(operand.wrapping_add(reg as u16))
}

} // verus!
