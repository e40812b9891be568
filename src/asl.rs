//! Arithmetic shift left: bit 7 goes to Carry, a zero comes in at bit 0.
use vstd::prelude::*;
use crate::addressing::{absolute_reg_addr, zero_page_x_addr};
use crate::memory::{advance, is_mapped, RAM};
use crate::shift_addr::{
    asl_value,
    set_shift_flags,
    shift_absolute,
    shift_absolute_x,
    shift_status,
    shift_zero_page,
    shift_zero_page_x,
};

verus! {

/// Shifts the accumulator left.
pub fn asl_accumulator(
    pc_reg: &mut u16,
    accumulator: &mut u8,
    status_flags: &mut u8,
    cycles_until_next: &mut u8,
)
    ensures
        *final(accumulator) == asl_value(*old(accumulator)),
        *final(status_flags) == shift_status(
            *old(status_flags),
            asl_value(*old(accumulator)),
            *old(accumulator) >= 0x80,
        ),
        *final(pc_reg) == advance(*old(pc_reg), 1),
        *final(cycles_until_next) == 2,
{
    let value = *accumulator;
    let result = (value % 128) * 2;
    set_shift_flags(status_flags, result, value >= 0x80);
    *accumulator = result;
    *pc_reg = pc_reg.wrapping_add(1);
    *cycles_until_next = 2;
}

/// Shifts the byte at the zero-page operand left.
pub fn asl_zero_page(
    pc_reg: &mut u16,
    operand: u8,
    memory: &mut RAM,
    status_flags: &mut u8,
    cycles_until_next: &mut u8,
)
    ensures
        final(memory)@ == old(memory)@.after_read(operand as u16).write(
            operand as u16,
            asl_value(old(memory)@.byte(operand as u16)),
        ),
        *final(status_flags) == shift_status(
            *old(status_flags),
            asl_value(old(memory)@.byte(operand as u16)),
            old(memory)@.byte(operand as u16) >= 0x80,
        ),
        *final(pc_reg) == advance(*old(pc_reg), 2),
        *final(cycles_until_next) == 5,
{
    let value = shift_zero_page(operand, memory);
    let result = (value % 128) * 2;
    set_shift_flags(status_flags, result, value >= 0x80);
    memory.write_mem_value(operand as u16, result);
    *pc_reg = pc_reg.wrapping_add(2);
    *cycles_until_next = 5;
}

/// Shifts the byte at the zero-page operand plus X left.
pub fn asl_zero_page_x(
    pc_reg: &mut u16,
    x_val: u8,
    operand: u8,
    memory: &mut RAM,
    status_flags: &mut u8,
    cycles_until_next: &mut u8,
)
    ensures
        final(memory)@ == old(memory)@.after_read(zero_page_x_addr(operand, x_val)).write(
            zero_page_x_addr(operand, x_val),
            asl_value(old(memory)@.byte(zero_page_x_addr(operand, x_val))),
        ),
        *final(status_flags) == shift_status(
            *old(status_flags),
            asl_value(old(memory)@.byte(zero_page_x_addr(operand, x_val))),
            old(memory)@.byte(zero_page_x_addr(operand, x_val)) >= 0x80,
        ),
        *final(pc_reg) == advance(*old(pc_reg), 2),
        *final(cycles_until_next) == 6,
{
    let value = shift_zero_page_x(x_val, operand, memory);
    let result = (value % 128) * 2;
    set_shift_flags(status_flags, result, value >= 0x80);
    memory.write_mem_value(operand.wrapping_add(x_val) as u16, result);
    *pc_reg = pc_reg.wrapping_add(2);
    *cycles_until_next = 6;
}

/// Shifts the byte at the absolute operand left.
pub fn asl_absolute(
    pc_reg: &mut u16,
    operand: u16,
    memory: &mut RAM,
    status_flags: &mut u8,
    cycles_until_next: &mut u8,
)
    requires
        is_mapped(operand),
    ensures
        final(memory)@ == old(memory)@.after_read(operand).write(
            operand,
            asl_value(old(memory)@.byte(operand)),
        ),
        *final(status_flags) == shift_status(
            *old(status_flags),
            asl_value(old(memory)@.byte(operand)),
            old(memory)@.byte(operand) >= 0x80,
        ),
        *final(pc_reg) == advance(*old(pc_reg), 3),
        *final(cycles_until_next) == 6,
{
    let value = shift_absolute(operand, memory);
    let result = (value % 128) * 2;
    set_shift_flags(status_flags, result, value >= 0x80);
    memory.write_mem_value(operand, result);
    *pc_reg = pc_reg.wrapping_add(3);
    *cycles_until_next = 6;
}

/// Shifts the byte at the absolute operand plus X left.
pub fn asl_absolute_x(
    pc_reg: &mut u16,
    x_reg: u8,
    operand: u16,
    memory: &mut RAM,
    status_flags: &mut u8,
    cycles_until_next: &mut u8,
)
    requires
        is_mapped(absolute_reg_addr(operand, x_reg)),
    ensures
        final(memory)@ == old(memory)@.after_read(absolute_reg_addr(operand, x_reg)).write(
            absolute_reg_addr(operand, x_reg),
            asl_value(old(memory)@.byte(absolute_reg_addr(operand, x_reg))),
        ),
        *final(status_flags) == shift_status(
            *old(status_flags),
            asl_value(old(memory)@.byte(absolute_reg_addr(operand, x_reg))),
            old(memory)@.byte(absolute_reg_addr(operand, x_reg)) >= 0x80,
        ),
        *final(pc_reg) == advance(*old(pc_reg), 3),
        *final(cycles_until_next) == 7,
{
    let value = shift_absolute_x(x_reg, operand, memory);
    let result = (value % 128) * 2;
    set_shift_flags(status_flags, result, value >= 0x80);
    memory.write_mem_value(operand.wrapping_add(x_reg as u16), result);
    *pc_reg = pc_reg.wrapping_add(3);
    *cycles_until_next = 7;
}

} // verus!
