//! Rotate left through Carry: bit 7 goes to Carry, the old Carry comes in at bit 0.
use vstd::prelude::*;
use crate::addressing::{absolute_reg_addr, zero_page_x_addr};
use crate::flags::{test_flag, CARRY_BIT};
use crate::memory::{advance, is_mapped, RAM};
use crate::shift_addr::{
    rol_value,
    set_shift_flags,
    shift_absolute,
    shift_absolute_x,
    shift_status,
    shift_zero_page,
    shift_zero_page_x,
};

verus! {

/// Rotates the accumulator left through Carry.
pub fn rol_accumulator(
    pc_reg: &mut u16,
    accumulator: &mut u8,
    status_flags: &mut u8,
    cycles_until_next: &mut u8,
)
    ensures
        *final(accumulator) == rol_value(*old(accumulator), *old(status_flags)),
        *final(status_flags) == shift_status(
            *old(status_flags),
            rol_value(*old(accumulator), *old(status_flags)),
            *old(accumulator) >= 0x80,
        ),
        *final(pc_reg) == advance(*old(pc_reg), 1),
        *final(cycles_until_next) == 2,
{
    let carry: u8 = if test_flag(*status_flags, CARRY_BIT) {
        1
    } else {
        0
    };
    let value = *accumulator;
    let result = (value % 128) * 2 + carry;
    set_shift_flags(status_flags, result, value >= 0x80);
    *accumulator = result;
    *pc_reg = pc_reg.wrapping_add(1);
    *cycles_until_next = 2;
}

/// Rotates the byte at the zero-page operand left through Carry.
pub fn rol_zero_page(
    pc_reg: &mut u16,
    operand: u8,
    status_flags: &mut u8,
    memory: &mut RAM,
    cycles_until_next: &mut u8,
)
    ensures
        final(memory)@ == old(memory)@.after_read(operand as u16).write(
            operand as u16,
            rol_value(old(memory)@.byte(operand as u16), *old(status_flags)),
        ),
        *final(status_flags) == shift_status(
            *old(status_flags),
            rol_value(old(memory)@.byte(operand as u16), *old(status_flags)),
            old(memory)@.byte(operand as u16) >= 0x80,
        ),
        *final(pc_reg) == advance(*old(pc_reg), 2),
        *final(cycles_until_next) == 5,
{
    let carry: u8 = if test_flag(*status_flags, CARRY_BIT) {
        1
    } else {
        0
    };
    let value = shift_zero_page(operand, memory);
    let result = (value % 128) * 2 + carry;
    set_shift_flags(status_flags, result, value >= 0x80);
    memory.write_mem_value(operand as u16, result);
    *pc_reg = pc_reg.wrapping_add(2);
    *cycles_until_next = 5;
}

/// Rotates the byte at the zero-page operand plus X left through Carry.
pub fn rol_zero_page_x(
    pc_reg: &mut u16,
    x_val: u8,
    operand: u8,
    status_flags: &mut u8,
    memory: &mut RAM,
    cycles_until_next: &mut u8,
)
    ensures
        final(memory)@ == old(memory)@.after_read(zero_page_x_addr(operand, x_val)).write(
            zero_page_x_addr(operand, x_val),
            rol_value(old(memory)@.byte(zero_page_x_addr(operand, x_val)), *old(status_flags)),
        ),
        *final(status_flags) == shift_status(
            *old(status_flags),
            rol_value(old(memory)@.byte(zero_page_x_addr(operand, x_val)), *old(status_flags)),
            old(memory)@.byte(zero_page_x_addr(operand, x_val)) >= 0x80,
        ),
        *final(pc_reg) == advance(*old(pc_reg), 2),
        *final(cycles_until_next) == 6,
{
    let carry: u8 = if test_flag(*status_flags, CARRY_BIT) {
        1
    } else {
        0
    };
    let value = shift_zero_page_x(x_val, operand, memory);
    let result = (value % 128) * 2 + carry;
    set_shift_flags(status_flags, result, value >= 0x80);
    memory.write_mem_value(operand.wrapping_add(x_val) as u16, result);
    *pc_reg = pc_reg.wrapping_add(2);
    *cycles_until_next = 6;
}

/// Rotates the byte at the absolute operand left through Carry.
pub fn rol_absolute(
    pc_reg: &mut u16,
    operand: u16,
    status_flags: &mut u8,
    memory: &mut RAM,
    cycles_until_next: &mut u8,
)
    requires
        is_mapped(operand),
    ensures
        final(memory)@ == old(memory)@.after_read(operand).write(
            operand,
            rol_value(old(memory)@.byte(operand), *old(status_flags)),
        ),
        *final(status_flags) == shift_status(
            *old(status_flags),
            rol_value(old(memory)@.byte(operand), *old(status_flags)),
            old(memory)@.byte(operand) >= 0x80,
        ),
        *final(pc_reg) == advance(*old(pc_reg), 3),
        *final(cycles_until_next) == 6,
{
    let carry: u8 = if test_flag(*status_flags, CARRY_BIT) {
        1
    } else {
        0
    };
    let value = shift_absolute(operand, memory);
    let result = (value % 128) * 2 + carry;
    set_shift_flags(status_flags, result, value >= 0x80);
    memory.write_mem_value(operand, result);
    *pc_reg = pc_reg.wrapping_add(3);
    *cycles_until_next = 6;
}

/// Rotates the byte at the absolute operand plus X left through Carry.
pub fn rol_absolute_x(
    pc_reg: &mut u16,
    x_val: u8,
    operand: u16,
    status_flags: &mut u8,
    memory: &mut RAM,
    cycles_until_next: &mut u8,
)
    requires
        is_mapped(absolute_reg_addr(operand, x_val)),
    ensures
        final(memory)@ == old(memory)@.after_read(absolute_reg_addr(operand, x_val)).write(
            absolute_reg_addr(operand, x_val),
            rol_value(old(memory)@.byte(absolute_reg_addr(operand, x_val)), *old(status_flags)),
        ),
        *final(status_flags) == shift_status(
            *old(status_flags),
            rol_value(old(memory)@.byte(absolute_reg_addr(operand, x_val)), *old(status_flags)),
            old(memory)@.byte(absolute_reg_addr(operand, x_val)) >= 0x80,
        ),
        *final(pc_reg) == advance(*old(pc_reg), 3),
        *final(cycles_until_next) == 7,
{
    let carry: u8 = if test_flag(*status_flags, CARRY_BIT) {
        1
    } else {
        0
    };
    let value = shift_absolute_x(x_val, operand, memory);
    let result = (value % 128) * 2 + carry;
    set_shift_flags(status_flags, result, value >= 0x80);
    memory.write_mem_value(operand.wrapping_add(x_val as u16), result);
    *pc_reg = pc_reg.wrapping_add(3);
    *cycles_until_next = 7;
}

} // verus!
