//! Increment and decrement of a register or a memory cell, by one with
//! 8-bit wrap-around. Zero and Negative follow the new value; Carry and
//! Overflow are never touched.
use vstd::prelude::*;
use crate::addressing::{absolute_reg_addr, set_flags_zn, zero_page_x_addr, zn_status};
use crate::memory::{advance, is_mapped, RAM};

verus! {

/// Which way the value moves.
#[derive(Clone, Copy, Debug, PartialEq, Eq, Structural)]
pub enum Operation {
    Inc,
    Dec,
}

/// `v` moved by one in the direction `op` names, wrapping at the ends of a byte.
pub open spec fn step_value(v: u8, op: Operation) -> u8 {
    match op {
        Operation::Inc => ((v + 1) % 256) as u8,
        Operation::Dec => ((v - 1) % 256) as u8,
    }
}

fn match_on_op(in_val: u8, op: Operation) -> (r: u8)
    ensures
        r == step_value(in_val, op),
{
    match op {
        Operation::Inc => in_val.wrapping_add(1),
        Operation::Dec => in_val.wrapping_sub(1),
    }
}

/// Steps the byte at the zero-page operand.
pub fn incdec_memory_zero_page(
    pc_reg: &mut u16,
    operand: u8,
    status_flags: &mut u8,
    memory: &mut RAM,
    cycles: &mut u8,
    op: Operation,
)
    ensures
        final(memory)@ == old(memory)@.write(
            operand as u16,
            step_value(old(memory)@.byte(operand as u16), op),
        ),
        *final(status_flags) == zn_status(
            *old(status_flags),
            step_value(old(memory)@.byte(operand as u16), op),
        ),
        *final(pc_reg) == advance(*old(pc_reg), 2),
        *final(cycles) == 5,
{
    let mut mem_value = memory.read_mem_value(operand as u16);
    mem_value = match_on_op(mem_value, op);
    memory.write_mem_value(operand as u16, mem_value);
    set_flags_zn(mem_value, status_flags);
    *pc_reg = pc_reg.wrapping_add(2);
    *cycles = 5;
}

/// Steps the byte at the zero-page operand plus X, wrapping inside page zero.
pub fn incdec_memory_zero_page_x(
    pc_reg: &mut u16,
    operand: u8,
    x_val: u8,
    status_flags: &mut u8,
    memory: &mut RAM,
    cycles: &mut u8,
    op: Operation,
)
    ensures
        final(memory)@ == old(memory)@.write(
            zero_page_x_addr(operand, x_val),
            step_value(old(memory)@.byte(zero_page_x_addr(operand, x_val)), op),
        ),
        *final(status_flags) == zn_status(
            *old(status_flags),
            step_value(old(memory)@.byte(zero_page_x_addr(operand, x_val)), op),
        ),
        *final(pc_reg) == advance(*old(pc_reg), 2),
        *final(cycles) == 6,
{
    let address = operand.wrapping_add(x_val) as u16;
    let mut mem_value = memory.read_mem_value(address);
    mem_value = match_on_op(mem_value, op);
    memory.write_mem_value(address, mem_value);
    set_flags_zn(mem_value, status_flags);
    *pc_reg = pc_reg.wrapping_add(2);
    *cycles = 6;
}

/// Steps the byte at the absolute operand.
pub fn incdec_memory_absolute(
    pc_reg: &mut u16,
    operand: u16,
    status_flags: &mut u8,
    memory: &mut RAM,
    cycles: &mut u8,
    op: Operation,
)
    requires
        is_mapped(operand),
    ensures
        final(memory)@ == old(memory)@.after_read(operand).write(
            operand,
            step_value(old(memory)@.byte(operand), op),
        ),
        *final(status_flags) == zn_status(*old(status_flags), step_value(old(memory)@.byte(operand), op)),
        *final(pc_reg) == advance(*old(pc_reg), 3),
        *final(cycles) == 6,
{
    let mut mem_value = memory.read_mem_value(operand);
    mem_value = match_on_op(mem_value, op);
    memory.write_mem_value(operand, mem_value);
    set_flags_zn(mem_value, status_flags);
    *pc_reg = pc_reg.wrapping_add(3);
    *cycles = 6;
}

/// Steps the byte at the absolute operand plus X.
pub fn incdec_memory_absolute_x(
    pc_reg: &mut u16,
    operand: u16,
    x_val: u8,
    status_flags: &mut u8,
    memory: &mut RAM,
    cycles: &mut u8,
    op: Operation,
)
    requires
        is_mapped(absolute_reg_addr(operand, x_val)),
    ensures
        final(memory)@ == old(memory)@.after_read(absolute_reg_addr(operand, x_val)).write(
            absolute_reg_addr(operand, x_val),
            step_value(old(memory)@.byte(absolute_reg_addr(operand, x_val)), op),
        ),
        *final(status_flags) == zn_status(
            *old(status_flags),
            step_value(old(memory)@.byte(absolute_reg_addr(operand, x_val)), op),
        ),
        *final(pc_reg) == advance(*old(pc_reg), 3),
        *final(cycles) == 7,
{
    let address = operand.wrapping_add(x_val as u16);
    let mut mem_value = memory.read_mem_value(address);
    mem_value = match_on_op(mem_value, op);
    memory.write_mem_value(address, mem_value);
    set_flags_zn(mem_value, status_flags);
    *pc_reg = pc_reg.wrapping_add(3);
    *cycles = 7;
}

/// Steps a register.
pub fn incdec_reg(
    pc_reg: &mut u16,
    reg_val: &mut u8,
    status_flags: &mut u8,
    cycles: &mut u8,
    op: Operation,
)
    ensures
        *final(reg_val) == step_value(*old(reg_val), op),
        *final(status_flags) == zn_status(*old(status_flags), step_value(*old(reg_val), op)),
        *final(pc_reg) == advance(*old(pc_reg), 1),
        *final(cycles) == 2,
{
    *reg_val = match_on_op(*reg_val, op);
    set_flags_zn(*reg_val, status_flags);
    *pc_reg = pc_reg.wrapping_add(1);
    *cycles = 2;
}

} // verus!
