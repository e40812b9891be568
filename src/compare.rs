//! Compare instructions: subtract the operand from a register, keep only the flags.
use vstd::prelude::*;
use crate::addressing::{
    absolute_reg_addr,
    indexed_indirect_addr,
    indirect_indexed_addr,
    is_negative,
    zero_page_x_addr,
};
use crate::flags::{assign_flag, with_flag, CARRY_BIT, NEGATIVE_BIT, ZERO_BIT};
use crate::memory::{advance, is_mapped, RAM};

verus! {

/// The status after comparing `reg` with `value`: Zero when equal, Carry when
/// `reg >= value` (unsigned), Negative from bit 7 of the wrapped difference.
pub open spec fn compare_status(status: u8, reg: u8, value: u8) -> u8 {
    with_flag(
        with_flag(with_flag(status, ZERO_BIT, reg == value), CARRY_BIT, reg >= value),
        NEGATIVE_BIT,
        is_negative(((reg - value) % 256) as u8),
    )
}

/// Compares `reg_acc` with `comp_value`, updating only Zero, Carry and Negative.
pub fn compare(status_flags: &mut u8, reg_acc: u8, comp_value: u8)
    ensures
        *final(status_flags) == compare_status(*old(status_flags), reg_acc, comp_value),
{
    assign_flag(status_flags, ZERO_BIT, reg_acc == comp_value);
    assign_flag(status_flags, CARRY_BIT, reg_acc >= comp_value);
    let result = reg_acc.wrapping_sub(comp_value);
    assign_flag(status_flags, NEGATIVE_BIT, result >= 0x80);
}

/// Compares a register with the operand byte itself.
pub fn comp_value_immediate(
    pc_reg: &mut u16,
    reg_acc: u8,
    imm_value: u8,
    status_flags: &mut u8,
    cycles: &mut u8,
)
    ensures
        *final(status_flags) == compare_status(*old(status_flags), reg_acc, imm_value),
        *final(pc_reg) == advance(*old(pc_reg), 2),
        *final(cycles) == 2,
{
    compare(status_flags, reg_acc, imm_value);
    *pc_reg = pc_reg.wrapping_add(2);
    *cycles = 2;
}

/// Compares a register with the byte at the zero-page operand.
pub fn comp_value_zero_page(
    pc_reg: &mut u16,
    reg_acc: u8,
    page_addr: u8,
    mem: &mut RAM,
    status_flags: &mut u8,
    cycles: &mut u8,
)
    ensures
        *final(status_flags) == compare_status(
            *old(status_flags),
            reg_acc,
            old(mem)@.byte(page_addr as u16),
        ),
        *final(pc_reg) == advance(*old(pc_reg), 2),
        *final(cycles) == 3,
        final(mem)@ == old(mem)@,
{
    let mem_val = mem.read_mem_value(page_addr as u16);
    compare(status_flags, reg_acc, mem_val);
    *pc_reg = pc_reg.wrapping_add(2);
    *cycles = 3;
}

/// Compares a register with the byte at the zero-page operand plus X.
pub fn comp_value_zero_page_x(
    pc_reg: &mut u16,
    acc: u8,
    page_addr: u8,
    x_val: u8,
    mem: &mut RAM,
    status_flags: &mut u8,
    cycles: &mut u8,
)
    ensures
        *final(status_flags) == compare_status(
            *old(status_flags),
            acc,
            old(mem)@.byte(zero_page_x_addr(page_addr, x_val)),
        ),
        *final(pc_reg) == advance(*old(pc_reg), 2),
        *final(cycles) == 4,
        final(mem)@ == old(mem)@,
{
    let addr = page_addr.wrapping_add(x_val);
    let mem_val = mem.read_mem_value(addr as u16);
    compare(status_flags, acc, mem_val);
    *pc_reg = pc_reg.wrapping_add(2);
    *cycles = 4;
}

/// Compares a register with the byte at the absolute operand.
pub fn comp_value_absolute(
    pc_reg: &mut u16,
    reg_acc: u8,
    abs_addr: u16,
    mem: &mut RAM,
    status_flags: &mut u8,
    cycles: &mut u8,
)
    requires
        is_mapped(abs_addr),
    ensures
        *final(status_flags) == compare_status(*old(status_flags), reg_acc, old(mem)@.byte(abs_addr)),
        *final(pc_reg) == advance(*old(pc_reg), 3),
        *final(cycles) == 4,
        final(mem)@ == old(mem)@.after_read(abs_addr),
{
    let mem_val = mem.read_mem_value(abs_addr);
    compare(status_flags, reg_acc, mem_val);
    *pc_reg = pc_reg.wrapping_add(3);
    *cycles = 4;
}

/// Compares a register with the byte at the absolute operand plus an index register.
pub fn comp_value_absolute_reg(
    pc_reg: &mut u16,
    acc: u8,
    abs_addr: u16,
    reg: u8,
    mem: &mut RAM,
    status_flags: &mut u8,
    cycles: &mut u8,
)
    requires
        is_mapped(absolute_reg_addr(abs_addr, reg)),
    ensures
        *final(status_flags) == compare_status(
            *old(status_flags),
            acc,
            old(mem)@.byte(absolute_reg_addr(abs_addr, reg)),
        ),
        *final(pc_reg) == advance(*old(pc_reg), 3),
        *final(cycles) == 4,
        final(mem)@ == old(mem)@.after_read(absolute_reg_addr(abs_addr, reg)),
{
    let mem_val = mem.read_mem_value(abs_addr.wrapping_add(reg as u16));
    compare(status_flags, acc, mem_val);
    *pc_reg = pc_reg.wrapping_add(3);
    *cycles = 4;
}

/// Compares a register with the byte named by the pointer at the zero-page operand plus X.
pub fn comp_value_indexed_indirect(
    pc_reg: &mut u16,
    acc: u8,
    addr: u8,
    x_reg: u8,
    mem: &mut RAM,
    status_flags: &mut u8,
    cycles: &mut u8,
)
    requires
        is_mapped(indexed_indirect_addr(old(mem)@, addr, x_reg)),
    ensures
        *final(status_flags) == compare_status(
            *old(status_flags),
            acc,
            old(mem)@.byte(indexed_indirect_addr(old(mem)@, addr, x_reg)),
        ),
        *final(pc_reg) == advance(*old(pc_reg), 2),
        *final(cycles) == 6,
        final(mem)@ == old(mem)@.after_read(indexed_indirect_addr(old(mem)@, addr, x_reg)),
{
    let mem_addr = mem.read_mem_address(addr.wrapping_add(x_reg) as u16);
    let mem_val = mem.read_mem_value(mem_addr);
    compare(status_flags, acc, mem_val);
    *pc_reg = pc_reg.wrapping_add(2);
    *cycles = 6;
}

/// Compares a register with the byte at the pointer stored at the zero-page operand, plus Y.
pub fn comp_value_indirect_indexed(
    pc_reg: &mut u16,
    acc: u8,
    addr: u8,
    y_reg: u8,
    mem: &mut RAM,
    status_flags: &mut u8,
    cycles: &mut u8,
)
    requires
        is_mapped(indirect_indexed_addr(old(mem)@, addr, y_reg)),
    ensures
        *final(status_flags) == compare_status(
            *old(status_flags),
            acc,
            old(mem)@.byte(indirect_indexed_addr(old(mem)@, addr, y_reg)),
        ),
        *final(pc_reg) == advance(*old(pc_reg), 2),
        *final(cycles) == 5,
        final(mem)@ == old(mem)@.after_read(indirect_indexed_addr(old(mem)@, addr, y_reg)),
{
    let mem_addr = mem.read_mem_address(addr as u16);
    let mem_val = mem.read_mem_value(mem_addr.wrapping_add(y_reg as u16));
    compare(status_flags, acc, mem_val);
    *pc_reg = pc_reg.wrapping_add(2);
    *cycles = 5;
}

} // verus!
