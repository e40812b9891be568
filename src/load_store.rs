//! Loads (memory to register, setting Zero and Negative) and stores
//! (register to memory, touching no flag).
use vstd::prelude::*;
use crate::addressing::{
    absolute_reg_addr,
    indexed_indirect_addr,
    indirect_indexed_addr,
    set_flags_zn,
    zero_page_x_addr,
    zn_status,
};
use crate::memory::{advance, is_mapped, RAM};

verus! {

/// Zero and Negative from a loaded value.
pub fn set_flags(in_val: u8, status_flag: &mut u8)
    ensures
        *final(status_flag) == zn_status(*old(status_flag), in_val),
{
    set_flags_zn(in_val, status_flag);
}

/// Loads the operand byte itself.
pub fn load_immediate(pc_reg: &mut u16, operand: u8, status_flag: &mut u8, cycles: &mut u8) -> (r: u8)
    ensures
        r == operand,
        *final(status_flag) == zn_status(*old(status_flag), operand),
        *final(pc_reg) == advance(*old(pc_reg), 2),
        *final(cycles) == 2,
{
    set_flags(operand, status_flag);
    *pc_reg = pc_reg.wrapping_add(2);
    *cycles = 2;
    operand
}

/// Loads the byte at the zero-page operand.
pub fn load_zero_page(
    pc_reg: &mut u16,
    operand: u8,
    memory: &mut RAM,
    status_flag: &mut u8,
    cycles: &mut u8,
) -> (r: u8)
    ensures
        r == old(memory)@.byte(operand as u16),
        *final(status_flag) == zn_status(*old(status_flag), r),
        *final(pc_reg) == advance(*old(pc_reg), 2),
        *final(cycles) == 3,
        final(memory)@ == old(memory)@,
{
    let ret_val = memory.read_mem_value(operand as u16);
    set_flags(ret_val, status_flag);
    *cycles = 3;
    *pc_reg = pc_reg.wrapping_add(2);
    ret_val
}

/// Loads the byte at the zero-page operand plus an index, wrapping inside page zero.
pub fn load_zero_page_reg(
    pc_reg: &mut u16,
    operand: u8,
    offset: u8,
    memory: &mut RAM,
    status_flag: &mut u8,
    cycles: &mut u8,
) -> (r: u8)
    ensures
        r == old(memory)@.byte(zero_page_x_addr(operand, offset)),
        *final(status_flag) == zn_status(*old(status_flag), r),
        *final(pc_reg) == advance(*old(pc_reg), 2),
        *final(cycles) == 4,
        final(memory)@ == old(memory)@,
{
    let addr = operand.wrapping_add(offset);
    let ret_val = memory.read_mem_value(addr as u16);
    set_flags(ret_val, status_flag);
    *cycles = 4;
    *pc_reg = pc_reg.wrapping_add(2);
    ret_val
}

/// Stores at the zero-page operand plus an index, wrapping inside page zero.
pub fn store_zero_page(
    pc_reg: &mut u16,
    to_store: u8,
    operand: u8,
    offset: u8,
    memory: &mut RAM,
    cycles: &mut u8,
)
    ensures
        final(memory)@ == old(memory)@.write(zero_page_x_addr(operand, offset), to_store),
        *final(pc_reg) == advance(*old(pc_reg), 2),
        *final(cycles) == 3,
{
    let addr = operand.wrapping_add(offset);
    memory.write_mem_value(addr as u16, to_store);
    *cycles = 3;
    *pc_reg = pc_reg.wrapping_add(2);
}

/// Loads the byte at the absolute operand plus an index (zero when unindexed);
/// the indexed form costs one cycle more.
pub fn absolute_load(
    pc_reg: &mut u16,
    operand: u16,
    offset: u8,
    memory: &mut RAM,
    status_flag: &mut u8,
    cycles: &mut u8,
) -> (r: u8)
    requires
        is_mapped(absolute_reg_addr(operand, offset)),
    ensures
        r == old(memory)@.byte(absolute_reg_addr(operand, offset)),
        *final(status_flag) == zn_status(*old(status_flag), r),
        *final(pc_reg) == advance(*old(pc_reg), 3),
        *final(cycles) == (if offset == 0 {
            4u8
        } else {
            5u8
        }),
        final(memory)@ == old(memory)@.after_read(absolute_reg_addr(operand, offset)),
{
    let addr = operand.wrapping_add(offset as u16);
    let ret_val = memory.read_mem_value(addr);
    set_flags(ret_val, status_flag);
    if offset == 0 {
        *cycles = 4;
    } else {
        *cycles = 5;
    }
    *pc_reg = pc_reg.wrapping_add(3);
    ret_val
}

/// Stores at the absolute operand plus an index (zero when unindexed).
pub fn store_absolute(
    pc_reg: &mut u16,
    to_store: u8,
    operand: u16,
    offset: u8,
    memory: &mut RAM,
    cycles: &mut u8,
)
    requires
        is_mapped(absolute_reg_addr(operand, offset)),
    ensures
        final(memory)@ == old(memory)@.write(absolute_reg_addr(operand, offset), to_store),
        *final(pc_reg) == advance(*old(pc_reg), 3),
        *final(cycles) == 4,
{
    let addr = operand.wrapping_add(offset as u16);
    memory.write_mem_value(addr, to_store);
    *pc_reg = pc_reg.wrapping_add(3);
    *cycles = 4;
}

/// Loads the byte named by the pointer at the zero-page operand plus X.
pub fn indirect_x_load(
    pc_reg: &mut u16,
    operand: u8,
    x_val: u8,
    memory: &mut RAM,
    status_flag: &mut u8,
    cycles: &mut u8,
) -> (r: u8)
    requires
        is_mapped(indexed_indirect_addr(old(memory)@, operand, x_val)),
    ensures
        r == old(memory)@.byte(indexed_indirect_addr(old(memory)@, operand, x_val)),
        *final(status_flag) == zn_status(*old(status_flag), r),
        *final(pc_reg) == advance(*old(pc_reg), 2),
        *final(cycles) == 6,
        final(memory)@ == old(memory)@.after_read(indexed_indirect_addr(old(memory)@, operand, x_val)),
{
    let addr = operand.wrapping_add(x_val);
    let table_addr = memory.read_mem_address(addr as u16);
    let mem_value = memory.read_mem_value(table_addr);
    set_flags(mem_value, status_flag);
    *pc_reg = pc_reg.wrapping_add(2);
    *cycles = 6;
    mem_value
}

/// Stores at the address named by the pointer at the zero-page operand plus X.
pub fn store_indirect_x(
    pc_reg: &mut u16,
    to_store: u8,
    operand: u8,
    offset: u8,
    memory: &mut RAM,
    cycles: &mut u8,
)
    requires
        is_mapped(indexed_indirect_addr(old(memory)@, operand, offset)),
    ensures
        final(memory)@ == old(memory)@.write(
            indexed_indirect_addr(old(memory)@, operand, offset),
            to_store,
        ),
        *final(pc_reg) == advance(*old(pc_reg), 2),
        *final(cycles) == 6,
{
    let addr = operand.wrapping_add(offset);
    let write_addr = memory.read_mem_address(addr as u16);
    memory.write_mem_value(write_addr, to_store);
    *pc_reg = pc_reg.wrapping_add(2);
    *cycles = 6;
}

/// Loads the byte at the pointer stored at the zero-page operand, plus Y.
pub fn indirect_y_load(
    pc_reg: &mut u16,
    operand: u8,
    y_val: u8,
    memory: &mut RAM,
    status_flag: &mut u8,
    cycles: &mut u8,
) -> (r: u8)
    requires
        is_mapped(indirect_indexed_addr(old(memory)@, operand, y_val)),
    ensures
        r == old(memory)@.byte(indirect_indexed_addr(old(memory)@, operand, y_val)),
        *final(status_flag) == zn_status(*old(status_flag), r),
        *final(pc_reg) == advance(*old(pc_reg), 2),
        *final(cycles) == 6,
        final(memory)@ == old(memory)@.after_read(indirect_indexed_addr(old(memory)@, operand, y_val)),
{
    let table_addr = memory.read_mem_address(operand as u16);
    let mem_value = memory.read_mem_value(table_addr.wrapping_add(y_val as u16));
    set_flags(mem_value, status_flag);
    *pc_reg = pc_reg.wrapping_add(2);
    *cycles = 6;
    mem_value
}

/// Stores at the pointer stored at the zero-page operand, plus Y.
pub fn store_indirect_y(
    pc_reg: &mut u16,
    to_store: u8,
    operand: u8,
    offset: u8,
    memory: &mut RAM,
    cycles: &mut u8,
)
    requires
        is_mapped(indirect_indexed_addr(old(memory)@, operand, offset)),
    ensures
        final(memory)@ == old(memory)@.write(
            indirect_indexed_addr(old(memory)@, operand, offset),
            to_store,
        ),
        *final(pc_reg) == advance(*old(pc_reg), 2),
        *final(cycles) == 6,
{
    let write_addr = memory.read_mem_address(operand as u16).wrapping_add(offset as u16);
    memory.write_mem_value(write_addr, to_store);
    *pc_reg = pc_reg.wrapping_add(2);
    *cycles = 6;
}

} // verus!
