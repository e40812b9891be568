//! Bit test, no-op, software break, stack push/pull and register transfers.
use vstd::prelude::*;
use crate::addressing::{is_negative, set_flags_zn, zn_status};
use crate::flags::{assign_flag, set_flag, with_flag, BREAK_CMD_BIT, NEGATIVE_BIT, OVERFLOW_BIT, ZERO_BIT};
use crate::mem_map::BREAK_VECTOR;
use crate::memory::{advance, is_mapped, stack_addr, RAM};

verus! {

/// The status after testing `value` against `acc`: Zero when they share no
/// bit, Overflow from bit 6 of `value`, Negative from bit 7 of `value`.
pub open spec fn bit_test_status(status: u8, acc: u8, value: u8) -> u8 {
    with_flag(
        with_flag(with_flag(status, ZERO_BIT, acc & value == 0), OVERFLOW_BIT, value & 0x40 != 0),
        NEGATIVE_BIT,
        is_negative(value),
    )
}

fn bit_test(status_flags: &mut u8, accumulator: u8, value: u8)
    ensures
        *final(status_flags) == bit_test_status(*old(status_flags), accumulator, value),
{
    assign_flag(status_flags, ZERO_BIT, accumulator & value == 0);
    assign_flag(status_flags, OVERFLOW_BIT, value & 0x40 != 0);
    assign_flag(status_flags, NEGATIVE_BIT, value >= 0x80);
}

/// Tests the byte at the zero-page operand against the accumulator.
pub fn bittest_zero_page(
    pc_reg: &mut u16,
    accumulator: u8,
    operand: u8,
    mem: &mut RAM,
    status_flags: &mut u8,
    cycles: &mut u8,
)
    ensures
        *final(status_flags) == bit_test_status(
            *old(status_flags),
            accumulator,
            old(mem)@.byte(operand as u16),
        ),
        *final(pc_reg) == advance(*old(pc_reg), 2),
        *final(cycles) == 3,
        final(mem)@ == old(mem)@,
{
    let value = mem.read_mem_value(operand as u16);
    bit_test(status_flags, accumulator, value);
    *cycles = 3;
    *pc_reg = pc_reg.wrapping_add(2);
}

/// Tests the byte at the absolute operand against the accumulator.
pub fn bittest_absolute(
    pc_reg: &mut u16,
    accumulator: u8,
    operand: u16,
    mem: &mut RAM,
    status_flags: &mut u8,
    cycles: &mut u8,
)
    requires
        is_mapped(operand),
    ensures
        *final(status_flags) == bit_test_status(*old(status_flags), accumulator, old(mem)@.byte(operand)),
        *final(pc_reg) == advance(*old(pc_reg), 3),
        *final(cycles) == 4,
        final(mem)@ == old(mem)@.after_read(operand),
{
    let value = mem.read_mem_value(operand);
    bit_test(status_flags, accumulator, value);
    *cycles = 4;
    *pc_reg = pc_reg.wrapping_add(3);
}

/// Does nothing for one byte and two cycles.
#[allow(non_snake_case)]
pub fn NOP(pc_reg: &mut u16, cycles: &mut u8)
    ensures
        *final(pc_reg) == advance(*old(pc_reg), 1),
        *final(cycles) == 2,
{
    *pc_reg = pc_reg.wrapping_add(1);
    *cycles = 2;
}

/// Software break: steps past the opcode, pushes that address and then the
/// status, sets Break, and continues at the address held in the break vector.
pub fn break_force_interrupt(
    pc_reg: &mut u16,
    status: &mut u8,
    stack_ptr: &mut u8,
    test_ram: &mut RAM,
    cycles: &mut u8,
)
    requires
        *old(stack_ptr) <= 252,
    ensures
        final(test_ram)@ == old(test_ram)@.write_word(
            stack_addr(*old(stack_ptr) as int),
            advance(*old(pc_reg), 1),
        ).write(stack_addr(*old(stack_ptr) + 2), *old(status)),
        *final(stack_ptr) == *old(stack_ptr) + 3,
        *final(status) == with_flag(*old(status), BREAK_CMD_BIT, true),
        *final(pc_reg) == old(test_ram)@.word(BREAK_VECTOR),
        *final(cycles) == 7,
{
    *pc_reg = pc_reg.wrapping_add(1);
    *cycles = 7;
    test_ram.push_address_on_stack(stack_ptr, *pc_reg);
    test_ram.push_value_on_stack(stack_ptr, *status);
    set_flag(status, BREAK_CMD_BIT);
    *pc_reg = test_ram.read_mem_address(BREAK_VECTOR);
}

/// Pushes the accumulator (or the status register) onto the stack.
pub fn push_acc_on_stack(
    pc_reg: &mut u16,
    accumulator_or_status: u8,
    stack_ptr: &mut u8,
    test_ram: &mut RAM,
    cycles: &mut u8,
)
    requires
        *old(stack_ptr) < 255,
    ensures
        final(test_ram)@ == old(test_ram)@.write(
            stack_addr(*old(stack_ptr) as int),
            accumulator_or_status,
        ),
        *final(stack_ptr) == *old(stack_ptr) + 1,
        *final(pc_reg) == advance(*old(pc_reg), 1),
        *final(cycles) == 3,
{
    *pc_reg = pc_reg.wrapping_add(1);
    *cycles = 3;
    test_ram.push_value_on_stack(stack_ptr, accumulator_or_status);
}

/// Pulls the accumulator from the stack; Zero and Negative follow the pulled byte.
pub fn pull_acc_from_stack(
    pc_reg: &mut u16,
    accumulator: &mut u8,
    status: &mut u8,
    stack_ptr: &mut u8,
    test_ram: &mut RAM,
    cycles: &mut u8,
)
    requires
        *old(stack_ptr) > 0,
    ensures
        *final(accumulator) == old(test_ram)@.byte(stack_addr(*old(stack_ptr) - 1)),
        *final(status) == zn_status(*old(status), *final(accumulator)),
        *final(stack_ptr) == *old(stack_ptr) - 1,
        final(test_ram)@ == old(test_ram)@,
        *final(pc_reg) == advance(*old(pc_reg), 1),
        *final(cycles) == 4,
{
    *pc_reg = pc_reg.wrapping_add(1);
    *cycles = 4;
    *accumulator = test_ram.pop_value_off_stack(stack_ptr);
    set_flags_zn(*accumulator, status);
}

/// Pulls the whole status register from the stack.
pub fn pull_status_from_stack(
    pc_reg: &mut u16,
    status: &mut u8,
    stack_ptr: &mut u8,
    test_ram: &mut RAM,
    cycles: &mut u8,
)
    requires
        *old(stack_ptr) > 0,
    ensures
        *final(status) == old(test_ram)@.byte(stack_addr(*old(stack_ptr) - 1)),
        *final(stack_ptr) == *old(stack_ptr) - 1,
        final(test_ram)@ == old(test_ram)@,
        *final(pc_reg) == advance(*old(pc_reg), 1),
        *final(cycles) == 4,
{
    *pc_reg = pc_reg.wrapping_add(1);
    *cycles = 4;
    *status = test_ram.pop_value_off_stack(stack_ptr);
}

/// Copies one register into another; Zero and Negative follow the value.
pub fn transfer_source_to_dest(
    pc_reg: &mut u16,
    source: u8,
    dest: &mut u8,
    status: &mut u8,
    cycles: &mut u8,
)
    ensures
        *final(dest) == source,
        *final(status) == zn_status(*old(status), source),
        *final(pc_reg) == advance(*old(pc_reg), 1),
        *final(cycles) == 2,
{
    *pc_reg = pc_reg.wrapping_add(1);
    *cycles = 2;
    *dest = source;
    set_flags_zn(source, status);
}

/// Copies X into the stack pointer; no flag changes.
pub fn transfer_x_to_stack_pointer(pc_reg: &mut u16, x: u8, stack_ptr: &mut u8, cycles: &mut u8)
    ensures
        *final(stack_ptr) == x,
        *final(pc_reg) == advance(*old(pc_reg), 1),
        *final(cycles) == 2,
{
    *pc_reg = pc_reg.wrapping_add(1);
    *cycles = 2;
    *stack_ptr = x;
}

} // verus!
