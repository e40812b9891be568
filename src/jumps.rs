//! Jumps, subroutine calls and returns.
use vstd::prelude::*;
use crate::memory::{advance, is_mapped, stack_addr, MemView, RAM};

verus! {

/// Where an indirect jump reads the target's high byte. When the pointer's
/// low byte is 0xFF the hardware does not carry into the next page: the byte
/// comes from the start of the same page.
pub open spec fn indirect_high_addr(ptr: u16) -> u16 {
    if ptr % 256 == 255 {
        (ptr - 255) as u16
    } else {
        (ptr + 1) as u16
    }
}

/// The target of an indirect jump through `ptr`.
pub open spec fn jump_indirect_target(m: MemView, ptr: u16) -> u16 {
    (m.byte(ptr) as int + 256 * m.byte(indirect_high_addr(ptr)) as int) as u16
}

/// When the pointer's low byte is 0xFF, an indirect jump takes the target's
/// low byte from the pointer and its high byte from the first byte of the
/// pointer's own page, not from the next page.
pub proof fn lemma_indirect_jump_page_wrap(m: MemView, ptr: u16)
    requires
        ptr % 256 == 0xFF,
    ensures
        jump_indirect_target(m, ptr) == m.byte(ptr) + 256 * m.byte((ptr - 0xFF) as u16),
        (ptr - 0xFF) / 256 == ptr / 256,
{
}

/// Sets the program counter to `absolute_addr`.
pub fn jump_absolute(pc_reg: &mut u16, absolute_addr: u16, cycles: &mut u8)
    ensures
        *final(pc_reg) == absolute_addr,
        *final(cycles) == 3,
{
    *pc_reg = absolute_addr;
    *cycles = 3;
}

/// Sets the program counter to the 16-bit value stored at `indirect_addr`,
/// reproducing the page-wrap quirk of the hardware.
pub fn jump_indirect(pc_reg: &mut u16, indirect_addr: u16, ram: &mut RAM, cycles: &mut u8)
    requires
        is_mapped(indirect_addr),
        is_mapped(indirect_high_addr(indirect_addr)),
    ensures
        *final(pc_reg) == jump_indirect_target(old(ram)@, indirect_addr),
        *final(cycles) == 5,
        final(ram)@ == old(ram)@.after_read(indirect_addr).after_read(
            indirect_high_addr(indirect_addr),
        ),
{
    let high_addr: u16 = if indirect_addr % 256 == 255 {
        indirect_addr - 255
    } else {
        indirect_addr + 1
    };
    let low = ram.read_mem_value(indirect_addr);
    let high = ram.read_mem_value(high_addr);
    *pc_reg = high as u16 * 256 + low as u16;
    *cycles = 5;
}

/// Pushes the address of the call's last byte (PC + 2) and jumps to `absolute_addr`.
pub fn jump_subroutine(
    pc_reg: &mut u16,
    absolute_addr: u16,
    stack_ptr: &mut u8,
    ram: &mut RAM,
    cycles: &mut u8,
)
    requires
        *old(stack_ptr) <= 253,
    ensures
        final(ram)@ == old(ram)@.write_word(
            stack_addr(*old(stack_ptr) as int),
            advance(*old(pc_reg), 2),
        ),
        *final(stack_ptr) == *old(stack_ptr) + 2,
        *final(pc_reg) == absolute_addr,
        *final(cycles) == 6,
{
    ram.push_address_on_stack(stack_ptr, pc_reg.wrapping_add(2));
    *pc_reg = absolute_addr;
    *cycles = 6;
}

/// Pops a return address and continues one byte past it.
pub fn return_from_subroutine(pc_reg: &mut u16, stack_ptr: &mut u8, ram: &mut RAM, cycles: &mut u8)
    requires
        *old(stack_ptr) >= 2,
    ensures
        *final(pc_reg) == advance(old(ram)@.word(stack_addr(*old(stack_ptr) - 2)), 1),
        *final(stack_ptr) == *old(stack_ptr) - 2,
        final(ram)@ == old(ram)@,
        *final(cycles) == 6,
{
    let addr = ram.pop_address_off_stack(stack_ptr);
    *pc_reg = addr.wrapping_add(1);
    *cycles = 6;
}

/// Pops the status (forcing bit 5 set) and then the program counter.
pub fn return_from_interrupt(
    pc_reg: &mut u16,
    stack_ptr: &mut u8,
    status_flags: &mut u8,
    ram: &mut RAM,
    cycles: &mut u8,
)
    requires
        *old(stack_ptr) >= 3,
    ensures
        *final(status_flags) == old(ram)@.byte(stack_addr(*old(stack_ptr) - 1)) | 0b0010_0000,
        *final(pc_reg) == old(ram)@.word(stack_addr(*old(stack_ptr) - 3)),
        *final(stack_ptr) == *old(stack_ptr) - 3,
        final(ram)@ == old(ram)@,
        *final(cycles) == 6,
{
    *status_flags = ram.pop_value_off_stack(stack_ptr);
    *status_flags = *status_flags | 0b0010_0000;
    *pc_reg = ram.pop_address_off_stack(stack_ptr);
    *cycles = 6;
}

} // verus!
