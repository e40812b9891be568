//! Exclusive and inclusive OR into the accumulator.
use vstd::prelude::*;
use crate::addressing::{
    self,
    absolute_reg_addr,
    alu_result,
    alu_status,
    indexed_indirect_addr,
    indirect_indexed_addr,
    zero_page_x_addr,
    Operation,
};
use crate::memory::{advance, is_mapped, RAM};

verus! {

/// Exclusive-ORs into the accumulator the operand byte itself.
pub fn xor_immediate(
    operand: u8,
    pc_reg: &mut u16,
    accumulator: &mut u8,
    status_flags: &mut u8,
    cycles_until_next: &mut u8,
)
    ensures
        *final(accumulator) == alu_result(
            Operation::Eor,
            *old(accumulator),
            operand,
            *old(status_flags),
        ),
        *final(status_flags) == alu_status(
            Operation::Eor,
            *old(accumulator),
            operand,
            *old(status_flags),
        ),
        *final(pc_reg) == advance(*old(pc_reg), 2),
        *final(cycles_until_next) == 2,
{
    *accumulator = addressing::immediate(*accumulator, operand, status_flags, Operation::Eor);
    *pc_reg = pc_reg.wrapping_add(2);
    *cycles_until_next = 2;
}

/// Exclusive-ORs into the accumulator the byte at the zero-page operand.
pub fn xor_zero_page(
    operand: u8,
    pc_reg: &mut u16,
    accumulator: &mut u8,
    status_flags: &mut u8,
    memory: &mut RAM,
    cycles_until_next: &mut u8,
)
    ensures
        *final(accumulator) == alu_result(
            Operation::Eor,
            *old(accumulator),
            old(memory)@.byte(operand as u16),
            *old(status_flags),
        ),
        *final(status_flags) == alu_status(
            Operation::Eor,
            *old(accumulator),
            old(memory)@.byte(operand as u16),
            *old(status_flags),
        ),
        *final(pc_reg) == advance(*old(pc_reg), 2),
        *final(cycles_until_next) == 3,
        final(memory)@ == old(memory)@,
{
    *accumulator = addressing::zero_page(
        *accumulator,
        operand,
        memory,
        status_flags,
        Operation::Eor,
    );
    *pc_reg = pc_reg.wrapping_add(2);
    *cycles_until_next = 3;
}

/// Exclusive-ORs into the accumulator the byte at the zero-page operand plus X, wrapping inside page zero.
pub fn xor_zero_page_x(
    operand: u8,
    x_reg: u8,
    pc_reg: &mut u16,
    accumulator: &mut u8,
    status_flags: &mut u8,
    memory: &mut RAM,
    cycles_until_next: &mut u8,
)
    ensures
        *final(accumulator) == alu_result(
            Operation::Eor,
            *old(accumulator),
            old(memory)@.byte(zero_page_x_addr(operand, x_reg)),
            *old(status_flags),
        ),
        *final(status_flags) == alu_status(
            Operation::Eor,
            *old(accumulator),
            old(memory)@.byte(zero_page_x_addr(operand, x_reg)),
            *old(status_flags),
        ),
        *final(pc_reg) == advance(*old(pc_reg), 2),
        *final(cycles_until_next) == 4,
        final(memory)@ == old(memory)@,
{
    *accumulator = addressing::zero_page_x(
        *accumulator,
        x_reg,
        operand,
        memory,
        status_flags,
        Operation::Eor,
    );
    *pc_reg = pc_reg.wrapping_add(2);
    *cycles_until_next = 4;
}

/// Exclusive-ORs into the accumulator the byte at the absolute operand.
pub fn xor_absolute(
    operand: u16,
    pc_reg: &mut u16,
    accumulator: &mut u8,
    status_flags: &mut u8,
    memory: &mut RAM,
    cycles_until_next: &mut u8,
)
    requires
        is_mapped(operand),
    ensures
        *final(accumulator) == alu_result(
            Operation::Eor,
            *old(accumulator),
            old(memory)@.byte(operand),
            *old(status_flags),
        ),
        *final(status_flags) == alu_status(
            Operation::Eor,
            *old(accumulator),
            old(memory)@.byte(operand),
            *old(status_flags),
        ),
        *final(pc_reg) == advance(*old(pc_reg), 3),
        *final(cycles_until_next) == 4,
        final(memory)@ == old(memory)@.after_read(operand),
{
    *accumulator = addressing::absolute(
        *accumulator,
        operand,
        memory,
        status_flags,
        Operation::Eor,
    );
    *pc_reg = pc_reg.wrapping_add(3);
    *cycles_until_next = 4;
}

/// Exclusive-ORs into the accumulator the byte at the absolute operand plus an index register.
pub fn xor_absolute_reg(
    operand: u16,
    reg: u8,
    pc_reg: &mut u16,
    accumulator: &mut u8,
    status_flags: &mut u8,
    memory: &mut RAM,
    cycles_until_next: &mut u8,
)
    requires
        is_mapped(absolute_reg_addr(operand, reg)),
    ensures
        *final(accumulator) == alu_result(
            Operation::Eor,
            *old(accumulator),
            old(memory)@.byte(absolute_reg_addr(operand, reg)),
            *old(status_flags),
        ),
        *final(status_flags) == alu_status(
            Operation::Eor,
            *old(accumulator),
            old(memory)@.byte(absolute_reg_addr(operand, reg)),
            *old(status_flags),
        ),
        *final(pc_reg) == advance(*old(pc_reg), 3),
        *final(cycles_until_next) == 4,
        final(memory)@ == old(memory)@.after_read(absolute_reg_addr(operand, reg)),
{
    *accumulator = addressing::absolute_reg(
        *accumulator,
        reg,
        operand,
        memory,
        status_flags,
        Operation::Eor,
    );
    *pc_reg = pc_reg.wrapping_add(3);
    *cycles_until_next = 4;
}

/// Exclusive-ORs into the accumulator the byte named by the pointer at the zero-page operand plus X.
pub fn xor_indexed_indirect(
    operand: u8,
    x_val: u8,
    pc_reg: &mut u16,
    accumulator: &mut u8,
    status_flags: &mut u8,
    memory: &mut RAM,
    cycles_until_next: &mut u8,
)
    requires
        is_mapped(indexed_indirect_addr(old(memory)@, operand, x_val)),
    ensures
        *final(accumulator) == alu_result(
            Operation::Eor,
            *old(accumulator),
            old(memory)@.byte(indexed_indirect_addr(old(memory)@, operand, x_val)),
            *old(status_flags),
        ),
        *final(status_flags) == alu_status(
            Operation::Eor,
            *old(accumulator),
            old(memory)@.byte(indexed_indirect_addr(old(memory)@, operand, x_val)),
            *old(status_flags),
        ),
        *final(pc_reg) == advance(*old(pc_reg), 2),
        *final(cycles_until_next) == 6,
        final(memory)@ == old(memory)@.after_read(indexed_indirect_addr(old(memory)@, operand, x_val)),
{
    *accumulator = addressing::indexed_indirect(
        *accumulator,
        x_val,
        operand,
        memory,
        status_flags,
        Operation::Eor,
    );
    *pc_reg = pc_reg.wrapping_add(2);
    *cycles_until_next = 6;
}

/// Exclusive-ORs into the accumulator the byte at the pointer stored at the zero-page operand, plus Y.
pub fn xor_indirect_indexed(
    operand: u8,
    y_val: u8,
    pc_reg: &mut u16,
    accumulator: &mut u8,
    status_flags: &mut u8,
    memory: &mut RAM,
    cycles_until_next: &mut u8,
)
    requires
        is_mapped(indirect_indexed_addr(old(memory)@, operand, y_val)),
    ensures
        *final(accumulator) == alu_result(
            Operation::Eor,
            *old(accumulator),
            old(memory)@.byte(indirect_indexed_addr(old(memory)@, operand, y_val)),
            *old(status_flags),
        ),
        *final(status_flags) == alu_status(
            Operation::Eor,
            *old(accumulator),
            old(memory)@.byte(indirect_indexed_addr(old(memory)@, operand, y_val)),
            *old(status_flags),
        ),
        *final(pc_reg) == advance(*old(pc_reg), 2),
        *final(cycles_until_next) == 5,
        final(memory)@ == old(memory)@.after_read(indirect_indexed_addr(old(memory)@, operand, y_val)),
{
    *accumulator = addressing::indirect_indexed(
        *accumulator,
        y_val,
        operand,
        memory,
        status_flags,
        Operation::Eor,
    );
    *pc_reg = pc_reg.wrapping_add(2);
    *cycles_until_next = 5;
}

/// ORs into the accumulator the operand byte itself.
pub fn ior_immediate(
    operand: u8,
    pc_reg: &mut u16,
    accumulator: &mut u8,
    status_flags: &mut u8,
    cycles_until_next: &mut u8,
)
    ensures
        *final(accumulator) == alu_result(
            Operation::Ior,
            *old(accumulator),
            operand,
            *old(status_flags),
        ),
        *final(status_flags) == alu_status(
            Operation::Ior,
            *old(accumulator),
            operand,
            *old(status_flags),
        ),
        *final(pc_reg) == advance(*old(pc_reg), 2),
        *final(cycles_until_next) == 2,
{
    *accumulator = addressing::immediate(*accumulator, operand, status_flags, Operation::Ior);
    *pc_reg = pc_reg.wrapping_add(2);
    *cycles_until_next = 2;
}

/// ORs into the accumulator the byte at the zero-page operand.
pub fn ior_zero_page(
    operand: u8,
    pc_reg: &mut u16,
    accumulator: &mut u8,
    status_flags: &mut u8,
    memory: &mut RAM,
    cycles_until_next: &mut u8,
)
    ensures
        *final(accumulator) == alu_result(
            Operation::Ior,
            *old(accumulator),
            old(memory)@.byte(operand as u16),
            *old(status_flags),
        ),
        *final(status_flags) == alu_status(
            Operation::Ior,
            *old(accumulator),
            old(memory)@.byte(operand as u16),
            *old(status_flags),
        ),
        *final(pc_reg) == advance(*old(pc_reg), 2),
        *final(cycles_until_next) == 3,
        final(memory)@ == old(memory)@,
{
    *accumulator = addressing::zero_page(
        *accumulator,
        operand,
        memory,
        status_flags,
        Operation::Ior,
    );
    *pc_reg = pc_reg.wrapping_add(2);
    *cycles_until_next = 3;
}

/// ORs into the accumulator the byte at the zero-page operand plus X, wrapping inside page zero.
pub fn ior_zero_page_x(
    operand: u8,
    x_reg: u8,
    pc_reg: &mut u16,
    accumulator: &mut u8,
    status_flags: &mut u8,
    memory: &mut RAM,
    cycles_until_next: &mut u8,
)
    ensures
        *final(accumulator) == alu_result(
            Operation::Ior,
            *old(accumulator),
            old(memory)@.byte(zero_page_x_addr(operand, x_reg)),
            *old(status_flags),
        ),
        *final(status_flags) == alu_status(
            Operation::Ior,
            *old(accumulator),
            old(memory)@.byte(zero_page_x_addr(operand, x_reg)),
            *old(status_flags),
        ),
        *final(pc_reg) == advance(*old(pc_reg), 2),
        *final(cycles_until_next) == 4,
        final(memory)@ == old(memory)@,
{
    *accumulator = addressing::zero_page_x(
        *accumulator,
        x_reg,
        operand,
        memory,
        status_flags,
        Operation::Ior,
    );
    *pc_reg = pc_reg.wrapping_add(2);
    *cycles_until_next = 4;
}

/// ORs into the accumulator the byte at the absolute operand.
pub fn ior_absolute(
    operand: u16,
    pc_reg: &mut u16,
    accumulator: &mut u8,
    status_flags: &mut u8,
    memory: &mut RAM,
    cycles_until_next: &mut u8,
)
    requires
        is_mapped(operand),
    ensures
        *final(accumulator) == alu_result(
            Operation::Ior,
            *old(accumulator),
            old(memory)@.byte(operand),
            *old(status_flags),
        ),
        *final(status_flags) == alu_status(
            Operation::Ior,
            *old(accumulator),
            old(memory)@.byte(operand),
            *old(status_flags),
        ),
        *final(pc_reg) == advance(*old(pc_reg), 3),
        *final(cycles_until_next) == 4,
        final(memory)@ == old(memory)@.after_read(operand),
{
    *accumulator = addressing::absolute(
        *accumulator,
        operand,
        memory,
        status_flags,
        Operation::Ior,
    );
    *pc_reg = pc_reg.wrapping_add(3);
    *cycles_until_next = 4;
}

/// ORs into the accumulator the byte at the absolute operand plus an index register.
pub fn ior_absolute_reg(
    operand: u16,
    reg: u8,
    pc_reg: &mut u16,
    accumulator: &mut u8,
    status_flags: &mut u8,
    memory: &mut RAM,
    cycles_until_next: &mut u8,
)
    requires
        is_mapped(absolute_reg_addr(operand, reg)),
    ensures
        *final(accumulator) == alu_result(
            Operation::Ior,
            *old(accumulator),
            old(memory)@.byte(absolute_reg_addr(operand, reg)),
            *old(status_flags),
        ),
        *final(status_flags) == alu_status(
            Operation::Ior,
            *old(accumulator),
            old(memory)@.byte(absolute_reg_addr(operand, reg)),
            *old(status_flags),
        ),
        *final(pc_reg) == advance(*old(pc_reg), 3),
        *final(cycles_until_next) == 4,
        final(memory)@ == old(memory)@.after_read(absolute_reg_addr(operand, reg)),
{
    *accumulator = addressing::absolute_reg(
        *accumulator,
        reg,
        operand,
        memory,
        status_flags,
        Operation::Ior,
    );
    *pc_reg = pc_reg.wrapping_add(3);
    *cycles_until_next = 4;
}

/// ORs into the accumulator the byte named by the pointer at the zero-page operand plus X.
pub fn ior_indexed_indirect(
    operand: u8,
    x_val: u8,
    pc_reg: &mut u16,
    accumulator: &mut u8,
    status_flags: &mut u8,
    memory: &mut RAM,
    cycles_until_next: &mut u8,
)
    requires
        is_mapped(indexed_indirect_addr(old(memory)@, operand, x_val)),
    ensures
        *final(accumulator) == alu_result(
            Operation::Ior,
            *old(accumulator),
            old(memory)@.byte(indexed_indirect_addr(old(memory)@, operand, x_val)),
            *old(status_flags),
        ),
        *final(status_flags) == alu_status(
            Operation::Ior,
            *old(accumulator),
            old(memory)@.byte(indexed_indirect_addr(old(memory)@, operand, x_val)),
            *old(status_flags),
        ),
        *final(pc_reg) == advance(*old(pc_reg), 2),
        *final(cycles_until_next) == 6,
        final(memory)@ == old(memory)@.after_read(indexed_indirect_addr(old(memory)@, operand, x_val)),
{
    *accumulator = addressing::indexed_indirect(
        *accumulator,
        x_val,
        operand,
        memory,
        status_flags,
        Operation::Ior,
    );
    *pc_reg = pc_reg.wrapping_add(2);
    *cycles_until_next = 6;
}

/// ORs into the accumulator the byte at the pointer stored at the zero-page operand, plus Y.
pub fn ior_indirect_indexed(
    operand: u8,
    y_val: u8,
    pc_reg: &mut u16,
    accumulator: &mut u8,
    status_flags: &mut u8,
    memory: &mut RAM,
    cycles_until_next: &mut u8,
)
    requires
        is_mapped(indirect_indexed_addr(old(memory)@, operand, y_val)),
    ensures
        *final(accumulator) == alu_result(
            Operation::Ior,
            *old(accumulator),
            old(memory)@.byte(indirect_indexed_addr(old(memory)@, operand, y_val)),
            *old(status_flags),
        ),
        *final(status_flags) == alu_status(
            Operation::Ior,
            *old(accumulator),
            old(memory)@.byte(indirect_indexed_addr(old(memory)@, operand, y_val)),
            *old(status_flags),
        ),
        *final(pc_reg) == advance(*old(pc_reg), 2),
        *final(cycles_until_next) == 5,
        final(memory)@ == old(memory)@.after_read(indirect_indexed_addr(old(memory)@, operand, y_val)),
{
    *accumulator = addressing::indirect_indexed(
        *accumulator,
        y_val,
        operand,
        memory,
        status_flags,
        Operation::Ior,
    );
    *pc_reg = pc_reg.wrapping_add(2);
    *cycles_until_next = 5;
}

} // verus!
