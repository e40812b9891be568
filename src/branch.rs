//! Conditional branches: each tests one flag and, when it holds, moves the
//! program counter by a signed 8-bit displacement past the 2-byte instruction.
use vstd::prelude::*;
use crate::flags::{flag_set, test_flag, CARRY_BIT, NEGATIVE_BIT, OVERFLOW_BIT, ZERO_BIT};
use crate::memory::advance;

verus! {

/// Where a taken branch lands: past the instruction, plus the displacement, with 16-bit wrap-around.
pub open spec fn branch_target(pc: u16, relative_addr: i8) -> u16 {
    ((pc + relative_addr + 2) % 0x10000) as u16
}

/// The program counter after a branch that is taken exactly when `taken` holds.
pub open spec fn branch_pc(pc: u16, relative_addr: i8, taken: bool) -> u16 {
    if taken {
        branch_target(pc, relative_addr)
    } else {
        advance(pc, 2)
    }
}

fn branch_if(taken: bool, pc_reg: &mut u16, relative_addr: i8)
    ensures
        *final(pc_reg) == branch_pc(*old(pc_reg), relative_addr, taken),
{
    if taken {
        let target: i32 = *pc_reg as i32 + relative_addr as i32 + 2;
        *pc_reg = if target < 0 {
            (target + 0x10000) as u16
        } else if target >= 0x10000 {
            (target - 0x10000) as u16
        } else {
            target as u16
        };
    } else {
        *pc_reg = pc_reg.wrapping_add(2);
    }
}

fn branch_on_flag_set(flag_val: u8, pc_reg: &mut u16, relative_addr: i8, flag_bit: u8)
    ensures
        *final(pc_reg) == branch_pc(*old(pc_reg), relative_addr, flag_set(flag_val, flag_bit)),
{
    let taken = test_flag(flag_val, flag_bit);
    branch_if(taken, pc_reg, relative_addr);
}

fn branch_on_flag_not_set(flag_val: u8, pc_reg: &mut u16, relative_addr: i8, flag_bit: u8)
    ensures
        *final(pc_reg) == branch_pc(*old(pc_reg), relative_addr, !flag_set(flag_val, flag_bit)),
{
    let taken = !test_flag(flag_val, flag_bit);
    branch_if(taken, pc_reg, relative_addr);
}

/// Branches when Carry is set.
pub fn branch_if_carry_set(flag_val: u8, pc_reg: &mut u16, relative_addr: i8, cycles: &mut u8)
    ensures
        *final(pc_reg) == branch_pc(*old(pc_reg), relative_addr, flag_set(flag_val, CARRY_BIT)),
        *final(cycles) == 2,
{
    branch_on_flag_set(flag_val, pc_reg, relative_addr, CARRY_BIT);
    *cycles = 2;
}

/// Branches when Carry is clear.
pub fn branch_if_carry_clear(flag_val: u8, pc_reg: &mut u16, relative_addr: i8, cycles: &mut u8)
    ensures
        *final(pc_reg) == branch_pc(*old(pc_reg), relative_addr, !flag_set(flag_val, CARRY_BIT)),
        *final(cycles) == 2,
{
    branch_on_flag_not_set(flag_val, pc_reg, relative_addr, CARRY_BIT);
    *cycles = 2;
}

/// Branches when Zero is set.
pub fn branch_if_equal(flag_val: u8, pc_reg: &mut u16, relative_addr: i8, cycles: &mut u8)
    ensures
        *final(pc_reg) == branch_pc(*old(pc_reg), relative_addr, flag_set(flag_val, ZERO_BIT)),
        *final(cycles) == 2,
{
    branch_on_flag_set(flag_val, pc_reg, relative_addr, ZERO_BIT);
    *cycles = 2;
}

/// Branches when Zero is clear.
pub fn branch_if_not_equal(flag_val: u8, pc_reg: &mut u16, relative_addr: i8, cycles: &mut u8)
    ensures
        *final(pc_reg) == branch_pc(*old(pc_reg), relative_addr, !flag_set(flag_val, ZERO_BIT)),
        *final(cycles) == 2,
{
    branch_on_flag_not_set(flag_val, pc_reg, relative_addr, ZERO_BIT);
    *cycles = 2;
}

/// Branches when Negative is set.
pub fn branch_if_minus(flag_val: u8, pc_reg: &mut u16, relative_addr: i8, cycles: &mut u8)
    ensures
        *final(pc_reg) == branch_pc(*old(pc_reg), relative_addr, flag_set(flag_val, NEGATIVE_BIT)),
        *final(cycles) == 2,
{
    branch_on_flag_set(flag_val, pc_reg, relative_addr, NEGATIVE_BIT);
    *cycles = 2;
}

/// Branches when Negative is clear.
pub fn branch_if_positive(flag_val: u8, pc_reg: &mut u16, relative_addr: i8, cycles: &mut u8)
    ensures
        *final(pc_reg) == branch_pc(*old(pc_reg), relative_addr, !flag_set(flag_val, NEGATIVE_BIT)),
        *final(cycles) == 2,
{
    branch_on_flag_not_set(flag_val, pc_reg, relative_addr, NEGATIVE_BIT);
    *cycles = 2;
}

/// Branches when Overflow is set.
pub fn branch_if_overflow_set(flag_val: u8, pc_reg: &mut u16, relative_addr: i8, cycles: &mut u8)
    ensures
        *final(pc_reg) == branch_pc(*old(pc_reg), relative_addr, flag_set(flag_val, OVERFLOW_BIT)),
        *final(cycles) == 2,
{
    branch_on_flag_set(flag_val, pc_reg, relative_addr, OVERFLOW_BIT);
    *cycles = 2;
}

/// Branches when Overflow is clear.
pub fn branch_if_overflow_clear(flag_val: u8, pc_reg: &mut u16, relative_addr: i8, cycles: &mut u8)
    ensures
        *final(pc_reg) == branch_pc(*old(pc_reg), relative_addr, !flag_set(flag_val, OVERFLOW_BIT)),
        *final(cycles) == 2,
{
    branch_on_flag_not_set(flag_val, pc_reg, relative_addr, OVERFLOW_BIT);
    *cycles = 2;
}

} // verus!
