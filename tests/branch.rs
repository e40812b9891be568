use nes_emu::branch::{
    branch_if_carry_clear,
    branch_if_carry_set,
    branch_if_equal,
    branch_if_minus,
    branch_if_not_equal,
    branch_if_overflow_clear,
    branch_if_overflow_set,
    branch_if_positive,
};
use nes_emu::flags;

#[test]
fn test_branches() {
    let mut flag_bits: u8 = 0;
    flag_bits |= flags::CARRY_BIT;
    let mut pc_reg: u16 = 256;
    let mut cycles = 0;

    branch_if_carry_set(flag_bits, &mut pc_reg, -12, &mut cycles);
    assert_eq!(pc_reg, 246);

    flag_bits ^= flags::CARRY_BIT;
    branch_if_carry_set(flag_bits, &mut pc_reg, -12, &mut cycles);
    assert_eq!(pc_reg, 248);

    branch_if_carry_clear(flag_bits, &mut pc_reg, -12, &mut cycles);
    assert_eq!(pc_reg, 238);

    flag_bits |= flags::ZERO_BIT;
    branch_if_equal(flag_bits, &mut pc_reg, 28, &mut cycles);
    assert_eq!(pc_reg, 268);

    flag_bits ^= flags::ZERO_BIT;
    branch_if_equal(flag_bits, &mut pc_reg, 28, &mut cycles);
    assert_eq!(pc_reg, 270);

    flag_bits |= flags::NEGATIVE_BIT;
    branch_if_minus(flag_bits, &mut pc_reg, -38, &mut cycles);
    assert_eq!(pc_reg, 234);
}

#[test]
fn branch_taken_and_not_taken_from_256() {
    let mut cycles = 0;
    let mut pc_reg: u16 = 256;
    branch_if_carry_set(flags::CARRY_BIT, &mut pc_reg, -12, &mut cycles);
    assert_eq!(pc_reg, 246);
    assert_eq!(cycles, 2);
    let mut pc_reg: u16 = 256;
    branch_if_carry_set(0, &mut pc_reg, -12, &mut cycles);
    assert_eq!(pc_reg, 258);
}

#[test]
fn branches_wrap_at_the_ends_of_the_address_space() {
    let mut cycles = 0;
    let mut pc_reg: u16 = 0xFFF0;
    branch_if_not_equal(0, &mut pc_reg, 0x20, &mut cycles);
    assert_eq!(pc_reg, 0x0012);
    let mut pc_reg: u16 = 0x0004;
    branch_if_positive(0, &mut pc_reg, -16, &mut cycles);
    assert_eq!(pc_reg, 0xFFF6);
    let mut pc_reg: u16 = 0xFFFF;
    branch_if_overflow_set(0, &mut pc_reg, 5, &mut cycles);
    assert_eq!(pc_reg, 0x0001);
    let mut pc_reg: u16 = 100;
    branch_if_overflow_clear(flags::OVERFLOW_BIT, &mut pc_reg, 5, &mut cycles);
    assert_eq!(pc_reg, 102);
    let mut pc_reg: u16 = 100;
    branch_if_overflow_set(flags::OVERFLOW_BIT, &mut pc_reg, 127, &mut cycles);
    assert_eq!(pc_reg, 229);
}
