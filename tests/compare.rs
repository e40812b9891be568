use nes_emu::compare::{
    compare,
    comp_value_absolute,
    comp_value_absolute_reg,
    comp_value_immediate,
    comp_value_indexed_indirect,
    comp_value_indirect_indexed,
    comp_value_zero_page,
    comp_value_zero_page_x,
};
use nes_emu::flags;
use nes_emu::memory::RAM;

#[test]
fn test_compare() {
    let mut test_memory: RAM = RAM::new();
    let mut pc_reg: u16 = 0;
    let mut status = 0;
    let mut cycles = 0;

    // init mem
    for i in 0..2048u16 {
        test_memory.write_mem_value(i, i as u8);
    }

    comp_value_immediate(&mut pc_reg, 128, 128, &mut status, &mut cycles);
    assert_eq!(status, 3);
    assert_eq!(pc_reg, 2);
    assert_eq!(cycles, 2);

    status = 0;
    comp_value_zero_page(&mut pc_reg, 128, 128, &mut test_memory, &mut status, &mut cycles);
    assert_eq!(status, 3);
    assert_eq!(pc_reg, 4);
    assert_eq!(cycles, 3);

    status = 0;
    comp_value_zero_page_x(&mut pc_reg, 128, 125, 3, &mut test_memory, &mut status, &mut cycles);
    assert_eq!(status, 3);
    assert_eq!(pc_reg, 6);
    assert_eq!(cycles, 4);

    status = 0;
    comp_value_absolute(&mut pc_reg, 128, 384, &mut test_memory, &mut status, &mut cycles);
    assert_eq!(status, 3);
    assert_eq!(pc_reg, 9);
    assert_eq!(cycles, 4);

    status = 0;
    comp_value_immediate(&mut pc_reg, 132, 128, &mut status, &mut cycles);
    assert_eq!(status, 1);
    assert_eq!(pc_reg, 11);
    assert_eq!(cycles, 2);

    status = 0;
    comp_value_absolute_reg(&mut pc_reg, 128, 383, 1, &mut test_memory, &mut status, &mut cycles);
    assert_eq!(status, 3);
    assert_eq!(pc_reg, 14);
    assert_eq!(cycles, 4);

    status = 0;
    comp_value_indexed_indirect(&mut pc_reg, 5, 2, 3, &mut test_memory, &mut status, &mut cycles);
    assert_eq!(status, 3);
    assert_eq!(pc_reg, 16);
    assert_eq!(cycles, 6);

    status = 0;
    comp_value_indirect_indexed(&mut pc_reg, 10, 6, 3, &mut test_memory, &mut status, &mut cycles);
    assert_eq!(status, 1);
    assert_eq!(pc_reg, 18);
    assert_eq!(cycles, 5);
}

#[test]
fn compare_equal_and_wrapped_negative() {
    let mut status: u8 = 0;
    compare(&mut status, 128, 128);
    assert_eq!(status & flags::ZERO_BIT, flags::ZERO_BIT);
    assert_eq!(status & flags::CARRY_BIT, flags::CARRY_BIT);
    assert_eq!(status & flags::NEGATIVE_BIT, 0);

    compare(&mut status, 5, 128);
    assert_eq!(status & flags::CARRY_BIT, 0);
    assert_eq!(status & flags::NEGATIVE_BIT, flags::NEGATIVE_BIT);
    assert_eq!(status & flags::ZERO_BIT, 0);
}

#[test]
fn compare_leaves_other_flags() {
    let mut status: u8 = flags::OVERFLOW_BIT | flags::DECIMAL_MODE_BIT;
    compare(&mut status, 200, 10);
    assert_eq!(status, flags::OVERFLOW_BIT | flags::DECIMAL_MODE_BIT | flags::CARRY_BIT | flags::NEGATIVE_BIT);
}
