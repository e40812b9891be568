use nes_emu::adc::{
    adc_absolute,
    adc_absolute_reg,
    adc_immediate,
    adc_indexed_indirect,
    adc_indirect_indexed,
    adc_zero_page,
    adc_zero_page_x,
};
use nes_emu::flags;
use nes_emu::memory::RAM;

#[test]
fn adc_adc_tests() {
    let operand = 12;
    let mut pc_reg = 0;
    let mut accumulator = 0;
    let mut status: u8 = 0;
    let mut test_memory: RAM = RAM::new();

    let mut cycles = 0;

    // init mem
    for i in 0..2048u16 {
        test_memory.write_mem_value(i, (i * 2) as u8);
    }

    adc_immediate(operand, &mut pc_reg, &mut accumulator, &mut status, &mut cycles);

    assert_eq!(pc_reg, 2);
    assert_eq!(accumulator, 12);
    assert_eq!(status, 0);

    let operand2 = 230;
    adc_immediate(operand2, &mut pc_reg, &mut accumulator, &mut status, &mut cycles);

    assert_eq!(pc_reg, 4);
    assert_eq!(accumulator, 242);

    //-ve should be set
    assert_eq!(status, 0x40);

    accumulator = 0;
    status = 0;

    adc_zero_page(12, &mut pc_reg, &mut accumulator, &mut status, &mut test_memory, &mut cycles);

    assert_eq!(pc_reg, 6);
    assert_eq!(accumulator, 24);
    assert_eq!(status, 0);

    adc_zero_page(120, &mut pc_reg, &mut accumulator, &mut status, &mut test_memory, &mut cycles);

    assert_eq!(pc_reg, 8);
    assert_eq!(accumulator, 8);
    assert_eq!(status, 1);

    accumulator = 0;
    status = 0;

    adc_zero_page(0, &mut pc_reg, &mut accumulator, &mut status, &mut test_memory, &mut cycles);

    assert_eq!(pc_reg, 10);
    assert_eq!(accumulator, 0);
    assert_eq!(status, 2);

    accumulator = 0;
    status = 0;

    adc_zero_page_x(255, 2, &mut pc_reg, &mut accumulator, &mut status, &mut test_memory, &mut cycles);

    assert_eq!(pc_reg, 12);
    assert_eq!(accumulator, 2);

    adc_absolute(257, &mut pc_reg, &mut accumulator, &mut status, &mut test_memory, &mut cycles);

    assert_eq!(pc_reg, 15);
    assert_eq!(accumulator, 4);

    adc_absolute_reg(257, 2, &mut pc_reg, &mut accumulator, &mut status, &mut test_memory, &mut cycles);

    assert_eq!(pc_reg, 18);
    assert_eq!(accumulator, 10);
    accumulator = 0;
    adc_indexed_indirect(127, 3, &mut pc_reg, &mut accumulator, &mut status, &mut test_memory, &mut cycles);

    assert_eq!(pc_reg, 20);
    assert_eq!(accumulator, 8);

    accumulator = 0;
    adc_indirect_indexed(1, 3, &mut pc_reg, &mut accumulator, &mut status, &mut test_memory, &mut cycles);

    assert_eq!(pc_reg, 22);
    assert_eq!(accumulator, 10);

    //test overflow flag!
    accumulator = 0b0111_1111;
    let operand = 0b0111_1111;
    adc_immediate(operand, &mut pc_reg, &mut accumulator, &mut status, &mut cycles);

    assert_eq!(status & flags::OVERFLOW_BIT, flags::OVERFLOW_BIT);
    assert_eq!(status & flags::NEGATIVE_BIT, flags::NEGATIVE_BIT);

    accumulator = 0b0111_1111;
    let operand = 0b1000_0001;
    adc_immediate(operand, &mut pc_reg, &mut accumulator, &mut status, &mut cycles);
    assert_eq!(status & flags::CARRY_BIT, flags::CARRY_BIT);

    status = flags::CARRY_BIT;
    accumulator = 0;
    let operand = 0;
    adc_immediate(operand, &mut pc_reg, &mut accumulator, &mut status, &mut cycles);
    assert_eq!(accumulator, 1);

    accumulator = 0b1000_0000;
    let operand = 0b1000_0000;
    adc_immediate(operand, &mut pc_reg, &mut accumulator, &mut status, &mut cycles);

    assert_eq!(status & flags::OVERFLOW_BIT, flags::OVERFLOW_BIT);
}

#[test]
fn adc_wraps_past_255_and_sets_carry() {
    let mut test_memory: RAM = RAM::new();
    for i in 0..2048u16 {
        test_memory.write_mem_value(i, (i * 2) as u8);
    }
    let mut pc_reg = 0;
    let mut accumulator = 0;
    let mut status: u8 = 0;
    let mut cycles = 0;
    adc_immediate(12, &mut pc_reg, &mut accumulator, &mut status, &mut cycles);
    assert_eq!(accumulator, 12);
    assert_eq!(status & flags::CARRY_BIT, 0);
    adc_immediate(255, &mut pc_reg, &mut accumulator, &mut status, &mut cycles);
    assert_eq!(accumulator, 11);
    assert_eq!(status & flags::CARRY_BIT, flags::CARRY_BIT);
    assert_eq!(cycles, 2);
}

#[test]
fn adc_flags_follow_unsigned_and_signed_rules() {
    // 0x50 + 0x50 = 0xA0: no carry, signed overflow, negative.
    let mut pc_reg = 0;
    let mut accumulator = 0x50;
    let mut status: u8 = 0;
    let mut cycles = 0;
    adc_immediate(0x50, &mut pc_reg, &mut accumulator, &mut status, &mut cycles);
    assert_eq!(accumulator, 0xA0);
    assert_eq!(status, flags::OVERFLOW_BIT | flags::NEGATIVE_BIT);
    // 0xD0 + 0x90 = 0x160: carry, overflow, positive result.
    accumulator = 0xD0;
    status = 0;
    adc_immediate(0x90, &mut pc_reg, &mut accumulator, &mut status, &mut cycles);
    assert_eq!(accumulator, 0x60);
    assert_eq!(status, flags::CARRY_BIT | flags::OVERFLOW_BIT);
    // 0xFF + 0x01 = 0x100: carry and zero, no overflow.
    accumulator = 0xFF;
    status = 0;
    adc_immediate(0x01, &mut pc_reg, &mut accumulator, &mut status, &mut cycles);
    assert_eq!(accumulator, 0);
    assert_eq!(status, flags::CARRY_BIT | flags::ZERO_BIT);
    // Carry in adds one; other flags are left alone.
    accumulator = 0x10;
    status = flags::CARRY_BIT | flags::DECIMAL_MODE_BIT;
    adc_immediate(0x01, &mut pc_reg, &mut accumulator, &mut status, &mut cycles);
    assert_eq!(accumulator, 0x12);
    assert_eq!(status, flags::DECIMAL_MODE_BIT);
}
