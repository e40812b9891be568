use nes_emu::flags;
use nes_emu::memory::RAM;
use nes_emu::sbc::{sbc_absolute, sbc_immediate, sbc_zero_page};

#[test]
fn subtract_borrows_through_carry() {
    let mut pc_reg = 0;
    let mut accumulator = 0x50;
    let mut status: u8 = flags::CARRY_BIT;
    let mut cycles = 0;
    // 0x50 - 0xF0 = 0x60 with a borrow
    sbc_immediate(0xF0, &mut pc_reg, &mut accumulator, &mut status, &mut cycles);
    assert_eq!(accumulator, 0x60);
    assert_eq!(status, 0);
    // the borrow takes one more
    sbc_immediate(0x10, &mut pc_reg, &mut accumulator, &mut status, &mut cycles);
    assert_eq!(accumulator, 0x4F);
    assert_eq!(status, flags::CARRY_BIT);
    // 0x50 - 0xB0 overflows: positive minus negative gives negative
    accumulator = 0x50;
    sbc_immediate(0xB0, &mut pc_reg, &mut accumulator, &mut status, &mut cycles);
    assert_eq!(accumulator, 0xA0);
    assert_eq!(status, flags::OVERFLOW_BIT | flags::NEGATIVE_BIT);

    let mut test_memory = RAM::new();
    test_memory.write_mem_value(0x20, 5);
    test_memory.write_mem_value(0x0320, 5);
    accumulator = 5;
    status = flags::CARRY_BIT;
    sbc_zero_page(0x20, &mut pc_reg, &mut accumulator, &mut status, &mut test_memory, &mut cycles);
    assert_eq!(accumulator, 0);
    assert_eq!(status, flags::CARRY_BIT | flags::ZERO_BIT);
    sbc_absolute(0x0320, &mut pc_reg, &mut accumulator, &mut status, &mut test_memory, &mut cycles);
    assert_eq!(accumulator, 0xFB);
    assert_eq!(status, flags::NEGATIVE_BIT);
    assert_eq!(pc_reg, 2 + 2 + 2 + 2 + 3);
}
