use nes_emu::and::{
    and_absolute,
    and_absolute_reg,
    and_immediate,
    and_indexed_indirect,
    and_indirect_indexed,
    and_zero_page,
    and_zero_page_x,
};
use nes_emu::flags;
use nes_emu::memory::RAM;

#[test]
fn and_tests() {
    // memory holding its own address
    let mut pc_reg = 0;
    let mut status: u8 = 0;
    let mut test_memory: RAM = RAM::new();
    let mut cycles = 0;

    for i in 0..2048u16 {
        test_memory.write_mem_value(i, i as u8);
    }

    let mut accumulator = 15;
    and_immediate(15, &mut pc_reg, &mut accumulator, &mut status, &mut cycles);
    assert_eq!(pc_reg, 2);
    assert_eq!(status, 0);

    accumulator = 15;
    and_immediate(0, &mut pc_reg, &mut accumulator, &mut status, &mut cycles);
    assert_eq!(pc_reg, 4);
    assert_eq!(status, 2);

    status = 0;
    accumulator = 128;
    and_zero_page(128, &mut pc_reg, &mut accumulator, &mut status, &mut test_memory, &mut cycles);
    assert_eq!(pc_reg, 6);
    assert_eq!(status, 64);

    status = 0;
    accumulator = 128;
    and_zero_page_x(6, 122, &mut pc_reg, &mut accumulator, &mut status, &mut test_memory, &mut cycles);
    assert_eq!(pc_reg, 8);
    assert_eq!(status, 64);

    status = 0;
    accumulator = 1;
    and_zero_page_x(3, 254, &mut pc_reg, &mut accumulator, &mut status, &mut test_memory, &mut cycles);
    assert_eq!(pc_reg, 10);
    assert_eq!(status, 0);

    status = 0;
    accumulator = 1;
    and_absolute(0x01, &mut pc_reg, &mut accumulator, &mut status, &mut test_memory, &mut cycles);
    assert_eq!(pc_reg, 13);
    assert_eq!(status, 0);

    accumulator = 1;
    and_absolute_reg(255, 2, &mut pc_reg, &mut accumulator, &mut status, &mut test_memory, &mut cycles);
    assert_eq!(pc_reg, 16);
    assert_eq!(status, 0);

    status = 0;
    accumulator = 4;
    and_indexed_indirect(1, 3, &mut pc_reg, &mut accumulator, &mut status, &mut test_memory, &mut cycles);
    assert_eq!(pc_reg, 18);
    assert_eq!(status, 0);

    // memory holding zeros at even addresses and half the address at odd ones
    let mut pc_reg = 0;
    let mut accumulator = 25;
    let mut status: u8 = 0;
    let mut test_memory: RAM = RAM::new();
    let mut cycles = 0;

    for i in 0..512u16 {
        test_memory.write_mem_value(i * 2, 0 as u8);
        test_memory.write_mem_value(i * 2 + 1, i as u8);
    }

    for i in 512..1024u16 {
        test_memory.write_mem_value(i, i as u8);
    }

    and_immediate(15, &mut pc_reg, &mut accumulator, &mut status, &mut cycles);
    assert_eq!(pc_reg, 2);
    assert_eq!(status, 0);

    and_immediate(0, &mut pc_reg, &mut accumulator, &mut status, &mut cycles);
    assert_eq!(pc_reg, 4);
    assert_eq!(status, 2);

    status = 0;
    accumulator = 64;
    and_zero_page(129, &mut pc_reg, &mut accumulator, &mut status, &mut test_memory, &mut cycles);
    assert_eq!(accumulator, 64);
    assert_eq!(pc_reg, 6);
    assert_eq!(status, 0);

    status = 0;
    and_zero_page_x(126, 3, &mut pc_reg, &mut accumulator, &mut status, &mut test_memory, &mut cycles);
    assert_eq!(pc_reg, 8);
    assert_eq!(status, 0);

    status = 0;
    and_absolute(3, &mut pc_reg, &mut accumulator, &mut status, &mut test_memory, &mut cycles);

    assert_eq!(pc_reg, 11);
    assert_eq!(status, 2);

    status = 0;
    accumulator = 129;
    and_absolute_reg(255, 2, &mut pc_reg, &mut accumulator, &mut status, &mut test_memory, &mut cycles);

    assert_eq!(pc_reg, 14);
    assert_eq!(status, 64);

    status = 0;
    accumulator = 1;
    and_indexed_indirect(1, 6, &mut pc_reg, &mut accumulator, &mut status, &mut test_memory, &mut cycles);

    assert_eq!(pc_reg, 16);
    assert_eq!(status, 0);

    and_indirect_indexed(1, 3, &mut pc_reg, &mut accumulator, &mut status, &mut test_memory, &mut cycles);

    assert_eq!(pc_reg, 18);
}

#[test]
fn and_with_itself_keeps_value_and_carry() {
    for a in [0u8, 1, 0x7F, 0x80, 0xFF] {
        let mut pc_reg = 0;
        let mut accumulator = a;
        let mut status: u8 = flags::CARRY_BIT | flags::OVERFLOW_BIT;
        let mut cycles = 0;
        and_immediate(a, &mut pc_reg, &mut accumulator, &mut status, &mut cycles);
        assert_eq!(accumulator, a);
        assert_eq!(status & flags::ZERO_BIT != 0, a == 0);
        assert_eq!(status & flags::NEGATIVE_BIT != 0, a & 0x80 != 0);
        assert_eq!(status & (flags::CARRY_BIT | flags::OVERFLOW_BIT), flags::CARRY_BIT | flags::OVERFLOW_BIT);
    }
}
