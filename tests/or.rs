use nes_emu::memory::RAM;
use nes_emu::or::{
    ior_absolute,
    ior_absolute_reg,
    ior_immediate,
    ior_indexed_indirect,
    ior_indirect_indexed,
    ior_zero_page,
    ior_zero_page_x,
    xor_absolute,
    xor_absolute_reg,
    xor_immediate,
    xor_indexed_indirect,
    xor_indirect_indexed,
    xor_zero_page,
    xor_zero_page_x,
};

#[test]
fn test_or() {
    let mut pc_reg = 0;
    let mut accumulator = 2;
    let mut status: u8 = 0;
    let mut test_memory: RAM = RAM::new();
    let mut cycles = 0;

    // init mem
    for i in 0..512u16 {
        test_memory.write_mem_value(i * 2, 0 as u8);
        test_memory.write_mem_value(i * 2 + 1, i as u8);
    }

    for i in 512..1024u16 {
        test_memory.write_mem_value(i, i as u8);
    }

    ior_immediate(5, &mut pc_reg, &mut accumulator, &mut status, &mut cycles);
    assert_eq!(pc_reg, 2);
    assert_eq!(accumulator, 7);

    xor_immediate(7, &mut pc_reg, &mut accumulator, &mut status, &mut cycles);
    assert_eq!(pc_reg, 4);
    assert_eq!(accumulator, 0);
    assert_eq!(status, 2);

    status = 0;
    ior_zero_page(11, &mut pc_reg, &mut accumulator, &mut status, &mut test_memory, &mut cycles);
    assert_eq!(pc_reg, 6);
    assert_eq!(accumulator, 5);
    assert_eq!(status, 0);

    xor_zero_page(5, &mut pc_reg, &mut accumulator, &mut status, &mut test_memory, &mut cycles);
    assert_eq!(pc_reg, 8);
    assert_eq!(accumulator, 7);
    assert_eq!(status, 0);

    status = 0;
    ior_zero_page_x(11, 2, &mut pc_reg, &mut accumulator, &mut status, &mut test_memory, &mut cycles);
    assert_eq!(pc_reg, 10);
    assert_eq!(accumulator, 7);
    assert_eq!(status, 0);

    status = 0;
    accumulator = 0;
    xor_zero_page_x(11, 2, &mut pc_reg, &mut accumulator, &mut status, &mut test_memory, &mut cycles);
    assert_eq!(pc_reg, 12);
    assert_eq!(accumulator, 6);
    assert_eq!(status, 0);

    xor_zero_page_x(255, 14, &mut pc_reg, &mut accumulator, &mut status, &mut test_memory, &mut cycles);
    assert_eq!(pc_reg, 14);
    assert_eq!(accumulator, 0);
    assert_eq!(status, 2);

    status = 0;
    accumulator = 0;
    ior_absolute(259, &mut pc_reg, &mut accumulator, &mut status, &mut test_memory, &mut cycles);
    assert_eq!(pc_reg, 17);
    assert_eq!(accumulator, 129);
    assert_eq!(status, 64);

    status = 0;
    xor_absolute(259, &mut pc_reg, &mut accumulator, &mut status, &mut test_memory, &mut cycles);
    assert_eq!(pc_reg, 20);
    assert_eq!(accumulator, 0);
    assert_eq!(status, 2);
}

#[test]
fn or_tests() {
    let mut test_memory: RAM = RAM::new();
    // pointer at 0x10 to 0x0300; 0x0300 holds 0xF0, 0x0302 holds 0x0F
    test_memory.write_mem_address(0x10, 0x0300);
    test_memory.write_mem_value(0x0300, 0xF0);
    test_memory.write_mem_value(0x0302, 0x0F);
    let mut pc_reg = 0;
    let mut accumulator = 0x0F;
    let mut status: u8 = 0;
    let mut cycles = 0;

    ior_indexed_indirect(0x0E, 2, &mut pc_reg, &mut accumulator, &mut status, &mut test_memory, &mut cycles);
    assert_eq!(accumulator, 0xFF);
    assert_eq!(status, 0x40);
    assert_eq!(cycles, 6);

    xor_indirect_indexed(0x10, 2, &mut pc_reg, &mut accumulator, &mut status, &mut test_memory, &mut cycles);
    assert_eq!(accumulator, 0xF0);
    assert_eq!(cycles, 5);

    xor_indexed_indirect(0x10, 0, &mut pc_reg, &mut accumulator, &mut status, &mut test_memory, &mut cycles);
    assert_eq!(accumulator, 0);
    assert_eq!(status, 2);

    ior_indirect_indexed(0x10, 0, &mut pc_reg, &mut accumulator, &mut status, &mut test_memory, &mut cycles);
    assert_eq!(accumulator, 0xF0);

    ior_absolute_reg(0x0300, 2, &mut pc_reg, &mut accumulator, &mut status, &mut test_memory, &mut cycles);
    assert_eq!(accumulator, 0xFF);
    xor_absolute_reg(0x0300, 0, &mut pc_reg, &mut accumulator, &mut status, &mut test_memory, &mut cycles);
    assert_eq!(accumulator, 0x0F);
    assert_eq!(status, 0);
    assert_eq!(pc_reg, 2 + 2 + 2 + 2 + 3 + 3);
}
