use nes_emu::asl::{asl_absolute, asl_absolute_x, asl_accumulator, asl_zero_page, asl_zero_page_x};
use nes_emu::flags;
use nes_emu::memory::RAM;

#[test]
fn asl_tests() {
    let mut pc_reg = 0;
    let mut accumulator = 15;
    let mut status: u8 = 0;
    let mut test_memory: RAM = RAM::new();
    let mut cycles = 0;

    // init mem
    for i in 0..2048u16 {
        test_memory.write_mem_value(i, (i * 2) as u8);
    }

    asl_accumulator(&mut pc_reg, &mut accumulator, &mut status, &mut cycles);
    assert_eq!(accumulator, 30);
    assert_eq!(pc_reg, 1);
    assert_eq!(status, 0);

    asl_zero_page(&mut pc_reg, 24, &mut test_memory, &mut status, &mut cycles);
    assert_eq!(test_memory.read_mem_value(24), 96);
    assert_eq!(pc_reg, 3);
    assert_eq!(status, 0);

    asl_zero_page_x(&mut pc_reg, 130, 151, &mut test_memory, &mut status, &mut cycles);
    assert_eq!(test_memory.read_mem_value(25), 100);
    assert_eq!(pc_reg, 5);
    assert_eq!(status, 0);

    // absolute operands arrive already decoded from their little-endian bytes 0x37 0x00
    asl_absolute(&mut pc_reg, 0x0037, &mut test_memory, &mut status, &mut cycles);
    assert_eq!(test_memory.read_mem_value(127), 254);
    assert_eq!(pc_reg, 8);
    assert_eq!(status, 0x40);

    status = 0;
    asl_absolute_x(&mut pc_reg, 16, 0x0012, &mut test_memory, &mut status, &mut cycles);
    assert_eq!(test_memory.read_mem_value(34), 136);
    assert_eq!(pc_reg, 11);
    assert_eq!(status, 0x40);
}

#[test]
fn asl_carries_out_bit_seven() {
    let mut pc_reg = 0;
    let mut accumulator = 0x80;
    let mut status: u8 = 0;
    let mut cycles = 0;
    asl_accumulator(&mut pc_reg, &mut accumulator, &mut status, &mut cycles);
    assert_eq!(accumulator, 0);
    assert_eq!(status, flags::CARRY_BIT | flags::ZERO_BIT);
    assert_eq!(cycles, 2);
}
