use nes_emu::lsr::{lsr_absolute, lsr_absolute_x, lsr_accumulator, lsr_zero_page, lsr_zero_page_x};
use nes_emu::memory::RAM;

#[test]
fn lsr_tests() {
    let mut operand = 28;
    let mut pc_reg = 0;
    let mut accumulator = 2;
    let mut status: u8 = 0;
    let mut cycles = 0;
    let mut test_memory: RAM = RAM::new();

    // init mem
    for i in 0..2048u16 {
        test_memory.write_mem_value(i, i as u8);
    }

    lsr_accumulator(&mut pc_reg, &mut accumulator, &mut status, &mut cycles);
    assert_eq!(pc_reg, 1);
    assert_eq!(accumulator, 1);
    assert_eq!(status, 0);

    lsr_accumulator(&mut pc_reg, &mut accumulator, &mut status, &mut cycles);
    assert_eq!(pc_reg, 2);
    assert_eq!(accumulator, 0);
    assert_eq!(status, 0x3);

    lsr_zero_page(&mut pc_reg, operand, &mut test_memory, &mut status, &mut cycles);
    status = 0;
    assert_eq!(pc_reg, 4);
    assert_eq!(test_memory.read_mem_value(operand as u16), 14);
    assert_eq!(status, 0);

    operand = 255;
    lsr_zero_page_x(&mut pc_reg, operand, 2, &mut test_memory, &mut status, &mut cycles);
    assert_eq!(pc_reg, 6);
    assert_eq!(test_memory.read_mem_value(((operand as u16 + 2) as u16 % 256) as u16), 0);
    assert_eq!(status, 3);

    status = 0;
    // absolute operands arrive already decoded from their little-endian bytes
    lsr_absolute(&mut pc_reg, 0x0102, &mut test_memory, &mut status, &mut cycles);
    assert_eq!(pc_reg, 9);
    assert_eq!(test_memory.read_mem_value(0x102), 1);
    assert_eq!(status, 0);

    lsr_absolute_x(&mut pc_reg, 25, 0x0104, &mut test_memory, &mut status, &mut cycles);
    assert_eq!(pc_reg, 12);
    assert_eq!(test_memory.read_mem_value(0x104 + 25), 14);
    assert_eq!(status, 1);
    assert_eq!(cycles, 7);
}
