use nes_emu::memory::RAM;
use nes_emu::ror::{ror_absolute, ror_absolute_x, ror_accumulator, ror_zero_page, ror_zero_page_x};

#[test]
fn ror_tests() {
    let mut pc_reg = 0;
    let mut accumulator = 128;
    let mut status: u8 = 0;
    let mut test_memory: RAM = RAM::new();
    let mut cycles = 0;

    for i in 0..2048u16 {
        test_memory.write_mem_value(i, i as u8);
    }

    ror_accumulator(&mut pc_reg, &mut accumulator, &mut status, &mut cycles);
    assert_eq!(accumulator, 64);
    assert_eq!(pc_reg, 1);
    assert_eq!(cycles, 2);
    assert_eq!(status, 0);

    let mut accumulator = 65;
    ror_accumulator(&mut pc_reg, &mut accumulator, &mut status, &mut cycles);
    assert_eq!(accumulator, 32);
    assert_eq!(pc_reg, 2);
    assert_eq!(cycles, 2);
    assert_eq!(status, 1);

    ror_zero_page(&mut pc_reg, 19, &mut status, &mut test_memory, &mut cycles);
    assert_eq!(test_memory.read_mem_value(19 as u16), 9 | 0x80);
    assert_eq!(pc_reg, 4);
    assert_eq!(cycles, 5);
    assert_eq!(status, 65);

    ror_zero_page(&mut pc_reg, 128, &mut status, &mut test_memory, &mut cycles);
    assert_eq!(test_memory.read_mem_value(128), 64 + 128);
    assert_eq!(pc_reg, 6);
    assert_eq!(cycles, 5);
    assert_eq!(status, 64);

    status = 0;
    ror_zero_page_x(&mut pc_reg, 3, 254, &mut status, &mut test_memory, &mut cycles);
    assert_eq!(test_memory.read_mem_value(1), 0);
    assert_eq!(pc_reg, 8);
    assert_eq!(cycles, 6);
    // Carry from the bit shifted out, and Zero from the zero result
    assert_eq!(status, 3);

    ror_zero_page_x(&mut pc_reg, 3, 251, &mut status, &mut test_memory, &mut cycles);
    assert_eq!(test_memory.read_mem_value(254), 127 + 128);
    assert_eq!(pc_reg, 10);
    assert_eq!(cycles, 6);
    assert_eq!(status, 64);

    status = 0;
    ror_absolute(&mut pc_reg, 264, &mut status, &mut test_memory, &mut cycles);
    assert_eq!(test_memory.read_mem_value(264), 4);
    assert_eq!(pc_reg, 13);
    assert_eq!(cycles, 6);
    assert_eq!(status, 0);

    ror_absolute(&mut pc_reg, 265, &mut status, &mut test_memory, &mut cycles);
    assert_eq!(test_memory.read_mem_value(264), 4);
    assert_eq!(pc_reg, 16);
    assert_eq!(cycles, 6);
    assert_eq!(status, 1);

    status = 0;
    ror_absolute_x(&mut pc_reg, 13, 285, &mut status, &mut test_memory, &mut cycles);
    assert_eq!(test_memory.read_mem_value(298), 21);
    assert_eq!(pc_reg, 19);
    assert_eq!(cycles, 7);
    assert_eq!(status, 0);
}
