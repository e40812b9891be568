use nes_emu::memory::RAM;
use nes_emu::rol::{rol_absolute, rol_absolute_x, rol_accumulator, rol_zero_page, rol_zero_page_x};

#[test]
fn rol_tests() {
    let operand = 7;
    let mut pc_reg = 0;
    let mut accumulator = 128;
    let mut status: u8 = 0;
    let mut test_memory: RAM = RAM::new();
    let mut cycles = 0;

    for i in 0..2048u16 {
        test_memory.write_mem_value(i, i as u8);
    }

    rol_accumulator(&mut pc_reg, &mut accumulator, &mut status, &mut cycles);

    assert_eq!(accumulator, 0);
    assert_eq!(pc_reg, 1);
    assert_eq!(cycles, 2);
    // Carry from bit 7, and Zero from the zero result
    assert_eq!(status, 3);

    rol_accumulator(&mut pc_reg, &mut accumulator, &mut status, &mut cycles);

    assert_eq!(accumulator, 1);
    assert_eq!(pc_reg, 2);
    assert_eq!(cycles, 2);
    assert_eq!(status, 0);

    rol_zero_page(&mut pc_reg, operand, &mut status, &mut test_memory, &mut cycles);

    assert_eq!(test_memory.read_mem_value(operand as u16), 14);
    assert_eq!(pc_reg, 4);
    assert_eq!(cycles, 5);
    assert_eq!(status, 0);

    rol_zero_page(&mut pc_reg, 128, &mut status, &mut test_memory, &mut cycles);

    assert_eq!(test_memory.read_mem_value(128), 0);
    assert_eq!(pc_reg, 6);
    assert_eq!(cycles, 5);
    // Carry from bit 7, and Zero from the zero result
    assert_eq!(status, 3);

    rol_zero_page_x(&mut pc_reg, 3, 254, &mut status, &mut test_memory, &mut cycles);

    assert_eq!(test_memory.read_mem_value(1), 3);
    assert_eq!(pc_reg, 8);
    assert_eq!(cycles, 6);
    assert_eq!(status, 0);

    rol_zero_page_x(&mut pc_reg, 3, 251, &mut status, &mut test_memory, &mut cycles);

    assert_eq!(test_memory.read_mem_value(254), 252);
    assert_eq!(pc_reg, 10);
    assert_eq!(cycles, 6);
    assert_eq!(status, 65);

    rol_absolute(&mut pc_reg, 264, &mut status, &mut test_memory, &mut cycles);

    assert_eq!(test_memory.read_mem_value(264), 17);
    assert_eq!(pc_reg, 13);
    assert_eq!(cycles, 6);
    // 17 has bit 7 clear and nothing was shifted out
    assert_eq!(status, 0);

    status = 0;

    rol_absolute_x(&mut pc_reg, 13, 264, &mut status, &mut test_memory, &mut cycles);

    assert_eq!(test_memory.read_mem_value(277), 42);
    assert_eq!(pc_reg, 16);
    assert_eq!(cycles, 7);
    assert_eq!(status, 0);
}
