use nes_emu::load_store::{
    absolute_load,
    indirect_x_load,
    indirect_y_load,
    load_zero_page,
    load_zero_page_reg,
    set_flags,
    store_absolute,
    store_indirect_x,
    store_indirect_y,
    store_zero_page,
};
use nes_emu::flags;
use nes_emu::memory::RAM;

#[test]
fn load_store_tests() {
    let mut pc_reg = 0;
    let mut status: u8 = 0;
    let mut test_memory: RAM = RAM::new();
    let mut cycles = 0;

    // init mem
    for i in 0..512u16 {
        test_memory.write_mem_value(i * 2, 0 as u8);
        test_memory.write_mem_value(i * 2 + 1, i as u8);
    }

    for i in 512..1024u16 {
        test_memory.write_mem_value(i, i as u8);
    }

    let accumulator = load_zero_page(&mut pc_reg, 5, &mut test_memory, &mut status, &mut cycles);
    assert_eq!(accumulator, 2);
}

#[test]
fn loads_set_zero_and_negative_stores_touch_no_flag() {
    let mut test_memory: RAM = RAM::new();
    let mut pc_reg = 0;
    let mut status: u8 = flags::CARRY_BIT;
    let mut cycles = 0;

    store_zero_page(&mut pc_reg, 0x90, 0xF0, 0x20, &mut test_memory, &mut cycles);
    assert_eq!(test_memory.read_mem_value(0x10), 0x90);
    assert_eq!(pc_reg, 2);
    assert_eq!(status, flags::CARRY_BIT);

    let v = load_zero_page_reg(&mut pc_reg, 0x0F, 1, &mut test_memory, &mut status, &mut cycles);
    assert_eq!(v, 0x90);
    assert_eq!(status, flags::CARRY_BIT | flags::NEGATIVE_BIT);
    assert_eq!(cycles, 4);

    store_absolute(&mut pc_reg, 0, 0x0400, 5, &mut test_memory, &mut cycles);
    let v = absolute_load(&mut pc_reg, 0x0405, 0, &mut test_memory, &mut status, &mut cycles);
    assert_eq!(v, 0);
    assert_eq!(status, flags::CARRY_BIT | flags::ZERO_BIT);
    assert_eq!(cycles, 4);
    let _ = absolute_load(&mut pc_reg, 0x0400, 5, &mut test_memory, &mut status, &mut cycles);
    assert_eq!(cycles, 5);

    test_memory.write_mem_address(0x40, 0x0500);
    store_indirect_x(&mut pc_reg, 0x33, 0x3E, 2, &mut test_memory, &mut cycles);
    assert_eq!(test_memory.read_mem_value(0x0500), 0x33);
    store_indirect_y(&mut pc_reg, 0x44, 0x40, 3, &mut test_memory, &mut cycles);
    assert_eq!(test_memory.read_mem_value(0x0503), 0x44);
    let v = indirect_x_load(&mut pc_reg, 0x40, 0, &mut test_memory, &mut status, &mut cycles);
    assert_eq!(v, 0x33);
    let v = indirect_y_load(&mut pc_reg, 0x40, 3, &mut test_memory, &mut status, &mut cycles);
    assert_eq!(v, 0x44);
    assert_eq!(status, flags::CARRY_BIT);

    set_flags(0, &mut status);
    assert_eq!(status, flags::CARRY_BIT | flags::ZERO_BIT);
}
