use nes_emu::increment_decrement::{
    incdec_memory_absolute,
    incdec_memory_absolute_x,
    incdec_memory_zero_page,
    incdec_memory_zero_page_x,
    incdec_reg,
    Operation,
};
use nes_emu::flags;
use nes_emu::memory::RAM;

#[test]
fn test_inc_dec() {
    let mut test_memory: RAM = RAM::new();
    let mut val = 0;
    let mut pc_reg: u16 = 0;
    let mut status = 0;
    let mut cycles = 0;

    // init mem
    for i in 0..2048u16 {
        test_memory.write_mem_value(i, i as u8);
    }

    incdec_reg(&mut pc_reg, &mut val, &mut status, &mut cycles, Operation::Inc);
    assert_eq!(pc_reg, 1);
    assert_eq!(cycles, 2);
    assert_eq!(val, 1);
    assert_eq!(status, 0);

    incdec_reg(&mut pc_reg, &mut val, &mut status, &mut cycles, Operation::Dec);
    assert_eq!(pc_reg, 2);
    assert_eq!(cycles, 2);
    assert_eq!(val, 0);
    assert_eq!(status, 2);

    incdec_memory_zero_page(&mut pc_reg, 230, &mut status, &mut test_memory, &mut cycles, Operation::Dec);
    assert_eq!(pc_reg, 4);
    assert_eq!(cycles, 5);
    let test_val = test_memory.read_mem_value(230);
    status = 0;
    assert_eq!(test_val, 229);
    assert_eq!(status, 0);

    incdec_memory_absolute(&mut pc_reg, 383, &mut status, &mut test_memory, &mut cycles, Operation::Inc);
    assert_eq!(pc_reg, 7);
    assert_eq!(cycles, 6);
    let test_val = test_memory.read_mem_value(383);
    assert_eq!(test_val, 128);
    assert_eq!(status, 0x40);

    incdec_memory_absolute_x(&mut pc_reg, 383, 12, &mut status, &mut test_memory, &mut cycles, Operation::Dec);
    assert_eq!(pc_reg, 10);
    assert_eq!(cycles, 7);
    let test_val = test_memory.read_mem_value(395);
    assert_eq!(test_val, 138);
    assert_eq!(status, 0x40);
}

#[test]
fn inc_dec_wrap_and_leave_carry() {
    let mut test_memory: RAM = RAM::new();
    let mut pc_reg: u16 = 0;
    let mut status = flags::CARRY_BIT | flags::OVERFLOW_BIT;
    let mut cycles = 0;
    test_memory.write_mem_value(0x12, 0xFF);
    incdec_memory_zero_page_x(&mut pc_reg, 0x10, 2, &mut status, &mut test_memory, &mut cycles, Operation::Inc);
    assert_eq!(test_memory.read_mem_value(0x12), 0);
    assert_eq!(status, flags::CARRY_BIT | flags::OVERFLOW_BIT | flags::ZERO_BIT);
    assert_eq!(cycles, 6);
    let mut reg = 0;
    incdec_reg(&mut pc_reg, &mut reg, &mut status, &mut cycles, Operation::Dec);
    assert_eq!(reg, 255);
    assert_eq!(status, flags::CARRY_BIT | flags::OVERFLOW_BIT | flags::NEGATIVE_BIT);
}
