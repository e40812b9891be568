use nes_emu::memory::RAM;
use nes_emu::misc_instructions::{
    bittest_absolute,
    bittest_zero_page,
    break_force_interrupt,
    pull_acc_from_stack,
    pull_status_from_stack,
    push_acc_on_stack,
    transfer_source_to_dest,
    transfer_x_to_stack_pointer,
    NOP,
};

#[test]
fn test_misc() {
    let mut pc_reg = 0;
    let mut accumulator = 7;
    let mut status: u8 = 0;
    let mut test_memory: RAM = RAM::new();
    let mut cycles = 0;
    let mut stack = 0;

    // init mem
    for i in 0..2048u16 {
        test_memory.write_mem_value(i, i as u8);
    }

    bittest_zero_page(&mut pc_reg, accumulator, 7, &mut test_memory, &mut status, &mut cycles);
    assert_eq!(pc_reg, 2);
    assert_eq!(accumulator, 7);
    assert_eq!(status, 0);

    accumulator = 192;
    bittest_zero_page(&mut pc_reg, accumulator, 194, &mut test_memory, &mut status, &mut cycles);
    assert_eq!(pc_reg, 4);
    assert_eq!(accumulator, 192);
    assert_eq!(status, 96);

    bittest_zero_page(&mut pc_reg, accumulator, 1, &mut test_memory, &mut status, &mut cycles);
    assert_eq!(pc_reg, 6);
    assert_eq!(accumulator, 192);
    assert_eq!(status, 2);

    bittest_absolute(&mut pc_reg, accumulator, 290, &mut test_memory, &mut status, &mut cycles);
    assert_eq!(pc_reg, 9);
    assert_eq!(accumulator, 192);
    assert_eq!(status, 2);

    NOP(&mut pc_reg, &mut cycles);
    assert_eq!(pc_reg, 10);

    break_force_interrupt(&mut pc_reg, &mut status, &mut stack, &mut test_memory, &mut cycles);
    assert_eq!(stack, 3);
    assert_eq!(status, 18);

    status = 0;
    pc_reg = 0;
    push_acc_on_stack(&mut pc_reg, 128, &mut stack, &mut test_memory, &mut cycles);
    assert_eq!(stack, 4);
    assert_eq!(pc_reg, 1);

    pull_acc_from_stack(&mut pc_reg, &mut accumulator, &mut status, &mut stack, &mut test_memory, &mut cycles);
    assert_eq!(stack, 3);
    assert_eq!(accumulator, 128);

    push_acc_on_stack(&mut pc_reg, 0, &mut stack, &mut test_memory, &mut cycles);
    pull_acc_from_stack(&mut pc_reg, &mut accumulator, &mut status, &mut stack, &mut test_memory, &mut cycles);
    assert_eq!(status, 2);

    transfer_x_to_stack_pointer(&mut pc_reg, 244, &mut stack, &mut cycles);
    assert_eq!(stack, 244);
}

#[test]
fn break_jumps_through_the_vector_and_saves_state() {
    let mut test_memory: RAM = RAM::new();
    let mut prg = vec![0u8; 0x4000];
    prg[0x3FFE] = 0x34;
    prg[0x3FFF] = 0x12;
    test_memory.load_rom(&prg);
    let mut pc_reg: u16 = 0xC010;
    let mut status: u8 = 0x01;
    let mut stack: u8 = 0;
    let mut cycles = 0;
    break_force_interrupt(&mut pc_reg, &mut status, &mut stack, &mut test_memory, &mut cycles);
    assert_eq!(pc_reg, 0x1234);
    assert_eq!(status, 0x11);
    assert_eq!(cycles, 7);
    assert_eq!(test_memory.read_mem_address(0x0100), 0xC011);
    assert_eq!(test_memory.read_mem_value(0x0102), 0x01);
}

#[test]
fn pulls_and_transfers_set_flags_from_bit_seven() {
    let mut test_memory: RAM = RAM::new();
    let mut pc_reg = 0;
    let mut cycles = 0;
    let mut stack: u8 = 0;
    let mut status: u8 = 0;
    push_acc_on_stack(&mut pc_reg, 0x8F, &mut stack, &mut test_memory, &mut cycles);
    pull_status_from_stack(&mut pc_reg, &mut status, &mut stack, &mut test_memory, &mut cycles);
    assert_eq!(status, 0x8F);
    assert_eq!(stack, 0);
    let mut dest = 0;
    status = 0;
    transfer_source_to_dest(&mut pc_reg, 0x80, &mut dest, &mut status, &mut cycles);
    assert_eq!(dest, 0x80);
    assert_eq!(status, 0x40);
    transfer_source_to_dest(&mut pc_reg, 0x08, &mut dest, &mut status, &mut cycles);
    assert_eq!(status, 0);
    assert_eq!(pc_reg, 4);
}
