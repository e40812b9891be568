use nes_emu::jumps::{jump_absolute, jump_indirect, jump_subroutine, return_from_interrupt, return_from_subroutine};
use nes_emu::mem_map;
use nes_emu::memory::RAM;

#[test]
fn test_jumps() {
    let mut pc_reg = 0;
    let mut test_memory: RAM = RAM::new();
    let mut cycles = 0;
    let mut stack_ptr = 0;

    // init mem
    for i in 0..2048u16 {
        test_memory.write_mem_value(i, i as u8);
    }

    jump_absolute(&mut pc_reg, 0xFFF, &mut cycles);
    assert_eq!(pc_reg, 0xFFF);

    let indirect_addr = test_memory.read_mem_address(0x07);
    jump_indirect(&mut pc_reg, 0x07, &mut test_memory, &mut cycles);
    assert_eq!(pc_reg, indirect_addr);
    assert_eq!(pc_reg, 0x0807);

    pc_reg = 256;
    jump_subroutine(&mut pc_reg, 0x0100, &mut stack_ptr, &mut test_memory, &mut cycles);
    assert_eq!(pc_reg, 0x0100);
    assert_eq!(stack_ptr, 2);

    // the return address is the call's last byte: 256 + 2
    let stack_addr = test_memory.read_mem_address(mem_map::STACK_START as u16);
    assert_eq!(stack_addr, 258);

    return_from_subroutine(&mut pc_reg, &mut stack_ptr, &mut test_memory, &mut cycles);
    assert_eq!(stack_ptr, 0);
    assert_eq!(pc_reg, 259);
}

#[test]
fn jump_indirect_wraps_inside_the_page() {
    let mut test_memory: RAM = RAM::new();
    let mut pc_reg = 0;
    let mut cycles = 0;
    test_memory.write_mem_value(0x02FF, 0x34);
    test_memory.write_mem_value(0x0300, 0x99);
    test_memory.write_mem_value(0x0200, 0x12);
    jump_indirect(&mut pc_reg, 0x02FF, &mut test_memory, &mut cycles);
    assert_eq!(pc_reg, 0x1234);
    assert_eq!(cycles, 5);
    // away from a page end the high byte comes from the next address
    test_memory.write_mem_value(0x0301, 0x56);
    jump_indirect(&mut pc_reg, 0x0300, &mut test_memory, &mut cycles);
    assert_eq!(pc_reg, 0x5699);
}

#[test]
fn return_from_interrupt_forces_bit_five() {
    let mut test_memory: RAM = RAM::new();
    let mut stack_ptr = 0;
    test_memory.push_address_on_stack(&mut stack_ptr, 0xC123);
    test_memory.push_value_on_stack(&mut stack_ptr, 0b1000_0001);
    let mut pc_reg = 0;
    let mut status = 0;
    let mut cycles = 0;
    return_from_interrupt(&mut pc_reg, &mut stack_ptr, &mut status, &mut test_memory, &mut cycles);
    assert_eq!(status, 0b1010_0001);
    assert_eq!(pc_reg, 0xC123);
    assert_eq!(stack_ptr, 0);
    assert_eq!(cycles, 6);
}
