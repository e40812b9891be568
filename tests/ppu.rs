use nes_emu::mem_map::{PPUADDR, PPUCTRL, PPUDATA, PPUMASK, PPUSTATUS};
use nes_emu::memory::RAM;
use nes_emu::ppu::PPU;

#[test]
fn ppu_tests() {
    let mut test_memory: RAM = RAM::new();
    let mut ppu: PPU = PPU::default();

    // let's test ppu address writes...
    test_memory.write_mem_value(PPUADDR as u16, 0x01);
    ppu.run(&mut test_memory);
    test_memory.write_mem_value(PPUADDR as u16, 0x02);
    ppu.run(&mut test_memory);

    test_memory.write_mem_value(PPUDATA as u16, 255);
    ppu.run(&mut test_memory);
    let test_val = test_memory.read_vram_value(0x0102);
    ppu.run(&mut test_memory);
    assert_eq!(test_val, 255);

    test_memory.write_mem_value(PPUDATA as u16, 255);
    ppu.run(&mut test_memory);
    let test_val = test_memory.read_vram_value(0x0103);
    ppu.run(&mut test_memory);
    assert_eq!(test_val, 255);

    // test the y increment mode
    let status = 0b00000100;
    test_memory.write_mem_value(PPUCTRL as u16, status);
    ppu.run(&mut test_memory);

    test_memory.write_mem_value(PPUDATA as u16, 255);
    ppu.run(&mut test_memory);
    let test_val = test_memory.read_vram_value(0x0104);
    ppu.run(&mut test_memory);
    assert_eq!(test_val, 255);
    test_memory.write_mem_value(PPUDATA as u16, 255);
    ppu.run(&mut test_memory);
    let test_val = test_memory.read_vram_value(0x0124);

    assert_eq!(test_val, 255);
}

#[test]
fn ppu_control_mask_and_status_reads() {
    let mut test_memory: RAM = RAM::new();
    let mut ppu: PPU = PPU::new();
    test_memory.write_mem_value(PPUCTRL as u16, 0b1001_1011);
    test_memory.write_mem_value(PPUMASK as u16, 0b0001_1000);
    ppu.run(&mut test_memory);
    assert_eq!(ppu.ppuctrl.nametable_address, 0x2C00);
    assert_eq!(ppu.ppuctrl.vram_address_increment, 1);
    assert_eq!(ppu.ppuctrl.sprite_pattern_table_addr, 0x1000);
    assert_eq!(ppu.ppuctrl.bg_pattern_table_addr, 0x1000);
    assert_eq!(ppu.ppuctrl.gen_nmi, 1);
    assert_eq!(ppu.ppumask.show_bg, 1);
    assert_eq!(ppu.ppumask.show_spr, 1);
    assert_eq!(ppu.ppumask.grey_scale, 0);

    // a half-written address is abandoned by a status read
    test_memory.write_mem_value(PPUADDR as u16, 0x21);
    ppu.run(&mut test_memory);
    assert_eq!(ppu.ppuaddr.write_byte, 1);
    let _ = test_memory.read_mem_value(PPUSTATUS as u16);
    ppu.run(&mut test_memory);
    assert_eq!(ppu.ppuaddr.write_byte, 0);

    // reading the data register fetches the byte at the video address
    test_memory.write_vram_value(0x2105, 0x5A);
    test_memory.write_mem_value(PPUADDR as u16, 0x21);
    ppu.run(&mut test_memory);
    test_memory.write_mem_value(PPUADDR as u16, 0x05);
    ppu.run(&mut test_memory);
    let _ = test_memory.read_mem_value(PPUDATA as u16);
    ppu.run(&mut test_memory);
    assert_eq!(test_memory.peek_mem_value(PPUDATA as u16), 0x5A);
    assert_eq!(ppu.ppuaddr.address, 0x2106);
}
