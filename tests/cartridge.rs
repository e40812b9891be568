use nes_emu::cartridge::{parse_header, program_data, RomHeader};

fn image(prg_blocks: u8, chr_blocks: u8, flags6: u8, body: usize) -> Vec<u8> {
    let mut rom = vec![0x4E, 0x45, 0x53, 0x1A, prg_blocks, chr_blocks, flags6, 0, 0, 0, 0, 0, 0, 0, 0, 0];
    for i in 0..body {
        rom.push((i % 251) as u8);
    }
    rom
}

#[test]
fn header_counts_and_trainer_flag() {
    let rom = image(2, 1, 0b0000_1000, 0);
    assert_eq!(
        parse_header(&rom),
        Some(RomHeader { prg_blocks: 2, chr_blocks: 1, has_trainer: true })
    );
    assert_eq!(parse_header(&rom[..15]), None);
}

#[test]
fn program_bytes_follow_header_and_trainer() {
    let rom = image(1, 1, 0, 0x4000 + 0x2000);
    let prg = program_data(&rom).unwrap();
    assert_eq!(prg.len(), 0x4000);
    assert_eq!(prg[0], 0);
    assert_eq!(prg[300], (300 % 251) as u8);

    let rom = image(1, 0, 0b0000_1000, 512 + 0x4000);
    let prg = program_data(&rom).unwrap();
    assert_eq!(prg[0], (512 % 251) as u8);

    // too short for the declared program, or too large for the banks
    assert_eq!(program_data(&image(1, 0, 0, 100)), None);
    assert_eq!(program_data(&image(3, 0, 0, 3 * 0x4000)), None);
}
