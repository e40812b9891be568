use nes_emu::memory::RAM;
use nes_emu::nes_6502::{decode, Fault, Instr, Mode, Nes6502};

fn ram_with_program(at: usize, code: &[u8]) -> RAM {
    let mut prg = vec![0u8; 0x4000];
    for (i, b) in code.iter().enumerate() {
        prg[at + i] = *b;
    }
    let mut ram = RAM::new();
    ram.load_rom(&prg);
    ram
}

fn run_until_fault(cpu: &mut Nes6502, ram: &mut RAM) -> Fault {
    for _ in 0..1000 {
        if let Err(f) = cpu.run(ram) {
            return f;
        }
    }
    panic!("no fault within the tick budget");
}

#[test]
fn runs_a_small_program() {
    let mut prg = vec![0u8; 0x4000];
    let main = [
        0xA9, 0x05, // LDA #$05
        0x69, 0x03, // ADC #$03
        0x85, 0x10, // STA $10
        0xA2, 0x02, // LDX #$02
        0x20, 0x00, 0xC1, // JSR $C100
        0xE8, // INX
        0x02, // no such opcode
    ];
    for (i, b) in main.iter().enumerate() {
        prg[i] = *b;
    }
    prg[0x100] = 0xE8; // INX
    prg[0x101] = 0x60; // RTS
    let mut ram = RAM::new();
    ram.load_rom(&prg);
    let mut cpu = Nes6502::new();
    let fault = run_until_fault(&mut cpu, &mut ram);
    assert_eq!(fault, Fault::UnimplementedOpcode(0x02));
    assert_eq!(cpu.accumulator, 8);
    assert_eq!(cpu.x, 4);
    assert_eq!(cpu.stack_pointer, 0);
    assert_eq!(cpu.pc_counter, 0xC00C);
    assert_eq!(ram.read_mem_value(0x10), 8);
}

#[test]
fn latency_is_waited_out_one_tick_at_a_time() {
    let mut ram = ram_with_program(0, &[0xA9, 0x00, 0xEA]);
    let mut cpu = Nes6502::new();
    assert_eq!(cpu.run(&mut ram), Ok(()));
    assert_eq!(cpu.pc_counter, 0xC002);
    assert_eq!(cpu.cycles_until_next, 2);
    assert_eq!(cpu.status_flags & 0x02, 0x02);
    assert_eq!(cpu.run(&mut ram), Ok(()));
    assert_eq!(cpu.cycles_until_next, 1);
    assert_eq!(cpu.pc_counter, 0xC002);
    assert_eq!(cpu.run(&mut ram), Ok(()));
    assert_eq!(cpu.cycles_until_next, 0);
    assert_eq!(cpu.total_cycles, 9);
    assert_eq!(cpu.run(&mut ram), Ok(()));
    assert_eq!(cpu.pc_counter, 0xC003);
}

#[test]
fn faults_are_reported() {
    let mut ram = ram_with_program(0, &[0x48, 0x68, 0x68]);
    let mut cpu = Nes6502::new();
    cpu.pc_counter = 0x5000;
    assert_eq!(cpu.run(&mut ram), Err(Fault::UnmappedAddress(0x5000)));

    let mut cpu = Nes6502::new();
    cpu.stack_pointer = 255;
    assert_eq!(cpu.run(&mut ram), Err(Fault::StackOverflow));

    let mut cpu = Nes6502::new();
    assert_eq!(run_until_fault(&mut cpu, &mut ram), Fault::StackUnderflow);
    assert_eq!(cpu.pc_counter, 0xC002);

    // LDA $6000 reads an unmapped address
    let mut ram = ram_with_program(0, &[0xAD, 0x00, 0x60]);
    let mut cpu = Nes6502::new();
    assert_eq!(cpu.run(&mut ram), Err(Fault::UnmappedAddress(0x6000)));
}

#[test]
fn decode_covers_official_and_unofficial_opcodes() {
    assert_eq!(decode(0x69), Some((Instr::Adc, Mode::Immediate)));
    assert_eq!(decode(0x6C), Some((Instr::Jmp, Mode::Indirect)));
    assert_eq!(decode(0xB6), Some((Instr::Ldx, Mode::ZeroPageY)));
    assert_eq!(decode(0x1C), Some((Instr::Nop, Mode::Absolute)));
    assert_eq!(decode(0x80), Some((Instr::Nop, Mode::Immediate)));
    assert_eq!(decode(0x02), None);
    assert_eq!(decode(0xFF), None);
}

#[test]
fn unofficial_nops_skip_their_operands() {
    let mut ram = ram_with_program(0, &[0x04, 0x99, 0x0C, 0x11, 0x22, 0x1A]);
    let mut cpu = Nes6502::new();
    assert_eq!(cpu.run(&mut ram), Ok(()));
    assert_eq!(cpu.pc_counter, 0xC002);
    assert_eq!(cpu.cycles_until_next, 4);
    cpu.cycles_until_next = 0;
    assert_eq!(cpu.run(&mut ram), Ok(()));
    assert_eq!(cpu.pc_counter, 0xC005);
    assert_eq!(cpu.cycles_until_next, 5);
    cpu.cycles_until_next = 0;
    assert_eq!(cpu.run(&mut ram), Ok(()));
    assert_eq!(cpu.pc_counter, 0xC006);
    assert_eq!(cpu.cycles_until_next, 2);
}

#[test]
fn branches_compares_and_transfers_through_the_dispatcher() {
    let code = [
        0xA0, 0x03, // LDY #$03
        0x88, // DEY
        0xC0, 0x00, // CPY #$00
        0xD0, 0xFB, // BNE back to DEY
        0x98, // TYA
        0x38, // SEC
        0xE9, 0x01, // SBC #$01 -> 0xFF
        0xAA, // TAX
        0x9A, // TXS
        0x02,
    ];
    let mut ram = ram_with_program(0, &code);
    let mut cpu = Nes6502::new();
    assert_eq!(run_until_fault(&mut cpu, &mut ram), Fault::UnimplementedOpcode(0x02));
    assert_eq!(cpu.y, 0);
    assert_eq!(cpu.accumulator, 0xFF);
    assert_eq!(cpu.x, 0xFF);
    assert_eq!(cpu.stack_pointer, 0xFF);
    assert_eq!(cpu.status_flags & 0x40, 0x40);
    assert_eq!(cpu.status_flags & 0x01, 0);
}

#[test]
fn memory_instructions_through_the_dispatcher() {
    let code = [
        0xA9, 0x81, // LDA #$81
        0x85, 0x20, // STA $20
        0x06, 0x20, // ASL $20 -> 0x02, Carry
        0x26, 0x20, // ROL $20 -> 0x05
        0xE6, 0x20, // INC $20 -> 0x06
        0x46, 0x20, // LSR $20 -> 0x03
        0x24, 0x20, // BIT $20
        0x48, // PHA
        0xA9, 0x00, // LDA #$00
        0x68, // PLA
        0x08, // PHP
        0x28, // PLP
        0x6C, 0xFF, 0x02, // JMP ($02FF)
    ];
    let mut ram = ram_with_program(0, &code);
    ram.write_mem_value(0x02FF, 0x00);
    ram.write_mem_value(0x0200, 0xC1);
    let mut cpu = Nes6502::new();
    let mut steps = 0;
    while cpu.pc_counter != 0xC100 && steps < 1000 {
        assert_eq!(cpu.run(&mut ram), Ok(()));
        steps += 1;
    }
    assert_eq!(cpu.pc_counter, 0xC100);
    assert_eq!(ram.read_mem_value(0x20), 0x03);
    assert_eq!(cpu.accumulator, 0x81);
    assert_eq!(cpu.stack_pointer, 0);
    // BIT cleared Overflow; pulling 0x81 cleared Zero and set Negative
    assert_eq!(cpu.status_flags & 0x62, 0x40);
}

#[test]
fn break_and_return_from_interrupt_through_the_dispatcher() {
    let mut prg = vec![0u8; 0x4000];
    prg[0] = 0x00; // BRK at $C000
    prg[0x0200] = 0x40; // RTI at $C200
    prg[0x3FFE] = 0x00;
    prg[0x3FFF] = 0xC2;
    let mut ram = RAM::new();
    ram.load_rom(&prg);
    let mut cpu = Nes6502::new();
    assert_eq!(cpu.run(&mut ram), Ok(()));
    assert_eq!(cpu.pc_counter, 0xC200);
    assert_eq!(cpu.stack_pointer, 3);
    assert_eq!(cpu.status_flags, 0x34);
    cpu.cycles_until_next = 0;
    assert_eq!(cpu.run(&mut ram), Ok(()));
    assert_eq!(cpu.pc_counter, 0xC001);
    assert_eq!(cpu.stack_pointer, 0);
    assert_eq!(cpu.status_flags, 0x24);
}
