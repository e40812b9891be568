//! The execution engine: the register file, a cycle countdown, and the
//! decode-and-dispatch step that runs one instruction when the countdown is
//! zero.
use vstd::prelude::*;
use crate::adc;
use crate::addressing::{
    absolute_reg_addr,
    indexed_indirect_addr,
    indexed_indirect_target,
    indirect_indexed_addr,
    indirect_indexed_target,
};
use crate::and;
use crate::asl;
use crate::branch;
use crate::compare;
use crate::flags;
use crate::increment_decrement::{self, Operation as Step};
use crate::jumps::{self, indirect_high_addr};
use crate::load_store;
use crate::lsr;
use crate::misc_instructions;
use crate::memory::{advance, is_mapped, MemView, RAM};
use crate::or;
use crate::rol;
use crate::ror;
use crate::sbc;
use crate::step::{
    execute_spec,
    fetch_fault,
    fetch_step,
    instr_fault,
    is_branch_instr,
    is_register_instr,
    operand_byte,
    operand_word,
    register_step,
    result_of,
    step_fault,
    target_fault,
};

verus! {

/// Why execution cannot go on. Every fault is fatal to the emulated session.
#[derive(Clone, Copy, Debug, PartialEq, Eq, Structural)]
pub enum Fault {
    /// An access to an address that nothing in the memory map answers.
    UnmappedAddress(u16),
    /// A push with no room left on the stack page.
    StackOverflow,
    /// A pull from an empty stack.
    StackUnderflow,
    /// An opcode with no handler.
    UnimplementedOpcode(u8),
}

/// How an instruction finds its operand.
#[derive(Clone, Copy, Debug, PartialEq, Eq, Structural)]
pub enum Mode {
    Implied,
    Accumulator,
    Immediate,
    ZeroPage,
    ZeroPageX,
    ZeroPageY,
    Absolute,
    AbsoluteX,
    AbsoluteY,
    IndexedIndirect,
    IndirectIndexed,
    Indirect,
    Relative,
}

/// The operation an opcode selects.
#[derive(Clone, Copy, Debug, PartialEq, Eq, Structural)]
pub enum Instr {
    Adc, And, Asl, Bcc, Bcs, Beq, Bit, Bmi, Bne, Bpl, Brk, Bvc, Bvs, Clc, Cld, Cli, Clv, Cmp, Cpx,
    Cpy, Dec, Dex, Dey, Eor, Inc, Inx, Iny, Jmp, Jsr, Lda, Ldx, Ldy, Lsr, Nop, Ora, Pha, Php, Pla,
    Plp, Rol, Ror, Rti, Rts, Sbc, Sec, Sed, Sei, Sta, Stx, Sty, Tax, Tay, Tsx, Txa, Txs, Tya,
}

/// The opcode map: which operation and addressing mode each assigned opcode
/// byte selects, including the unofficial no-op variants.
pub open spec fn opcode_table(opcode: u8) -> Option<(Instr, Mode)> {
    match opcode {
        0x00 => Some((Instr::Brk, Mode::Implied)),
        0x01 => Some((Instr::Ora, Mode::IndexedIndirect)),
        0x04 => Some((Instr::Nop, Mode::Immediate)),
        0x05 => Some((Instr::Ora, Mode::ZeroPage)),
        0x06 => Some((Instr::Asl, Mode::ZeroPage)),
        0x08 => Some((Instr::Php, Mode::Implied)),
        0x09 => Some((Instr::Ora, Mode::Immediate)),
        0x0A => Some((Instr::Asl, Mode::Accumulator)),
        0x0C => Some((Instr::Nop, Mode::Absolute)),
        0x0D => Some((Instr::Ora, Mode::Absolute)),
        0x0E => Some((Instr::Asl, Mode::Absolute)),
        0x10 => Some((Instr::Bpl, Mode::Relative)),
        0x11 => Some((Instr::Ora, Mode::IndirectIndexed)),
        0x14 => Some((Instr::Nop, Mode::Immediate)),
        0x15 => Some((Instr::Ora, Mode::ZeroPageX)),
        0x16 => Some((Instr::Asl, Mode::ZeroPageX)),
        0x18 => Some((Instr::Clc, Mode::Implied)),
        0x19 => Some((Instr::Ora, Mode::AbsoluteY)),
        0x1A => Some((Instr::Nop, Mode::Implied)),
        0x1C => Some((Instr::Nop, Mode::Absolute)),
        0x1D => Some((Instr::Ora, Mode::AbsoluteX)),
        0x1E => Some((Instr::Asl, Mode::AbsoluteX)),
        0x20 => Some((Instr::Jsr, Mode::Absolute)),
        0x21 => Some((Instr::And, Mode::IndexedIndirect)),
        0x24 => Some((Instr::Bit, Mode::ZeroPage)),
        0x25 => Some((Instr::And, Mode::ZeroPage)),
        0x26 => Some((Instr::Rol, Mode::ZeroPage)),
        0x28 => Some((Instr::Plp, Mode::Implied)),
        0x29 => Some((Instr::And, Mode::Immediate)),
        0x2A => Some((Instr::Rol, Mode::Accumulator)),
        0x2C => Some((Instr::Bit, Mode::Absolute)),
        0x2D => Some((Instr::And, Mode::Absolute)),
        0x2E => Some((Instr::Rol, Mode::Absolute)),
        0x30 => Some((Instr::Bmi, Mode::Relative)),
        0x31 => Some((Instr::And, Mode::IndirectIndexed)),
        0x34 => Some((Instr::Nop, Mode::Immediate)),
        0x35 => Some((Instr::And, Mode::ZeroPageX)),
        0x36 => Some((Instr::Rol, Mode::ZeroPageX)),
        0x38 => Some((Instr::Sec, Mode::Implied)),
        0x39 => Some((Instr::And, Mode::AbsoluteY)),
        0x3A => Some((Instr::Nop, Mode::Implied)),
        0x3C => Some((Instr::Nop, Mode::Absolute)),
        0x3D => Some((Instr::And, Mode::AbsoluteX)),
        0x3E => Some((Instr::Rol, Mode::AbsoluteX)),
        0x40 => Some((Instr::Rti, Mode::Implied)),
        0x41 => Some((Instr::Eor, Mode::IndexedIndirect)),
        0x44 => Some((Instr::Nop, Mode::Immediate)),
        0x45 => Some((Instr::Eor, Mode::ZeroPage)),
        0x46 => Some((Instr::Lsr, Mode::ZeroPage)),
        0x48 => Some((Instr::Pha, Mode::Implied)),
        0x49 => Some((Instr::Eor, Mode::Immediate)),
        0x4A => Some((Instr::Lsr, Mode::Accumulator)),
        0x4C => Some((Instr::Jmp, Mode::Absolute)),
        0x4D => Some((Instr::Eor, Mode::Absolute)),
        0x4E => Some((Instr::Lsr, Mode::Absolute)),
        0x50 => Some((Instr::Bvc, Mode::Relative)),
        0x51 => Some((Instr::Eor, Mode::IndirectIndexed)),
        0x54 => Some((Instr::Nop, Mode::Immediate)),
        0x55 => Some((Instr::Eor, Mode::ZeroPageX)),
        0x56 => Some((Instr::Lsr, Mode::ZeroPageX)),
        0x58 => Some((Instr::Cli, Mode::Implied)),
        0x59 => Some((Instr::Eor, Mode::AbsoluteY)),
        0x5A => Some((Instr::Nop, Mode::Implied)),
        0x5C => Some((Instr::Nop, Mode::Absolute)),
        0x5D => Some((Instr::Eor, Mode::AbsoluteX)),
        0x5E => Some((Instr::Lsr, Mode::AbsoluteX)),
        0x60 => Some((Instr::Rts, Mode::Implied)),
        0x61 => Some((Instr::Adc, Mode::IndexedIndirect)),
        0x64 => Some((Instr::Nop, Mode::Immediate)),
        0x65 => Some((Instr::Adc, Mode::ZeroPage)),
        0x66 => Some((Instr::Ror, Mode::ZeroPage)),
        0x68 => Some((Instr::Pla, Mode::Implied)),
        0x69 => Some((Instr::Adc, Mode::Immediate)),
        0x6A => Some((Instr::Ror, Mode::Accumulator)),
        0x6C => Some((Instr::Jmp, Mode::Indirect)),
        0x6D => Some((Instr::Adc, Mode::Absolute)),
        0x6E => Some((Instr::Ror, Mode::Absolute)),
        0x70 => Some((Instr::Bvs, Mode::Relative)),
        0x71 => Some((Instr::Adc, Mode::IndirectIndexed)),
        0x74 => Some((Instr::Nop, Mode::Immediate)),
        0x75 => Some((Instr::Adc, Mode::ZeroPageX)),
        0x76 => Some((Instr::Ror, Mode::ZeroPageX)),
        0x78 => Some((Instr::Sei, Mode::Implied)),
        0x79 => Some((Instr::Adc, Mode::AbsoluteY)),
        0x7A => Some((Instr::Nop, Mode::Implied)),
        0x7C => Some((Instr::Nop, Mode::Absolute)),
        0x7D => Some((Instr::Adc, Mode::AbsoluteX)),
        0x7E => Some((Instr::Ror, Mode::AbsoluteX)),
        0x80 => Some((Instr::Nop, Mode::Immediate)),
        0x81 => Some((Instr::Sta, Mode::IndexedIndirect)),
        0x84 => Some((Instr::Sty, Mode::ZeroPage)),
        0x85 => Some((Instr::Sta, Mode::ZeroPage)),
        0x86 => Some((Instr::Stx, Mode::ZeroPage)),
        0x88 => Some((Instr::Dey, Mode::Implied)),
        0x8A => Some((Instr::Txa, Mode::Implied)),
        0x8C => Some((Instr::Sty, Mode::Absolute)),
        0x8D => Some((Instr::Sta, Mode::Absolute)),
        0x8E => Some((Instr::Stx, Mode::Absolute)),
        0x90 => Some((Instr::Bcc, Mode::Relative)),
        0x91 => Some((Instr::Sta, Mode::IndirectIndexed)),
        0x94 => Some((Instr::Sty, Mode::ZeroPageX)),
        0x95 => Some((Instr::Sta, Mode::ZeroPageX)),
        0x96 => Some((Instr::Stx, Mode::ZeroPageY)),
        0x98 => Some((Instr::Tya, Mode::Implied)),
        0x99 => Some((Instr::Sta, Mode::AbsoluteY)),
        0x9A => Some((Instr::Txs, Mode::Implied)),
        0x9D => Some((Instr::Sta, Mode::AbsoluteX)),
        0xA0 => Some((Instr::Ldy, Mode::Immediate)),
        0xA1 => Some((Instr::Lda, Mode::IndexedIndirect)),
        0xA2 => Some((Instr::Ldx, Mode::Immediate)),
        0xA4 => Some((Instr::Ldy, Mode::ZeroPage)),
        0xA5 => Some((Instr::Lda, Mode::ZeroPage)),
        0xA6 => Some((Instr::Ldx, Mode::ZeroPage)),
        0xA8 => Some((Instr::Tay, Mode::Implied)),
        0xA9 => Some((Instr::Lda, Mode::Immediate)),
        0xAA => Some((Instr::Tax, Mode::Implied)),
        0xAC => Some((Instr::Ldy, Mode::Absolute)),
        0xAD => Some((Instr::Lda, Mode::Absolute)),
        0xAE => Some((Instr::Ldx, Mode::Absolute)),
        0xB0 => Some((Instr::Bcs, Mode::Relative)),
        0xB1 => Some((Instr::Lda, Mode::IndirectIndexed)),
        0xB4 => Some((Instr::Ldy, Mode::ZeroPageX)),
        0xB5 => Some((Instr::Lda, Mode::ZeroPageX)),
        0xB6 => Some((Instr::Ldx, Mode::ZeroPageY)),
        0xB8 => Some((Instr::Clv, Mode::Implied)),
        0xB9 => Some((Instr::Lda, Mode::AbsoluteY)),
        0xBA => Some((Instr::Tsx, Mode::Implied)),
        0xBC => Some((Instr::Ldy, Mode::AbsoluteX)),
        0xBD => Some((Instr::Lda, Mode::AbsoluteX)),
        0xBE => Some((Instr::Ldx, Mode::AbsoluteY)),
        0xC0 => Some((Instr::Cpy, Mode::Immediate)),
        0xC1 => Some((Instr::Cmp, Mode::IndexedIndirect)),
        0xC4 => Some((Instr::Cpy, Mode::ZeroPage)),
        0xC5 => Some((Instr::Cmp, Mode::ZeroPage)),
        0xC6 => Some((Instr::Dec, Mode::ZeroPage)),
        0xC8 => Some((Instr::Iny, Mode::Implied)),
        0xC9 => Some((Instr::Cmp, Mode::Immediate)),
        0xCA => Some((Instr::Dex, Mode::Implied)),
        0xCC => Some((Instr::Cpy, Mode::Absolute)),
        0xCD => Some((Instr::Cmp, Mode::Absolute)),
        0xCE => Some((Instr::Dec, Mode::Absolute)),
        0xD0 => Some((Instr::Bne, Mode::Relative)),
        0xD1 => Some((Instr::Cmp, Mode::IndirectIndexed)),
        0xD4 => Some((Instr::Nop, Mode::Immediate)),
        0xD5 => Some((Instr::Cmp, Mode::ZeroPageX)),
        0xD6 => Some((Instr::Dec, Mode::ZeroPageX)),
        0xD8 => Some((Instr::Cld, Mode::Implied)),
        0xD9 => Some((Instr::Cmp, Mode::AbsoluteY)),
        0xDA => Some((Instr::Nop, Mode::Implied)),
        0xDC => Some((Instr::Nop, Mode::Absolute)),
        0xDD => Some((Instr::Cmp, Mode::AbsoluteX)),
        0xDE => Some((Instr::Dec, Mode::AbsoluteX)),
        0xE0 => Some((Instr::Cpx, Mode::Immediate)),
        0xE1 => Some((Instr::Sbc, Mode::IndexedIndirect)),
        0xE4 => Some((Instr::Cpx, Mode::ZeroPage)),
        0xE5 => Some((Instr::Sbc, Mode::ZeroPage)),
        0xE6 => Some((Instr::Inc, Mode::ZeroPage)),
        0xE8 => Some((Instr::Inx, Mode::Implied)),
        0xE9 => Some((Instr::Sbc, Mode::Immediate)),
        0xEA => Some((Instr::Nop, Mode::Implied)),
        0xEC => Some((Instr::Cpx, Mode::Absolute)),
        0xED => Some((Instr::Sbc, Mode::Absolute)),
        0xEE => Some((Instr::Inc, Mode::Absolute)),
        0xF0 => Some((Instr::Beq, Mode::Relative)),
        0xF1 => Some((Instr::Sbc, Mode::IndirectIndexed)),
        0xF4 => Some((Instr::Nop, Mode::Immediate)),
        0xF5 => Some((Instr::Sbc, Mode::ZeroPageX)),
        0xF6 => Some((Instr::Inc, Mode::ZeroPageX)),
        0xF8 => Some((Instr::Sed, Mode::Implied)),
        0xF9 => Some((Instr::Sbc, Mode::AbsoluteY)),
        0xFA => Some((Instr::Nop, Mode::Implied)),
        0xFC => Some((Instr::Nop, Mode::Absolute)),
        0xFD => Some((Instr::Sbc, Mode::AbsoluteX)),
        0xFE => Some((Instr::Inc, Mode::AbsoluteX)),
        _ => None,
    }
}

/// The accumulator-style addressing modes.
pub open spec fn is_alu_mode(m: Mode) -> bool {
    m is Immediate || m is ZeroPage || m is ZeroPageX || m is Absolute || m is AbsoluteX
        || m is AbsoluteY || m is IndexedIndirect || m is IndirectIndexed
}

/// The read-modify-write addressing modes of the shifts and rotates.
pub open spec fn is_shift_mode(m: Mode) -> bool {
    m is Accumulator || m is ZeroPage || m is ZeroPageX || m is Absolute || m is AbsoluteX
}

/// The addressing modes that each operation is decoded with.
pub open spec fn valid_pair(i: Instr, m: Mode) -> bool {
    match i {
        Instr::Adc | Instr::And | Instr::Eor | Instr::Ora | Instr::Sbc | Instr::Cmp
        | Instr::Lda => is_alu_mode(m),
        Instr::Asl | Instr::Lsr | Instr::Rol | Instr::Ror => is_shift_mode(m),
        Instr::Bit => m is ZeroPage || m is Absolute,
        Instr::Cpx | Instr::Cpy => m is Immediate || m is ZeroPage || m is Absolute,
        Instr::Dec | Instr::Inc => m is ZeroPage || m is ZeroPageX || m is Absolute || m is AbsoluteX,
        Instr::Jmp => m is Absolute || m is Indirect,
        Instr::Jsr => m is Absolute,
        Instr::Ldx => m is Immediate || m is ZeroPage || m is ZeroPageY || m is Absolute || m is AbsoluteY,
        Instr::Ldy => m is Immediate || m is ZeroPage || m is ZeroPageX || m is Absolute || m is AbsoluteX,
        Instr::Sta => is_alu_mode(m) && !(m is Immediate),
        Instr::Stx => m is ZeroPage || m is ZeroPageY || m is Absolute,
        Instr::Sty => m is ZeroPage || m is ZeroPageX || m is Absolute,
        Instr::Nop => m is Implied || m is Immediate || m is Absolute,
        Instr::Bcc | Instr::Bcs | Instr::Beq | Instr::Bmi | Instr::Bne | Instr::Bpl | Instr::Bvc
        | Instr::Bvs => m is Relative,
        _ => m is Implied,
    }
}

/// Looks an opcode up in the opcode map.
pub fn decode(opcode: u8) -> (r: Option<(Instr, Mode)>)
    ensures
        r == opcode_table(opcode),
        r matches Some((i, m)) ==> valid_pair(i, m),
{
    match opcode {
        0x00 => Some((Instr::Brk, Mode::Implied)),
        0x01 => Some((Instr::Ora, Mode::IndexedIndirect)),
        0x04 => Some((Instr::Nop, Mode::Immediate)),
        0x05 => Some((Instr::Ora, Mode::ZeroPage)),
        0x06 => Some((Instr::Asl, Mode::ZeroPage)),
        0x08 => Some((Instr::Php, Mode::Implied)),
        0x09 => Some((Instr::Ora, Mode::Immediate)),
        0x0A => Some((Instr::Asl, Mode::Accumulator)),
        0x0C => Some((Instr::Nop, Mode::Absolute)),
        0x0D => Some((Instr::Ora, Mode::Absolute)),
        0x0E => Some((Instr::Asl, Mode::Absolute)),
        0x10 => Some((Instr::Bpl, Mode::Relative)),
        0x11 => Some((Instr::Ora, Mode::IndirectIndexed)),
        0x14 => Some((Instr::Nop, Mode::Immediate)),
        0x15 => Some((Instr::Ora, Mode::ZeroPageX)),
        0x16 => Some((Instr::Asl, Mode::ZeroPageX)),
        0x18 => Some((Instr::Clc, Mode::Implied)),
        0x19 => Some((Instr::Ora, Mode::AbsoluteY)),
        0x1A => Some((Instr::Nop, Mode::Implied)),
        0x1C => Some((Instr::Nop, Mode::Absolute)),
        0x1D => Some((Instr::Ora, Mode::AbsoluteX)),
        0x1E => Some((Instr::Asl, Mode::AbsoluteX)),
        0x20 => Some((Instr::Jsr, Mode::Absolute)),
        0x21 => Some((Instr::And, Mode::IndexedIndirect)),
        0x24 => Some((Instr::Bit, Mode::ZeroPage)),
        0x25 => Some((Instr::And, Mode::ZeroPage)),
        0x26 => Some((Instr::Rol, Mode::ZeroPage)),
        0x28 => Some((Instr::Plp, Mode::Implied)),
        0x29 => Some((Instr::And, Mode::Immediate)),
        0x2A => Some((Instr::Rol, Mode::Accumulator)),
        0x2C => Some((Instr::Bit, Mode::Absolute)),
        0x2D => Some((Instr::And, Mode::Absolute)),
        0x2E => Some((Instr::Rol, Mode::Absolute)),
        0x30 => Some((Instr::Bmi, Mode::Relative)),
        0x31 => Some((Instr::And, Mode::IndirectIndexed)),
        0x34 => Some((Instr::Nop, Mode::Immediate)),
        0x35 => Some((Instr::And, Mode::ZeroPageX)),
        0x36 => Some((Instr::Rol, Mode::ZeroPageX)),
        0x38 => Some((Instr::Sec, Mode::Implied)),
        0x39 => Some((Instr::And, Mode::AbsoluteY)),
        0x3A => Some((Instr::Nop, Mode::Implied)),
        0x3C => Some((Instr::Nop, Mode::Absolute)),
        0x3D => Some((Instr::And, Mode::AbsoluteX)),
        0x3E => Some((Instr::Rol, Mode::AbsoluteX)),
        0x40 => Some((Instr::Rti, Mode::Implied)),
        0x41 => Some((Instr::Eor, Mode::IndexedIndirect)),
        0x44 => Some((Instr::Nop, Mode::Immediate)),
        0x45 => Some((Instr::Eor, Mode::ZeroPage)),
        0x46 => Some((Instr::Lsr, Mode::ZeroPage)),
        0x48 => Some((Instr::Pha, Mode::Implied)),
        0x49 => Some((Instr::Eor, Mode::Immediate)),
        0x4A => Some((Instr::Lsr, Mode::Accumulator)),
        0x4C => Some((Instr::Jmp, Mode::Absolute)),
        0x4D => Some((Instr::Eor, Mode::Absolute)),
        0x4E => Some((Instr::Lsr, Mode::Absolute)),
        0x50 => Some((Instr::Bvc, Mode::Relative)),
        0x51 => Some((Instr::Eor, Mode::IndirectIndexed)),
        0x54 => Some((Instr::Nop, Mode::Immediate)),
        0x55 => Some((Instr::Eor, Mode::ZeroPageX)),
        0x56 => Some((Instr::Lsr, Mode::ZeroPageX)),
        0x58 => Some((Instr::Cli, Mode::Implied)),
        0x59 => Some((Instr::Eor, Mode::AbsoluteY)),
        0x5A => Some((Instr::Nop, Mode::Implied)),
        0x5C => Some((Instr::Nop, Mode::Absolute)),
        0x5D => Some((Instr::Eor, Mode::AbsoluteX)),
        0x5E => Some((Instr::Lsr, Mode::AbsoluteX)),
        0x60 => Some((Instr::Rts, Mode::Implied)),
        0x61 => Some((Instr::Adc, Mode::IndexedIndirect)),
        0x64 => Some((Instr::Nop, Mode::Immediate)),
        0x65 => Some((Instr::Adc, Mode::ZeroPage)),
        0x66 => Some((Instr::Ror, Mode::ZeroPage)),
        0x68 => Some((Instr::Pla, Mode::Implied)),
        0x69 => Some((Instr::Adc, Mode::Immediate)),
        0x6A => Some((Instr::Ror, Mode::Accumulator)),
        0x6C => Some((Instr::Jmp, Mode::Indirect)),
        0x6D => Some((Instr::Adc, Mode::Absolute)),
        0x6E => Some((Instr::Ror, Mode::Absolute)),
        0x70 => Some((Instr::Bvs, Mode::Relative)),
        0x71 => Some((Instr::Adc, Mode::IndirectIndexed)),
        0x74 => Some((Instr::Nop, Mode::Immediate)),
        0x75 => Some((Instr::Adc, Mode::ZeroPageX)),
        0x76 => Some((Instr::Ror, Mode::ZeroPageX)),
        0x78 => Some((Instr::Sei, Mode::Implied)),
        0x79 => Some((Instr::Adc, Mode::AbsoluteY)),
        0x7A => Some((Instr::Nop, Mode::Implied)),
        0x7C => Some((Instr::Nop, Mode::Absolute)),
        0x7D => Some((Instr::Adc, Mode::AbsoluteX)),
        0x7E => Some((Instr::Ror, Mode::AbsoluteX)),
        0x80 => Some((Instr::Nop, Mode::Immediate)),
        0x81 => Some((Instr::Sta, Mode::IndexedIndirect)),
        0x84 => Some((Instr::Sty, Mode::ZeroPage)),
        0x85 => Some((Instr::Sta, Mode::ZeroPage)),
        0x86 => Some((Instr::Stx, Mode::ZeroPage)),
        0x88 => Some((Instr::Dey, Mode::Implied)),
        0x8A => Some((Instr::Txa, Mode::Implied)),
        0x8C => Some((Instr::Sty, Mode::Absolute)),
        0x8D => Some((Instr::Sta, Mode::Absolute)),
        0x8E => Some((Instr::Stx, Mode::Absolute)),
        0x90 => Some((Instr::Bcc, Mode::Relative)),
        0x91 => Some((Instr::Sta, Mode::IndirectIndexed)),
        0x94 => Some((Instr::Sty, Mode::ZeroPageX)),
        0x95 => Some((Instr::Sta, Mode::ZeroPageX)),
        0x96 => Some((Instr::Stx, Mode::ZeroPageY)),
        0x98 => Some((Instr::Tya, Mode::Implied)),
        0x99 => Some((Instr::Sta, Mode::AbsoluteY)),
        0x9A => Some((Instr::Txs, Mode::Implied)),
        0x9D => Some((Instr::Sta, Mode::AbsoluteX)),
        0xA0 => Some((Instr::Ldy, Mode::Immediate)),
        0xA1 => Some((Instr::Lda, Mode::IndexedIndirect)),
        0xA2 => Some((Instr::Ldx, Mode::Immediate)),
        0xA4 => Some((Instr::Ldy, Mode::ZeroPage)),
        0xA5 => Some((Instr::Lda, Mode::ZeroPage)),
        0xA6 => Some((Instr::Ldx, Mode::ZeroPage)),
        0xA8 => Some((Instr::Tay, Mode::Implied)),
        0xA9 => Some((Instr::Lda, Mode::Immediate)),
        0xAA => Some((Instr::Tax, Mode::Implied)),
        0xAC => Some((Instr::Ldy, Mode::Absolute)),
        0xAD => Some((Instr::Lda, Mode::Absolute)),
        0xAE => Some((Instr::Ldx, Mode::Absolute)),
        0xB0 => Some((Instr::Bcs, Mode::Relative)),
        0xB1 => Some((Instr::Lda, Mode::IndirectIndexed)),
        0xB4 => Some((Instr::Ldy, Mode::ZeroPageX)),
        0xB5 => Some((Instr::Lda, Mode::ZeroPageX)),
        0xB6 => Some((Instr::Ldx, Mode::ZeroPageY)),
        0xB8 => Some((Instr::Clv, Mode::Implied)),
        0xB9 => Some((Instr::Lda, Mode::AbsoluteY)),
        0xBA => Some((Instr::Tsx, Mode::Implied)),
        0xBC => Some((Instr::Ldy, Mode::AbsoluteX)),
        0xBD => Some((Instr::Lda, Mode::AbsoluteX)),
        0xBE => Some((Instr::Ldx, Mode::AbsoluteY)),
        0xC0 => Some((Instr::Cpy, Mode::Immediate)),
        0xC1 => Some((Instr::Cmp, Mode::IndexedIndirect)),
        0xC4 => Some((Instr::Cpy, Mode::ZeroPage)),
        0xC5 => Some((Instr::Cmp, Mode::ZeroPage)),
        0xC6 => Some((Instr::Dec, Mode::ZeroPage)),
        0xC8 => Some((Instr::Iny, Mode::Implied)),
        0xC9 => Some((Instr::Cmp, Mode::Immediate)),
        0xCA => Some((Instr::Dex, Mode::Implied)),
        0xCC => Some((Instr::Cpy, Mode::Absolute)),
        0xCD => Some((Instr::Cmp, Mode::Absolute)),
        0xCE => Some((Instr::Dec, Mode::Absolute)),
        0xD0 => Some((Instr::Bne, Mode::Relative)),
        0xD1 => Some((Instr::Cmp, Mode::IndirectIndexed)),
        0xD4 => Some((Instr::Nop, Mode::Immediate)),
        0xD5 => Some((Instr::Cmp, Mode::ZeroPageX)),
        0xD6 => Some((Instr::Dec, Mode::ZeroPageX)),
        0xD8 => Some((Instr::Cld, Mode::Implied)),
        0xD9 => Some((Instr::Cmp, Mode::AbsoluteY)),
        0xDA => Some((Instr::Nop, Mode::Implied)),
        0xDC => Some((Instr::Nop, Mode::Absolute)),
        0xDD => Some((Instr::Cmp, Mode::AbsoluteX)),
        0xDE => Some((Instr::Dec, Mode::AbsoluteX)),
        0xE0 => Some((Instr::Cpx, Mode::Immediate)),
        0xE1 => Some((Instr::Sbc, Mode::IndexedIndirect)),
        0xE4 => Some((Instr::Cpx, Mode::ZeroPage)),
        0xE5 => Some((Instr::Sbc, Mode::ZeroPage)),
        0xE6 => Some((Instr::Inc, Mode::ZeroPage)),
        0xE8 => Some((Instr::Inx, Mode::Implied)),
        0xE9 => Some((Instr::Sbc, Mode::Immediate)),
        0xEA => Some((Instr::Nop, Mode::Implied)),
        0xEC => Some((Instr::Cpx, Mode::Absolute)),
        0xED => Some((Instr::Sbc, Mode::Absolute)),
        0xEE => Some((Instr::Inc, Mode::Absolute)),
        0xF0 => Some((Instr::Beq, Mode::Relative)),
        0xF1 => Some((Instr::Sbc, Mode::IndirectIndexed)),
        0xF4 => Some((Instr::Nop, Mode::Immediate)),
        0xF5 => Some((Instr::Sbc, Mode::ZeroPageX)),
        0xF6 => Some((Instr::Inc, Mode::ZeroPageX)),
        0xF8 => Some((Instr::Sed, Mode::Implied)),
        0xF9 => Some((Instr::Sbc, Mode::AbsoluteY)),
        0xFA => Some((Instr::Nop, Mode::Implied)),
        0xFC => Some((Instr::Nop, Mode::Absolute)),
        0xFD => Some((Instr::Sbc, Mode::AbsoluteX)),
        0xFE => Some((Instr::Inc, Mode::AbsoluteX)),
        _ => None,
    }
}

/// Number of bytes an instruction in `m` occupies.
pub open spec fn mode_len(m: Mode) -> int {
    match m {
        Mode::Implied | Mode::Accumulator => 1,
        Mode::Absolute | Mode::AbsoluteX | Mode::AbsoluteY | Mode::Indirect => 3,
        _ => 2,
    }
}

/// The effective address of `m` that the instruction will read or write is mapped.
pub open spec fn target_mapped(m: Mode, x: u8, y: u8, mem: MemView, byte: u8, word: u16) -> bool {
    match m {
        Mode::Absolute => is_mapped(word),
        Mode::AbsoluteX => is_mapped(absolute_reg_addr(word, x)),
        Mode::AbsoluteY => is_mapped(absolute_reg_addr(word, y)),
        Mode::IndexedIndirect => is_mapped(indexed_indirect_addr(mem, byte, x)),
        Mode::IndirectIndexed => is_mapped(indirect_indexed_addr(mem, byte, y)),
        Mode::Indirect => is_mapped(word) && is_mapped(indirect_high_addr(word)),
        _ => true,
    }
}

/// The operand bytes that follow an opcode, read as one byte and as a little-endian word.
struct Operand {
    byte: u8,
    word: u16,
}

fn mapped(addr: u16) -> (r: Result<(), Fault>)
    ensures
        r == (if is_mapped(addr) {
            Ok::<(), Fault>(())
        } else {
            Err(Fault::UnmappedAddress(addr))
        }),
{
    if addr <= 0x3FFF || addr >= 0x8000 {
        Ok(())
    } else {
        Err(Fault::UnmappedAddress(addr))
    }
}

fn stack_room(stack_ptr: u8, n: u8) -> (r: Result<(), Fault>)
    ensures
        r == (if stack_ptr + n <= 255 {
            Ok::<(), Fault>(())
        } else {
            Err(Fault::StackOverflow)
        }),
{
    if stack_ptr as u16 + n as u16 <= 255 {
        Ok(())
    } else {
        Err(Fault::StackOverflow)
    }
}

fn stack_holds(stack_ptr: u8, n: u8) -> (r: Result<(), Fault>)
    ensures
        r == (if stack_ptr >= n {
            Ok::<(), Fault>(())
        } else {
            Err(Fault::StackUnderflow)
        }),
{
    if stack_ptr >= n {
        Ok(())
    } else {
        Err(Fault::StackUnderflow)
    }
}

/// The register file and the cycle countdown.
#[derive(Debug)]
pub struct Nes6502 {
    pub accumulator: u8,
    pub x: u8,
    pub y: u8,
    /// Carry, Zero, Interrupt-Disable, Decimal, Break, Overflow and Negative, bits 0 to 6.
    pub status_flags: u8,
    /// Offset into the stack page of the next free cell; the stack grows upward.
    pub stack_pointer: u8,
    pub pc_counter: u16,
    /// Ticks left before the next instruction is fetched.
    pub cycles_until_next: u8,
    /// Ticks spent waiting out instruction latencies so far.
    pub total_cycles: u64,
}

impl Nes6502 {
    /// The power-on state: program counter at the start of ROM bank two,
    /// Interrupt-Disable and bit 5 set, an empty stack, no pending latency.
    pub fn new() -> (r: Self)
        ensures
            r.accumulator == 0,
            r.x == 0,
            r.y == 0,
            r.status_flags == 0x24,
            r.stack_pointer == 0,
            r.pc_counter == 0xC000,
            r.cycles_until_next == 0,
            r.total_cycles == 7,
    {
        Nes6502 {
            accumulator: 0,
            x: 0,
            y: 0,
            status_flags: 0x24,
            stack_pointer: 0,
            pc_counter: 0xC000,
            cycles_until_next: 0,
            total_cycles: 7,
        }
    }

    /// One tick of the processor. While an instruction's latency is being
    /// waited out the countdown drops by one and nothing else happens; when it
    /// is zero the opcode at the program counter is decoded and executed, and
    /// the instruction sets the countdown to its own cost. A fault leaves the
    /// session unusable.
    pub fn run(&mut self, ram: &mut RAM) -> (r: Result<(), Fault>)
        ensures
            r == result_of(step_fault(*old(self), old(ram)@)),
            old(self).cycles_until_next > 0 ==> {
                &&& *final(self) == (Nes6502 {
                    cycles_until_next: (old(self).cycles_until_next - 1) as u8,
                    total_cycles: ((old(self).total_cycles + 1) % 0x1_0000_0000_0000_0000) as u64,
                    ..*old(self)
                })
                &&& final(ram)@ == old(ram)@
            },
            old(self).cycles_until_next == 0 && r is Ok ==> fetch_step(*old(self), old(ram)@) == Some(
                (*final(self), final(ram)@),
            ),
    {
        if self.cycles_until_next == 0 {
            match mapped(self.pc_counter) {
                Ok(()) => {},
                Err(e) => return Err(e),
            }
            let opcode = ram.peek_mem_value(self.pc_counter);
            self.decode_instruction(opcode, ram)
        } else {
            self.cycles_until_next = self.cycles_until_next - 1;
            self.total_cycles = self.total_cycles.wrapping_add(1);
            Ok(())
        }
    }

    fn decode_instruction(&mut self, opcode: u8, ram: &mut RAM) -> (r: Result<(), Fault>)
        requires
            old(self).cycles_until_next == 0,
            is_mapped(old(self).pc_counter),
            opcode == old(ram)@.byte(old(self).pc_counter),
        ensures
            r == result_of(step_fault(*old(self), old(ram)@)),
            r is Ok ==> fetch_step(*old(self), old(ram)@) == Some((*final(self), final(ram)@)),
    {
        match decode(opcode) {
            None => Err(Fault::UnimplementedOpcode(opcode)),
            Some((instr, mode)) => self.execute(instr, mode, ram),
        }
    }

    /// Reads the operand bytes that follow the opcode.
    fn fetch_operand(&self, mode: Mode, ram: &RAM) -> (r: Result<Operand, Fault>)
        ensures
            r == match fetch_fault(mode, *self) {
                Some(e) => Err::<Operand, Fault>(e),
                None => r,
            },
            r is Err <==> fetch_fault(mode, *self) is Some,
            r matches Ok(f) ==> {
                &&& mode_len(mode) == 2 ==> f.byte == operand_byte(*self, ram@)
                &&& mode_len(mode) == 3 ==> f.word == operand_word(*self, ram@)
            },
    {
        let at = self.pc_counter.wrapping_add(1);
        match mode {
            Mode::Implied | Mode::Accumulator => Ok(Operand { byte: 0, word: 0 }),
            Mode::Absolute | Mode::AbsoluteX | Mode::AbsoluteY | Mode::Indirect => {
                match mapped(at) {
                    Ok(()) => {},
                    Err(e) => return Err(e),
                }
                match mapped(at.wrapping_add(1)) {
                    Ok(()) => {},
                    Err(e) => return Err(e),
                }
                let word = ram.peek_mem_address(at);
                Ok(Operand { byte: 0, word })
            },
            _ => {
                match mapped(at) {
                    Ok(()) => {},
                    Err(e) => return Err(e),
                }
                let byte = ram.peek_mem_value(at);
                Ok(Operand { byte, word: 0 })
            },
        }
    }

    /// Faults when the address that `mode` will read or write is unmapped.
    fn check_target(&self, mode: Mode, f: &Operand, ram: &RAM) -> (r: Result<(), Fault>)
        ensures
            r == result_of(target_fault(mode, self.x, self.y, ram@, f.byte, f.word)),
            r is Ok ==> target_mapped(mode, self.x, self.y, ram@, f.byte, f.word),
    {
        match mode {
            Mode::Absolute => mapped(f.word),
            Mode::AbsoluteX => mapped(f.word.wrapping_add(self.x as u16)),
            Mode::AbsoluteY => mapped(f.word.wrapping_add(self.y as u16)),
            Mode::IndexedIndirect => mapped(indexed_indirect_target(ram, f.byte, self.x)),
            Mode::IndirectIndexed => mapped(indirect_indexed_target(ram, f.byte, self.y)),
            Mode::Indirect => {
                match mapped(f.word) {
                    Ok(()) => {},
                    Err(e) => return Err(e),
                }
                let high: u16 = if f.word % 256 == 255 {
                    f.word - 255
                } else {
                    f.word + 1
                };
                mapped(high)
            },
            _ => Ok(()),
        }
    }

    /// Runs a decoded instruction.
    fn execute(&mut self, instr: Instr, mode: Mode, ram: &mut RAM) -> (r: Result<(), Fault>)
        requires
            valid_pair(instr, mode),
        ensures
            r == result_of(instr_fault(*old(self), old(ram)@, instr, mode)),
            r is Ok ==> (*final(self), final(ram)@) == execute_spec(*old(self), old(ram)@, instr, mode),
    {
        match instr {
            Instr::Adc | Instr::Sbc | Instr::And | Instr::Eor | Instr::Ora => self.exec_alu(instr, mode, ram),
            Instr::Asl | Instr::Lsr | Instr::Rol | Instr::Ror => self.exec_shift(instr, mode, ram),
            Instr::Cmp | Instr::Cpx | Instr::Cpy => self.exec_compare(instr, mode, ram),
            Instr::Lda | Instr::Ldx | Instr::Ldy => self.exec_load(instr, mode, ram),
            Instr::Sta | Instr::Stx | Instr::Sty => self.exec_store(instr, mode, ram),
            Instr::Inc | Instr::Dec => self.exec_step_memory(instr, mode, ram),
            Instr::Bit => self.exec_bit(instr, mode, ram),
            Instr::Bcc | Instr::Bcs | Instr::Beq | Instr::Bmi | Instr::Bne | Instr::Bpl | Instr::Bvc
            | Instr::Bvs => self.exec_branch(instr, mode, ram),
            Instr::Jmp | Instr::Jsr | Instr::Rts | Instr::Rti | Instr::Brk => {
                self.exec_jump(instr, mode, ram)
            },
            Instr::Pha | Instr::Php | Instr::Pla | Instr::Plp => self.exec_stack(instr, mode, ram),
            Instr::Nop => self.exec_nop(instr, mode, ram),
            _ => {
                self.exec_implied(instr);
                Ok(())
            },
        }
    }

    /// Add, subtract, AND, exclusive OR and OR into the accumulator.
    fn exec_alu(&mut self, instr: Instr, mode: Mode, ram: &mut RAM) -> (r: Result<(), Fault>)
        requires
            instr is Adc || instr is Sbc || instr is And || instr is Eor || instr is Ora,
            is_alu_mode(mode),
        ensures
            r == result_of(instr_fault(*old(self), old(ram)@, instr, mode)),
            r is Ok ==> (*final(self), final(ram)@) == execute_spec(*old(self), old(ram)@, instr, mode),
    {
        let f = match self.fetch_operand(mode, ram) {
            Ok(f) => f,
            Err(e) => return Err(e),
        };
        match self.check_target(mode, &f, ram) {
            Ok(()) => {},
            Err(e) => return Err(e),
        }
        let x = self.x;
        let y = self.y;
        let pc = &mut self.pc_counter;
        let acc = &mut self.accumulator;
        let status = &mut self.status_flags;
        let cycles = &mut self.cycles_until_next;
        match instr {
            Instr::Adc => match mode {
                Mode::Immediate => adc::adc_immediate(f.byte, pc, acc, status, cycles),
                Mode::ZeroPage => adc::adc_zero_page(f.byte, pc, acc, status, ram, cycles),
                Mode::ZeroPageX => adc::adc_zero_page_x(f.byte, x, pc, acc, status, ram, cycles),
                Mode::Absolute => adc::adc_absolute(f.word, pc, acc, status, ram, cycles),
                Mode::AbsoluteX => adc::adc_absolute_reg(f.word, x, pc, acc, status, ram, cycles),
                Mode::AbsoluteY => adc::adc_absolute_reg(f.word, y, pc, acc, status, ram, cycles),
                Mode::IndexedIndirect => adc::adc_indexed_indirect(
                    f.byte,
                    x,
                    pc,
                    acc,
                    status,
                    ram,
                    cycles,
                ),
                Mode::IndirectIndexed => adc::adc_indirect_indexed(
                    f.byte,
                    y,
                    pc,
                    acc,
                    status,
                    ram,
                    cycles,
                ),
                _ => {},
            },
            Instr::Sbc => match mode {
                Mode::Immediate => sbc::sbc_immediate(f.byte, pc, acc, status, cycles),
                Mode::ZeroPage => sbc::sbc_zero_page(f.byte, pc, acc, status, ram, cycles),
                Mode::ZeroPageX => sbc::sbc_zero_page_x(f.byte, x, pc, acc, status, ram, cycles),
                Mode::Absolute => sbc::sbc_absolute(f.word, pc, acc, status, ram, cycles),
                Mode::AbsoluteX => sbc::sbc_absolute_reg(f.word, x, pc, acc, status, ram, cycles),
                Mode::AbsoluteY => sbc::sbc_absolute_reg(f.word, y, pc, acc, status, ram, cycles),
                Mode::IndexedIndirect => sbc::sbc_indexed_indirect(
                    f.byte,
                    x,
                    pc,
                    acc,
                    status,
                    ram,
                    cycles,
                ),
                Mode::IndirectIndexed => sbc::sbc_indirect_indexed(
                    f.byte,
                    y,
                    pc,
                    acc,
                    status,
                    ram,
                    cycles,
                ),
                _ => {},
            },
            Instr::And => match mode {
                Mode::Immediate => and::and_immediate(f.byte, pc, acc, status, cycles),
                Mode::ZeroPage => and::and_zero_page(f.byte, pc, acc, status, ram, cycles),
                Mode::ZeroPageX => and::and_zero_page_x(f.byte, x, pc, acc, status, ram, cycles),
                Mode::Absolute => and::and_absolute(f.word, pc, acc, status, ram, cycles),
                Mode::AbsoluteX => and::and_absolute_reg(f.word, x, pc, acc, status, ram, cycles),
                Mode::AbsoluteY => and::and_absolute_reg(f.word, y, pc, acc, status, ram, cycles),
                Mode::IndexedIndirect => and::and_indexed_indirect(
                    f.byte,
                    x,
                    pc,
                    acc,
                    status,
                    ram,
                    cycles,
                ),
                Mode::IndirectIndexed => and::and_indirect_indexed(
                    f.byte,
                    y,
                    pc,
                    acc,
                    status,
                    ram,
                    cycles,
                ),
                _ => {},
            },
            Instr::Eor => match mode {
                Mode::Immediate => or::xor_immediate(f.byte, pc, acc, status, cycles),
                Mode::ZeroPage => or::xor_zero_page(f.byte, pc, acc, status, ram, cycles),
                Mode::ZeroPageX => or::xor_zero_page_x(f.byte, x, pc, acc, status, ram, cycles),
                Mode::Absolute => or::xor_absolute(f.word, pc, acc, status, ram, cycles),
                Mode::AbsoluteX => or::xor_absolute_reg(f.word, x, pc, acc, status, ram, cycles),
                Mode::AbsoluteY => or::xor_absolute_reg(f.word, y, pc, acc, status, ram, cycles),
                Mode::IndexedIndirect => or::xor_indexed_indirect(
                    f.byte,
                    x,
                    pc,
                    acc,
                    status,
                    ram,
                    cycles,
                ),
                Mode::IndirectIndexed => or::xor_indirect_indexed(
                    f.byte,
                    y,
                    pc,
                    acc,
                    status,
                    ram,
                    cycles,
                ),
                _ => {},
            },
            Instr::Ora => match mode {
                Mode::Immediate => or::ior_immediate(f.byte, pc, acc, status, cycles),
                Mode::ZeroPage => or::ior_zero_page(f.byte, pc, acc, status, ram, cycles),
                Mode::ZeroPageX => or::ior_zero_page_x(f.byte, x, pc, acc, status, ram, cycles),
                Mode::Absolute => or::ior_absolute(f.word, pc, acc, status, ram, cycles),
                Mode::AbsoluteX => or::ior_absolute_reg(f.word, x, pc, acc, status, ram, cycles),
                Mode::AbsoluteY => or::ior_absolute_reg(f.word, y, pc, acc, status, ram, cycles),
                Mode::IndexedIndirect => or::ior_indexed_indirect(
                    f.byte,
                    x,
                    pc,
                    acc,
                    status,
                    ram,
                    cycles,
                ),
                Mode::IndirectIndexed => or::ior_indirect_indexed(
                    f.byte,
                    y,
                    pc,
                    acc,
                    status,
                    ram,
                    cycles,
                ),
                _ => {},
            },
            _ => {},
        }
        Ok(())
    }

    /// Shifts and rotates, on the accumulator or on a memory cell.
    fn exec_shift(&mut self, instr: Instr, mode: Mode, ram: &mut RAM) -> (r: Result<(), Fault>)
        requires
            instr is Asl || instr is Lsr || instr is Rol || instr is Ror,
            is_shift_mode(mode),
        ensures
            r == result_of(instr_fault(*old(self), old(ram)@, instr, mode)),
            r is Ok ==> (*final(self), final(ram)@) == execute_spec(*old(self), old(ram)@, instr, mode),
    {
        let f = match self.fetch_operand(mode, ram) {
            Ok(f) => f,
            Err(e) => return Err(e),
        };
        match self.check_target(mode, &f, ram) {
            Ok(()) => {},
            Err(e) => return Err(e),
        }
        let x = self.x;
        let pc = &mut self.pc_counter;
        let acc = &mut self.accumulator;
        let status = &mut self.status_flags;
        let cycles = &mut self.cycles_until_next;
        match instr {
            Instr::Asl => match mode {
                Mode::Accumulator => asl::asl_accumulator(pc, acc, status, cycles),
                Mode::ZeroPage => asl::asl_zero_page(pc, f.byte, ram, status, cycles),
                Mode::ZeroPageX => asl::asl_zero_page_x(pc, x, f.byte, ram, status, cycles),
                Mode::Absolute => asl::asl_absolute(pc, f.word, ram, status, cycles),
                Mode::AbsoluteX => asl::asl_absolute_x(pc, x, f.word, ram, status, cycles),
                _ => {},
            },
            Instr::Lsr => match mode {
                Mode::Accumulator => lsr::lsr_accumulator(pc, acc, status, cycles),
                Mode::ZeroPage => lsr::lsr_zero_page(pc, f.byte, ram, status, cycles),
                Mode::ZeroPageX => lsr::lsr_zero_page_x(pc, x, f.byte, ram, status, cycles),
                Mode::Absolute => lsr::lsr_absolute(pc, f.word, ram, status, cycles),
                Mode::AbsoluteX => lsr::lsr_absolute_x(pc, x, f.word, ram, status, cycles),
                _ => {},
            },
            Instr::Rol => match mode {
                Mode::Accumulator => rol::rol_accumulator(pc, acc, status, cycles),
                Mode::ZeroPage => rol::rol_zero_page(pc, f.byte, status, ram, cycles),
                Mode::ZeroPageX => rol::rol_zero_page_x(pc, x, f.byte, status, ram, cycles),
                Mode::Absolute => rol::rol_absolute(pc, f.word, status, ram, cycles),
                Mode::AbsoluteX => rol::rol_absolute_x(pc, x, f.word, status, ram, cycles),
                _ => {},
            },
            Instr::Ror => match mode {
                Mode::Accumulator => ror::ror_accumulator(pc, acc, status, cycles),
                Mode::ZeroPage => ror::ror_zero_page(pc, f.byte, status, ram, cycles),
                Mode::ZeroPageX => ror::ror_zero_page_x(pc, x, f.byte, status, ram, cycles),
                Mode::Absolute => ror::ror_absolute(pc, f.word, status, ram, cycles),
                Mode::AbsoluteX => ror::ror_absolute_x(pc, x, f.word, status, ram, cycles),
                _ => {},
            },
            _ => {},
        }
        Ok(())
    }

    /// Compares a register with the operand.
    fn exec_compare(&mut self, instr: Instr, mode: Mode, ram: &mut RAM) -> (r: Result<(), Fault>)
        requires
            instr is Cmp || instr is Cpx || instr is Cpy,
            valid_pair(instr, mode),
        ensures
            r == result_of(instr_fault(*old(self), old(ram)@, instr, mode)),
            r is Ok ==> (*final(self), final(ram)@) == execute_spec(*old(self), old(ram)@, instr, mode),
    {
        let f = match self.fetch_operand(mode, ram) {
            Ok(f) => f,
            Err(e) => return Err(e),
        };
        match self.check_target(mode, &f, ram) {
            Ok(()) => {},
            Err(e) => return Err(e),
        }
        let x = self.x;
        let y = self.y;
        let reg = match instr {
            Instr::Cmp => self.accumulator,
            Instr::Cpx => x,
            _ => y,
        };
        let pc = &mut self.pc_counter;
        let status = &mut self.status_flags;
        let cycles = &mut self.cycles_until_next;
        match mode {
            Mode::Immediate => compare::comp_value_immediate(pc, reg, f.byte, status, cycles),
            Mode::ZeroPage => compare::comp_value_zero_page(pc, reg, f.byte, ram, status, cycles),
            Mode::ZeroPageX => compare::comp_value_zero_page_x(
                pc,
                reg,
                f.byte,
                x,
                ram,
                status,
                cycles,
            ),
            Mode::Absolute => compare::comp_value_absolute(pc, reg, f.word, ram, status, cycles),
            Mode::AbsoluteX => compare::comp_value_absolute_reg(
                pc,
                reg,
                f.word,
                x,
                ram,
                status,
                cycles,
            ),
            Mode::AbsoluteY => compare::comp_value_absolute_reg(
                pc,
                reg,
                f.word,
                y,
                ram,
                status,
                cycles,
            ),
            Mode::IndexedIndirect => compare::comp_value_indexed_indirect(
                pc,
                reg,
                f.byte,
                x,
                ram,
                status,
                cycles,
            ),
            Mode::IndirectIndexed => compare::comp_value_indirect_indexed(
                pc,
                reg,
                f.byte,
                y,
                ram,
                status,
                cycles,
            ),
            _ => {},
        }
        Ok(())
    }

    /// Loads the accumulator, X or Y.
    #[verifier::rlimit(100)]
    fn exec_load(&mut self, instr: Instr, mode: Mode, ram: &mut RAM) -> (r: Result<(), Fault>)
        requires
            instr is Lda || instr is Ldx || instr is Ldy,
            valid_pair(instr, mode),
        ensures
            r == result_of(instr_fault(*old(self), old(ram)@, instr, mode)),
            r is Ok ==> (*final(self), final(ram)@) == execute_spec(*old(self), old(ram)@, instr, mode),
    {
        let f = match self.fetch_operand(mode, ram) {
            Ok(f) => f,
            Err(e) => return Err(e),
        };
        match self.check_target(mode, &f, ram) {
            Ok(()) => {},
            Err(e) => return Err(e),
        }
        let x = self.x;
        let y = self.y;
        let pc = &mut self.pc_counter;
        let status = &mut self.status_flags;
        let cycles = &mut self.cycles_until_next;
        let value = match mode {
            Mode::Immediate => load_store::load_immediate(pc, f.byte, status, cycles),
            Mode::ZeroPage => load_store::load_zero_page(pc, f.byte, ram, status, cycles),
            Mode::ZeroPageX => load_store::load_zero_page_reg(pc, f.byte, x, ram, status, cycles),
            Mode::ZeroPageY => load_store::load_zero_page_reg(pc, f.byte, y, ram, status, cycles),
            Mode::Absolute => load_store::absolute_load(pc, f.word, 0, ram, status, cycles),
            Mode::AbsoluteX => load_store::absolute_load(pc, f.word, x, ram, status, cycles),
            Mode::AbsoluteY => load_store::absolute_load(pc, f.word, y, ram, status, cycles),
            Mode::IndexedIndirect => load_store::indirect_x_load(
                pc,
                f.byte,
                x,
                ram,
                status,
                cycles,
            ),
            Mode::IndirectIndexed => load_store::indirect_y_load(
                pc,
                f.byte,
                y,
                ram,
                status,
                cycles,
            ),
            _ => {
                proof {
                    assert(false);
                }
                0
            },
        };
        match instr {
            Instr::Lda => self.accumulator = value,
            Instr::Ldx => self.x = value,
            _ => self.y = value,
        }
        Ok(())
    }

    /// Stores the accumulator, X or Y.
    #[verifier::rlimit(100)]
    fn exec_store(&mut self, instr: Instr, mode: Mode, ram: &mut RAM) -> (r: Result<(), Fault>)
        requires
            instr is Sta || instr is Stx || instr is Sty,
            valid_pair(instr, mode),
        ensures
            r == result_of(instr_fault(*old(self), old(ram)@, instr, mode)),
            r is Ok ==> (*final(self), final(ram)@) == execute_spec(*old(self), old(ram)@, instr, mode),
    {
        let f = match self.fetch_operand(mode, ram) {
            Ok(f) => f,
            Err(e) => return Err(e),
        };
        match self.check_target(mode, &f, ram) {
            Ok(()) => {},
            Err(e) => return Err(e),
        }
        let x = self.x;
        let y = self.y;
        let value = match instr {
            Instr::Sta => self.accumulator,
            Instr::Stx => x,
            _ => y,
        };
        let pc = &mut self.pc_counter;
        let cycles = &mut self.cycles_until_next;
        match mode {
            Mode::ZeroPage => load_store::store_zero_page(pc, value, f.byte, 0, ram, cycles),
            Mode::ZeroPageX => load_store::store_zero_page(pc, value, f.byte, x, ram, cycles),
            Mode::ZeroPageY => load_store::store_zero_page(pc, value, f.byte, y, ram, cycles),
            Mode::Absolute => load_store::store_absolute(pc, value, f.word, 0, ram, cycles),
            Mode::AbsoluteX => load_store::store_absolute(pc, value, f.word, x, ram, cycles),
            Mode::AbsoluteY => load_store::store_absolute(pc, value, f.word, y, ram, cycles),
            Mode::IndexedIndirect => load_store::store_indirect_x(
                pc,
                value,
                f.byte,
                x,
                ram,
                cycles,
            ),
            Mode::IndirectIndexed => load_store::store_indirect_y(
                pc,
                value,
                f.byte,
                y,
                ram,
                cycles,
            ),
            _ => {
                proof {
                    assert(false);
                }
            },
        }
        Ok(())
    }

    /// Increments or decrements a memory cell.
    fn exec_step_memory(&mut self, instr: Instr, mode: Mode, ram: &mut RAM) -> (r: Result<(), Fault>)
        requires
            instr is Inc || instr is Dec,
            mode is ZeroPage || mode is ZeroPageX || mode is Absolute || mode is AbsoluteX,
        ensures
            r == result_of(instr_fault(*old(self), old(ram)@, instr, mode)),
            r is Ok ==> (*final(self), final(ram)@) == execute_spec(*old(self), old(ram)@, instr, mode),
    {
        let f = match self.fetch_operand(mode, ram) {
            Ok(f) => f,
            Err(e) => return Err(e),
        };
        match self.check_target(mode, &f, ram) {
            Ok(()) => {},
            Err(e) => return Err(e),
        }
        let x = self.x;
        let op = if instr == Instr::Inc {
            Step::Inc
        } else {
            Step::Dec
        };
        let pc = &mut self.pc_counter;
        let status = &mut self.status_flags;
        let cycles = &mut self.cycles_until_next;
        match mode {
            Mode::ZeroPage => increment_decrement::incdec_memory_zero_page(
                pc,
                f.byte,
                status,
                ram,
                cycles,
                op,
            ),
            Mode::ZeroPageX => increment_decrement::incdec_memory_zero_page_x(
                pc,
                f.byte,
                x,
                status,
                ram,
                cycles,
                op,
            ),
            Mode::Absolute => increment_decrement::incdec_memory_absolute(
                pc,
                f.word,
                status,
                ram,
                cycles,
                op,
            ),
            _ => increment_decrement::incdec_memory_absolute_x(
                pc,
                f.word,
                x,
                status,
                ram,
                cycles,
                op,
            ),
        }
        Ok(())
    }

    /// Tests memory bits against the accumulator.
    fn exec_bit(&mut self, instr: Instr, mode: Mode, ram: &mut RAM) -> (r: Result<(), Fault>)
        requires
            instr is Bit,
            mode is ZeroPage || mode is Absolute,
        ensures
            r == result_of(instr_fault(*old(self), old(ram)@, instr, mode)),
            r is Ok ==> (*final(self), final(ram)@) == execute_spec(*old(self), old(ram)@, instr, mode),
    {
        let f = match self.fetch_operand(mode, ram) {
            Ok(f) => f,
            Err(e) => return Err(e),
        };
        match self.check_target(mode, &f, ram) {
            Ok(()) => {},
            Err(e) => return Err(e),
        }
        let acc = self.accumulator;
        let pc = &mut self.pc_counter;
        let status = &mut self.status_flags;
        let cycles = &mut self.cycles_until_next;
        match mode {
            Mode::ZeroPage => misc_instructions::bittest_zero_page(
                pc,
                acc,
                f.byte,
                ram,
                status,
                cycles,
            ),
            _ => misc_instructions::bittest_absolute(pc, acc, f.word, ram, status, cycles),
        }
        Ok(())
    }

    /// Conditional branches on one flag.
    fn exec_branch(&mut self, instr: Instr, mode: Mode, ram: &mut RAM) -> (r: Result<(), Fault>)
        requires
            is_branch_instr(instr),
            mode is Relative,
        ensures
            r == result_of(instr_fault(*old(self), old(ram)@, instr, mode)),
            r is Ok ==> (*final(self), final(ram)@) == execute_spec(*old(self), old(ram)@, instr, mode),
    {
        let f = match self.fetch_operand(mode, ram) {
            Ok(f) => f,
            Err(e) => return Err(e),
        };
        let relative_addr = f.byte as i8;
        let flag_val = self.status_flags;
        let pc = &mut self.pc_counter;
        let cycles = &mut self.cycles_until_next;
        match instr {
            Instr::Bcc => branch::branch_if_carry_clear(flag_val, pc, relative_addr, cycles),
            Instr::Bcs => branch::branch_if_carry_set(flag_val, pc, relative_addr, cycles),
            Instr::Beq => branch::branch_if_equal(flag_val, pc, relative_addr, cycles),
            Instr::Bne => branch::branch_if_not_equal(flag_val, pc, relative_addr, cycles),
            Instr::Bmi => branch::branch_if_minus(flag_val, pc, relative_addr, cycles),
            Instr::Bpl => branch::branch_if_positive(flag_val, pc, relative_addr, cycles),
            Instr::Bvs => branch::branch_if_overflow_set(flag_val, pc, relative_addr, cycles),
            _ => branch::branch_if_overflow_clear(flag_val, pc, relative_addr, cycles),
        }
        Ok(())
    }

    /// Jumps, subroutine calls and returns, and the software break.
    fn exec_jump(&mut self, instr: Instr, mode: Mode, ram: &mut RAM) -> (r: Result<(), Fault>)
        requires
            instr is Jmp || instr is Jsr || instr is Rts || instr is Rti || instr is Brk,
            valid_pair(instr, mode),
        ensures
            r == result_of(instr_fault(*old(self), old(ram)@, instr, mode)),
            r is Ok ==> (*final(self), final(ram)@) == execute_spec(*old(self), old(ram)@, instr, mode),
    {
        let f = match self.fetch_operand(mode, ram) {
            Ok(f) => f,
            Err(e) => return Err(e),
        };
        let pc = &mut self.pc_counter;
        let sp = &mut self.stack_pointer;
        let cycles = &mut self.cycles_until_next;
        match instr {
            Instr::Jmp => {
                if mode == Mode::Indirect {
                    match self.check_target(mode, &f, ram) {
                        Ok(()) => {},
                        Err(e) => return Err(e),
                    }
                    jumps::jump_indirect(&mut self.pc_counter, f.word, ram, &mut self.cycles_until_next);
                } else {
                    jumps::jump_absolute(pc, f.word, cycles);
                }
            },
            Instr::Jsr => {
                match stack_room(*sp, 2) {
                    Ok(()) => {},
                    Err(e) => return Err(e),
                }
                jumps::jump_subroutine(pc, f.word, sp, ram, cycles);
            },
            Instr::Rts => {
                match stack_holds(*sp, 2) {
                    Ok(()) => {},
                    Err(e) => return Err(e),
                }
                jumps::return_from_subroutine(pc, sp, ram, cycles);
            },
            Instr::Rti => {
                match stack_holds(*sp, 3) {
                    Ok(()) => {},
                    Err(e) => return Err(e),
                }
                jumps::return_from_interrupt(pc, sp, &mut self.status_flags, ram, cycles);
            },
            _ => {
                match stack_room(*sp, 3) {
                    Ok(()) => {},
                    Err(e) => return Err(e),
                }
                misc_instructions::break_force_interrupt(pc, &mut self.status_flags, sp, ram, cycles);
            },
        }
        Ok(())
    }

    /// Pushes and pulls of the accumulator and the status register.
    fn exec_stack(&mut self, instr: Instr, mode: Mode, ram: &mut RAM) -> (r: Result<(), Fault>)
        requires
            instr is Pha || instr is Php || instr is Pla || instr is Plp,
            mode is Implied,
        ensures
            r == result_of(instr_fault(*old(self), old(ram)@, instr, mode)),
            r is Ok ==> (*final(self), final(ram)@) == execute_spec(*old(self), old(ram)@, instr, mode),
    {
        let acc = self.accumulator;
        let status = self.status_flags;
        let pc = &mut self.pc_counter;
        let sp = &mut self.stack_pointer;
        let cycles = &mut self.cycles_until_next;
        match instr {
            Instr::Pha | Instr::Php => {
                match stack_room(*sp, 1) {
                    Ok(()) => {},
                    Err(e) => return Err(e),
                }
                let value = if instr == Instr::Pha {
                    acc
                } else {
                    status
                };
                misc_instructions::push_acc_on_stack(pc, value, sp, ram, cycles);
            },
            Instr::Pla => {
                match stack_holds(*sp, 1) {
                    Ok(()) => {},
                    Err(e) => return Err(e),
                }
                misc_instructions::pull_acc_from_stack(
                    pc,
                    &mut self.accumulator,
                    &mut self.status_flags,
                    sp,
                    ram,
                    cycles,
                );
            },
            _ => {
                match stack_holds(*sp, 1) {
                    Ok(()) => {},
                    Err(e) => return Err(e),
                }
                misc_instructions::pull_status_from_stack(pc, &mut self.status_flags, sp, ram, cycles);
            },
        }
        Ok(())
    }

    /// The official no-op and the unofficial ones, which skip one or two operand bytes.
    fn exec_nop(&mut self, instr: Instr, mode: Mode, ram: &RAM) -> (r: Result<(), Fault>)
        requires
            instr is Nop,
            valid_pair(instr, mode),
        ensures
            r == result_of(instr_fault(*old(self), ram@, instr, mode)),
            r is Ok ==> (*final(self), ram@) == execute_spec(*old(self), ram@, instr, mode),
    {
        match mode {
            Mode::Immediate => {
                self.pc_counter = self.pc_counter.wrapping_add(2);
                self.cycles_until_next = 4;
            },
            Mode::Absolute => {
                self.pc_counter = self.pc_counter.wrapping_add(3);
                self.cycles_until_next = 5;
            },
            _ => misc_instructions::NOP(&mut self.pc_counter, &mut self.cycles_until_next),
        }
        Ok(())
    }

    /// Advances past a one-byte flag instruction.
    fn finish_flag_instruction(&mut self)
        ensures
            final(self).pc_counter == advance(old(self).pc_counter, 1),
            final(self).cycles_until_next == 2,
            final(self).accumulator == old(self).accumulator,
            final(self).x == old(self).x,
            final(self).y == old(self).y,
            final(self).status_flags == old(self).status_flags,
            final(self).stack_pointer == old(self).stack_pointer,
            final(self).total_cycles == old(self).total_cycles,
    {
        self.pc_counter = self.pc_counter.wrapping_add(1);
        self.cycles_until_next = 2;
    }

    /// Flag instructions, register increments and decrements, and transfers.
    fn exec_implied(&mut self, instr: Instr)
        requires
            is_register_instr(instr),
        ensures
            *final(self) == register_step(*old(self), instr),
    {
        let acc = self.accumulator;
        let x = self.x;
        let y = self.y;
        let sp = self.stack_pointer;
        match instr {
            Instr::Clc => flags::clear_carry(&mut self.status_flags),
            Instr::Cld => flags::clear_decimal_mode(&mut self.status_flags),
            Instr::Cli => flags::clear_interrupt_disable(&mut self.status_flags),
            Instr::Clv => flags::clear_overflow(&mut self.status_flags),
            Instr::Sec => flags::set_carry(&mut self.status_flags),
            Instr::Sed => flags::set_decimal(&mut self.status_flags),
            Instr::Sei => flags::set_interrupt_disable(&mut self.status_flags),
            _ => {},
        }
        match instr {
            Instr::Clc | Instr::Cld | Instr::Cli | Instr::Clv | Instr::Sec | Instr::Sed | Instr::Sei => {
                self.finish_flag_instruction();
            },
            Instr::Dex => increment_decrement::incdec_reg(
                &mut self.pc_counter,
                &mut self.x,
                &mut self.status_flags,
                &mut self.cycles_until_next,
                Step::Dec,
            ),
            Instr::Dey => increment_decrement::incdec_reg(
                &mut self.pc_counter,
                &mut self.y,
                &mut self.status_flags,
                &mut self.cycles_until_next,
                Step::Dec,
            ),
            Instr::Inx => increment_decrement::incdec_reg(
                &mut self.pc_counter,
                &mut self.x,
                &mut self.status_flags,
                &mut self.cycles_until_next,
                Step::Inc,
            ),
            Instr::Iny => increment_decrement::incdec_reg(
                &mut self.pc_counter,
                &mut self.y,
                &mut self.status_flags,
                &mut self.cycles_until_next,
                Step::Inc,
            ),
            Instr::Tax => misc_instructions::transfer_source_to_dest(
                &mut self.pc_counter,
                acc,
                &mut self.x,
                &mut self.status_flags,
                &mut self.cycles_until_next,
            ),
            Instr::Tay => misc_instructions::transfer_source_to_dest(
                &mut self.pc_counter,
                acc,
                &mut self.y,
                &mut self.status_flags,
                &mut self.cycles_until_next,
            ),
            Instr::Txa => misc_instructions::transfer_source_to_dest(
                &mut self.pc_counter,
                x,
                &mut self.accumulator,
                &mut self.status_flags,
                &mut self.cycles_until_next,
            ),
            Instr::Tya => misc_instructions::transfer_source_to_dest(
                &mut self.pc_counter,
                y,
                &mut self.accumulator,
                &mut self.status_flags,
                &mut self.cycles_until_next,
            ),
            Instr::Tsx => misc_instructions::transfer_source_to_dest(
                &mut self.pc_counter,
                sp,
                &mut self.x,
                &mut self.status_flags,
                &mut self.cycles_until_next,
            ),
            Instr::Txs => misc_instructions::transfer_x_to_stack_pointer(
                &mut self.pc_counter,
                x,
                &mut self.stack_pointer,
                &mut self.cycles_until_next,
            ),
            _ => self.finish_flag_instruction(),
        }
    }
}

} // verus!
