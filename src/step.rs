//! What one decoded instruction does to the registers and the address space,
//! and when it faults instead: the specification that the execution engine's
//! dispatch is proved against.
use vstd::prelude::*;
use crate::addressing::{
    absolute_reg_addr,
    alu_result,
    alu_status,
    indexed_indirect_addr,
    indirect_indexed_addr,
    zero_page_x_addr,
    zn_status,
    Operation,
};
use crate::branch::branch_pc;
use crate::compare::compare_status;
use crate::flags::{
    flag_set,
    with_flag,
    BREAK_CMD_BIT,
    CARRY_BIT,
    DECIMAL_MODE_BIT,
    INTERRUPT_DISABLE_BIT,
    NEGATIVE_BIT,
    OVERFLOW_BIT,
    ZERO_BIT,
};
use crate::increment_decrement::{step_value, Operation as Step};
use crate::jumps::{indirect_high_addr, jump_indirect_target};
use crate::mem_map::BREAK_VECTOR;
use crate::memory::{advance, is_mapped, stack_addr, MemView};
use crate::misc_instructions::bit_test_status;
use crate::nes_6502::{mode_len, opcode_table, Fault, Instr, Mode, Nes6502};
use crate::shift_addr::{asl_value, lsr_value, rol_value, ror_value, shift_status};

verus! {

/// The byte after the opcode.
pub open spec fn operand_byte(c: Nes6502, m: MemView) -> u8 {
    m.byte(advance(c.pc_counter, 1))
}

/// The two bytes after the opcode, little-endian.
pub open spec fn operand_word(c: Nes6502, m: MemView) -> u16 {
    m.word(advance(c.pc_counter, 1))
}

/// The address that an instruction in mode `md` reads or writes.
pub open spec fn effective_addr(md: Mode, c: Nes6502, m: MemView) -> u16 {
    let b = operand_byte(c, m);
    let w = operand_word(c, m);
    match md {
        Mode::ZeroPage => b as u16,
        Mode::ZeroPageX => zero_page_x_addr(b, c.x),
        Mode::ZeroPageY => zero_page_x_addr(b, c.y),
        Mode::Absolute => w,
        Mode::AbsoluteX => absolute_reg_addr(w, c.x),
        Mode::AbsoluteY => absolute_reg_addr(w, c.y),
        Mode::IndexedIndirect => indexed_indirect_addr(m, b, c.x),
        Mode::IndirectIndexed => indirect_indexed_addr(m, b, c.y),
        _ => 0,
    }
}

/// The value an instruction in `md` works on: the operand byte itself, or the byte at the effective address.
pub open spec fn operand_value(md: Mode, c: Nes6502, m: MemView) -> u8 {
    if md is Immediate {
        operand_byte(c, m)
    } else {
        m.byte(effective_addr(md, c, m))
    }
}

/// The address space after the operand is read.
pub open spec fn after_operand_read(md: Mode, c: Nes6502, m: MemView) -> MemView {
    if md is Immediate {
        m
    } else {
        m.after_read(effective_addr(md, c, m))
    }
}

/// The fault of an operand byte past the opcode that is unmapped.
pub open spec fn fetch_fault(md: Mode, c: Nes6502) -> Option<Fault> {
    if mode_len(md) >= 2 && !is_mapped(advance(c.pc_counter, 1)) {
        Some(Fault::UnmappedAddress(advance(c.pc_counter, 1)))
    } else if mode_len(md) == 3 && !is_mapped(advance(c.pc_counter, 2)) {
        Some(Fault::UnmappedAddress(advance(c.pc_counter, 2)))
    } else {
        None
    }
}

/// The fault of an effective address (or, for an indirect jump, a pointer byte) that is unmapped.
pub open spec fn target_fault(md: Mode, x: u8, y: u8, m: MemView, b: u8, w: u16) -> Option<Fault> {
    let a = match md {
        Mode::Absolute | Mode::Indirect => w,
        Mode::AbsoluteX => absolute_reg_addr(w, x),
        Mode::AbsoluteY => absolute_reg_addr(w, y),
        Mode::IndexedIndirect => indexed_indirect_addr(m, b, x),
        Mode::IndirectIndexed => indirect_indexed_addr(m, b, y),
        _ => 0,
    };
    if md is Absolute || md is AbsoluteX || md is AbsoluteY || md is IndexedIndirect
        || md is IndirectIndexed || md is Indirect {
        if !is_mapped(a) {
            Some(Fault::UnmappedAddress(a))
        } else if md is Indirect && !is_mapped(indirect_high_addr(w)) {
            Some(Fault::UnmappedAddress(indirect_high_addr(w)))
        } else {
            None
        }
    } else {
        None
    }
}

/// Instructions of one byte that only touch registers.
pub open spec fn is_register_instr(i: Instr) -> bool {
    i is Clc || i is Cld || i is Cli || i is Clv || i is Sec || i is Sed || i is Sei || i is Dex
        || i is Dey || i is Inx || i is Iny || i is Tax || i is Tay || i is Tsx || i is Txa
        || i is Txs || i is Tya
}

/// The conditional branches.
pub open spec fn is_branch_instr(i: Instr) -> bool {
    i is Bcc || i is Bcs || i is Beq || i is Bmi || i is Bne || i is Bpl || i is Bvc || i is Bvs
}

/// Why a decoded instruction faults, if it does: an unmapped operand byte,
/// then an unmapped effective address, or a stack with no room or nothing to pull.
pub open spec fn instr_fault(c: Nes6502, m: MemView, i: Instr, md: Mode) -> Option<Fault> {
    let sp = c.stack_pointer;
    if i is Nop || is_register_instr(i) {
        None
    } else if i is Pha || i is Php {
        if sp + 1 > 255 {
            Some(Fault::StackOverflow)
        } else {
            None
        }
    } else if i is Pla || i is Plp {
        if sp < 1 {
            Some(Fault::StackUnderflow)
        } else {
            None
        }
    } else if fetch_fault(md, c) is Some {
        fetch_fault(md, c)
    } else if is_branch_instr(i) {
        None
    } else if i is Jmp {
        if md is Indirect {
            target_fault(md, c.x, c.y, m, operand_byte(c, m), operand_word(c, m))
        } else {
            None
        }
    } else if i is Jsr {
        if sp + 2 > 255 {
            Some(Fault::StackOverflow)
        } else {
            None
        }
    } else if i is Brk {
        if sp + 3 > 255 {
            Some(Fault::StackOverflow)
        } else {
            None
        }
    } else if i is Rts {
        if sp < 2 {
            Some(Fault::StackUnderflow)
        } else {
            None
        }
    } else if i is Rti {
        if sp < 3 {
            Some(Fault::StackUnderflow)
        } else {
            None
        }
    } else {
        target_fault(md, c.x, c.y, m, operand_byte(c, m), operand_word(c, m))
    }
}

/// `Ok` when there is no fault, else the fault.
pub open spec fn result_of(f: Option<Fault>) -> Result<(), Fault> {
    match f {
        Some(e) => Err(e),
        None => Ok(()),
    }
}

pub open spec fn alu_op(i: Instr) -> Operation {
    match i {
        Instr::Adc => Operation::Add,
        Instr::Sbc => Operation::Sub,
        Instr::And => Operation::And,
        Instr::Eor => Operation::Eor,
        _ => Operation::Ior,
    }
}

pub open spec fn compare_reg(i: Instr, c: Nes6502) -> u8 {
    match i {
        Instr::Cmp => c.accumulator,
        Instr::Cpx => c.x,
        _ => c.y,
    }
}

pub open spec fn shift_value(i: Instr, v: u8, status: u8) -> u8 {
    match i {
        Instr::Asl => asl_value(v),
        Instr::Lsr => lsr_value(v),
        Instr::Rol => rol_value(v, status),
        _ => ror_value(v, status),
    }
}

/// The bit that a shift or rotate moves into Carry.
pub open spec fn shift_carry(i: Instr, v: u8) -> bool {
    if i is Asl || i is Rol {
        v >= 0x80
    } else {
        v % 2 == 1
    }
}

pub open spec fn branch_taken(i: Instr, s: u8) -> bool {
    match i {
        Instr::Bcc => !flag_set(s, CARRY_BIT),
        Instr::Bcs => flag_set(s, CARRY_BIT),
        Instr::Beq => flag_set(s, ZERO_BIT),
        Instr::Bne => !flag_set(s, ZERO_BIT),
        Instr::Bmi => flag_set(s, NEGATIVE_BIT),
        Instr::Bpl => !flag_set(s, NEGATIVE_BIT),
        Instr::Bvs => flag_set(s, OVERFLOW_BIT),
        _ => !flag_set(s, OVERFLOW_BIT),
    }
}

pub open spec fn alu_cycles(md: Mode) -> u8 {
    match md {
        Mode::Immediate => 2,
        Mode::ZeroPage => 3,
        Mode::ZeroPageX | Mode::Absolute | Mode::AbsoluteX | Mode::AbsoluteY => 4,
        Mode::IndexedIndirect => 6,
        _ => 5,
    }
}

/// Loads: indexed absolute costs one more unless the index is zero; indirect ones cost 6.
pub open spec fn load_cycles(md: Mode, c: Nes6502) -> u8 {
    match md {
        Mode::Immediate => 2,
        Mode::ZeroPage => 3,
        Mode::ZeroPageX | Mode::ZeroPageY | Mode::Absolute => 4,
        Mode::AbsoluteX => if c.x == 0 {
            4
        } else {
            5
        },
        Mode::AbsoluteY => if c.y == 0 {
            4
        } else {
            5
        },
        _ => 6,
    }
}

pub open spec fn store_cycles(md: Mode) -> u8 {
    match md {
        Mode::ZeroPage | Mode::ZeroPageX | Mode::ZeroPageY => 3,
        Mode::Absolute | Mode::AbsoluteX | Mode::AbsoluteY => 4,
        _ => 6,
    }
}

pub open spec fn shift_cycles(md: Mode) -> u8 {
    match md {
        Mode::Accumulator => 2,
        Mode::ZeroPage => 5,
        Mode::ZeroPageX | Mode::Absolute => 6,
        _ => 7,
    }
}

pub open spec fn step_memory_cycles(md: Mode) -> u8 {
    match md {
        Mode::ZeroPage => 5,
        Mode::ZeroPageX | Mode::Absolute => 6,
        _ => 7,
    }
}

/// The flag that a one-byte flag instruction sets or clears, and to what.
pub open spec fn flag_change(i: Instr) -> (u8, bool) {
    match i {
        Instr::Clc => (CARRY_BIT, false),
        Instr::Cld => (DECIMAL_MODE_BIT, false),
        Instr::Cli => (INTERRUPT_DISABLE_BIT, false),
        Instr::Clv => (OVERFLOW_BIT, false),
        Instr::Sec => (CARRY_BIT, true),
        Instr::Sed => (DECIMAL_MODE_BIT, true),
        _ => (INTERRUPT_DISABLE_BIT, true),
    }
}

/// The registers after a register-only instruction.
pub open spec fn register_step(c: Nes6502, i: Instr) -> Nes6502 {
    let s = c.status_flags;
    let done = Nes6502 { pc_counter: advance(c.pc_counter, 1), cycles_until_next: 2, ..c };
    match i {
        Instr::Dex => Nes6502 {
            x: step_value(c.x, Step::Dec),
            status_flags: zn_status(s, step_value(c.x, Step::Dec)),
            ..done
        },
        Instr::Dey => Nes6502 {
            y: step_value(c.y, Step::Dec),
            status_flags: zn_status(s, step_value(c.y, Step::Dec)),
            ..done
        },
        Instr::Inx => Nes6502 {
            x: step_value(c.x, Step::Inc),
            status_flags: zn_status(s, step_value(c.x, Step::Inc)),
            ..done
        },
        Instr::Iny => Nes6502 {
            y: step_value(c.y, Step::Inc),
            status_flags: zn_status(s, step_value(c.y, Step::Inc)),
            ..done
        },
        Instr::Tax => Nes6502 { x: c.accumulator, status_flags: zn_status(s, c.accumulator), ..done },
        Instr::Tay => Nes6502 { y: c.accumulator, status_flags: zn_status(s, c.accumulator), ..done },
        Instr::Txa => Nes6502 { accumulator: c.x, status_flags: zn_status(s, c.x), ..done },
        Instr::Tya => Nes6502 { accumulator: c.y, status_flags: zn_status(s, c.y), ..done },
        Instr::Tsx => Nes6502 {
            x: c.stack_pointer,
            status_flags: zn_status(s, c.stack_pointer),
            ..done
        },
        Instr::Txs => Nes6502 { stack_pointer: c.x, ..done },
        _ => Nes6502 {
            status_flags: with_flag(s, flag_change(i).0, flag_change(i).1),
            ..done
        },
    }
}

/// The registers and the address space after a decoded instruction that does not fault.
pub open spec fn execute_spec(c: Nes6502, m: MemView, i: Instr, md: Mode) -> (Nes6502, MemView) {
    let s = c.status_flags;
    let sp = c.stack_pointer;
    let v = operand_value(md, c, m);
    let ea = effective_addr(md, c, m);
    let m1 = after_operand_read(md, c, m);
    let pc = advance(c.pc_counter, mode_len(md));
    let w = operand_word(c, m);
    match i {
        Instr::Adc | Instr::Sbc | Instr::And | Instr::Eor | Instr::Ora => (
            Nes6502 {
                accumulator: alu_result(alu_op(i), c.accumulator, v, s),
                status_flags: alu_status(alu_op(i), c.accumulator, v, s),
                pc_counter: pc,
                cycles_until_next: alu_cycles(md),
                ..c
            },
            m1,
        ),
        Instr::Cmp | Instr::Cpx | Instr::Cpy => (
            Nes6502 {
                status_flags: compare_status(s, compare_reg(i, c), v),
                pc_counter: pc,
                cycles_until_next: alu_cycles(md),
                ..c
            },
            m1,
        ),
        Instr::Asl | Instr::Lsr | Instr::Rol | Instr::Ror => if md is Accumulator {
            (
                Nes6502 {
                    accumulator: shift_value(i, c.accumulator, s),
                    status_flags: shift_status(
                        s,
                        shift_value(i, c.accumulator, s),
                        shift_carry(i, c.accumulator),
                    ),
                    pc_counter: pc,
                    cycles_until_next: 2,
                    ..c
                },
                m,
            )
        } else {
            (
                Nes6502 {
                    status_flags: shift_status(s, shift_value(i, v, s), shift_carry(i, v)),
                    pc_counter: pc,
                    cycles_until_next: shift_cycles(md),
                    ..c
                },
                m1.write(ea, shift_value(i, v, s)),
            )
        },
        Instr::Lda | Instr::Ldx | Instr::Ldy => {
            let loaded = Nes6502 {
                status_flags: zn_status(s, v),
                pc_counter: pc,
                cycles_until_next: load_cycles(md, c),
                ..c
            };
            (
                match i {
                    Instr::Lda => Nes6502 { accumulator: v, ..loaded },
                    Instr::Ldx => Nes6502 { x: v, ..loaded },
                    _ => Nes6502 { y: v, ..loaded },
                },
                m1,
            )
        },
        Instr::Sta | Instr::Stx | Instr::Sty => (
            Nes6502 { pc_counter: pc, cycles_until_next: store_cycles(md), ..c },
            m.write(
                ea,
                match i {
                    Instr::Sta => c.accumulator,
                    Instr::Stx => c.x,
                    _ => c.y,
                },
            ),
        ),
        Instr::Inc | Instr::Dec => {
            let op = if i is Inc {
                Step::Inc
            } else {
                Step::Dec
            };
            (
                Nes6502 {
                    status_flags: zn_status(s, step_value(v, op)),
                    pc_counter: pc,
                    cycles_until_next: step_memory_cycles(md),
                    ..c
                },
                m1.write(ea, step_value(v, op)),
            )
        },
        Instr::Bit => (
            Nes6502 {
                status_flags: bit_test_status(s, c.accumulator, v),
                pc_counter: pc,
                cycles_until_next: if md is ZeroPage {
                    3
                } else {
                    4
                },
                ..c
            },
            m1,
        ),
        Instr::Bcc | Instr::Bcs | Instr::Beq | Instr::Bmi | Instr::Bne | Instr::Bpl | Instr::Bvc
        | Instr::Bvs => (
            Nes6502 {
                pc_counter: branch_pc(c.pc_counter, operand_byte(c, m) as i8, branch_taken(i, s)),
                cycles_until_next: 2,
                ..c
            },
            m,
        ),
        Instr::Jmp => if md is Indirect {
            (
                Nes6502 { pc_counter: jump_indirect_target(m, w), cycles_until_next: 5, ..c },
                m.after_read(w).after_read(indirect_high_addr(w)),
            )
        } else {
            (Nes6502 { pc_counter: w, cycles_until_next: 3, ..c }, m)
        },
        Instr::Jsr => (
            Nes6502 { pc_counter: w, stack_pointer: (sp + 2) as u8, cycles_until_next: 6, ..c },
            m.write_word(stack_addr(sp as int), advance(c.pc_counter, 2)),
        ),
        Instr::Rts => (
            Nes6502 {
                pc_counter: advance(m.word(stack_addr(sp - 2)), 1),
                stack_pointer: (sp - 2) as u8,
                cycles_until_next: 6,
                ..c
            },
            m,
        ),
        Instr::Rti => (
            Nes6502 {
                status_flags: m.byte(stack_addr(sp - 1)) | 0b0010_0000,
                pc_counter: m.word(stack_addr(sp - 3)),
                stack_pointer: (sp - 3) as u8,
                cycles_until_next: 6,
                ..c
            },
            m,
        ),
        Instr::Brk => (
            Nes6502 {
                status_flags: with_flag(s, BREAK_CMD_BIT, true),
                pc_counter: m.word(BREAK_VECTOR),
                stack_pointer: (sp + 3) as u8,
                cycles_until_next: 7,
                ..c
            },
            m.write_word(stack_addr(sp as int), advance(c.pc_counter, 1)).write(stack_addr(sp + 2), s),
        ),
        Instr::Pha | Instr::Php => (
            Nes6502 {
                stack_pointer: (sp + 1) as u8,
                pc_counter: advance(c.pc_counter, 1),
                cycles_until_next: 3,
                ..c
            },
            m.write(
                stack_addr(sp as int),
                if i is Pha {
                    c.accumulator
                } else {
                    s
                },
            ),
        ),
        Instr::Pla => (
            Nes6502 {
                accumulator: m.byte(stack_addr(sp - 1)),
                status_flags: zn_status(s, m.byte(stack_addr(sp - 1))),
                stack_pointer: (sp - 1) as u8,
                pc_counter: advance(c.pc_counter, 1),
                cycles_until_next: 4,
                ..c
            },
            m,
        ),
        Instr::Plp => (
            Nes6502 {
                status_flags: m.byte(stack_addr(sp - 1)),
                stack_pointer: (sp - 1) as u8,
                pc_counter: advance(c.pc_counter, 1),
                cycles_until_next: 4,
                ..c
            },
            m,
        ),
        Instr::Nop => (
            Nes6502 {
                pc_counter: pc,
                cycles_until_next: match md {
                    Mode::Immediate => 4u8,
                    Mode::Absolute => 5u8,
                    _ => 2u8,
                },
                ..c
            },
            m,
        ),
        _ => (register_step(c, i), m),
    }
}

/// The fault of a tick, if it faults: none while a latency is waited out;
/// otherwise an unmapped program counter, an opcode with no handler, or the
/// decoded instruction's own fault.
pub open spec fn step_fault(c: Nes6502, m: MemView) -> Option<Fault> {
    if c.cycles_until_next > 0 {
        None
    } else if !is_mapped(c.pc_counter) {
        Some(Fault::UnmappedAddress(c.pc_counter))
    } else {
        match opcode_table(m.byte(c.pc_counter)) {
            None => Some(Fault::UnimplementedOpcode(m.byte(c.pc_counter))),
            Some((i, md)) => instr_fault(c, m, i, md),
        }
    }
}

/// The state after a tick that decodes and executes an instruction without fault.
pub open spec fn fetch_step(c: Nes6502, m: MemView) -> Option<(Nes6502, MemView)> {
    match opcode_table(m.byte(c.pc_counter)) {
        None => None,
        Some((i, md)) => Some(execute_spec(c, m, i, md)),
    }
}

} // verus!
