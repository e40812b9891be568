//! The addressing-mode resolver and the arithmetic/logic rules shared by the
//! accumulator instructions: fetch the operand the mode names, combine it
//! with the register value, and update the status flags.
use vstd::prelude::*;
use crate::flags::{
    assign_flag,
    flag_set,
    lemma_with_flag,
    test_flag,
    with_flag,
    CARRY_BIT,
    NEGATIVE_BIT,
    OVERFLOW_BIT,
    ZERO_BIT,
};
use crate::memory::{is_mapped, MemView, RAM};

verus! {

/// Which rule combines the register value with the fetched operand.
#[derive(Clone, Copy, Debug, PartialEq, Eq, Structural)]
pub enum Operation {
    Add,
    Sub,
    And,
    Eor,
    Ior,
}

/// Bit 7 of a byte: the sign of its two's-complement reading.
pub open spec fn is_negative(v: u8) -> bool {
    v >= 0x80
}

/// 1 when Carry is set, else 0.
pub open spec fn carry_in(status: u8) -> int {
    if flag_set(status, CARRY_BIT) {
        1
    } else {
        0
    }
}

/// The unbounded value of an operation before it is cut to eight bits.
pub open spec fn raw_result(op: Operation, a: u8, b: u8, status: u8) -> int {
    match op {
        Operation::Add => a + b + carry_in(status),
        Operation::Sub => a - b - (1 - carry_in(status)),
        Operation::And => (a & b) as int,
        Operation::Eor => (a ^ b) as int,
        Operation::Ior => (a | b) as int,
    }
}

/// The eight-bit result of combining `a` with `b`.
pub open spec fn alu_result(op: Operation, a: u8, b: u8, status: u8) -> u8 {
    (raw_result(op, a, b, status) % 256) as u8
}

/// Zero and Negative taken from `r`, every other flag kept.
pub open spec fn zn_status(status: u8, r: u8) -> u8 {
    with_flag(with_flag(status, ZERO_BIT, r == 0), NEGATIVE_BIT, is_negative(r))
}

/// Signed overflow of `a + b` giving `r`: the operands share a sign and the result's differs.
pub open spec fn add_overflows(a: u8, b: u8, r: u8) -> bool {
    is_negative(a) == is_negative(b) && is_negative(r) != is_negative(a)
}

/// Signed overflow of `a - b` giving `r`: the operands' signs differ and the result's differs from `a`'s.
pub open spec fn sub_overflows(a: u8, b: u8, r: u8) -> bool {
    is_negative(a) != is_negative(b) && is_negative(r) != is_negative(a)
}

/// The status register after combining `a` with `b`.
pub open spec fn alu_status(op: Operation, a: u8, b: u8, status: u8) -> u8 {
    let r = alu_result(op, a, b, status);
    let zn = zn_status(status, r);
    match op {
        Operation::Add => with_flag(
            with_flag(zn, CARRY_BIT, raw_result(op, a, b, status) > 255),
            OVERFLOW_BIT,
            add_overflows(a, b, r),
        ),
        Operation::Sub => with_flag(
            with_flag(zn, CARRY_BIT, raw_result(op, a, b, status) >= 0),
            OVERFLOW_BIT,
            sub_overflows(a, b, r),
        ),
        _ => zn,
    }
}

/// Zero page, indexed: the offset wraps inside page zero.
pub open spec fn zero_page_x_addr(operand: u8, x: u8) -> u16 {
    ((operand + x) % 256) as u16
}

/// Absolute, indexed: may cross into the next page; wraps at the top of the space.
pub open spec fn absolute_reg_addr(operand: u16, reg: u8) -> u16 {
    ((operand + reg) % 0x10000) as u16
}

/// Indexed indirect: the pointer sits at the zero-page operand plus X.
pub open spec fn indexed_indirect_addr(m: MemView, operand: u8, x: u8) -> u16 {
    m.word(zero_page_x_addr(operand, x))
}

/// Indirect indexed: the pointer sits at the zero-page operand; Y is added to its target.
pub open spec fn indirect_indexed_addr(m: MemView, operand: u8, y: u8) -> u16 {
    absolute_reg_addr(m.word(operand as u16), y)
}

/// The effective address of the indexed-indirect mode.
pub fn indexed_indirect_target(memory: &RAM, operand: u8, x_val: u8) -> (r: u16)
    ensures
        r == indexed_indirect_addr(memory@, operand, x_val),
{
    memory.peek_mem_address(operand.wrapping_add(x_val) as u16)
}

/// The effective address of the indirect-indexed mode.
pub fn indirect_indexed_target(memory: &RAM, operand: u8, y_val: u8) -> (r: u16)
    ensures
        r == indirect_indexed_addr(memory@, operand, y_val),
{
    memory.peek_mem_address(operand as u16).wrapping_add(y_val as u16)
}

/// Combines `in_val` with `operand` by `op` and updates the flags that `op` owns.
fn match_on_op(in_val: u8, operand: u8, op: Operation, status_flag: &mut u8) -> (r: u8)
    ensures
        r == alu_result(op, in_val, operand, *old(status_flag)),
        *final(status_flag) == alu_status(op, in_val, operand, *old(status_flag)),
{
    let carry: u8 = if test_flag(*status_flag, CARRY_BIT) {
        1
    } else {
        0
    };
    match op {
        Operation::Add => {
            let sum: u16 = in_val as u16 + operand as u16 + carry as u16;
            let result = (sum % 256) as u8;
            set_flags_zn(result, status_flag);
            assign_flag(status_flag, CARRY_BIT, sum > 255);
            assign_flag(
                status_flag,
                OVERFLOW_BIT,
                (in_val >= 0x80) == (operand >= 0x80) && (result >= 0x80) != (in_val >= 0x80),
            );
            result
        },
        Operation::Sub => {
            let diff: i16 = in_val as i16 - operand as i16 - (1 - carry as i16);
            let result: u8 = if diff < 0 {
                (diff + 256) as u8
            } else {
                diff as u8
            };
            set_flags_zn(result, status_flag);
            assign_flag(status_flag, CARRY_BIT, diff >= 0);
            assign_flag(
                status_flag,
                OVERFLOW_BIT,
                (in_val >= 0x80) != (operand >= 0x80) && (result >= 0x80) != (in_val >= 0x80),
            );
            result
        },
        Operation::And => {
            let result = in_val & operand;
            set_flags_zn(result, status_flag);
            result
        },
        Operation::Eor => {
            let result = in_val ^ operand;
            set_flags_zn(result, status_flag);
            result
        },
        Operation::Ior => {
            let result = in_val | operand;
            set_flags_zn(result, status_flag);
            result
        },
    }
}

/// Zero and Negative from `value`; no other flag changes.
pub fn set_flags_zn(value: u8, status_flag: &mut u8)
    ensures
        *final(status_flag) == zn_status(*old(status_flag), value),
{
    assign_flag(status_flag, ZERO_BIT, value == 0);
    assign_flag(status_flag, NEGATIVE_BIT, value >= 0x80);
}

/// Immediate mode: the operand byte is the value.
pub fn immediate(in_val: u8, operand: u8, status_flag: &mut u8, op: Operation) -> (r: u8)
    ensures
        r == alu_result(op, in_val, operand, *old(status_flag)),
        *final(status_flag) == alu_status(op, in_val, operand, *old(status_flag)),
{
    match_on_op(in_val, operand, op, status_flag)
}

/// Zero-page mode: the value is the byte at the operand's zero-page address.
pub fn zero_page(in_val: u8, operand: u8, memory: &mut RAM, status_flag: &mut u8, op: Operation) -> (r: u8)
    ensures
        r == alu_result(op, in_val, old(memory)@.byte(operand as u16), *old(status_flag)),
        *final(status_flag) == alu_status(
            op,
            in_val,
            old(memory)@.byte(operand as u16),
            *old(status_flag),
        ),
        final(memory)@ == old(memory)@,
{
    let mem_value = memory.read_mem_value(operand as u16);
    match_on_op(in_val, mem_value, op, status_flag)
}

/// Zero-page indexed mode: operand plus X, wrapping inside page zero.
pub fn zero_page_x(
    in_val: u8,
    x_val: u8,
    operand: u8,
    memory: &mut RAM,
    status_flag: &mut u8,
    op: Operation,
) -> (r: u8)
    ensures
        r == alu_result(
            op,
            in_val,
            old(memory)@.byte(zero_page_x_addr(operand, x_val)),
            *old(status_flag),
        ),
        *final(status_flag) == alu_status(
            op,
            in_val,
            old(memory)@.byte(zero_page_x_addr(operand, x_val)),
            *old(status_flag),
        ),
        final(memory)@ == old(memory)@,
{
    let addr = operand.wrapping_add(x_val);
    let mem_value = memory.read_mem_value(addr as u16);
    match_on_op(in_val, mem_value, op, status_flag)
}

/// Absolute mode: the operand is the full address.
pub fn absolute(in_val: u8, operand: u16, memory: &mut RAM, status_flag: &mut u8, op: Operation) -> (r: u8)
    requires
        is_mapped(operand),
    ensures
        r == alu_result(op, in_val, old(memory)@.byte(operand), *old(status_flag)),
        *final(status_flag) == alu_status(op, in_val, old(memory)@.byte(operand), *old(status_flag)),
        final(memory)@ == old(memory)@.after_read(operand),
{
    let mem_value = memory.read_mem_value(operand);
    match_on_op(in_val, mem_value, op, status_flag)
}

/// Absolute indexed mode (X or Y): the operand address plus the index register.
pub fn absolute_reg(
    in_val: u8,
    reg: u8,
    operand: u16,
    memory: &mut RAM,
    status_flag: &mut u8,
    op: Operation,
) -> (r: u8)
    requires
        is_mapped(absolute_reg_addr(operand, reg)),
    ensures
        r == alu_result(
            op,
            in_val,
            old(memory)@.byte(absolute_reg_addr(operand, reg)),
            *old(status_flag),
        ),
        *final(status_flag) == alu_status(
            op,
            in_val,
            old(memory)@.byte(absolute_reg_addr(operand, reg)),
            *old(status_flag),
        ),
        final(memory)@ == old(memory)@.after_read(absolute_reg_addr(operand, reg)),
{
    let mem_value = memory.read_mem_value(operand.wrapping_add(reg as u16));
    match_on_op(in_val, mem_value, op, status_flag)
}

/// Indexed indirect mode: read a pointer at the zero-page operand plus X, then the byte it names.
pub fn indexed_indirect(
    in_val: u8,
    x_val: u8,
    operand: u8,
    memory: &mut RAM,
    status_flag: &mut u8,
    op: Operation,
) -> (r: u8)
    requires
        is_mapped(indexed_indirect_addr(old(memory)@, operand, x_val)),
    ensures
        r == alu_result(
            op,
            in_val,
            old(memory)@.byte(indexed_indirect_addr(old(memory)@, operand, x_val)),
            *old(status_flag),
        ),
        *final(status_flag) == alu_status(
            op,
            in_val,
            old(memory)@.byte(indexed_indirect_addr(old(memory)@, operand, x_val)),
            *old(status_flag),
        ),
        final(memory)@ == old(memory)@.after_read(indexed_indirect_addr(old(memory)@, operand, x_val)),
{
    let addr = operand.wrapping_add(x_val);
    let table_addr = memory.read_mem_address(addr as u16);
    let mem_value = memory.read_mem_value(table_addr);
    match_on_op(in_val, mem_value, op, status_flag)
}

/// Indirect indexed mode: read a pointer at the zero-page operand, add Y, then read that byte.
pub fn indirect_indexed(
    in_val: u8,
    y_val: u8,
    operand: u8,
    memory: &mut RAM,
    status_flag: &mut u8,
    op: Operation,
) -> (r: u8)
    requires
        is_mapped(indirect_indexed_addr(old(memory)@, operand, y_val)),
    ensures
        r == alu_result(
            op,
            in_val,
            old(memory)@.byte(indirect_indexed_addr(old(memory)@, operand, y_val)),
            *old(status_flag),
        ),
        *final(status_flag) == alu_status(
            op,
            in_val,
            old(memory)@.byte(indirect_indexed_addr(old(memory)@, operand, y_val)),
            *old(status_flag),
        ),
        final(memory)@ == old(memory)@.after_read(indirect_indexed_addr(old(memory)@, operand, y_val)),
{
    let table_addr = memory.read_mem_address(operand as u16);
    let addr = table_addr.wrapping_add(y_val as u16);
    let mem_value = memory.read_mem_value(addr);
    match_on_op(in_val, mem_value, op, status_flag)
}

/// Bit 7 of a byte, read by mask, is its sign.
pub proof fn lemma_sign_bit(v: u8)
    by (bit_vector)
    ensures
        (v & 0x80 != 0) == is_negative(v),
{
}

/// Addition with Carry clear on entry: the result is the sum modulo 256;
/// Carry is set exactly when the unsigned sum exceeds 255, Zero exactly when
/// the wrapped result is zero, Negative exactly when its bit 7 is set, and
/// Overflow exactly when both operands share a sign bit that the result does
/// not.
pub proof fn lemma_add_flags(a: u8, b: u8, status: u8)
    requires
        !flag_set(status, CARRY_BIT),
    ensures
        alu_result(Operation::Add, a, b, status) == (a + b) % 256,
        flag_set(alu_status(Operation::Add, a, b, status), CARRY_BIT) <==> a + b > 255,
        flag_set(alu_status(Operation::Add, a, b, status), ZERO_BIT) <==> alu_result(
            Operation::Add,
            a,
            b,
            status,
        ) == 0,
        flag_set(alu_status(Operation::Add, a, b, status), NEGATIVE_BIT) <==> alu_result(
            Operation::Add,
            a,
            b,
            status,
        ) & 0x80 != 0,
        flag_set(alu_status(Operation::Add, a, b, status), OVERFLOW_BIT) <==> (a & 0x80 == b & 0x80
            && alu_result(Operation::Add, a, b, status) & 0x80 != a & 0x80),
{
    let r = alu_result(Operation::Add, a, b, status);
    let zn = zn_status(status, r);
    let z = with_flag(status, ZERO_BIT, r == 0);
    let c = with_flag(zn, CARRY_BIT, a + b > 255);
    lemma_with_flag(status, ZERO_BIT, r == 0);
    lemma_with_flag(z, NEGATIVE_BIT, is_negative(r));
    lemma_with_flag(zn, CARRY_BIT, a + b > 255);
    lemma_with_flag(c, OVERFLOW_BIT, add_overflows(a, b, r));
    lemma_sign_bit(a);
    lemma_sign_bit(b);
    lemma_sign_bit(r);
    assert((a & 0x80 == b & 0x80) == (is_negative(a) == is_negative(b))) by (bit_vector);
    assert((r & 0x80 != a & 0x80) == (is_negative(r) != is_negative(a))) by (bit_vector);
}

/// AND of a byte with itself gives the byte back; Zero is set exactly when it
/// is zero, Negative exactly when its bit 7 is set, and Carry and Overflow
/// keep their values.
pub proof fn lemma_and_self(a: u8, status: u8)
    ensures
        alu_result(Operation::And, a, a, status) == a,
        flag_set(alu_status(Operation::And, a, a, status), ZERO_BIT) <==> a == 0,
        flag_set(alu_status(Operation::And, a, a, status), NEGATIVE_BIT) <==> a & 0x80 != 0,
        flag_set(alu_status(Operation::And, a, a, status), CARRY_BIT) == flag_set(status, CARRY_BIT),
        flag_set(alu_status(Operation::And, a, a, status), OVERFLOW_BIT) == flag_set(
            status,
            OVERFLOW_BIT,
        ),
{
    assert(a & a == a) by (bit_vector);
    let z = with_flag(status, ZERO_BIT, a == 0);
    lemma_with_flag(status, ZERO_BIT, a == 0);
    lemma_with_flag(z, NEGATIVE_BIT, is_negative(a));
    lemma_sign_bit(a);
}

} // verus!
