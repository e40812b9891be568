//! The processor status register: one bit per flag, and the primitives that
//! set, clear and test them.
use vstd::prelude::*;

verus! {

/// Carry out of bit 7 (after a subtraction: no borrow).
pub const CARRY_BIT: u8 = 0b1;

/// The last result was zero.
pub const ZERO_BIT: u8 = 0b10;

/// Maskable interrupts are ignored.
pub const INTERRUPT_DISABLE_BIT: u8 = 0b100;

/// Decimal mode (kept as a bit only: no BCD arithmetic is performed).
pub const DECIMAL_MODE_BIT: u8 = 0b1000;

/// Set by a software break.
pub const BREAK_CMD_BIT: u8 = 0b1_0000;

/// Signed overflow of the last addition or subtraction.
pub const OVERFLOW_BIT: u8 = 0b10_0000;

/// Bit 7 of the last result.
pub const NEGATIVE_BIT: u8 = 0b100_0000;

/// One of the seven named flags.
pub open spec fn is_flag(bit: u8) -> bool {
    bit == CARRY_BIT || bit == ZERO_BIT || bit == INTERRUPT_DISABLE_BIT || bit == DECIMAL_MODE_BIT
        || bit == BREAK_CMD_BIT || bit == OVERFLOW_BIT || bit == NEGATIVE_BIT
}

/// Whether `bit` is set in `flags`.
pub open spec fn flag_set(flags: u8, bit: u8) -> bool {
    flags & bit != 0
}

/// `flags` with `bit` set when `on` holds and cleared otherwise, all other bits kept.
pub open spec fn with_flag(flags: u8, bit: u8, on: bool) -> u8 {
    if on {
        flags | bit
    } else {
        flags & !bit
    }
}

/// Setting a flag to `on` makes it read back as `on` and leaves every other flag as it was.
pub proof fn lemma_with_flag(flags: u8, bit: u8, on: bool)
    requires
        is_flag(bit),
    ensures
        flag_set(with_flag(flags, bit, on), bit) == on,
        forall|other: u8|
            #![trigger flag_set(with_flag(flags, bit, on), other)]
            is_flag(other) && other != bit ==> flag_set(with_flag(flags, bit, on), other)
                == flag_set(flags, other),
{
    assert(is_flag(bit) ==> (flags | bit) & bit != 0 && (flags & !bit) & bit == 0) by (bit_vector);
    assert forall|other: u8| is_flag(other) && other != bit implies flag_set(
        with_flag(flags, bit, on),
        other,
    ) == flag_set(flags, other) by {
        assert(is_flag(bit) && is_flag(other) && other != bit ==> ((flags | bit) & other != 0) == (
        flags & other != 0) && ((flags & !bit) & other != 0) == (flags & other != 0))
            by (bit_vector);
    }
}

/// Sets `bit`, leaving the other bits as they were.
pub fn set_flag(flags: &mut u8, bit: u8)
    ensures
        *final(flags) == with_flag(*old(flags), bit, true),
{
    *flags = *flags | bit;
}

/// Clears `bit`, leaving the other bits as they were.
pub fn clear_flag(flags: &mut u8, bit: u8)
    ensures
        *final(flags) == with_flag(*old(flags), bit, false),
{
    *flags = *flags & !bit;
}

/// Sets `bit` when `on` holds and clears it otherwise.
pub fn assign_flag(flags: &mut u8, bit: u8, on: bool)
    ensures
        *final(flags) == with_flag(*old(flags), bit, on),
{
    if on {
        set_flag(flags, bit);
    } else {
        clear_flag(flags, bit);
    }
}

/// Whether `bit` is set in `flags`.
pub fn test_flag(flags: u8, bit: u8) -> (r: bool)
    ensures
        r == flag_set(flags, bit),
{
    flags & bit != 0
}

pub fn set_carry(flags: &mut u8)
    ensures
        *final(flags) == with_flag(*old(flags), CARRY_BIT, true),
{
    set_flag(flags, CARRY_BIT);
}

pub fn set_zero(flags: &mut u8)
    ensures
        *final(flags) == with_flag(*old(flags), ZERO_BIT, true),
{
    set_flag(flags, ZERO_BIT);
}

pub fn set_negative(flags: &mut u8)
    ensures
        *final(flags) == with_flag(*old(flags), NEGATIVE_BIT, true),
{
    set_flag(flags, NEGATIVE_BIT);
}

pub fn set_overflow(flags: &mut u8)
    ensures
        *final(flags) == with_flag(*old(flags), OVERFLOW_BIT, true),
{
    set_flag(flags, OVERFLOW_BIT);
}

pub fn set_decimal(flags: &mut u8)
    ensures
        *final(flags) == with_flag(*old(flags), DECIMAL_MODE_BIT, true),
{
    set_flag(flags, DECIMAL_MODE_BIT);
}

pub fn set_interrupt_disable(flags: &mut u8)
    ensures
        *final(flags) == with_flag(*old(flags), INTERRUPT_DISABLE_BIT, true),
{
    set_flag(flags, INTERRUPT_DISABLE_BIT);
}

pub fn clear_carry(flags: &mut u8)
    ensures
        *final(flags) == with_flag(*old(flags), CARRY_BIT, false),
{
    clear_flag(flags, CARRY_BIT);
}

pub fn clear_zero(flags: &mut u8)
    ensures
        *final(flags) == with_flag(*old(flags), ZERO_BIT, false),
{
    clear_flag(flags, ZERO_BIT);
}

pub fn clear_negative(flags: &mut u8)
    ensures
        *final(flags) == with_flag(*old(flags), NEGATIVE_BIT, false),
{
    clear_flag(flags, NEGATIVE_BIT);
}

pub fn clear_overflow(flags: &mut u8)
    ensures
        *final(flags) == with_flag(*old(flags), OVERFLOW_BIT, false),
{
    clear_flag(flags, OVERFLOW_BIT);
}

pub fn clear_interrupt_disable(flags: &mut u8)
    ensures
        *final(flags) == with_flag(*old(flags), INTERRUPT_DISABLE_BIT, false),
{
    clear_flag(flags, INTERRUPT_DISABLE_BIT);
}

pub fn clear_decimal_mode(flags: &mut u8)
    ensures
        *final(flags) == with_flag(*old(flags), DECIMAL_MODE_BIT, false),
{
    clear_flag(flags, DECIMAL_MODE_BIT);
}

} // verus!
