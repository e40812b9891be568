use nes_emu::flags::{
    clear_carry,
    clear_decimal_mode,
    clear_interrupt_disable,
    clear_overflow,
    set_carry,
    set_decimal,
    set_interrupt_disable,
    set_negative,
    set_zero,
    test_flag,
    CARRY_BIT,
    DECIMAL_MODE_BIT,
    INTERRUPT_DISABLE_BIT,
    NEGATIVE_BIT,
    OVERFLOW_BIT,
    ZERO_BIT,
};

#[test]
fn set_and_clear_touch_one_bit() {
    let mut flags: u8 = 0;
    set_carry(&mut flags);
    set_zero(&mut flags);
    set_negative(&mut flags);
    set_decimal(&mut flags);
    set_interrupt_disable(&mut flags);
    assert_eq!(flags, CARRY_BIT | ZERO_BIT | NEGATIVE_BIT | DECIMAL_MODE_BIT | INTERRUPT_DISABLE_BIT);
    clear_carry(&mut flags);
    clear_decimal_mode(&mut flags);
    clear_interrupt_disable(&mut flags);
    assert_eq!(flags, ZERO_BIT | NEGATIVE_BIT);
    // clearing a clear flag leaves it clear
    clear_carry(&mut flags);
    clear_overflow(&mut flags);
    assert_eq!(flags, ZERO_BIT | NEGATIVE_BIT);
    assert!(test_flag(flags, ZERO_BIT));
    assert!(!test_flag(flags, OVERFLOW_BIT));
}
