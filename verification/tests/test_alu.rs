use chip8::alu::{add_with_carry, shift_left, shift_right, subtract_with_borrow};

#[test]
fn add_with_carry_reports_the_ninth_bit() {
    assert_eq!(add_with_carry(250, 10), (4, true));
    assert_eq!(add_with_carry(10, 10), (20, false));
    assert_eq!(add_with_carry(255, 1), (0, true));
    assert_eq!(add_with_carry(255, 0), (255, false));
    assert_eq!(add_with_carry(255, 255), (254, true));
    assert_eq!(add_with_carry(0, 0), (0, false));
}

#[test]
fn subtract_with_borrow_flags_no_borrow() {
    assert_eq!(subtract_with_borrow(10, 5), (5, true));
    assert_eq!(subtract_with_borrow(5, 10), (251, false));
    assert_eq!(subtract_with_borrow(7, 7), (0, true));
    assert_eq!(subtract_with_borrow(0, 1), (255, false));
    assert_eq!(subtract_with_borrow(0, 255), (1, false));
    assert_eq!(subtract_with_borrow(255, 0), (255, true));
}

#[test]
fn shift_right_captures_the_lowest_bit() {
    assert_eq!(shift_right(0b0000_0011), (0b0000_0001, true));
    assert_eq!(shift_right(0b0000_0010), (0b0000_0001, false));
    assert_eq!(shift_right(0b1000_0000), (0b0100_0000, false));
    assert_eq!(shift_right(0xFF), (0x7F, true));
    assert_eq!(shift_right(0), (0, false));
    assert_eq!(shift_right(1), (0, true));
}

#[test]
fn shift_left_captures_the_highest_bit() {
    assert_eq!(shift_left(0b1000_0001), (0b0000_0010, true));
    assert_eq!(shift_left(0b0100_0001), (0b1000_0010, false));
    assert_eq!(shift_left(0xFF), (0xFE, true));
    assert_eq!(shift_left(0x80), (0, true));
    assert_eq!(shift_left(0x7F), (0xFE, false));
    assert_eq!(shift_left(0), (0, false));
}

#[test]
fn arithmetic_agrees_with_wide_arithmetic_on_every_pair() {
    for left in 0..=255u8 {
        for right in 0..=255u8 {
            let wide = left as u16 + right as u16;
            assert_eq!(add_with_carry(left, right), ((wide % 256) as u8, wide > 255));
            let difference = (256 + left as u16 - right as u16) % 256;
            assert_eq!(subtract_with_borrow(left, right), (difference as u8, left >= right));
        }
        assert_eq!(shift_right(left), (left / 2, left % 2 == 1));
        assert_eq!(shift_left(left), (((left as u16 * 2) % 256) as u8, left >= 128));
    }
}
