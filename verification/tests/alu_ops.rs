use gb_core::alu::{
    and, complement, complement_carry, make_flags, or, reset_bit, rotate_left_carry,
    rotate_right_carry, set_bit, shift_left, shift_right_arithmetic, shift_right_logical, swap,
    test_bit, xor,
};

const Z: u8 = 0x80;
const N: u8 = 0x40;
const H: u8 = 0x20;
const C: u8 = 0x10;

#[test]
fn make_flags_packs_bits() {
    assert_eq!(make_flags(false, false, false, false), 0x00);
    assert_eq!(make_flags(true, false, false, false), Z);
    assert_eq!(make_flags(false, true, false, false), N);
    assert_eq!(make_flags(false, false, true, false), H);
    assert_eq!(make_flags(false, false, false, true), C);
    assert_eq!(make_flags(true, true, true, true), 0xF0);
}

#[test]
fn and_flags() {
    assert_eq!(and(0x00, 0x00), (0x00, Z | H));
    assert_eq!(and(0xFF, 0xFF), (0xFF, H));
    assert_eq!(and(0xF0, 0x0F), (0x00, Z | H));
    assert_eq!(and(0xAC, 0xCA), (0x88, H));
}

#[test]
fn or_flags() {
    assert_eq!(or(0x00, 0x00), (0x00, Z));
    assert_eq!(or(0xFF, 0x00), (0xFF, 0x00));
    assert_eq!(or(0xA5, 0x5A), (0xFF, 0x00));
}

#[test]
fn xor_flags() {
    assert_eq!(xor(0x00, 0x00), (0x00, Z));
    assert_eq!(xor(0xFF, 0xFF), (0x00, Z));
    assert_eq!(xor(0xA5, 0xFF), (0x5A, 0x00));
}

#[test]
fn complement_flags() {
    // Subtract and Half-Carry set; Zero and Carry carried over.
    assert_eq!(complement(0x00, 0x00), (0xFF, N | H));
    assert_eq!(complement(0xFF, Z | C), (0x00, Z | N | H | C));
    assert_eq!(complement(0xA5, C), (0x5A, N | H | C));
}

#[test]
fn complement_carry_flags() {
    // Carry toggles; Subtract and Half-Carry clear; Zero kept.
    assert_eq!(complement_carry(0x00), C);
    assert_eq!(complement_carry(C), 0x00);
    assert_eq!(complement_carry(Z), Z | C);
    assert_eq!(complement_carry(0xF0), Z);
}

#[test]
fn rotate_left_carry_wraps_high_bit() {
    assert_eq!(rotate_left_carry(0x80), (0x01, C));
    assert_eq!(rotate_left_carry(0x00), (0x00, Z));
    assert_eq!(rotate_left_carry(0x55), (0xAA, 0x00));
}

#[test]
fn rotate_right_carry_wraps_low_bit() {
    assert_eq!(rotate_right_carry(0x01), (0x80, C));
    assert_eq!(rotate_right_carry(0x00), (0x00, Z));
    assert_eq!(rotate_right_carry(0xAA), (0x55, 0x00));
}

#[test]
fn swap_exchanges_nibbles() {
    assert_eq!(swap(0xAB), (0xBA, 0x00));
    assert_eq!(swap(0x00), (0x00, Z));
    assert_eq!(swap(0xF0), (0x0F, 0x00));
}

#[test]
fn shift_left_takes_bit_seven() {
    assert_eq!(shift_left(0x80), (0x00, Z | C));
    assert_eq!(shift_left(0x41), (0x82, 0x00));
    assert_eq!(shift_left(0x00), (0x00, Z));
}

#[test]
fn shift_right_logical_clears_bit_seven() {
    assert_eq!(shift_right_logical(0x01), (0x00, Z | C));
    assert_eq!(shift_right_logical(0x80), (0x40, 0x00));
    assert_eq!(shift_right_logical(0xFF), (0x7F, C));
}

#[test]
fn shift_right_arithmetic_keeps_bit_seven() {
    assert_eq!(shift_right_arithmetic(0x81), (0xC0, C));
    assert_eq!(shift_right_arithmetic(0x80), (0xC0, 0x00));
    assert_eq!(shift_right_arithmetic(0x01), (0x00, Z | C));
    assert_eq!(shift_right_arithmetic(0x7E), (0x3F, 0x00));
}

#[test]
fn test_bit_zero_iff_bit_clear() {
    for n in 0..8u8 {
        // Exactly bit n set: tested bit is 1, so Zero is clear.
        assert_eq!(test_bit(1 << n, n, 0x00), H);
        // Complement of bit n: tested bit is 0, so Zero is set.
        assert_eq!(test_bit(!(1 << n), n, 0x00), Z | H);
    }
    // Carry is kept from the incoming flags.
    assert_eq!(test_bit(0x80, 7, C), H | C);
    assert_eq!(test_bit(0x00, 7, Z | N | H | C), Z | H | C);
}

#[test]
fn set_and_reset_bit() {
    for n in 0..8u8 {
        assert_eq!(set_bit(0x00, n), 1 << n);
        assert_eq!(reset_bit(0xFF, n), !(1 << n));
        assert_eq!(set_bit(0xFF, n), 0xFF);
        assert_eq!(reset_bit(0x00, n), 0x00);
    }
}
