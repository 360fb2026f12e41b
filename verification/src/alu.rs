//! Arithmetic / bit-manipulation library.
//!
//! Every operation here is pure: it takes register-sized values and returns
//! both the numeric result and the new flags byte.  The flags byte uses only
//! its top four bits — Zero (bit 7), Subtract (bit 6), Half-Carry (bit 5) and
//! Carry (bit 4) — and the low four bits of any flags byte built here are
//! always zero.

use vstd::prelude::*;

verus! {

/// Builds a flags byte from the four flag booleans: Zero in bit 7,
/// Subtract in bit 6, Half-Carry in bit 5, Carry in bit 4.
pub open spec fn flags_of(z: bool, n: bool, h: bool, c: bool) -> u8 {
    ((if z {
        0x80int
    } else {
        0
    }) + (if n {
        0x40int
    } else {
        0
    }) + (if h {
        0x20int
    } else {
        0
    }) + (if c {
        0x10int
    } else {
        0
    })) as u8
}

/// True when the Zero flag (bit 7) is set in the flags byte.
pub open spec fn zero_flag(f: u8) -> bool {
    f / 0x80 % 2 == 1
}

/// True when the Subtract flag (bit 6) is set in the flags byte.
pub open spec fn subtract_flag(f: u8) -> bool {
    f / 0x40 % 2 == 1
}

/// True when the Half-Carry flag (bit 5) is set in the flags byte.
pub open spec fn half_carry_flag(f: u8) -> bool {
    f / 0x20 % 2 == 1
}

/// True when the Carry flag (bit 4) is set in the flags byte.
pub open spec fn carry_flag(f: u8) -> bool {
    f / 0x10 % 2 == 1
}

/// A well-formed flags byte keeps its low four bits zero.
pub open spec fn flags_wf(f: u8) -> bool {
    f % 16 == 0
}

/// A flags byte built from the four booleans reads back exactly those
/// booleans, and its low four bits are zero.
pub proof fn lemma_flags_of_parts(z: bool, n: bool, h: bool, c: bool)
    ensures
        zero_flag(flags_of(z, n, h, c)) == z,
        subtract_flag(flags_of(z, n, h, c)) == n,
        half_carry_flag(flags_of(z, n, h, c)) == h,
        carry_flag(flags_of(z, n, h, c)) == c,
        flags_wf(flags_of(z, n, h, c)),
{
    if z {
        if n {
            if h {
                if c {
                } else {
                }
            } else {
                if c {
                } else {
                }
            }
        } else {
            if h {
                if c {
                } else {
                }
            } else {
                if c {
                } else {
                }
            }
        }
    } else {
        if n {
            if h {
                if c {
                } else {
                }
            } else {
                if c {
                } else {
                }
            }
        } else {
            if h {
                if c {
                } else {
                }
            } else {
                if c {
                } else {
                }
            }
        }
    }
}

/// Every flags byte built from the four booleans is well-formed.
pub proof fn lemma_flags_of_wf_all()
    ensures
        forall|z: bool, n: bool, h: bool, c: bool| flags_wf(#[trigger] flags_of(z, n, h, c)),
{
    assert forall|z: bool, n: bool, h: bool, c: bool| flags_wf(
        #[trigger] flags_of(z, n, h, c),
    ) by {
        lemma_flags_of_parts(z, n, h, c);
    }
}

/// Packs the four flag booleans into a flags byte.
pub fn make_flags(z: bool, n: bool, h: bool, c: bool) -> (r: u8)
    ensures
        r == flags_of(z, n, h, c),
        flags_wf(r),
{
    proof {
        lemma_flags_of_parts(z, n, h, c);
    }
    (if z {
        0x80u8
    } else {
        0
    }) + (if n {
        0x40u8
    } else {
        0
    }) + (if h {
        0x20u8
    } else {
        0
    }) + (if c {
        0x10u8
    } else {
        0
    })
}

/// Whether the Zero flag is set; usable from executable code.
pub fn is_zero_set(f: u8) -> (b: bool)
    ensures
        b == zero_flag(f),
{
    f / 0x80 % 2 == 1
}

/// Whether the Carry flag is set; usable from executable code.
pub fn is_carry_set(f: u8) -> (b: bool)
    ensures
        b == carry_flag(f),
{
    f / 0x10 % 2 == 1
}

/// Result and flags of bitwise AND: Zero per result, Half-Carry set,
/// Subtract and Carry cleared.
pub open spec fn and_spec(a: u8, n: u8) -> (u8, u8) {
    let r = a & n;
    (r, flags_of(r == 0, false, true, false))
}

/// Result and flags of bitwise OR: Zero per result, all other flags cleared.
pub open spec fn or_spec(a: u8, n: u8) -> (u8, u8) {
    let r = a | n;
    (r, flags_of(r == 0, false, false, false))
}

/// Result and flags of bitwise XOR: Zero per result, all other flags cleared.
pub open spec fn xor_spec(a: u8, n: u8) -> (u8, u8) {
    let r = a ^ n;
    (r, flags_of(r == 0, false, false, false))
}

/// Result and flags of complementing a byte: Subtract and Half-Carry set,
/// Zero and Carry carried over from the old flags.
pub open spec fn complement_spec(a: u8, f: u8) -> (u8, u8) {
    (!a, flags_of(zero_flag(f), true, true, carry_flag(f)))
}

/// New flags after toggling Carry: Subtract and Half-Carry cleared, Zero kept.
pub open spec fn complement_carry_spec(f: u8) -> u8 {
    flags_of(zero_flag(f), false, false, !carry_flag(f))
}

/// Result and flags of swapping the two nibbles of a byte.
pub open spec fn swap_spec(v: u8) -> (u8, u8) {
    let r = ((v % 16) * 16 + v / 16) as u8;
    (r, flags_of(r == 0, false, false, false))
}

/// Result and flags of a 1-bit left rotation; Carry receives the bit that
/// was rotated out (bit 7 of the input).
pub open spec fn rotate_left_carry_spec(v: u8) -> (u8, u8) {
    let r = ((v % 128) * 2 + v / 128) as u8;
    (r, flags_of(r == 0, false, false, v >= 128))
}

/// Result and flags of a 1-bit right rotation; Carry receives the bit that
/// was rotated out (bit 0 of the input).
pub open spec fn rotate_right_carry_spec(v: u8) -> (u8, u8) {
    let r = (v / 2 + (v % 2) * 128) as u8;
    (r, flags_of(r == 0, false, false, v % 2 == 1))
}

/// Result and flags of a 1-bit logical left shift; Carry receives bit 7 of
/// the input.
pub open spec fn shift_left_spec(v: u8) -> (u8, u8) {
    let r = ((v % 128) * 2) as u8;
    (r, flags_of(r == 0, false, false, v >= 128))
}

/// Result and flags of a 1-bit logical right shift: bit 7 of the result is
/// cleared; Carry receives bit 0 of the input.
pub open spec fn shift_right_logical_spec(v: u8) -> (u8, u8) {
    let r = v / 2;
    (r, flags_of(r == 0, false, false, v % 2 == 1))
}

/// Result and flags of a 1-bit arithmetic right shift: bit 7 of the input is
/// preserved; Carry receives bit 0 of the input.
pub open spec fn shift_right_arithmetic_spec(v: u8) -> (u8, u8) {
    let r = (v / 2 + (if v >= 128 {
        128int
    } else {
        0
    })) as u8;
    (r, flags_of(r == 0, false, false, v % 2 == 1))
}

/// True when bit `n` of `v` is 1.
pub open spec fn bit_set(v: u8, n: u8) -> bool
    recommends
        n < 8,
{
    (v >> n) & 1 == 1
}

/// New flags after testing bit `n` of `v`: Zero set exactly when the tested
/// bit is 0, Half-Carry set, Subtract cleared, Carry kept.
pub open spec fn test_bit_spec(v: u8, n: u8, f: u8) -> u8
    recommends
        n < 8,
{
    flags_of(!bit_set(v, n), false, true, carry_flag(f))
}

/// `v` with bit `n` forced to 1; flags are untouched by this operation.
pub open spec fn set_bit_spec(v: u8, n: u8) -> u8
    recommends
        n < 8,
{
    v | (1u8 << n)
}

/// `v` with bit `n` forced to 0; flags are untouched by this operation.
pub open spec fn reset_bit_spec(v: u8, n: u8) -> u8
    recommends
        n < 8,
{
    v & !(1u8 << n)
}

/// Bitwise AND of `a` and `n` with its flag encoding.
pub fn and(a: u8, n: u8) -> (r: (u8, u8))
    ensures
        r == and_spec(a, n),
        r.0 == (a & n),
        zero_flag(r.1) == (r.0 == 0),
        !subtract_flag(r.1),
        half_carry_flag(r.1),
        !carry_flag(r.1),
{
    let v = a & n;
    proof {
        lemma_flags_of_parts(v == 0, false, true, false);
    }
    (v, make_flags(v == 0, false, true, false))
}

/// Bitwise OR of `a` and `n` with its flag encoding.
pub fn or(a: u8, n: u8) -> (r: (u8, u8))
    ensures
        r == or_spec(a, n),
        r.0 == (a | n),
        zero_flag(r.1) == (r.0 == 0),
        !subtract_flag(r.1),
        !half_carry_flag(r.1),
        !carry_flag(r.1),
{
    let v = a | n;
    proof {
        lemma_flags_of_parts(v == 0, false, false, false);
    }
    (v, make_flags(v == 0, false, false, false))
}

/// Bitwise XOR of `a` and `n` with its flag encoding.
pub fn xor(a: u8, n: u8) -> (r: (u8, u8))
    ensures
        r == xor_spec(a, n),
        r.0 == (a ^ n),
        zero_flag(r.1) == (r.0 == 0),
        !subtract_flag(r.1),
        !half_carry_flag(r.1),
        !carry_flag(r.1),
{
    let v = a ^ n;
    proof {
        lemma_flags_of_parts(v == 0, false, false, false);
    }
    (v, make_flags(v == 0, false, false, false))
}

/// Complements every bit of `a`; sets Subtract and Half-Carry, keeps Zero
/// and Carry from the old flags byte `f`.
pub fn complement(a: u8, f: u8) -> (r: (u8, u8))
    ensures
        r == complement_spec(a, f),
        r.0 == !a,
        zero_flag(r.1) == zero_flag(f),
        subtract_flag(r.1),
        half_carry_flag(r.1),
        carry_flag(r.1) == carry_flag(f),
{
    let z = is_zero_set(f);
    let c = is_carry_set(f);
    proof {
        lemma_flags_of_parts(z, true, true, c);
    }
    (!a, make_flags(z, true, true, c))
}

/// Toggles the Carry flag; clears Subtract and Half-Carry, keeps Zero.
pub fn complement_carry(f: u8) -> (r: u8)
    ensures
        r == complement_carry_spec(f),
        zero_flag(r) == zero_flag(f),
        !subtract_flag(r),
        !half_carry_flag(r),
        carry_flag(r) == !carry_flag(f),
{
    let z = is_zero_set(f);
    let c = is_carry_set(f);
    proof {
        lemma_flags_of_parts(z, false, false, !c);
    }
    make_flags(z, false, false, !c)
}

/// Swaps the high and low nibbles of `v`.
pub fn swap(v: u8) -> (r: (u8, u8))
    ensures
        r == swap_spec(v),
{
    let res = (v % 16) * 16 + v / 16;
    (res, make_flags(res == 0, false, false, false))
}

/// Rotates `v` left by one bit; Carry receives the former bit 7.
pub fn rotate_left_carry(v: u8) -> (r: (u8, u8))
    ensures
        r == rotate_left_carry_spec(v),
{
    let res = (v % 128) * 2 + v / 128;
    (res, make_flags(res == 0, false, false, v >= 128))
}

/// Rotates `v` right by one bit; Carry receives the former bit 0.
pub fn rotate_right_carry(v: u8) -> (r: (u8, u8))
    ensures
        r == rotate_right_carry_spec(v),
{
    let res = v / 2 + (v % 2) * 128;
    (res, make_flags(res == 0, false, false, v % 2 == 1))
}

/// Shifts `v` left by one bit; Carry receives the former bit 7.
pub fn shift_left(v: u8) -> (r: (u8, u8))
    ensures
        r == shift_left_spec(v),
{
    let res = (v % 128) * 2;
    (res, make_flags(res == 0, false, false, v >= 128))
}

/// Shifts `v` right by one bit, clearing bit 7; Carry receives bit 0.
pub fn shift_right_logical(v: u8) -> (r: (u8, u8))
    ensures
        r == shift_right_logical_spec(v),
{
    let res = v / 2;
    (res, make_flags(res == 0, false, false, v % 2 == 1))
}

/// Shifts `v` right by one bit, preserving bit 7; Carry receives bit 0.
pub fn shift_right_arithmetic(v: u8) -> (r: (u8, u8))
    ensures
        r == shift_right_arithmetic_spec(v),
{
    let res = v / 2 + (if v >= 128 {
        128u8
    } else {
        0
    });
    (res, make_flags(res == 0, false, false, v % 2 == 1))
}

/// Tests bit `n` of `v`: the returned flags have Zero set exactly when the
/// tested bit is 0, Half-Carry set, Subtract cleared and Carry kept from `f`.
pub fn test_bit(v: u8, n: u8, f: u8) -> (r: u8)
    requires
        n < 8,
    ensures
        r == test_bit_spec(v, n, f),
        zero_flag(r) == !bit_set(v, n),
        !subtract_flag(r),
        half_carry_flag(r),
        carry_flag(r) == carry_flag(f),
{
    let b = (v >> n) & 1 == 1;
    let c = is_carry_set(f);
    proof {
        lemma_flags_of_parts(!b, false, true, c);
    }
    make_flags(!b, false, true, c)
}

/// Returns `v` with bit `n` forced to 1; no flags are produced or changed.
pub fn set_bit(v: u8, n: u8) -> (r: u8)
    requires
        n < 8,
    ensures
        r == set_bit_spec(v, n),
        bit_set(r, n),
{
    let r = v | (1u8 << n);
    assert(bit_set(r, n)) by (bit_vector)
        requires
            n < 8 && r == v | (1u8 << n),
    ;
    r
}

/// Returns `v` with bit `n` forced to 0; no flags are produced or changed.
pub fn reset_bit(v: u8, n: u8) -> (r: u8)
    requires
        n < 8,
    ensures
        r == reset_bit_spec(v, n),
        !bit_set(r, n),
{
    let r = v & !(1u8 << n);
    assert(!bit_set(r, n)) by (bit_vector)
        requires
            n < 8 && r == (v & !(1u8 << n)),
    ;
    r
}

} // verus!
