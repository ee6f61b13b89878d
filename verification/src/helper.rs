//! Bit-field extraction from a single byte.
//!
//! Bits are counted from the least significant (0) to the most significant
//! (7). A field is a run of contiguous bits named by the position of its
//! highest bit and by its length.

use vstd::arithmetic::power2::{lemma2_to64, pow2};
use vstd::prelude::*;

verus! {

/// `n` without its `k` lowest bits: `n / 2^k`, for the shifts that a byte
/// allows.
pub open spec fn shift_down(n: int, k: int) -> int {
    if k <= 0 {
        n
    } else if k == 1 {
        n / 2
    } else if k == 2 {
        n / 4
    } else if k == 3 {
        n / 8
    } else if k == 4 {
        n / 16
    } else if k == 5 {
        n / 32
    } else if k == 6 {
        n / 64
    } else if k == 7 {
        n / 128
    } else {
        n / 256
    }
}

/// The `k` lowest bits of `n`: `n mod 2^k`, for the widths that a byte
/// allows.
pub open spec fn low_bits(n: int, k: int) -> int {
    if k <= 0 {
        0
    } else if k == 1 {
        n % 2
    } else if k == 2 {
        n % 4
    } else if k == 3 {
        n % 8
    } else if k == 4 {
        n % 16
    } else if k == 5 {
        n % 32
    } else if k == 6 {
        n % 64
    } else if k == 7 {
        n % 128
    } else {
        n % 256
    }
}

/// The bit of `n` at position `i`.
pub open spec fn bit_value(n: u8, i: int) -> int {
    low_bits(shift_down(n as int, i), 1)
}

/// The unsigned number formed by the `length` bits of `n` whose highest bit
/// is at position `index`: `n` shifted down by `index + 1 - length` bits,
/// and of that the `length` lowest bits.
pub open spec fn field_value(n: u8, index: int, length: int) -> int {
    low_bits(shift_down(n as int, index + 1 - length), length)
}

/// A field of `length` bits ending at `index` lies inside a byte.
pub open spec fn field_fits(index: int, length: int) -> bool {
    1 <= length <= index + 1 <= 8
}

/// A field is the quotient of the byte by `2^(index + 1 - length)`, taken
/// modulo `2^length`.
pub proof fn lemma_field_is_quotient_and_remainder(n: u8, index: int, length: int)
    requires
        field_fits(index, length),
    ensures
        field_value(n, index, length) == (n as int / pow2((index + 1 - length) as nat) as int) % (
        pow2(length as nat) as int),
{
    lemma2_to64();
    let shift = index + 1 - length;
    let divisor = pow2(shift as nat) as int;
    let modulus = pow2(length as nat) as int;
    let quotient = n as int / divisor;
    if shift == 0 {
        lemma_same_divisor(n as int, divisor, 1);
        assert(n as int / 1 == n as int);
    } else if shift == 1 {
        lemma_same_divisor(n as int, divisor, 2);
    } else if shift == 2 {
        lemma_same_divisor(n as int, divisor, 4);
    } else if shift == 3 {
        lemma_same_divisor(n as int, divisor, 8);
    } else if shift == 4 {
        lemma_same_divisor(n as int, divisor, 16);
    } else if shift == 5 {
        lemma_same_divisor(n as int, divisor, 32);
    } else if shift == 6 {
        lemma_same_divisor(n as int, divisor, 64);
    } else {
        lemma_same_divisor(n as int, divisor, 128);
    }
    assert(quotient == shift_down(n as int, shift));
    if length == 1 {
        lemma_same_divisor(quotient, modulus, 2);
    } else if length == 2 {
        lemma_same_divisor(quotient, modulus, 4);
    } else if length == 3 {
        lemma_same_divisor(quotient, modulus, 8);
    } else if length == 4 {
        lemma_same_divisor(quotient, modulus, 16);
    } else if length == 5 {
        lemma_same_divisor(quotient, modulus, 32);
    } else if length == 6 {
        lemma_same_divisor(quotient, modulus, 64);
    } else if length == 7 {
        lemma_same_divisor(quotient, modulus, 128);
    } else {
        lemma_same_divisor(quotient, modulus, 256);
    }
}

proof fn lemma_same_divisor(n: int, divisor: int, known: int)
    requires
        divisor == known,
    ensures
        n / divisor == n / known,
        n % divisor == n % known,
{
}

/// Every field value lies between 0 and `2^length - 1`.
pub proof fn lemma_field_value_range(n: u8, index: int, length: int)
    requires
        field_fits(index, length),
    ensures
        0 <= field_value(n, index, length) <= pow2(length as nat) - 1,
        field_value(n, index, length) <= 255,
{
    lemma2_to64();
}

/// A single bit is a field of length one, and is 0 or 1.
pub proof fn lemma_bit_is_field(n: u8, i: int)
    requires
        0 <= i <= 7,
    ensures
        bit_value(n, i) == field_value(n, i, 1),
        0 <= bit_value(n, i) <= 1,
{
}

proof fn lemma_shift_is_quotient(n: u8, k: u8)
    by (bit_vector)
    requires
        k <= 7,
    ensures
        k == 0 ==> n >> k == n,
        k == 1 ==> n >> k == n / 2,
        k == 2 ==> n >> k == n / 4,
        k == 3 ==> n >> k == n / 8,
        k == 4 ==> n >> k == n / 16,
        k == 5 ==> n >> k == n / 32,
        k == 6 ==> n >> k == n / 64,
        k == 7 ==> n >> k == n / 128,
{
}

proof fn lemma_mask_is_remainder(v: u8, drop: u8)
    by (bit_vector)
    requires
        drop <= 7,
    ensures
        drop == 7 ==> v & (0xffu8 >> drop) == v % 2,
        drop == 6 ==> v & (0xffu8 >> drop) == v % 4,
        drop == 5 ==> v & (0xffu8 >> drop) == v % 8,
        drop == 4 ==> v & (0xffu8 >> drop) == v % 16,
        drop == 3 ==> v & (0xffu8 >> drop) == v % 32,
        drop == 2 ==> v & (0xffu8 >> drop) == v % 64,
        drop == 1 ==> v & (0xffu8 >> drop) == v % 128,
        drop == 0 ==> v & (0xffu8 >> drop) == v,
        0xffu8 >> 7u8 == 1,
{
}

/// Returns the bit of `n` at position `i`, counted from the least
/// significant bit.
///
/// Fails exactly when `i` is above 7, out of a byte's range; the error is
/// the message `Index out of bounds`.
pub fn get_bit_at(n: u8, i: usize) -> (r: Result<u8, String>)
    ensures
        r is Ok <==> i <= 7,
        r matches Ok(b) ==> b == bit_value(n, i as int) && b <= 1,
        r matches Err(e) ==> e@ == "Index out of bounds"@,
{
    if i > 7 {
        return Err("Index out of bounds".to_string());
    }
    proof {
        lemma_shift_is_quotient(n, i as u8);
        lemma_mask_is_remainder(n >> (i as u8), 7);
    }
    Ok((n >> i) & 1)
}

/// Returns the unsigned number held in the `length` contiguous bits of `n`
/// that end at bit `index` (inclusive), counted from the least significant
/// bit.
///
/// Fails exactly when the field does not lie inside the byte. An `index`
/// above 7 is out of range and gives the message `Offset out of bounds`;
/// otherwise a `length` of zero or above `index + 1` is invalid and gives the
/// message `Invalid length`.
pub fn get_num_at(n: u8, index: usize, length: usize) -> (r: Result<u8, String>)
    ensures
        r is Ok <==> field_fits(index as int, length as int),
        r matches Ok(v) ==> v == field_value(n, index as int, length as int) && v <= pow2(
            length as nat,
        ) - 1,
        r matches Err(e) ==> e@ == (if index > 7 {
            "Offset out of bounds"@
        } else {
            "Invalid length"@
        }),
{
    if index > 7 {
        return Err("Offset out of bounds".to_string());
    }
    if length < 1 || length > index + 1 {
        return Err("Invalid length".to_string());
    }
    let shift: usize = index + 1 - length;
    let mask: u8 = 0xffu8 >> (8 - length);
    let shifted: u8 = n >> shift;
    proof {
        lemma_shift_is_quotient(n, shift as u8);
        lemma_mask_is_remainder(shifted, (8 - length) as u8);
        lemma_field_value_range(n, index as int, length as int);
    }
    Ok(shifted & mask)
}

} // verus!
