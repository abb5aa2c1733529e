//! Numbers as the sensors lay them out in their registers.

use vstd::prelude::*;

verus! {

/// The value of a 16-bit word sent low byte first.
pub open spec fn le_word(lo: u8, hi: u8) -> int {
    lo + 256 * hi
}

/// The signed number that `n` stands for in two's complement, where `n` is one
/// of the `modulus` bit patterns `0..modulus`.
pub open spec fn twos_complement(n: int, modulus: int) -> int {
    if 2 * n < modulus {
        n
    } else {
        n - modulus
    }
}

/// The signed value of a 16-bit word sent low byte first.
pub open spec fn le_signed_word(lo: u8, hi: u8) -> int {
    twos_complement(le_word(lo, hi), 0x1_0000)
}

/// The signed 12-bit number whose upper eight bits are `high` and whose lower
/// four bits are `nibble`.
pub open spec fn signed_12_bit(high: u8, nibble: int) -> int {
    twos_complement(16 * high + nibble, 0x1000)
}

/// An unsigned 16-bit word from its two bytes, low byte first.
pub fn u16_from_le(lo: u8, hi: u8) -> (word: u16)
    ensures
        word == le_word(lo, hi),
        word == lo + 256 * hi,
{
    hi as u16 * 256 + lo as u16
}

/// A signed 16-bit word from its two bytes, low byte first.
pub fn i16_from_le(lo: u8, hi: u8) -> (word: i16)
    ensures
        word == le_signed_word(lo, hi),
        (word - (lo + 256 * hi)) % 0x1_0000 == 0,
{
    let word: u16 = u16_from_le(lo, hi);
    assert((word as i16) == (if word < 0x8000 { word as int } else { word - 0x1_0000 })) by (bit_vector);
    word as i16
}

/// The signed value of a byte.
pub fn i8_from_byte(byte: u8) -> (value: i8)
    ensures
        value == twos_complement(byte as int, 0x100),
        (value - byte) % 0x100 == 0,
{
    assert((byte as i8) == (if byte < 0x80 { byte as int } else { byte - 0x100 })) by (bit_vector);
    byte as i8
}

/// The signed 12-bit number with upper eight bits `high` and lower four bits
/// `nibble`.
pub fn i12_from_parts(high: u8, nibble: u8) -> (value: i16)
    requires
        nibble < 16,
    ensures
        value == signed_12_bit(high, nibble as int),
        -2048 <= value < 2048,
        (value - (16 * high + nibble)) % 0x1000 == 0,
{
    let upper: i16 = i8_from_byte(high) as i16 * 16;
    let lower: i16 = nibble as i16;
    assert((upper | lower) == upper + lower) by (bit_vector)
        requires
            upper % 16 == 0,
            0 <= lower < 16,
    ;
    upper | lower
}

/// The `N` bytes of a block as an array.
pub fn to_array<const N: usize>(block: &Vec<u8>) -> (array: [u8; N])
    requires
        block@.len() == N,
    ensures
        array@ == block@,
{
    let mut array: [u8; N] = [0; N];
    let mut i: usize = 0;
    while i < N
        invariant
            i <= N,
            block@.len() == N,
            forall|j: int| 0 <= j < i ==> array@[j] == block@[j],
        decreases N - i,
    {
        array[i] = block[i];
        i = i + 1;
    }
    array
}

/// A word sent low byte first counts the low byte once and the high byte 256
/// times.
pub proof fn law_le_word(lo: u8, hi: u8)
    ensures
        le_word(lo, hi) == lo + 256 * hi,
        le_word(lo, hi) % 256 == lo,
        le_word(lo, hi) / 256 == hi,
{
}

/// A signed word is the one number of the 16-bit range that is congruent to
/// what its bytes count.
pub proof fn law_le_signed_word(lo: u8, hi: u8)
    ensures
        -0x8000 <= le_signed_word(lo, hi) < 0x8000,
        (le_signed_word(lo, hi) - (lo + 256 * hi)) % 0x1_0000 == 0,
        le_signed_word(lo, hi) < 0 <==> hi >= 0x80,
{
}

/// Two's complement names, for each bit pattern, the one number congruent to
/// it that lies in the symmetric range.
pub proof fn law_twos_complement(n: int, half: int)
    requires
        0 <= n < 2 * half,
    ensures
        -half <= twos_complement(n, 2 * half) < half,
        twos_complement(n, 2 * half) == n || twos_complement(n, 2 * half) == n - 2 * half,
        (twos_complement(n, 2 * half) - n) % (2 * half) == 0,
{
    let value = twos_complement(n, 2 * half);
    if value == n {
        assert((value - n) % (2 * half) == 0) by (nonlinear_arith)
            requires
                value == n,
                half > 0,
        ;
    } else {
        assert((value - n) % (2 * half) == 0) by (nonlinear_arith)
            requires
                value == n - 2 * half,
                half > 0,
        ;
    }
}

/// A signed 12-bit number is the one number of the 12-bit range that is
/// congruent to 16 times its upper byte plus its lower nibble.
pub proof fn law_signed_12_bit(high: u8, nibble: int)
    requires
        0 <= nibble < 16,
    ensures
        -2048 <= signed_12_bit(high, nibble) < 2048,
        (signed_12_bit(high, nibble) - (16 * high + nibble)) % 0x1000 == 0,
{
}

} // verus!
