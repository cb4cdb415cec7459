use vstd::prelude::*;
use vstd::arithmetic::power2::{lemma2_to64, pow2};

verus! {

/// Whether bit `index` of `value` is 1: the binary digit of weight `2^index`.
pub open spec fn bit(value: u8, index: u8) -> bool {
    (value as nat / pow2(index as nat)) % 2 == 1
}

/// The eight bits of a register byte, least significant first.
pub open spec fn bits(value: u8) -> Seq<bool> {
    Seq::new(8, |k: int| bit(value, k as u8))
}

/// What a binary digit of the given weight adds to a number.
pub open spec fn digit(on: bool, weight: nat) -> nat {
    if on {
        weight
    } else {
        0
    }
}

/// The byte whose binary digits are the first eight entries of `digits`.
pub open spec fn from_bits(digits: Seq<bool>) -> u8 {
    (digit(digits[0], 1) + digit(digits[1], 2) + digit(digits[2], 4) + digit(digits[3], 8)
        + digit(digits[4], 16) + digit(digits[5], 32) + digit(digits[6], 64) + digit(
        digits[7],
        128,
    )) as u8
}

/// `value` with bit `index` replaced by `on` and every other bit kept.
pub open spec fn with_bit(value: u8, index: u8, on: bool) -> u8
    recommends
        index < 8,
{
    from_bits(bits(value).update(index as int, on))
}

proof fn lemma_mask_is_weight(index: u8)
    requires
        index < 8,
    ensures
        (1u8 << index) as nat == pow2(index as nat),
{
    lemma2_to64();
    assert(1u8 << 0u8 == 1 && 1u8 << 1u8 == 2 && 1u8 << 2u8 == 4 && 1u8 << 3u8 == 8
        && 1u8 << 4u8 == 16 && 1u8 << 5u8 == 32 && 1u8 << 6u8 == 64 && 1u8 << 7u8 == 128)
        by (bit_vector);
}

/// A bit is set exactly when masking the byte with `1 << index` leaves
/// something.
pub proof fn lemma_masked_is_bit(value: u8, index: u8)
    requires
        index < 8,
    ensures
        (value & (1u8 << index) != 0) == bit(value, index),
{
    lemma_mask_is_weight(index);
    assert((value & (1u8 << index) != 0) == ((value / (1u8 << index)) % 2 == 1))
        by (bit_vector)
        requires
            index < 8,
    ;
}

/// The byte with the given binary digits, the least significant first.
spec fn packed(
    d0: bool,
    d1: bool,
    d2: bool,
    d3: bool,
    d4: bool,
    d5: bool,
    d6: bool,
    d7: bool,
) -> u8 {
    ((if d0 { 1u8 } else { 0u8 }) + (if d1 { 2u8 } else { 0u8 })
        + (if d2 { 4u8 } else { 0u8 }) + (if d3 { 8u8 } else { 0u8 })
        + (if d4 { 16u8 } else { 0u8 }) + (if d5 { 32u8 } else { 0u8 })
        + (if d6 { 64u8 } else { 0u8 }) + (if d7 { 128u8 } else { 0u8 })) as u8
}

proof fn lemma_from_bits_is_packed(digits: Seq<bool>)
    ensures
        from_bits(digits) == packed(
            digits[0],
            digits[1],
            digits[2],
            digits[3],
            digits[4],
            digits[5],
            digits[6],
            digits[7],
        ),
{
}

/// A byte is the sum of its binary digits.
pub proof fn lemma_from_bits_of_bits(value: u8)
    ensures
        from_bits(bits(value)) == value,
{
    assert forall|k: u8| k < 8 implies #[trigger] bits(value)[k as int] == (value & (1u8 << k)
        != 0) by {
        lemma_masked_is_bit(value, k);
    }
    assert(bits(value)[0] == (value & (1u8 << 0u8) != 0));
    assert(bits(value)[1] == (value & (1u8 << 1u8) != 0));
    assert(bits(value)[2] == (value & (1u8 << 2u8) != 0));
    assert(bits(value)[3] == (value & (1u8 << 3u8) != 0));
    assert(bits(value)[4] == (value & (1u8 << 4u8) != 0));
    assert(bits(value)[5] == (value & (1u8 << 5u8) != 0));
    assert(bits(value)[6] == (value & (1u8 << 6u8) != 0));
    assert(bits(value)[7] == (value & (1u8 << 7u8) != 0));
    assert(value == packed(
        value & (1u8 << 0u8) != 0,
        value & (1u8 << 1u8) != 0,
        value & (1u8 << 2u8) != 0,
        value & (1u8 << 3u8) != 0,
        value & (1u8 << 4u8) != 0,
        value & (1u8 << 5u8) != 0,
        value & (1u8 << 6u8) != 0,
        value & (1u8 << 7u8) != 0,
    )) by (bit_vector);
    lemma_from_bits_is_packed(bits(value));
}

/// Two bytes with the same bits are the same byte.
pub proof fn lemma_bits_determine_byte(a: u8, b: u8)
    requires
        bits(a) == bits(b),
    ensures
        a == b,
{
    lemma_from_bits_of_bits(a);
    lemma_from_bits_of_bits(b);
}

/// The bits of the byte made from eight digits are those digits.
pub proof fn lemma_bits_of_from_bits(digits: Seq<bool>)
    requires
        digits.len() == 8,
    ensures
        bits(from_bits(digits)) == digits,
{
    let (d0, d1, d2, d3) = (digits[0], digits[1], digits[2], digits[3]);
    let (d4, d5, d6, d7) = (digits[4], digits[5], digits[6], digits[7]);
    let value = from_bits(digits);
    lemma_from_bits_is_packed(digits);
    assert((value & (1u8 << 0u8) != 0) == d0 && (value & (1u8 << 1u8) != 0) == d1
        && (value & (1u8 << 2u8) != 0) == d2 && (value & (1u8 << 3u8) != 0) == d3
        && (value & (1u8 << 4u8) != 0) == d4 && (value & (1u8 << 5u8) != 0) == d5
        && (value & (1u8 << 6u8) != 0) == d6 && (value & (1u8 << 7u8) != 0) == d7)
        by (bit_vector)
        requires
            value == packed(d0, d1, d2, d3, d4, d5, d6, d7),
    ;
    assert forall|k: int| 0 <= k < 8 implies bits(value)[k] == digits[k] by {
        lemma_masked_is_bit(value, k as u8);
    }
    assert(bits(value) =~= digits);
}

/// The bits of `with_bit(value, index, on)`: those of `value`, with `on` at
/// `index`.
pub proof fn lemma_bits_of_with_bit(value: u8, index: u8, on: bool)
    requires
        index < 8,
    ensures
        bits(with_bit(value, index, on)) == bits(value).update(index as int, on),
{
    lemma_bits_of_from_bits(bits(value).update(index as int, on));
}

/// Whether bit `index` of `value` is set.
pub fn test_bit(value: u8, index: u8) -> (on: bool)
    requires
        index < 8,
    ensures
        on == bit(value, index),
{
    proof {
        lemma_masked_is_bit(value, index);
    }
    (value & (1u8 << index)) != 0
}

proof fn lemma_masked_update_bit(value: u8, index: u8, on: bool, k: u8)
    requires
        index < 8,
        k < 8,
    ensures
        on ==> bit(value | (1u8 << index), k) == (k == index || bit(value, k)),
        !on ==> bit(value & !(1u8 << index), k) == (k != index && bit(value, k)),
{
    lemma_masked_is_bit(value, k);
    lemma_masked_is_bit(value | (1u8 << index), k);
    lemma_masked_is_bit(value & !(1u8 << index), k);
    assert(((value | (1u8 << index)) & (1u8 << k) != 0) == (k == index || value & (1u8 << k)
        != 0)) by (bit_vector)
        requires
            index < 8,
            k < 8,
    ;
    assert(((value & !(1u8 << index)) & (1u8 << k) != 0) == (k != index && value & (1u8 << k)
        != 0)) by (bit_vector)
        requires
            index < 8,
            k < 8,
    ;
}

/// Replacing one bit is an `or` with the bit's mask to set it, and an `and`
/// with the complement of the mask to clear it.
pub proof fn lemma_with_bit_is_masked(value: u8, index: u8, on: bool)
    requires
        index < 8,
    ensures
        on ==> with_bit(value, index, on) == value | (1u8 << index),
        !on ==> with_bit(value, index, on) == value & !(1u8 << index),
{
    let masked = if on {
        value | (1u8 << index)
    } else {
        value & !(1u8 << index)
    };
    assert forall|k: int| 0 <= k < 8 implies bits(masked)[k] == bits(value).update(
        index as int,
        on,
    )[k] by {
        lemma_masked_update_bit(value, index, on, k as u8);
    }
    assert(bits(masked) =~= bits(value).update(index as int, on));
    lemma_from_bits_of_bits(masked);
}

/// Replaces bit `index` of `value` by `on` and keeps the other seven bits.
pub fn assign_bit(value: u8, index: u8, on: bool) -> (result: u8)
    requires
        index < 8,
    ensures
        result == with_bit(value, index, on),
        bits(result) == bits(value).update(index as int, on),
{
    proof {
        lemma_with_bit_is_masked(value, index, on);
        lemma_bits_of_with_bit(value, index, on);
    }
    if on {
        value | (1u8 << index)
    } else {
        value & !(1u8 << index)
    }
}

} // verus!
