use vstd::prelude::*;

verus! {

/// The mask with only bit `idx` set.
pub open spec fn bit_mask(idx: u8) -> u8
    recommends
        idx < 8,
{
    (1u8 << idx) as u8
}

/// Whether bit `idx` of `value` is set.
pub open spec fn bit_set(value: u8, idx: u8) -> bool
    recommends
        idx < 8,
{
    (value >> idx) & 1 == 1
}

/// `value` with bit `idx` set to `new_value` and every other bit kept.
pub open spec fn with_bit(value: u8, idx: u8, new_value: bool) -> u8
    recommends
        idx < 8,
{
    if new_value {
        value | bit_mask(idx)
    } else {
        value & !bit_mask(idx)
    }
}

/// Returns whether bit `idx` of `value` is set.
pub fn get_bit(value: u8, idx: u8) -> (r: bool)
    requires
        idx < 8,
    ensures
        r == bit_set(value, idx),
{
    (value >> idx) & 1 == 1
}

/// Returns `value` with bit `idx` set (`new_value` true) or cleared.
pub fn set_bit(value: u8, idx: u8, new_value: bool) -> (r: u8)
    requires
        idx < 8,
    ensures
        r == with_bit(value, idx, new_value),
        bit_set(r, idx) == new_value,
        forall|j: u8| j < 8 && j != idx ==> bit_set(r, j) == bit_set(value, j),
{
    proof {
        lemma_with_bit(value, idx, new_value);
    }
    let mask: u8 = 1u8 << idx;
    if new_value {
        value | mask
    } else {
        value & !mask
    }
}

/// Setting or clearing one bit changes that bit and no other.
pub proof fn lemma_with_bit(value: u8, idx: u8, new_value: bool)
    requires
        idx < 8,
    ensures
        bit_set(with_bit(value, idx, new_value), idx) == new_value,
        forall|j: u8| j < 8 && j != idx ==> bit_set(with_bit(value, idx, new_value), j) == bit_set(value, j),
{
    assert(forall|v: u8, i: u8| i < 8 ==> #[trigger] ((v | ((1u8 << i) as u8)) >> i) & 1 == 1) by (bit_vector);
    assert(forall|v: u8, i: u8| i < 8 ==> #[trigger] ((v & !((1u8 << i) as u8)) >> i) & 1 == 0) by (bit_vector);
    assert(forall|v: u8, i: u8, j: u8| i < 8 && j < 8 && i != j ==>
        #[trigger] (((v | ((1u8 << i) as u8)) >> j) & 1) == (v >> j) & 1) by (bit_vector);
    assert(forall|v: u8, i: u8, j: u8| i < 8 && j < 8 && i != j ==>
        #[trigger] (((v & !((1u8 << i) as u8)) >> j) & 1) == (v >> j) & 1) by (bit_vector);
}

/// Bit `idx` of a byte is the digit of weight `2^idx` in its binary writing.
pub proof fn lemma_bit_set_digit(value: u8, idx: u8)
    requires
        idx < 8,
    ensures
        bit_set(value, idx) == ((value as nat / vstd::arithmetic::power2::pow2(idx as nat)) % 2 == 1),
{
    vstd::arithmetic::power2::lemma2_to64();
    assert(
        (idx == 0 ==> (((value >> idx) & 1 == 1) == ((value / 1) % 2 == 1))) &&
        (idx == 1 ==> (((value >> idx) & 1 == 1) == ((value / 2) % 2 == 1))) &&
        (idx == 2 ==> (((value >> idx) & 1 == 1) == ((value / 4) % 2 == 1))) &&
        (idx == 3 ==> (((value >> idx) & 1 == 1) == ((value / 8) % 2 == 1))) &&
        (idx == 4 ==> (((value >> idx) & 1 == 1) == ((value / 16) % 2 == 1))) &&
        (idx == 5 ==> (((value >> idx) & 1 == 1) == ((value / 32) % 2 == 1))) &&
        (idx == 6 ==> (((value >> idx) & 1 == 1) == ((value / 64) % 2 == 1))) &&
        (idx == 7 ==> (((value >> idx) & 1 == 1) == ((value / 128) % 2 == 1)))
    ) by (bit_vector);
}

} // verus!
