//! Bit-level helpers shared by the CPU core and the bus.

use vstd::prelude::*;

verus! {

/// True when bit `bit` of `value` is set.
pub fn is_bit_set(value: u8, bit: u8) -> (r: bool)
    requires
        bit < 8,
    ensures
        r == spec_bit(value, bit),
{
    proof {
        lemma_bit_facts(value, bit);
    }
    (value & (1u8 << bit)) != 0
}

/// Spec-level bit test: bit `bit` of `value`.
pub open spec fn spec_bit(value: u8, bit: u8) -> bool {
    (value >> bit) & 1 == 1
}

/// Set bit `bit` of `value`.
pub fn set_bit(value: &mut u8, bit: u8)
    requires
        bit < 8,
    ensures
        *final(value) == *old(value) | (1u8 << bit),
{
    *value = *value | (1u8 << bit);
}

/// Clear bit `bit` of `value`.
pub fn clear_bit(value: &mut u8, bit: u8)
    requires
        bit < 8,
    ensures
        *final(value) == *old(value) & !(1u8 << bit),
{
    *value = *value & !(1u8 << bit);
}

/// Flip bit `bit` of `value`.
pub fn toggle_bit(value: &mut u8, bit: u8)
    requires
        bit < 8,
    ensures
        *final(value) == *old(value) ^ (1u8 << bit),
{
    *value = *value ^ (1u8 << bit);
}

/// Bit `bit` of `value` as 0 or 1.
pub fn get_bit(value: u8, bit: u8) -> (r: u8)
    requires
        bit < 8,
    ensures
        r == (value >> bit) & 1,
        r == 1 <==> spec_bit(value, bit),
        r == 0 || r == 1,
{
    proof {
        lemma_bit_facts(value, bit);
    }
    (value >> bit) & 1
}

/// Bit tests agree with the mask form, and a shifted-out low bit is 0 or 1.
proof fn lemma_bit_facts(value: u8, bit: u8)
    requires
        bit < 8,
    ensures
        (value >> bit) & 1 == 0 || (value >> bit) & 1 == 1,
        ((value & (1u8 << bit)) != 0) == spec_bit(value, bit),
{
    assert(((value >> bit) & 1 == 0 || (value >> bit) & 1 == 1) && (((value & (1u8 << bit))
        != 0) == ((value >> bit) & 1 == 1))) by (bit_vector)
        requires
            bit < 8,
    ;
}

} // verus!
