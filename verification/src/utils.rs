//! Single-bit accessors on bytes.
//!
//! Every flag of the status register, and several hardware quirks, come down
//! to reading or writing one bit of a byte; these helpers are the only place
//! in the crate where that bit manipulation happens.

use vstd::prelude::*;

verus! {

/// The value (0 or 1) of bit `i` of `byte`.
pub open spec fn spec_get_bit(byte: u8, i: u8) -> u8 {
    (byte >> i) & 1
}

/// `byte` with bit `i` forced to 1 when `value` holds, and to 0 otherwise.
pub open spec fn spec_set_bit(byte: u8, i: u8, value: bool) -> u8 {
    if value {
        byte | (1u8 << i)
    } else {
        byte & !(1u8 << i)
    }
}

/// `byte` with bit `i` flipped.
pub open spec fn spec_toggle_bit(byte: u8, i: u8) -> u8 {
    byte ^ (1u8 << i)
}

/// A bit read back is the bit written, and writing one bit leaves the seven
/// others exactly as they were.
pub proof fn lemma_set_bit(b: u8, i: u8, j: u8, v: bool)
    by (bit_vector)
    requires
        i < 8,
        j < 8,
    ensures
        i == j ==> spec_get_bit(spec_set_bit(b, i, v), j) == if v {
            1u8
        } else {
            0u8
        },
        i != j ==> spec_get_bit(spec_set_bit(b, i, v), j) == spec_get_bit(b, j),
{
}

/// Flipping a bit turns 0 into 1 and 1 into 0 there, and leaves the seven
/// other bits exactly as they were.
pub proof fn lemma_toggle_bit(b: u8, i: u8, j: u8)
    by (bit_vector)
    requires
        i < 8,
        j < 8,
    ensures
        i == j ==> spec_get_bit(spec_toggle_bit(b, i), j) == if spec_get_bit(b, j) == 1 {
            0u8
        } else {
            1u8
        },
        i != j ==> spec_get_bit(spec_toggle_bit(b, i), j) == spec_get_bit(b, j),
{
}

/// A bit is always 0 or 1.
pub proof fn lemma_get_bit_bound(b: u8, i: u8)
    by (bit_vector)
    ensures
        spec_get_bit(b, i) == 0 || spec_get_bit(b, i) == 1,
{
}

/// Reads bit `i` of `byte`, as 0 or 1.
pub fn get_bit(byte: &u8, i: u8) -> (r: u8)
    requires
        i < 8,
    ensures
        r == spec_get_bit(*byte, i),
        r == 0 || r == 1,
{
    proof {
        lemma_get_bit_bound(*byte, i);
    }
    (*byte >> i) & 1u8
}

/// Sets bit `i` of `byte` to 1 when `value` holds and to 0 otherwise; the
/// other bits keep their values.
pub fn set_bit(byte: &mut u8, i: u8, value: bool)
    requires
        i < 8,
    ensures
        *final(byte) == spec_set_bit(*old(byte), i, value),
        spec_get_bit(*final(byte), i) == if value {
            1u8
        } else {
            0u8
        },
        forall|j: u8| j < 8 && j != i ==> spec_get_bit(*final(byte), j) == spec_get_bit(*old(byte), j),
{
    if value {
        *byte = *byte | (1u8 << i);
    } else {
        *byte = *byte & !(1u8 << i);
    }
    proof {
        lemma_set_bit(*old(byte), i, i, value);
        assert forall|j: u8| j < 8 && j != i implies spec_get_bit(*byte, j) == spec_get_bit(
            *old(byte),
            j,
        ) by {
            lemma_set_bit(*old(byte), i, j, value);
        }
    }
}

/// Flips bit `i` of `byte`; the other bits keep their values.
pub fn toggle_bit(byte: &mut u8, i: u8)
    requires
        i < 8,
    ensures
        *final(byte) == spec_toggle_bit(*old(byte), i),
        spec_get_bit(*final(byte), i) == if spec_get_bit(*old(byte), i) == 1 {
            0u8
        } else {
            1u8
        },
        forall|j: u8| j < 8 && j != i ==> spec_get_bit(*final(byte), j) == spec_get_bit(*old(byte), j),
{
    *byte = *byte ^ (1u8 << i);
    proof {
        lemma_toggle_bit(*old(byte), i, i);
        assert forall|j: u8| j < 8 && j != i implies spec_get_bit(*byte, j) == spec_get_bit(
            *old(byte),
            j,
        ) by {
            lemma_toggle_bit(*old(byte), i, j);
        }
    }
}

/// Clears bit `i` of `byte` to 0; the other bits keep their values.
pub fn clear_bit(byte: &mut u8, i: u8)
    requires
        i < 8,
    ensures
        *final(byte) == spec_set_bit(*old(byte), i, false),
        spec_get_bit(*final(byte), i) == 0,
        forall|j: u8| j < 8 && j != i ==> spec_get_bit(*final(byte), j) == spec_get_bit(*old(byte), j),
{
    set_bit(byte, i, false)
}

} // verus!
