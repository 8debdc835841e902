//! Single-bit helpers on bytes.

use vstd::prelude::*;

verus! {

/// Whether bit `bit_position` (0 is the least significant) of `value` is 1.
pub open spec fn spec_is_bit_set(value: u8, bit_position: u8) -> bool {
    value & (1u8 << bit_position) != 0
}

/// `value` with bit `bit_position` forced to 1.
pub open spec fn spec_set_bit(value: u8, bit_position: u8) -> u8 {
    value | (1u8 << bit_position)
}

/// `value` with bit `bit_position` forced to 0.
pub open spec fn spec_unset_bit(value: u8, bit_position: u8) -> u8 {
    value & !(1u8 << bit_position)
}

/// `value` with bit `bit_position` forced to `bit_value`.
pub open spec fn spec_write_bit(value: u8, bit_position: u8, bit_value: bool) -> u8 {
    if bit_value {
        spec_set_bit(value, bit_position)
    } else {
        spec_unset_bit(value, bit_position)
    }
}

pub fn is_bit_set(value: u8, bit_position: u8) -> (set: bool)
    requires
        bit_position < 8,
    ensures
        set == spec_is_bit_set(value, bit_position),
{
    (value & (1u8 << bit_position)) != 0
}

pub fn write_bit(value: u8, bit_position: u8, bit_value: bool) -> (written: u8)
    requires
        bit_position < 8,
    ensures
        written == spec_write_bit(value, bit_position, bit_value),
{
    if bit_value {
        compute_set_bit(value, bit_position)
    } else {
        compute_unset_bit(value, bit_position)
    }
}

fn compute_set_bit(value: u8, bit_position: u8) -> (written: u8)
    requires
        bit_position < 8,
    ensures
        written == spec_set_bit(value, bit_position),
{
    value | (1u8 << bit_position)
}

fn compute_unset_bit(value: u8, bit_position: u8) -> (written: u8)
    requires
        bit_position < 8,
    ensures
        written == spec_unset_bit(value, bit_position),
{
    value & !(1u8 << bit_position)
}

pub fn set_bit(value: &mut u8, bit_position: u8)
    requires
        bit_position < 8,
    ensures
        *final(value) == spec_set_bit(*old(value), bit_position),
{
    *value = compute_set_bit(*value, bit_position)
}

pub fn unset_bit(value: &mut u8, bit_position: u8)
    requires
        bit_position < 8,
    ensures
        *final(value) == spec_unset_bit(*old(value), bit_position),
{
    *value = compute_unset_bit(*value, bit_position)
}

/// Writing a bit makes it read back as written and leaves every other bit as it was.
pub proof fn lemma_write_then_read_bit(value: u8, written: u8, read: u8, bit_value: bool)
    requires
        written < 8,
        read < 8,
    ensures
        spec_is_bit_set(spec_write_bit(value, written, bit_value), read) == if read == written {
            bit_value
        } else {
            spec_is_bit_set(value, read)
        },
{
    assert(spec_is_bit_set(spec_set_bit(value, written), read) == if read == written {
        true
    } else {
        spec_is_bit_set(value, read)
    }) by (bit_vector)
        requires
            written < 8,
            read < 8,
    ;
    assert(spec_is_bit_set(spec_unset_bit(value, written), read) == if read == written {
        false
    } else {
        spec_is_bit_set(value, read)
    }) by (bit_vector)
        requires
            written < 8,
            read < 8,
    ;
}

} // verus!
