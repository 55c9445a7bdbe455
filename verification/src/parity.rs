use vstd::prelude::*;

verus! {

/// A 16-bit unsigned integer is even exactly when it is divisible by two.
pub open spec fn spec_is_even(v: u16) -> bool {
    v % 2 == 0
}

/// A 16-bit unsigned integer is odd exactly when it is not even.
pub open spec fn spec_is_odd(v: u16) -> bool {
    v % 2 != 0
}

/// Decides evenness of a 16-bit unsigned integer by testing its
/// least-significant bit. Total: defined for every representable value.
pub fn is_even(value: u16) -> (r: bool)
    ensures
        r == spec_is_even(value),
{
    proof {
        assert((value & 1 == 0) == (value % 2 == 0)) by (bit_vector);
    }
    value & 1 == 0
}

/// Decides oddness of a 16-bit unsigned integer: the negation of `is_even`.
pub fn is_odd(value: u16) -> (r: bool)
    ensures
        r == spec_is_odd(value),
{
    !is_even(value)
}

/// Evenness and oddness are mutually exclusive and together cover every
/// 16-bit value: for all `v`, `is_even(v) == !is_odd(v)`.
pub proof fn lemma_even_odd_exclusive(v: u16)
    ensures
        spec_is_even(v) == !spec_is_odd(v),
{
}

/// Parity is decided by the least-significant bit of the binary
/// representation: a value is even exactly when that bit is clear.
pub proof fn lemma_even_iff_low_bit_clear(v: u16)
    ensures
        spec_is_even(v) == (v & 1 == 0),
{
    assert((v % 2 == 0) == (v & 1 == 0)) by (bit_vector);
}

} // verus!
