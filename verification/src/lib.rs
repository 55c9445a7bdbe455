//! Parity predicates for unsigned integers.
//!
//! A 16-bit parity predicate (is a value even or odd?) together with a
//! capability trait that lets callers ask the question generically of
//! 8-bit and 16-bit unsigned integers.

use vstd::prelude::*;

mod parity;

pub use parity::is_even as is_u16_even;
pub use parity::is_odd as is_u16_odd;
pub use parity::lemma_even_iff_low_bit_clear;
pub use parity::lemma_even_odd_exclusive;
pub use parity::spec_is_even;
pub use parity::spec_is_odd;

verus! {

/// Capability contract for parity checks: any implementing type exposes
/// `is_even` and `is_odd`, both total over the type's values and decided
/// by the numeric value `value_of` alone.
pub trait Parity {
    /// The numeric value whose parity the two operations report.
    spec fn value_of(&self) -> nat;

    /// True exactly when the value is divisible by two.
    fn is_even(&self) -> (r: bool)
        ensures
            r == (self.value_of() % 2 == 0),
    ;

    /// True exactly when the value is not divisible by two.
    fn is_odd(&self) -> (r: bool)
        ensures
            r == (self.value_of() % 2 != 0),
    ;
}

impl Parity for u16 {
    open spec fn value_of(&self) -> nat {
        *self as nat
    }

    fn is_even(&self) -> (r: bool) {
        parity::is_even(*self)
    }

    fn is_odd(&self) -> (r: bool) {
        parity::is_odd(*self)
    }
}

impl Parity for u8 {
    open spec fn value_of(&self) -> nat {
        *self as nat
    }

    fn is_even(&self) -> (r: bool) {
        parity::is_even(*self as u16)
    }

    fn is_odd(&self) -> (r: bool) {
        parity::is_odd(*self as u16)
    }
}

/// Generic entry point: true exactly when `value` is even.
pub fn is_even<T: Parity>(value: T) -> (r: bool)
    ensures
        r == (value.value_of() % 2 == 0),
{
    value.is_even()
}

/// Generic entry point: true exactly when `value` is odd.
pub fn is_odd<T: Parity>(value: T) -> (r: bool)
    ensures
        r == (value.value_of() % 2 != 0),
{
    value.is_odd()
}

/// Zero-extending an 8-bit value to 16 bits keeps its numeric value, so
/// the generic parity check on the 8-bit value agrees with the 16-bit
/// parity predicate on the widened value.
pub proof fn lemma_widening_preserves_parity(v: u8)
    ensures
        (v as u16).value_of() == v.value_of(),
        spec_is_even(v as u16) == (v.value_of() % 2 == 0),
{
}

} // verus!
