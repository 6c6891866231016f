//! Items shared by all peripheral cores: the outcome of a non-blocking
//! status probe, and the spec-level helpers for two-bit register fields.

use vstd::prelude::*;

verus! {

/// Outcome of one non-blocking status probe.
///
/// A probe reads a status register exactly once and returns immediately:
/// either the awaited event has happened, or it has not happened yet (the
/// caller decides whether and when to retry), or the hardware reported a
/// fault, drawn from the peripheral's own closed error set.
pub enum Probe<T, E> {
    /// The awaited event has happened.
    Complete(T),
    /// The event has not happened yet; retry later.
    NotYet,
    /// The hardware reported a fault.
    Fault(E),
}

/// The value of the two-bit field of `word` whose least significant bit
/// is bit `shift`.
pub open spec fn field2_of(word: u32, shift: u32) -> u32 {
    (word >> shift) & 0b11
}

/// `word` with the two-bit field at bit `shift` replaced by the low two
/// bits of `value`, all other bits unchanged.
pub open spec fn with_field2(word: u32, shift: u32, value: u32) -> u32 {
    (word & !(0b11u32 << shift)) | ((value & 0b11) << shift)
}

/// Whether bit `bit` of `word` is set.
pub open spec fn bit_set(word: u32, bit: u32) -> bool {
    word & (1u32 << bit) != 0
}

/// Replacing a two-bit field changes exactly that field: the new word
/// holds `value` there, and every bit outside `[shift, shift + 2)` is
/// unchanged.
pub proof fn lemma_with_field2(word: u32, shift: u32, value: u32)
    requires
        shift <= 30,
        value <= 0b11,
    ensures
        field2_of(with_field2(word, shift, value), shift) == value,
        forall|b: u32|
            b < 32 && !(shift <= b < shift + 2) ==> #[trigger] bit_set(
                with_field2(word, shift, value),
                b,
            ) == bit_set(word, b),
{
    assert(field2_of(with_field2(word, shift, value), shift) == value) by (bit_vector)
        requires
            shift <= 30,
            value <= 0b11,
    ;
    assert forall|b: u32| b < 32 && !(shift <= b < shift + 2) implies #[trigger] bit_set(
        with_field2(word, shift, value),
        b,
    ) == bit_set(word, b) by {
        assert(((word & !(0b11u32 << shift)) | ((value & 0b11) << shift)) & (1u32 << b) == word & (
        1u32 << b)) by (bit_vector)
            requires
                shift <= 30,
                b < 32,
                !(shift <= b < shift + 2),
        ;
    }
}

} // verus!
