//! Per-channel nibble transforms.
//!
//! A channel value is an 8-bit color component. The combiner keeps the high
//! nibble of the base channel and places the high nibble of the payload
//! channel in the low nibble of the result; the extractor moves the low
//! nibble of a combined value back into the high nibble position, zeroing
//! the low nibble. Both are total over the full `u8` domain.

use vstd::prelude::*;

verus! {

/// The combined channel value: the base's high nibble kept in place, the
/// payload's high nibble moved into the output's low nibble. The low
/// nibbles of both inputs are discarded.
pub open spec fn combined(base: u8, payload: u8) -> u8 {
    (base / 16 * 16 + payload / 16) as u8
}

/// The recovered channel value: the low nibble of a combined value moved
/// into the high nibble position, with the low nibble zero-filled.
pub open spec fn extracted(mixed: u8) -> u8 {
    (mixed % 16 * 16) as u8
}

/// Combine one base channel with one payload channel.
pub fn sum_pix(base: u8, mixed: u8) -> (r: u8)
    ensures
        r == combined(base, mixed),
{
    base / 16 * 16 + mixed / 16
}

/// Recover an approximation of the payload channel from a combined channel.
pub fn retrieve_pix(mix: u8) -> (r: u8)
    ensures
        r == extracted(mix),
{
    mix % 16 * 16
}

/// Round trip: extracting a combined channel recovers exactly the payload's
/// high nibble, shifted into the high nibble position with the low nibble
/// zeroed; the base channel contributes nothing to the recovered value.
pub proof fn lemma_round_trip(base: u8, payload: u8)
    ensures
        extracted(combined(base, payload)) == payload / 16 * 16,
{
}

/// Extracting twice always yields zero: the extractor's output is a multiple
/// of 16, whose own low nibble is zero. In particular extraction is not
/// idempotent on any value it maps to a nonzero result.
pub proof fn lemma_extract_twice(mixed: u8)
    ensures
        extracted(extracted(mixed)) == 0,
{
}

} // verus!
