//! Nibble-based steganographic pixel codec.
//!
//! The combiner keeps the high nibble of a base channel and embeds the high
//! nibble of a payload channel in the low nibble of the result; the extractor
//! moves that low nibble back into the high nibble position. Grid-level
//! entry points apply the transform to every channel of every pixel of
//! RGBA pixel grids, validating that the two encode inputs share dimensions.

pub mod channel;
pub mod grid;
