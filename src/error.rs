use vstd::prelude::*;

verus! {

/// Errors reported by the decoder and by the memory-image loader.
#[derive(Debug, Copy, Clone, PartialEq, Eq)]
pub enum FlispError {
    /// The byte does not encode any instruction; carries the byte.
    InvalidOpCode(u32),
    /// A line of a memory image is malformed; carries its 1-based line number.
    InvalidLineConversion(u32),
}

} // verus!
