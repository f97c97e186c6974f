use vstd::prelude::*;
use crate::blocks::MinecraftBlock;

verus! {

/// The error taxonomy of the codec. Every failure of a (de)serialization
/// call is fatal to that call and surfaced as one of these kinds.
#[derive(Debug, PartialEq)]
pub enum MinecraftError {
    /// The underlying block channel failed (closed stream, end of input,
    /// transport fault).
    Transport,
    /// A received canonical name lies outside the block alphabet.
    UnknownBlockType(String),
    /// A required position held the wrong block.
    UnexpectedBlock { expected: MinecraftBlock, found: MinecraftBlock },
    /// A block was unacceptable at a position where several blocks would
    /// have been allowed, so no single expectation can be named.
    AnUnexpectedBlock(MinecraftBlock),
    /// A digit value outside 0..91 was asked to become a block.
    BitToBlock(u8),
    /// A block outside the digit families stood where a digit was required.
    BlockToBit(MinecraftBlock),
    /// The bytes of a decoded string are not valid UTF-8.
    InvalidUtf8,
    /// A decoded number exceeds the declared width, or a decoded byte
    /// exceeds 255.
    Overflow,
    /// A decoded 32-bit value is not a Unicode scalar.
    InvalidChar(u32),
    /// The channel refused to step its cursor back.
    RewindFailed,
    /// A decoded struct name differs from the one the schema asked for.
    NameMismatch,
    /// A decoded length differs from the schema's; carries the length
    /// found on the wire.
    LengthMismatch(u32),
    /// Generic wrapper for host-layer errors.
    Custom(String),
}

pub type MinecraftResult<T> = Result<T, MinecraftError>;

} // verus!
