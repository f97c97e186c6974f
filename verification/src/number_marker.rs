use vstd::prelude::*;
use crate::blocks::MinecraftBlock;

verus! {

/// The marker block of a numeric type together with its signedness
/// token, where the type has one.
pub struct NumberMarker {
    /// The marker block that opens and closes the number production.
    pub marker: MinecraftBlock,
    /// The signedness token sent after the opening marker, for the
    /// signed integer types; `None` for the unsigned ones, floats and
    /// characters.
    pub signed: Option<MinecraftBlock>,
}

/// The blocks that open a number production of some numeric type.
pub open spec fn spec_is_marker(b: MinecraftBlock) -> bool {
    ||| b == MinecraftBlock::EndStone
    ||| b == MinecraftBlock::RawIronBlock
    ||| b == MinecraftBlock::RawCopperBlock
    ||| b == MinecraftBlock::RawGoldBlock
    ||| b == MinecraftBlock::Shroomlight
    ||| b == MinecraftBlock::Glowstone
    ||| b == MinecraftBlock::ChiseledDeepslate
}

/// The signedness tokens of the four signed integer widths.
pub open spec fn spec_is_sign_marker(b: MinecraftBlock) -> bool {
    ||| b == MinecraftBlock::OchreFroglight
    ||| b == MinecraftBlock::VerdantFroglight
    ||| b == MinecraftBlock::PearlescentFroglight
    ||| b == MinecraftBlock::SeaLantern
}

impl NumberMarker {
    /// Pairs a marker with its signedness token.
    pub fn new(marker: MinecraftBlock, signed: Option<MinecraftBlock>) -> (r: NumberMarker)
        ensures
            r.marker == marker,
            r.signed == signed,
    {
        NumberMarker { marker, signed }
    }

    /// True of the blocks that open a number production.
    pub fn is_marker(block: &MinecraftBlock) -> (r: bool)
        ensures
            r == spec_is_marker(*block),
    {
        match *block {
            MinecraftBlock::EndStone
            | MinecraftBlock::RawIronBlock
            | MinecraftBlock::RawCopperBlock
            | MinecraftBlock::RawGoldBlock
            | MinecraftBlock::Shroomlight
            | MinecraftBlock::Glowstone
            | MinecraftBlock::ChiseledDeepslate => true,
            _ => false,
        }
    }

    /// True of the signedness tokens.
    pub fn is_sign_marker(block: &MinecraftBlock) -> (r: bool)
        ensures
            r == spec_is_sign_marker(*block),
    {
        match *block {
            MinecraftBlock::OchreFroglight
            | MinecraftBlock::VerdantFroglight
            | MinecraftBlock::PearlescentFroglight
            | MinecraftBlock::SeaLantern => true,
            _ => false,
        }
    }
}

} // verus!
