use vstd::prelude::*;
use crate::blocks::MinecraftBlock;
use crate::result::{MinecraftError, MinecraftResult};

verus! {

/// Radix of the digit alphabet: six block families together provide 91 digits.
pub const BASE: u64 = 91;

/// The base-91 digit value of a block: wool carries 0..15, concrete 16..31,
/// terracotta 32..47, glazed terracotta 48..63, planks 64..74 and stained
/// glass 75..90. Blocks outside the six digit families have no value.
pub open spec fn spec_block_to_bit(b: MinecraftBlock) -> Option<u8> {
    match b {
        MinecraftBlock::WhiteWool => Some(0u8),
        MinecraftBlock::LightGrayWool => Some(1u8),
        MinecraftBlock::GrayWool => Some(2u8),
        MinecraftBlock::BlackWool => Some(3u8),
        MinecraftBlock::BrownWool => Some(4u8),
        MinecraftBlock::RedWool => Some(5u8),
        MinecraftBlock::OrangeWool => Some(6u8),
        MinecraftBlock::YellowWool => Some(7u8),
        MinecraftBlock::LimeWool => Some(8u8),
        MinecraftBlock::GreenWool => Some(9u8),
        MinecraftBlock::CyanWool => Some(10u8),
        MinecraftBlock::LightBlueWool => Some(11u8),
        MinecraftBlock::BlueWool => Some(12u8),
        MinecraftBlock::PurpleWool => Some(13u8),
        MinecraftBlock::MagentaWool => Some(14u8),
        MinecraftBlock::PinkWool => Some(15u8),
        MinecraftBlock::WhiteConcrete => Some(16u8),
        MinecraftBlock::LightGrayConcrete => Some(17u8),
        MinecraftBlock::GrayConcrete => Some(18u8),
        MinecraftBlock::BlackConcrete => Some(19u8),
        MinecraftBlock::BrownConcrete => Some(20u8),
        MinecraftBlock::RedConcrete => Some(21u8),
        MinecraftBlock::OrangeConcrete => Some(22u8),
        MinecraftBlock::YellowConcrete => Some(23u8),
        MinecraftBlock::LimeConcrete => Some(24u8),
        MinecraftBlock::GreenConcrete => Some(25u8),
        MinecraftBlock::CyanConcrete => Some(26u8),
        MinecraftBlock::LightBlueConcrete => Some(27u8),
        MinecraftBlock::BlueConcrete => Some(28u8),
        MinecraftBlock::PurpleConcrete => Some(29u8),
        MinecraftBlock::MagentaConcrete => Some(30u8),
        MinecraftBlock::PinkConcrete => Some(31u8),
        MinecraftBlock::WhiteTerracotta => Some(32u8),
        MinecraftBlock::LightGrayTerracotta => Some(33u8),
        MinecraftBlock::GrayTerracotta => Some(34u8),
        MinecraftBlock::BlackTerracotta => Some(35u8),
        MinecraftBlock::BrownTerracotta => Some(36u8),
        MinecraftBlock::RedTerracotta => Some(37u8),
        MinecraftBlock::OrangeTerracotta => Some(38u8),
        MinecraftBlock::YellowTerracotta => Some(39u8),
        MinecraftBlock::LimeTerracotta => Some(40u8),
        MinecraftBlock::GreenTerracotta => Some(41u8),
        MinecraftBlock::CyanTerracotta => Some(42u8),
        MinecraftBlock::LightBlueTerracotta => Some(43u8),
        MinecraftBlock::BlueTerracotta => Some(44u8),
        MinecraftBlock::PurpleTerracotta => Some(45u8),
        MinecraftBlock::MagentaTerracotta => Some(46u8),
        MinecraftBlock::PinkTerracotta => Some(47u8),
        MinecraftBlock::WhiteGlazedTerracotta => Some(48u8),
        MinecraftBlock::LightGrayGlazedTerracotta => Some(49u8),
        MinecraftBlock::GrayGlazedTerracotta => Some(50u8),
        MinecraftBlock::BlackGlazedTerracotta => Some(51u8),
        MinecraftBlock::BrownGlazedTerracotta => Some(52u8),
        MinecraftBlock::RedGlazedTerracotta => Some(53u8),
        MinecraftBlock::OrangeGlazedTerracotta => Some(54u8),
        MinecraftBlock::YellowGlazedTerracotta => Some(55u8),
        MinecraftBlock::LimeGlazedTerracotta => Some(56u8),
        MinecraftBlock::GreenGlazedTerracotta => Some(57u8),
        MinecraftBlock::CyanGlazedTerracotta => Some(58u8),
        MinecraftBlock::LightBlueGlazedTerracotta => Some(59u8),
        MinecraftBlock::BlueGlazedTerracotta => Some(60u8),
        MinecraftBlock::PurpleGlazedTerracotta => Some(61u8),
        MinecraftBlock::MagentaGlazedTerracotta => Some(62u8),
        MinecraftBlock::PinkGlazedTerracotta => Some(63u8),
        MinecraftBlock::OakPlanks => Some(64u8),
        MinecraftBlock::SprucePlanks => Some(65u8),
        MinecraftBlock::BirchPlanks => Some(66u8),
        MinecraftBlock::JunglePlanks => Some(67u8),
        MinecraftBlock::AcaciaPlanks => Some(68u8),
        MinecraftBlock::DarkOakPlanks => Some(69u8),
        MinecraftBlock::MangrovePlanks => Some(70u8),
        MinecraftBlock::CherryPlanks => Some(71u8),
        MinecraftBlock::BambooPlanks => Some(72u8),
        MinecraftBlock::CrimsonPlanks => Some(73u8),
        MinecraftBlock::WarpedPlanks => Some(74u8),
        MinecraftBlock::WhiteStainedGlass => Some(75u8),
        MinecraftBlock::LightGrayStainedGlass => Some(76u8),
        MinecraftBlock::GrayStainedGlass => Some(77u8),
        MinecraftBlock::BlackStainedGlass => Some(78u8),
        MinecraftBlock::BrownStainedGlass => Some(79u8),
        MinecraftBlock::RedStainedGlass => Some(80u8),
        MinecraftBlock::OrangeStainedGlass => Some(81u8),
        MinecraftBlock::YellowStainedGlass => Some(82u8),
        MinecraftBlock::LimeStainedGlass => Some(83u8),
        MinecraftBlock::GreenStainedGlass => Some(84u8),
        MinecraftBlock::CyanStainedGlass => Some(85u8),
        MinecraftBlock::LightBlueStainedGlass => Some(86u8),
        MinecraftBlock::BlueStainedGlass => Some(87u8),
        MinecraftBlock::PurpleStainedGlass => Some(88u8),
        MinecraftBlock::MagentaStainedGlass => Some(89u8),
        MinecraftBlock::PinkStainedGlass => Some(90u8),
        _ => None,
    }
}

/// The digit block of each value 0..90; the inverse of [`spec_block_to_bit`].
pub open spec fn spec_bit_to_block(v: u8) -> MinecraftBlock
    recommends
        v < 91,
{
    if v == 0 { MinecraftBlock::WhiteWool } else
    if v == 1 { MinecraftBlock::LightGrayWool } else
    if v == 2 { MinecraftBlock::GrayWool } else
    if v == 3 { MinecraftBlock::BlackWool } else
    if v == 4 { MinecraftBlock::BrownWool } else
    if v == 5 { MinecraftBlock::RedWool } else
    if v == 6 { MinecraftBlock::OrangeWool } else
    if v == 7 { MinecraftBlock::YellowWool } else
    if v == 8 { MinecraftBlock::LimeWool } else
    if v == 9 { MinecraftBlock::GreenWool } else
    if v == 10 { MinecraftBlock::CyanWool } else
    if v == 11 { MinecraftBlock::LightBlueWool } else
    if v == 12 { MinecraftBlock::BlueWool } else
    if v == 13 { MinecraftBlock::PurpleWool } else
    if v == 14 { MinecraftBlock::MagentaWool } else
    if v == 15 { MinecraftBlock::PinkWool } else
    if v == 16 { MinecraftBlock::WhiteConcrete } else
    if v == 17 { MinecraftBlock::LightGrayConcrete } else
    if v == 18 { MinecraftBlock::GrayConcrete } else
    if v == 19 { MinecraftBlock::BlackConcrete } else
    if v == 20 { MinecraftBlock::BrownConcrete } else
    if v == 21 { MinecraftBlock::RedConcrete } else
    if v == 22 { MinecraftBlock::OrangeConcrete } else
    if v == 23 { MinecraftBlock::YellowConcrete } else
    if v == 24 { MinecraftBlock::LimeConcrete } else
    if v == 25 { MinecraftBlock::GreenConcrete } else
    if v == 26 { MinecraftBlock::CyanConcrete } else
    if v == 27 { MinecraftBlock::LightBlueConcrete } else
    if v == 28 { MinecraftBlock::BlueConcrete } else
    if v == 29 { MinecraftBlock::PurpleConcrete } else
    if v == 30 { MinecraftBlock::MagentaConcrete } else
    if v == 31 { MinecraftBlock::PinkConcrete } else
    if v == 32 { MinecraftBlock::WhiteTerracotta } else
    if v == 33 { MinecraftBlock::LightGrayTerracotta } else
    if v == 34 { MinecraftBlock::GrayTerracotta } else
    if v == 35 { MinecraftBlock::BlackTerracotta } else
    if v == 36 { MinecraftBlock::BrownTerracotta } else
    if v == 37 { MinecraftBlock::RedTerracotta } else
    if v == 38 { MinecraftBlock::OrangeTerracotta } else
    if v == 39 { MinecraftBlock::YellowTerracotta } else
    if v == 40 { MinecraftBlock::LimeTerracotta } else
    if v == 41 { MinecraftBlock::GreenTerracotta } else
    if v == 42 { MinecraftBlock::CyanTerracotta } else
    if v == 43 { MinecraftBlock::LightBlueTerracotta } else
    if v == 44 { MinecraftBlock::BlueTerracotta } else
    if v == 45 { MinecraftBlock::PurpleTerracotta } else
    if v == 46 { MinecraftBlock::MagentaTerracotta } else
    if v == 47 { MinecraftBlock::PinkTerracotta } else
    if v == 48 { MinecraftBlock::WhiteGlazedTerracotta } else
    if v == 49 { MinecraftBlock::LightGrayGlazedTerracotta } else
    if v == 50 { MinecraftBlock::GrayGlazedTerracotta } else
    if v == 51 { MinecraftBlock::BlackGlazedTerracotta } else
    if v == 52 { MinecraftBlock::BrownGlazedTerracotta } else
    if v == 53 { MinecraftBlock::RedGlazedTerracotta } else
    if v == 54 { MinecraftBlock::OrangeGlazedTerracotta } else
    if v == 55 { MinecraftBlock::YellowGlazedTerracotta } else
    if v == 56 { MinecraftBlock::LimeGlazedTerracotta } else
    if v == 57 { MinecraftBlock::GreenGlazedTerracotta } else
    if v == 58 { MinecraftBlock::CyanGlazedTerracotta } else
    if v == 59 { MinecraftBlock::LightBlueGlazedTerracotta } else
    if v == 60 { MinecraftBlock::BlueGlazedTerracotta } else
    if v == 61 { MinecraftBlock::PurpleGlazedTerracotta } else
    if v == 62 { MinecraftBlock::MagentaGlazedTerracotta } else
    if v == 63 { MinecraftBlock::PinkGlazedTerracotta } else
    if v == 64 { MinecraftBlock::OakPlanks } else
    if v == 65 { MinecraftBlock::SprucePlanks } else
    if v == 66 { MinecraftBlock::BirchPlanks } else
    if v == 67 { MinecraftBlock::JunglePlanks } else
    if v == 68 { MinecraftBlock::AcaciaPlanks } else
    if v == 69 { MinecraftBlock::DarkOakPlanks } else
    if v == 70 { MinecraftBlock::MangrovePlanks } else
    if v == 71 { MinecraftBlock::CherryPlanks } else
    if v == 72 { MinecraftBlock::BambooPlanks } else
    if v == 73 { MinecraftBlock::CrimsonPlanks } else
    if v == 74 { MinecraftBlock::WarpedPlanks } else
    if v == 75 { MinecraftBlock::WhiteStainedGlass } else
    if v == 76 { MinecraftBlock::LightGrayStainedGlass } else
    if v == 77 { MinecraftBlock::GrayStainedGlass } else
    if v == 78 { MinecraftBlock::BlackStainedGlass } else
    if v == 79 { MinecraftBlock::BrownStainedGlass } else
    if v == 80 { MinecraftBlock::RedStainedGlass } else
    if v == 81 { MinecraftBlock::OrangeStainedGlass } else
    if v == 82 { MinecraftBlock::YellowStainedGlass } else
    if v == 83 { MinecraftBlock::LimeStainedGlass } else
    if v == 84 { MinecraftBlock::GreenStainedGlass } else
    if v == 85 { MinecraftBlock::CyanStainedGlass } else
    if v == 86 { MinecraftBlock::LightBlueStainedGlass } else
    if v == 87 { MinecraftBlock::BlueStainedGlass } else
    if v == 88 { MinecraftBlock::PurpleStainedGlass } else
    if v == 89 { MinecraftBlock::MagentaStainedGlass } else
    { MinecraftBlock::PinkStainedGlass }
}

/// True of the 91 blocks that act as base-91 digits.
pub open spec fn is_digit(b: MinecraftBlock) -> bool {
    spec_block_to_bit(b) is Some
}

/// The digit value of a digit block, as a mathematical integer.
pub open spec fn digit_val(b: MinecraftBlock) -> nat
    recommends
        is_digit(b),
{
    spec_block_to_bit(b)->0 as nat
}

impl MinecraftBlock {
    /// The digit block of a value. Total on 0..91; values outside come
    /// back as a `BitToBlock` error carrying the value.
    pub fn bit_to_block(bit: u8) -> (r: MinecraftResult<Self>)
        ensures
            bit < 91 ==> (r matches Ok(b) && b == spec_bit_to_block(bit)),
            bit >= 91 ==> (r matches Err(e) && e == MinecraftError::BitToBlock(bit)),
    {
        match bit {
            0 => Ok(MinecraftBlock::WhiteWool),
            1 => Ok(MinecraftBlock::LightGrayWool),
            2 => Ok(MinecraftBlock::GrayWool),
            3 => Ok(MinecraftBlock::BlackWool),
            4 => Ok(MinecraftBlock::BrownWool),
            5 => Ok(MinecraftBlock::RedWool),
            6 => Ok(MinecraftBlock::OrangeWool),
            7 => Ok(MinecraftBlock::YellowWool),
            8 => Ok(MinecraftBlock::LimeWool),
            9 => Ok(MinecraftBlock::GreenWool),
            10 => Ok(MinecraftBlock::CyanWool),
            11 => Ok(MinecraftBlock::LightBlueWool),
            12 => Ok(MinecraftBlock::BlueWool),
            13 => Ok(MinecraftBlock::PurpleWool),
            14 => Ok(MinecraftBlock::MagentaWool),
            15 => Ok(MinecraftBlock::PinkWool),
            16 => Ok(MinecraftBlock::WhiteConcrete),
            17 => Ok(MinecraftBlock::LightGrayConcrete),
            18 => Ok(MinecraftBlock::GrayConcrete),
            19 => Ok(MinecraftBlock::BlackConcrete),
            20 => Ok(MinecraftBlock::BrownConcrete),
            21 => Ok(MinecraftBlock::RedConcrete),
            22 => Ok(MinecraftBlock::OrangeConcrete),
            23 => Ok(MinecraftBlock::YellowConcrete),
            24 => Ok(MinecraftBlock::LimeConcrete),
            25 => Ok(MinecraftBlock::GreenConcrete),
            26 => Ok(MinecraftBlock::CyanConcrete),
            27 => Ok(MinecraftBlock::LightBlueConcrete),
            28 => Ok(MinecraftBlock::BlueConcrete),
            29 => Ok(MinecraftBlock::PurpleConcrete),
            30 => Ok(MinecraftBlock::MagentaConcrete),
            31 => Ok(MinecraftBlock::PinkConcrete),
            32 => Ok(MinecraftBlock::WhiteTerracotta),
            33 => Ok(MinecraftBlock::LightGrayTerracotta),
            34 => Ok(MinecraftBlock::GrayTerracotta),
            35 => Ok(MinecraftBlock::BlackTerracotta),
            36 => Ok(MinecraftBlock::BrownTerracotta),
            37 => Ok(MinecraftBlock::RedTerracotta),
            38 => Ok(MinecraftBlock::OrangeTerracotta),
            39 => Ok(MinecraftBlock::YellowTerracotta),
            40 => Ok(MinecraftBlock::LimeTerracotta),
            41 => Ok(MinecraftBlock::GreenTerracotta),
            42 => Ok(MinecraftBlock::CyanTerracotta),
            43 => Ok(MinecraftBlock::LightBlueTerracotta),
            44 => Ok(MinecraftBlock::BlueTerracotta),
            45 => Ok(MinecraftBlock::PurpleTerracotta),
            46 => Ok(MinecraftBlock::MagentaTerracotta),
            47 => Ok(MinecraftBlock::PinkTerracotta),
            48 => Ok(MinecraftBlock::WhiteGlazedTerracotta),
            49 => Ok(MinecraftBlock::LightGrayGlazedTerracotta),
            50 => Ok(MinecraftBlock::GrayGlazedTerracotta),
            51 => Ok(MinecraftBlock::BlackGlazedTerracotta),
            52 => Ok(MinecraftBlock::BrownGlazedTerracotta),
            53 => Ok(MinecraftBlock::RedGlazedTerracotta),
            54 => Ok(MinecraftBlock::OrangeGlazedTerracotta),
            55 => Ok(MinecraftBlock::YellowGlazedTerracotta),
            56 => Ok(MinecraftBlock::LimeGlazedTerracotta),
            57 => Ok(MinecraftBlock::GreenGlazedTerracotta),
            58 => Ok(MinecraftBlock::CyanGlazedTerracotta),
            59 => Ok(MinecraftBlock::LightBlueGlazedTerracotta),
            60 => Ok(MinecraftBlock::BlueGlazedTerracotta),
            61 => Ok(MinecraftBlock::PurpleGlazedTerracotta),
            62 => Ok(MinecraftBlock::MagentaGlazedTerracotta),
            63 => Ok(MinecraftBlock::PinkGlazedTerracotta),
            64 => Ok(MinecraftBlock::OakPlanks),
            65 => Ok(MinecraftBlock::SprucePlanks),
            66 => Ok(MinecraftBlock::BirchPlanks),
            67 => Ok(MinecraftBlock::JunglePlanks),
            68 => Ok(MinecraftBlock::AcaciaPlanks),
            69 => Ok(MinecraftBlock::DarkOakPlanks),
            70 => Ok(MinecraftBlock::MangrovePlanks),
            71 => Ok(MinecraftBlock::CherryPlanks),
            72 => Ok(MinecraftBlock::BambooPlanks),
            73 => Ok(MinecraftBlock::CrimsonPlanks),
            74 => Ok(MinecraftBlock::WarpedPlanks),
            75 => Ok(MinecraftBlock::WhiteStainedGlass),
            76 => Ok(MinecraftBlock::LightGrayStainedGlass),
            77 => Ok(MinecraftBlock::GrayStainedGlass),
            78 => Ok(MinecraftBlock::BlackStainedGlass),
            79 => Ok(MinecraftBlock::BrownStainedGlass),
            80 => Ok(MinecraftBlock::RedStainedGlass),
            81 => Ok(MinecraftBlock::OrangeStainedGlass),
            82 => Ok(MinecraftBlock::YellowStainedGlass),
            83 => Ok(MinecraftBlock::LimeStainedGlass),
            84 => Ok(MinecraftBlock::GreenStainedGlass),
            85 => Ok(MinecraftBlock::CyanStainedGlass),
            86 => Ok(MinecraftBlock::LightBlueStainedGlass),
            87 => Ok(MinecraftBlock::BlueStainedGlass),
            88 => Ok(MinecraftBlock::PurpleStainedGlass),
            89 => Ok(MinecraftBlock::MagentaStainedGlass),
            90 => Ok(MinecraftBlock::PinkStainedGlass),
            _ => Err(MinecraftError::BitToBlock(bit)),
        }
    }

    /// The value of a digit block. Exactly the 91 digit blocks succeed;
    /// any other block is a `BlockToBit` error carrying the block.
    pub fn block_to_bit(&self) -> (r: MinecraftResult<u8>)
        ensures
            is_digit(*self) ==> (r matches Ok(v) && Some(v) == spec_block_to_bit(*self)),
            !is_digit(*self) ==> (r matches Err(e) && e == MinecraftError::BlockToBit(*self)),
    {
        match *self {
            MinecraftBlock::WhiteWool => Ok(0),
            MinecraftBlock::LightGrayWool => Ok(1),
            MinecraftBlock::GrayWool => Ok(2),
            MinecraftBlock::BlackWool => Ok(3),
            MinecraftBlock::BrownWool => Ok(4),
            MinecraftBlock::RedWool => Ok(5),
            MinecraftBlock::OrangeWool => Ok(6),
            MinecraftBlock::YellowWool => Ok(7),
            MinecraftBlock::LimeWool => Ok(8),
            MinecraftBlock::GreenWool => Ok(9),
            MinecraftBlock::CyanWool => Ok(10),
            MinecraftBlock::LightBlueWool => Ok(11),
            MinecraftBlock::BlueWool => Ok(12),
            MinecraftBlock::PurpleWool => Ok(13),
            MinecraftBlock::MagentaWool => Ok(14),
            MinecraftBlock::PinkWool => Ok(15),
            MinecraftBlock::WhiteConcrete => Ok(16),
            MinecraftBlock::LightGrayConcrete => Ok(17),
            MinecraftBlock::GrayConcrete => Ok(18),
            MinecraftBlock::BlackConcrete => Ok(19),
            MinecraftBlock::BrownConcrete => Ok(20),
            MinecraftBlock::RedConcrete => Ok(21),
            MinecraftBlock::OrangeConcrete => Ok(22),
            MinecraftBlock::YellowConcrete => Ok(23),
            MinecraftBlock::LimeConcrete => Ok(24),
            MinecraftBlock::GreenConcrete => Ok(25),
            MinecraftBlock::CyanConcrete => Ok(26),
            MinecraftBlock::LightBlueConcrete => Ok(27),
            MinecraftBlock::BlueConcrete => Ok(28),
            MinecraftBlock::PurpleConcrete => Ok(29),
            MinecraftBlock::MagentaConcrete => Ok(30),
            MinecraftBlock::PinkConcrete => Ok(31),
            MinecraftBlock::WhiteTerracotta => Ok(32),
            MinecraftBlock::LightGrayTerracotta => Ok(33),
            MinecraftBlock::GrayTerracotta => Ok(34),
            MinecraftBlock::BlackTerracotta => Ok(35),
            MinecraftBlock::BrownTerracotta => Ok(36),
            MinecraftBlock::RedTerracotta => Ok(37),
            MinecraftBlock::OrangeTerracotta => Ok(38),
            MinecraftBlock::YellowTerracotta => Ok(39),
            MinecraftBlock::LimeTerracotta => Ok(40),
            MinecraftBlock::GreenTerracotta => Ok(41),
            MinecraftBlock::CyanTerracotta => Ok(42),
            MinecraftBlock::LightBlueTerracotta => Ok(43),
            MinecraftBlock::BlueTerracotta => Ok(44),
            MinecraftBlock::PurpleTerracotta => Ok(45),
            MinecraftBlock::MagentaTerracotta => Ok(46),
            MinecraftBlock::PinkTerracotta => Ok(47),
            MinecraftBlock::WhiteGlazedTerracotta => Ok(48),
            MinecraftBlock::LightGrayGlazedTerracotta => Ok(49),
            MinecraftBlock::GrayGlazedTerracotta => Ok(50),
            MinecraftBlock::BlackGlazedTerracotta => Ok(51),
            MinecraftBlock::BrownGlazedTerracotta => Ok(52),
            MinecraftBlock::RedGlazedTerracotta => Ok(53),
            MinecraftBlock::OrangeGlazedTerracotta => Ok(54),
            MinecraftBlock::YellowGlazedTerracotta => Ok(55),
            MinecraftBlock::LimeGlazedTerracotta => Ok(56),
            MinecraftBlock::GreenGlazedTerracotta => Ok(57),
            MinecraftBlock::CyanGlazedTerracotta => Ok(58),
            MinecraftBlock::LightBlueGlazedTerracotta => Ok(59),
            MinecraftBlock::BlueGlazedTerracotta => Ok(60),
            MinecraftBlock::PurpleGlazedTerracotta => Ok(61),
            MinecraftBlock::MagentaGlazedTerracotta => Ok(62),
            MinecraftBlock::PinkGlazedTerracotta => Ok(63),
            MinecraftBlock::OakPlanks => Ok(64),
            MinecraftBlock::SprucePlanks => Ok(65),
            MinecraftBlock::BirchPlanks => Ok(66),
            MinecraftBlock::JunglePlanks => Ok(67),
            MinecraftBlock::AcaciaPlanks => Ok(68),
            MinecraftBlock::DarkOakPlanks => Ok(69),
            MinecraftBlock::MangrovePlanks => Ok(70),
            MinecraftBlock::CherryPlanks => Ok(71),
            MinecraftBlock::BambooPlanks => Ok(72),
            MinecraftBlock::CrimsonPlanks => Ok(73),
            MinecraftBlock::WarpedPlanks => Ok(74),
            MinecraftBlock::WhiteStainedGlass => Ok(75),
            MinecraftBlock::LightGrayStainedGlass => Ok(76),
            MinecraftBlock::GrayStainedGlass => Ok(77),
            MinecraftBlock::BlackStainedGlass => Ok(78),
            MinecraftBlock::BrownStainedGlass => Ok(79),
            MinecraftBlock::RedStainedGlass => Ok(80),
            MinecraftBlock::OrangeStainedGlass => Ok(81),
            MinecraftBlock::YellowStainedGlass => Ok(82),
            MinecraftBlock::LimeStainedGlass => Ok(83),
            MinecraftBlock::GreenStainedGlass => Ok(84),
            MinecraftBlock::CyanStainedGlass => Ok(85),
            MinecraftBlock::LightBlueStainedGlass => Ok(86),
            MinecraftBlock::BlueStainedGlass => Ok(87),
            MinecraftBlock::PurpleStainedGlass => Ok(88),
            MinecraftBlock::MagentaStainedGlass => Ok(89),
            MinecraftBlock::PinkStainedGlass => Ok(90),
            _ => Err(MinecraftError::BlockToBit(*self)),
        }
    }

    /// The digit block of a value known to be below the radix.
    pub fn digit_block(bit: u8) -> (r: Self)
        requires
            bit < 91,
        ensures
            r == spec_bit_to_block(bit),
            spec_block_to_bit(r) == Some(bit),
    {
        proof {
            lemma_bit_to_block_to_bit(bit);
        }
        match MinecraftBlock::bit_to_block(bit) {
            Ok(b) => b,
            Err(_) => MinecraftBlock::WhiteWool,
        }
    }
}

/// Value-to-block-to-value is the identity on 0..91.
pub proof fn lemma_bit_to_block_to_bit(v: u8)
    requires
        v < 91,
    ensures
        spec_block_to_bit(spec_bit_to_block(v)) == Some(v),
{
}

/// Block-to-value-to-block is the identity on the digit blocks.
pub proof fn lemma_block_to_bit_to_block(b: MinecraftBlock)
    requires
        is_digit(b),
    ensures
        spec_block_to_bit(b)->0 < 91,
        spec_bit_to_block(spec_block_to_bit(b)->0) == b,
{
}

} // verus!
