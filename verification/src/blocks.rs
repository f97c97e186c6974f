use vstd::prelude::*;
use crate::result::MinecraftError;

verus! {

/// The closed token alphabet of the codec. One block is one token; the
/// canonical wire name of each block is given by [`block_name`].
#[derive(Debug, Clone, Copy, PartialEq, Eq, Structural, Hash)]
pub enum MinecraftBlock {
    Stone,
    EndStone,
    Cobblestone,
    QuartzBlock,
    Obsidian,
    Shroomlight,
    ChiseledDeepslate,
    Blackstone,
    GildedBlackstone,
    Prismarine,
    DarkPrismarine,
    AmethystBlock,
    PurpurBlock,
    PurpurPillar,
    OchreFroglight,
    VerdantFroglight,
    PearlescentFroglight,
    SeaLantern,
    WhiteWool,
    LightGrayWool,
    GrayWool,
    BlackWool,
    BrownWool,
    RedWool,
    OrangeWool,
    YellowWool,
    LimeWool,
    GreenWool,
    CyanWool,
    LightBlueWool,
    BlueWool,
    PurpleWool,
    MagentaWool,
    PinkWool,
    WhiteStainedGlass,
    LightGrayStainedGlass,
    GrayStainedGlass,
    BlackStainedGlass,
    BrownStainedGlass,
    RedStainedGlass,
    OrangeStainedGlass,
    YellowStainedGlass,
    LimeStainedGlass,
    GreenStainedGlass,
    CyanStainedGlass,
    LightBlueStainedGlass,
    BlueStainedGlass,
    PurpleStainedGlass,
    MagentaStainedGlass,
    PinkStainedGlass,
    WhiteConcrete,
    LightGrayConcrete,
    GrayConcrete,
    BlackConcrete,
    BrownConcrete,
    RedConcrete,
    OrangeConcrete,
    YellowConcrete,
    LimeConcrete,
    GreenConcrete,
    CyanConcrete,
    LightBlueConcrete,
    BlueConcrete,
    PurpleConcrete,
    MagentaConcrete,
    PinkConcrete,
    WhiteGlazedTerracotta,
    LightGrayGlazedTerracotta,
    GrayGlazedTerracotta,
    BlackGlazedTerracotta,
    BrownGlazedTerracotta,
    RedGlazedTerracotta,
    OrangeGlazedTerracotta,
    YellowGlazedTerracotta,
    LimeGlazedTerracotta,
    GreenGlazedTerracotta,
    CyanGlazedTerracotta,
    LightBlueGlazedTerracotta,
    BlueGlazedTerracotta,
    PurpleGlazedTerracotta,
    MagentaGlazedTerracotta,
    PinkGlazedTerracotta,
    WhiteTerracotta,
    LightGrayTerracotta,
    GrayTerracotta,
    BlackTerracotta,
    BrownTerracotta,
    RedTerracotta,
    OrangeTerracotta,
    YellowTerracotta,
    LimeTerracotta,
    GreenTerracotta,
    CyanTerracotta,
    LightBlueTerracotta,
    BlueTerracotta,
    PurpleTerracotta,
    MagentaTerracotta,
    PinkTerracotta,
    OakPlanks,
    SprucePlanks,
    BirchPlanks,
    JunglePlanks,
    AcaciaPlanks,
    DarkOakPlanks,
    MangrovePlanks,
    CherryPlanks,
    BambooPlanks,
    CrimsonPlanks,
    WarpedPlanks,
    CoalBlock,
    RedstoneBlock,
    CherryLog,
    BambooLog,
    BirchLog,
    OakLog,
    JungleLog,
    AcaciaLog,
    SpruceLog,
    DarkOakLog,
    CrimsonStem,
    WarpedStem,
    DarkOakFence,
    CherryFence,
    CrimsonFence,
    WarpedFence,
    GoldBlock,
    IronBlock,
    LapisBlock,
    EmeraldBlock,
    DiamondBlock,
    RawCopperBlock,
    RawIronBlock,
    RawGoldBlock,
    Bricks,
    Glass,
    CryingObsidian,
    BeeNest,
    Bedrock,
    RedstoneLamp,
    Glowstone,
    NetherQuartzBlock,
    CrimsonNylium,
    WarpedNylium,
}

/// The canonical `namespace:identifier` name of each block. The name
/// registry is a bijection: no two blocks share a name.
pub open spec fn block_name(b: MinecraftBlock) -> Seq<char> {
    match b {
        MinecraftBlock::Stone => "minecraft:stone"@,
        MinecraftBlock::EndStone => "minecraft:end_stone"@,
        MinecraftBlock::Cobblestone => "minecraft:cobblestone"@,
        MinecraftBlock::QuartzBlock => "minecraft:quartz_block"@,
        MinecraftBlock::Obsidian => "minecraft:obsidian"@,
        MinecraftBlock::Shroomlight => "minecraft:shroomlight"@,
        MinecraftBlock::ChiseledDeepslate => "minecraft:chiseled_deepslate"@,
        MinecraftBlock::Blackstone => "minecraft:blackstone"@,
        MinecraftBlock::GildedBlackstone => "minecraft:gilded_blackstone"@,
        MinecraftBlock::Prismarine => "minecraft:prismarine"@,
        MinecraftBlock::DarkPrismarine => "minecraft:dark_prismarine"@,
        MinecraftBlock::AmethystBlock => "minecraft:amethyst_block"@,
        MinecraftBlock::PurpurBlock => "minecraft:purpur_block"@,
        MinecraftBlock::PurpurPillar => "minecraft:purpur_pillar"@,
        MinecraftBlock::OchreFroglight => "minecraft:ochre_froglight"@,
        MinecraftBlock::VerdantFroglight => "minecraft:verdant_froglight"@,
        MinecraftBlock::PearlescentFroglight => "minecraft:pearlescent_froglight"@,
        MinecraftBlock::SeaLantern => "minecraft:sea_lantern"@,
        MinecraftBlock::WhiteWool => "minecraft:white_wool"@,
        MinecraftBlock::LightGrayWool => "minecraft:light_gray_wool"@,
        MinecraftBlock::GrayWool => "minecraft:gray_wool"@,
        MinecraftBlock::BlackWool => "minecraft:black_wool"@,
        MinecraftBlock::BrownWool => "minecraft:brown_wool"@,
        MinecraftBlock::RedWool => "minecraft:red_wool"@,
        MinecraftBlock::OrangeWool => "minecraft:orange_wool"@,
        MinecraftBlock::YellowWool => "minecraft:yellow_wool"@,
        MinecraftBlock::LimeWool => "minecraft:lime_wool"@,
        MinecraftBlock::GreenWool => "minecraft:green_wool"@,
        MinecraftBlock::CyanWool => "minecraft:cyan_wool"@,
        MinecraftBlock::LightBlueWool => "minecraft:light_blue_wool"@,
        MinecraftBlock::BlueWool => "minecraft:blue_wool"@,
        MinecraftBlock::PurpleWool => "minecraft:purple_wool"@,
        MinecraftBlock::MagentaWool => "minecraft:magenta_wool"@,
        MinecraftBlock::PinkWool => "minecraft:pink_wool"@,
        MinecraftBlock::WhiteStainedGlass => "minecraft:white_stained_glass"@,
        MinecraftBlock::LightGrayStainedGlass => "minecraft:light_gray_stained_glass"@,
        MinecraftBlock::GrayStainedGlass => "minecraft:gray_stained_glass"@,
        MinecraftBlock::BlackStainedGlass => "minecraft:black_stained_glass"@,
        MinecraftBlock::BrownStainedGlass => "minecraft:brown_stained_glass"@,
        MinecraftBlock::RedStainedGlass => "minecraft:red_stained_glass"@,
        MinecraftBlock::OrangeStainedGlass => "minecraft:orange_stained_glass"@,
        MinecraftBlock::YellowStainedGlass => "minecraft:yellow_stained_glass"@,
        MinecraftBlock::LimeStainedGlass => "minecraft:lime_stained_glass"@,
        MinecraftBlock::GreenStainedGlass => "minecraft:green_stained_glass"@,
        MinecraftBlock::CyanStainedGlass => "minecraft:cyan_stained_glass"@,
        MinecraftBlock::LightBlueStainedGlass => "minecraft:light_blue_stained_glass"@,
        MinecraftBlock::BlueStainedGlass => "minecraft:blue_stained_glass"@,
        MinecraftBlock::PurpleStainedGlass => "minecraft:purple_stained_glass"@,
        MinecraftBlock::MagentaStainedGlass => "minecraft:magenta_stained_glass"@,
        MinecraftBlock::PinkStainedGlass => "minecraft:pink_stained_glass"@,
        MinecraftBlock::WhiteConcrete => "minecraft:white_concrete"@,
        MinecraftBlock::LightGrayConcrete => "minecraft:light_gray_concrete"@,
        MinecraftBlock::GrayConcrete => "minecraft:gray_concrete"@,
        MinecraftBlock::BlackConcrete => "minecraft:black_concrete"@,
        MinecraftBlock::BrownConcrete => "minecraft:brown_concrete"@,
        MinecraftBlock::RedConcrete => "minecraft:red_concrete"@,
        MinecraftBlock::OrangeConcrete => "minecraft:orange_concrete"@,
        MinecraftBlock::YellowConcrete => "minecraft:yellow_concrete"@,
        MinecraftBlock::LimeConcrete => "minecraft:lime_concrete"@,
        MinecraftBlock::GreenConcrete => "minecraft:green_concrete"@,
        MinecraftBlock::CyanConcrete => "minecraft:cyan_concrete"@,
        MinecraftBlock::LightBlueConcrete => "minecraft:light_blue_concrete"@,
        MinecraftBlock::BlueConcrete => "minecraft:blue_concrete"@,
        MinecraftBlock::PurpleConcrete => "minecraft:purple_concrete"@,
        MinecraftBlock::MagentaConcrete => "minecraft:magenta_concrete"@,
        MinecraftBlock::PinkConcrete => "minecraft:pink_concrete"@,
        MinecraftBlock::WhiteGlazedTerracotta => "minecraft:white_glazed_terracotta"@,
        MinecraftBlock::LightGrayGlazedTerracotta => "minecraft:light_gray_glazed_terracotta"@,
        MinecraftBlock::GrayGlazedTerracotta => "minecraft:gray_glazed_terracotta"@,
        MinecraftBlock::BlackGlazedTerracotta => "minecraft:black_glazed_terracotta"@,
        MinecraftBlock::BrownGlazedTerracotta => "minecraft:brown_glazed_terracotta"@,
        MinecraftBlock::RedGlazedTerracotta => "minecraft:red_glazed_terracotta"@,
        MinecraftBlock::OrangeGlazedTerracotta => "minecraft:orange_glazed_terracotta"@,
        MinecraftBlock::YellowGlazedTerracotta => "minecraft:yellow_glazed_terracotta"@,
        MinecraftBlock::LimeGlazedTerracotta => "minecraft:lime_glazed_terracotta"@,
        MinecraftBlock::GreenGlazedTerracotta => "minecraft:green_glazed_terracotta"@,
        MinecraftBlock::CyanGlazedTerracotta => "minecraft:cyan_glazed_terracotta"@,
        MinecraftBlock::LightBlueGlazedTerracotta => "minecraft:light_blue_glazed_terracotta"@,
        MinecraftBlock::BlueGlazedTerracotta => "minecraft:blue_glazed_terracotta"@,
        MinecraftBlock::PurpleGlazedTerracotta => "minecraft:purple_glazed_terracotta"@,
        MinecraftBlock::MagentaGlazedTerracotta => "minecraft:magenta_glazed_terracotta"@,
        MinecraftBlock::PinkGlazedTerracotta => "minecraft:pink_glazed_terracotta"@,
        MinecraftBlock::WhiteTerracotta => "minecraft:white_terracotta"@,
        MinecraftBlock::LightGrayTerracotta => "minecraft:light_gray_terracotta"@,
        MinecraftBlock::GrayTerracotta => "minecraft:gray_terracotta"@,
        MinecraftBlock::BlackTerracotta => "minecraft:black_terracotta"@,
        MinecraftBlock::BrownTerracotta => "minecraft:brown_terracotta"@,
        MinecraftBlock::RedTerracotta => "minecraft:red_terracotta"@,
        MinecraftBlock::OrangeTerracotta => "minecraft:orange_terracotta"@,
        MinecraftBlock::YellowTerracotta => "minecraft:yellow_terracotta"@,
        MinecraftBlock::LimeTerracotta => "minecraft:lime_terracotta"@,
        MinecraftBlock::GreenTerracotta => "minecraft:green_terracotta"@,
        MinecraftBlock::CyanTerracotta => "minecraft:cyan_terracotta"@,
        MinecraftBlock::LightBlueTerracotta => "minecraft:light_blue_terracotta"@,
        MinecraftBlock::BlueTerracotta => "minecraft:blue_terracotta"@,
        MinecraftBlock::PurpleTerracotta => "minecraft:purple_terracotta"@,
        MinecraftBlock::MagentaTerracotta => "minecraft:magenta_terracotta"@,
        MinecraftBlock::PinkTerracotta => "minecraft:pink_terracotta"@,
        MinecraftBlock::OakPlanks => "minecraft:oak_planks"@,
        MinecraftBlock::SprucePlanks => "minecraft:spruce_planks"@,
        MinecraftBlock::BirchPlanks => "minecraft:birch_planks"@,
        MinecraftBlock::JunglePlanks => "minecraft:jungle_planks"@,
        MinecraftBlock::AcaciaPlanks => "minecraft:acacia_planks"@,
        MinecraftBlock::DarkOakPlanks => "minecraft:dark_oak_planks"@,
        MinecraftBlock::MangrovePlanks => "minecraft:mangrove_planks"@,
        MinecraftBlock::CherryPlanks => "minecraft:cherry_planks"@,
        MinecraftBlock::BambooPlanks => "minecraft:bamboo_planks"@,
        MinecraftBlock::CrimsonPlanks => "minecraft:crimson_planks"@,
        MinecraftBlock::WarpedPlanks => "minecraft:warped_planks"@,
        MinecraftBlock::CoalBlock => "minecraft:coal_block"@,
        MinecraftBlock::RedstoneBlock => "minecraft:redstone_block"@,
        MinecraftBlock::CherryLog => "minecraft:cherry_log"@,
        MinecraftBlock::BambooLog => "minecraft:bamboo_block"@,
        MinecraftBlock::BirchLog => "minecraft:birch_log"@,
        MinecraftBlock::OakLog => "minecraft:oak_log"@,
        MinecraftBlock::JungleLog => "minecraft:jungle_log"@,
        MinecraftBlock::AcaciaLog => "minecraft:acacia_log"@,
        MinecraftBlock::SpruceLog => "minecraft:spruce_log"@,
        MinecraftBlock::DarkOakLog => "minecraft:dark_oak_log"@,
        MinecraftBlock::CrimsonStem => "minecraft:crimson_stem"@,
        MinecraftBlock::WarpedStem => "minecraft:warped_stem"@,
        MinecraftBlock::DarkOakFence => "minecraft:dark_oak_fence"@,
        MinecraftBlock::CherryFence => "minecraft:cherry_fence"@,
        MinecraftBlock::CrimsonFence => "minecraft:crimson_fence"@,
        MinecraftBlock::WarpedFence => "minecraft:warped_fence"@,
        MinecraftBlock::GoldBlock => "minecraft:gold_block"@,
        MinecraftBlock::IronBlock => "minecraft:iron_block"@,
        MinecraftBlock::LapisBlock => "minecraft:lapis_block"@,
        MinecraftBlock::EmeraldBlock => "minecraft:emerald_block"@,
        MinecraftBlock::DiamondBlock => "minecraft:diamond_block"@,
        MinecraftBlock::RawCopperBlock => "minecraft:raw_copper_block"@,
        MinecraftBlock::RawIronBlock => "minecraft:raw_iron_block"@,
        MinecraftBlock::RawGoldBlock => "minecraft:raw_gold_block"@,
        MinecraftBlock::Bricks => "minecraft:bricks"@,
        MinecraftBlock::Glass => "minecraft:glass"@,
        MinecraftBlock::CryingObsidian => "minecraft:crying_obsidian"@,
        MinecraftBlock::BeeNest => "minecraft:bee_nest"@,
        MinecraftBlock::Bedrock => "minecraft:bedrock"@,
        MinecraftBlock::RedstoneLamp => "minecraft:redstone_lamp"@,
        MinecraftBlock::Glowstone => "minecraft:glowstone"@,
        MinecraftBlock::NetherQuartzBlock => "minecraft:nether_quartz_block"@,
        MinecraftBlock::CrimsonNylium => "minecraft:crimson_nylium"@,
        MinecraftBlock::WarpedNylium => "minecraft:warped_nylium"@,
    }
}

pub open spec fn spec_is_wool(b: MinecraftBlock) -> bool {
    ||| b == MinecraftBlock::WhiteWool
    ||| b == MinecraftBlock::LightGrayWool
    ||| b == MinecraftBlock::GrayWool
    ||| b == MinecraftBlock::BlackWool
    ||| b == MinecraftBlock::BrownWool
    ||| b == MinecraftBlock::RedWool
    ||| b == MinecraftBlock::OrangeWool
    ||| b == MinecraftBlock::YellowWool
    ||| b == MinecraftBlock::LimeWool
    ||| b == MinecraftBlock::GreenWool
    ||| b == MinecraftBlock::CyanWool
    ||| b == MinecraftBlock::LightBlueWool
    ||| b == MinecraftBlock::BlueWool
    ||| b == MinecraftBlock::PurpleWool
    ||| b == MinecraftBlock::MagentaWool
    ||| b == MinecraftBlock::PinkWool
}

pub open spec fn spec_is_glass(b: MinecraftBlock) -> bool {
    ||| b == MinecraftBlock::WhiteStainedGlass
    ||| b == MinecraftBlock::LightGrayStainedGlass
    ||| b == MinecraftBlock::GrayStainedGlass
    ||| b == MinecraftBlock::BlackStainedGlass
    ||| b == MinecraftBlock::BrownStainedGlass
    ||| b == MinecraftBlock::RedStainedGlass
    ||| b == MinecraftBlock::OrangeStainedGlass
    ||| b == MinecraftBlock::YellowStainedGlass
    ||| b == MinecraftBlock::LimeStainedGlass
    ||| b == MinecraftBlock::GreenStainedGlass
    ||| b == MinecraftBlock::CyanStainedGlass
    ||| b == MinecraftBlock::LightBlueStainedGlass
    ||| b == MinecraftBlock::BlueStainedGlass
    ||| b == MinecraftBlock::PurpleStainedGlass
    ||| b == MinecraftBlock::MagentaStainedGlass
    ||| b == MinecraftBlock::PinkStainedGlass
}

pub open spec fn spec_is_concrete(b: MinecraftBlock) -> bool {
    ||| b == MinecraftBlock::WhiteConcrete
    ||| b == MinecraftBlock::LightGrayConcrete
    ||| b == MinecraftBlock::GrayConcrete
    ||| b == MinecraftBlock::BlackConcrete
    ||| b == MinecraftBlock::BrownConcrete
    ||| b == MinecraftBlock::RedConcrete
    ||| b == MinecraftBlock::OrangeConcrete
    ||| b == MinecraftBlock::YellowConcrete
    ||| b == MinecraftBlock::LimeConcrete
    ||| b == MinecraftBlock::GreenConcrete
    ||| b == MinecraftBlock::CyanConcrete
    ||| b == MinecraftBlock::LightBlueConcrete
    ||| b == MinecraftBlock::BlueConcrete
    ||| b == MinecraftBlock::PurpleConcrete
    ||| b == MinecraftBlock::MagentaConcrete
    ||| b == MinecraftBlock::PinkConcrete
}

pub open spec fn spec_is_glazed_terracotta(b: MinecraftBlock) -> bool {
    ||| b == MinecraftBlock::WhiteGlazedTerracotta
    ||| b == MinecraftBlock::LightGrayGlazedTerracotta
    ||| b == MinecraftBlock::GrayGlazedTerracotta
    ||| b == MinecraftBlock::BlackGlazedTerracotta
    ||| b == MinecraftBlock::BrownGlazedTerracotta
    ||| b == MinecraftBlock::RedGlazedTerracotta
    ||| b == MinecraftBlock::OrangeGlazedTerracotta
    ||| b == MinecraftBlock::YellowGlazedTerracotta
    ||| b == MinecraftBlock::LimeGlazedTerracotta
    ||| b == MinecraftBlock::GreenGlazedTerracotta
    ||| b == MinecraftBlock::CyanGlazedTerracotta
    ||| b == MinecraftBlock::LightBlueGlazedTerracotta
    ||| b == MinecraftBlock::BlueGlazedTerracotta
    ||| b == MinecraftBlock::PurpleGlazedTerracotta
    ||| b == MinecraftBlock::MagentaGlazedTerracotta
    ||| b == MinecraftBlock::PinkGlazedTerracotta
}

pub open spec fn spec_is_terracotta(b: MinecraftBlock) -> bool {
    ||| b == MinecraftBlock::WhiteTerracotta
    ||| b == MinecraftBlock::LightGrayTerracotta
    ||| b == MinecraftBlock::GrayTerracotta
    ||| b == MinecraftBlock::BlackTerracotta
    ||| b == MinecraftBlock::BrownTerracotta
    ||| b == MinecraftBlock::RedTerracotta
    ||| b == MinecraftBlock::OrangeTerracotta
    ||| b == MinecraftBlock::YellowTerracotta
    ||| b == MinecraftBlock::LimeTerracotta
    ||| b == MinecraftBlock::GreenTerracotta
    ||| b == MinecraftBlock::CyanTerracotta
    ||| b == MinecraftBlock::LightBlueTerracotta
    ||| b == MinecraftBlock::BlueTerracotta
    ||| b == MinecraftBlock::PurpleTerracotta
    ||| b == MinecraftBlock::MagentaTerracotta
    ||| b == MinecraftBlock::PinkTerracotta
}

pub open spec fn spec_is_planks(b: MinecraftBlock) -> bool {
    ||| b == MinecraftBlock::OakPlanks
    ||| b == MinecraftBlock::SprucePlanks
    ||| b == MinecraftBlock::BirchPlanks
    ||| b == MinecraftBlock::JunglePlanks
    ||| b == MinecraftBlock::AcaciaPlanks
    ||| b == MinecraftBlock::DarkOakPlanks
    ||| b == MinecraftBlock::MangrovePlanks
    ||| b == MinecraftBlock::CherryPlanks
    ||| b == MinecraftBlock::BambooPlanks
    ||| b == MinecraftBlock::CrimsonPlanks
    ||| b == MinecraftBlock::WarpedPlanks
}

pub open spec fn spec_is_log(b: MinecraftBlock) -> bool {
    ||| b == MinecraftBlock::CherryLog
    ||| b == MinecraftBlock::BambooLog
    ||| b == MinecraftBlock::BirchLog
    ||| b == MinecraftBlock::OakLog
    ||| b == MinecraftBlock::JungleLog
    ||| b == MinecraftBlock::AcaciaLog
    ||| b == MinecraftBlock::SpruceLog
    ||| b == MinecraftBlock::DarkOakLog
    ||| b == MinecraftBlock::CrimsonStem
    ||| b == MinecraftBlock::WarpedStem
}

pub open spec fn spec_is_light(b: MinecraftBlock) -> bool {
    ||| b == MinecraftBlock::OchreFroglight
    ||| b == MinecraftBlock::VerdantFroglight
    ||| b == MinecraftBlock::PearlescentFroglight
    ||| b == MinecraftBlock::Shroomlight
    ||| b == MinecraftBlock::Glowstone
}

impl MinecraftBlock {
    pub fn is_wool(&self) -> (r: bool)
        ensures
            r == spec_is_wool(*self),
    {
        match *self {
            MinecraftBlock::WhiteWool
            | MinecraftBlock::LightGrayWool
            | MinecraftBlock::GrayWool
            | MinecraftBlock::BlackWool
            | MinecraftBlock::BrownWool
            | MinecraftBlock::RedWool
            | MinecraftBlock::OrangeWool
            | MinecraftBlock::YellowWool
            | MinecraftBlock::LimeWool
            | MinecraftBlock::GreenWool
            | MinecraftBlock::CyanWool
            | MinecraftBlock::LightBlueWool
            | MinecraftBlock::BlueWool
            | MinecraftBlock::PurpleWool
            | MinecraftBlock::MagentaWool
            | MinecraftBlock::PinkWool => true,
            _ => false,
        }
    }

    pub fn is_glass(&self) -> (r: bool)
        ensures
            r == spec_is_glass(*self),
    {
        match *self {
            MinecraftBlock::WhiteStainedGlass
            | MinecraftBlock::LightGrayStainedGlass
            | MinecraftBlock::GrayStainedGlass
            | MinecraftBlock::BlackStainedGlass
            | MinecraftBlock::BrownStainedGlass
            | MinecraftBlock::RedStainedGlass
            | MinecraftBlock::OrangeStainedGlass
            | MinecraftBlock::YellowStainedGlass
            | MinecraftBlock::LimeStainedGlass
            | MinecraftBlock::GreenStainedGlass
            | MinecraftBlock::CyanStainedGlass
            | MinecraftBlock::LightBlueStainedGlass
            | MinecraftBlock::BlueStainedGlass
            | MinecraftBlock::PurpleStainedGlass
            | MinecraftBlock::MagentaStainedGlass
            | MinecraftBlock::PinkStainedGlass => true,
            _ => false,
        }
    }

    pub fn is_concrete(&self) -> (r: bool)
        ensures
            r == spec_is_concrete(*self),
    {
        match *self {
            MinecraftBlock::WhiteConcrete
            | MinecraftBlock::LightGrayConcrete
            | MinecraftBlock::GrayConcrete
            | MinecraftBlock::BlackConcrete
            | MinecraftBlock::BrownConcrete
            | MinecraftBlock::RedConcrete
            | MinecraftBlock::OrangeConcrete
            | MinecraftBlock::YellowConcrete
            | MinecraftBlock::LimeConcrete
            | MinecraftBlock::GreenConcrete
            | MinecraftBlock::CyanConcrete
            | MinecraftBlock::LightBlueConcrete
            | MinecraftBlock::BlueConcrete
            | MinecraftBlock::PurpleConcrete
            | MinecraftBlock::MagentaConcrete
            | MinecraftBlock::PinkConcrete => true,
            _ => false,
        }
    }

    pub fn is_glazed_terracotta(&self) -> (r: bool)
        ensures
            r == spec_is_glazed_terracotta(*self),
    {
        match *self {
            MinecraftBlock::WhiteGlazedTerracotta
            | MinecraftBlock::LightGrayGlazedTerracotta
            | MinecraftBlock::GrayGlazedTerracotta
            | MinecraftBlock::BlackGlazedTerracotta
            | MinecraftBlock::BrownGlazedTerracotta
            | MinecraftBlock::RedGlazedTerracotta
            | MinecraftBlock::OrangeGlazedTerracotta
            | MinecraftBlock::YellowGlazedTerracotta
            | MinecraftBlock::LimeGlazedTerracotta
            | MinecraftBlock::GreenGlazedTerracotta
            | MinecraftBlock::CyanGlazedTerracotta
            | MinecraftBlock::LightBlueGlazedTerracotta
            | MinecraftBlock::BlueGlazedTerracotta
            | MinecraftBlock::PurpleGlazedTerracotta
            | MinecraftBlock::MagentaGlazedTerracotta
            | MinecraftBlock::PinkGlazedTerracotta => true,
            _ => false,
        }
    }

    pub fn is_terracotta(&self) -> (r: bool)
        ensures
            r == spec_is_terracotta(*self),
    {
        match *self {
            MinecraftBlock::WhiteTerracotta
            | MinecraftBlock::LightGrayTerracotta
            | MinecraftBlock::GrayTerracotta
            | MinecraftBlock::BlackTerracotta
            | MinecraftBlock::BrownTerracotta
            | MinecraftBlock::RedTerracotta
            | MinecraftBlock::OrangeTerracotta
            | MinecraftBlock::YellowTerracotta
            | MinecraftBlock::LimeTerracotta
            | MinecraftBlock::GreenTerracotta
            | MinecraftBlock::CyanTerracotta
            | MinecraftBlock::LightBlueTerracotta
            | MinecraftBlock::BlueTerracotta
            | MinecraftBlock::PurpleTerracotta
            | MinecraftBlock::MagentaTerracotta
            | MinecraftBlock::PinkTerracotta => true,
            _ => false,
        }
    }

    pub fn is_planks(&self) -> (r: bool)
        ensures
            r == spec_is_planks(*self),
    {
        match *self {
            MinecraftBlock::OakPlanks
            | MinecraftBlock::SprucePlanks
            | MinecraftBlock::BirchPlanks
            | MinecraftBlock::JunglePlanks
            | MinecraftBlock::AcaciaPlanks
            | MinecraftBlock::DarkOakPlanks
            | MinecraftBlock::MangrovePlanks
            | MinecraftBlock::CherryPlanks
            | MinecraftBlock::BambooPlanks
            | MinecraftBlock::CrimsonPlanks
            | MinecraftBlock::WarpedPlanks => true,
            _ => false,
        }
    }

    pub fn is_log(&self) -> (r: bool)
        ensures
            r == spec_is_log(*self),
    {
        match *self {
            MinecraftBlock::CherryLog
            | MinecraftBlock::BambooLog
            | MinecraftBlock::BirchLog
            | MinecraftBlock::OakLog
            | MinecraftBlock::JungleLog
            | MinecraftBlock::AcaciaLog
            | MinecraftBlock::SpruceLog
            | MinecraftBlock::DarkOakLog
            | MinecraftBlock::CrimsonStem
            | MinecraftBlock::WarpedStem => true,
            _ => false,
        }
    }

    pub fn is_light(&self) -> (r: bool)
        ensures
            r == spec_is_light(*self),
    {
        match *self {
            MinecraftBlock::OchreFroglight
            | MinecraftBlock::VerdantFroglight
            | MinecraftBlock::PearlescentFroglight
            | MinecraftBlock::Shroomlight
            | MinecraftBlock::Glowstone => true,
            _ => false,
        }
    }

    /// The canonical name of this block, as sent on the wire.
    pub fn name(&self) -> (r: String)
        ensures
            r@ == block_name(*self),
    {
        match *self {
            MinecraftBlock::Stone => "minecraft:stone".to_owned(),
            MinecraftBlock::EndStone => "minecraft:end_stone".to_owned(),
            MinecraftBlock::Cobblestone => "minecraft:cobblestone".to_owned(),
            MinecraftBlock::QuartzBlock => "minecraft:quartz_block".to_owned(),
            MinecraftBlock::Obsidian => "minecraft:obsidian".to_owned(),
            MinecraftBlock::Shroomlight => "minecraft:shroomlight".to_owned(),
            MinecraftBlock::ChiseledDeepslate => "minecraft:chiseled_deepslate".to_owned(),
            MinecraftBlock::Blackstone => "minecraft:blackstone".to_owned(),
            MinecraftBlock::GildedBlackstone => "minecraft:gilded_blackstone".to_owned(),
            MinecraftBlock::Prismarine => "minecraft:prismarine".to_owned(),
            MinecraftBlock::DarkPrismarine => "minecraft:dark_prismarine".to_owned(),
            MinecraftBlock::AmethystBlock => "minecraft:amethyst_block".to_owned(),
            MinecraftBlock::PurpurBlock => "minecraft:purpur_block".to_owned(),
            MinecraftBlock::PurpurPillar => "minecraft:purpur_pillar".to_owned(),
            MinecraftBlock::OchreFroglight => "minecraft:ochre_froglight".to_owned(),
            MinecraftBlock::VerdantFroglight => "minecraft:verdant_froglight".to_owned(),
            MinecraftBlock::PearlescentFroglight => "minecraft:pearlescent_froglight".to_owned(),
            MinecraftBlock::SeaLantern => "minecraft:sea_lantern".to_owned(),
            MinecraftBlock::WhiteWool => "minecraft:white_wool".to_owned(),
            MinecraftBlock::LightGrayWool => "minecraft:light_gray_wool".to_owned(),
            MinecraftBlock::GrayWool => "minecraft:gray_wool".to_owned(),
            MinecraftBlock::BlackWool => "minecraft:black_wool".to_owned(),
            MinecraftBlock::BrownWool => "minecraft:brown_wool".to_owned(),
            MinecraftBlock::RedWool => "minecraft:red_wool".to_owned(),
            MinecraftBlock::OrangeWool => "minecraft:orange_wool".to_owned(),
            MinecraftBlock::YellowWool => "minecraft:yellow_wool".to_owned(),
            MinecraftBlock::LimeWool => "minecraft:lime_wool".to_owned(),
            MinecraftBlock::GreenWool => "minecraft:green_wool".to_owned(),
            MinecraftBlock::CyanWool => "minecraft:cyan_wool".to_owned(),
            MinecraftBlock::LightBlueWool => "minecraft:light_blue_wool".to_owned(),
            MinecraftBlock::BlueWool => "minecraft:blue_wool".to_owned(),
            MinecraftBlock::PurpleWool => "minecraft:purple_wool".to_owned(),
            MinecraftBlock::MagentaWool => "minecraft:magenta_wool".to_owned(),
            MinecraftBlock::PinkWool => "minecraft:pink_wool".to_owned(),
            MinecraftBlock::WhiteStainedGlass => "minecraft:white_stained_glass".to_owned(),
            MinecraftBlock::LightGrayStainedGlass => "minecraft:light_gray_stained_glass".to_owned(),
            MinecraftBlock::GrayStainedGlass => "minecraft:gray_stained_glass".to_owned(),
            MinecraftBlock::BlackStainedGlass => "minecraft:black_stained_glass".to_owned(),
            MinecraftBlock::BrownStainedGlass => "minecraft:brown_stained_glass".to_owned(),
            MinecraftBlock::RedStainedGlass => "minecraft:red_stained_glass".to_owned(),
            MinecraftBlock::OrangeStainedGlass => "minecraft:orange_stained_glass".to_owned(),
            MinecraftBlock::YellowStainedGlass => "minecraft:yellow_stained_glass".to_owned(),
            MinecraftBlock::LimeStainedGlass => "minecraft:lime_stained_glass".to_owned(),
            MinecraftBlock::GreenStainedGlass => "minecraft:green_stained_glass".to_owned(),
            MinecraftBlock::CyanStainedGlass => "minecraft:cyan_stained_glass".to_owned(),
            MinecraftBlock::LightBlueStainedGlass => "minecraft:light_blue_stained_glass".to_owned(),
            MinecraftBlock::BlueStainedGlass => "minecraft:blue_stained_glass".to_owned(),
            MinecraftBlock::PurpleStainedGlass => "minecraft:purple_stained_glass".to_owned(),
            MinecraftBlock::MagentaStainedGlass => "minecraft:magenta_stained_glass".to_owned(),
            MinecraftBlock::PinkStainedGlass => "minecraft:pink_stained_glass".to_owned(),
            MinecraftBlock::WhiteConcrete => "minecraft:white_concrete".to_owned(),
            MinecraftBlock::LightGrayConcrete => "minecraft:light_gray_concrete".to_owned(),
            MinecraftBlock::GrayConcrete => "minecraft:gray_concrete".to_owned(),
            MinecraftBlock::BlackConcrete => "minecraft:black_concrete".to_owned(),
            MinecraftBlock::BrownConcrete => "minecraft:brown_concrete".to_owned(),
            MinecraftBlock::RedConcrete => "minecraft:red_concrete".to_owned(),
            MinecraftBlock::OrangeConcrete => "minecraft:orange_concrete".to_owned(),
            MinecraftBlock::YellowConcrete => "minecraft:yellow_concrete".to_owned(),
            MinecraftBlock::LimeConcrete => "minecraft:lime_concrete".to_owned(),
            MinecraftBlock::GreenConcrete => "minecraft:green_concrete".to_owned(),
            MinecraftBlock::CyanConcrete => "minecraft:cyan_concrete".to_owned(),
            MinecraftBlock::LightBlueConcrete => "minecraft:light_blue_concrete".to_owned(),
            MinecraftBlock::BlueConcrete => "minecraft:blue_concrete".to_owned(),
            MinecraftBlock::PurpleConcrete => "minecraft:purple_concrete".to_owned(),
            MinecraftBlock::MagentaConcrete => "minecraft:magenta_concrete".to_owned(),
            MinecraftBlock::PinkConcrete => "minecraft:pink_concrete".to_owned(),
            MinecraftBlock::WhiteGlazedTerracotta => "minecraft:white_glazed_terracotta".to_owned(),
            MinecraftBlock::LightGrayGlazedTerracotta => "minecraft:light_gray_glazed_terracotta".to_owned(),
            MinecraftBlock::GrayGlazedTerracotta => "minecraft:gray_glazed_terracotta".to_owned(),
            MinecraftBlock::BlackGlazedTerracotta => "minecraft:black_glazed_terracotta".to_owned(),
            MinecraftBlock::BrownGlazedTerracotta => "minecraft:brown_glazed_terracotta".to_owned(),
            MinecraftBlock::RedGlazedTerracotta => "minecraft:red_glazed_terracotta".to_owned(),
            MinecraftBlock::OrangeGlazedTerracotta => "minecraft:orange_glazed_terracotta".to_owned(),
            MinecraftBlock::YellowGlazedTerracotta => "minecraft:yellow_glazed_terracotta".to_owned(),
            MinecraftBlock::LimeGlazedTerracotta => "minecraft:lime_glazed_terracotta".to_owned(),
            MinecraftBlock::GreenGlazedTerracotta => "minecraft:green_glazed_terracotta".to_owned(),
            MinecraftBlock::CyanGlazedTerracotta => "minecraft:cyan_glazed_terracotta".to_owned(),
            MinecraftBlock::LightBlueGlazedTerracotta => "minecraft:light_blue_glazed_terracotta".to_owned(),
            MinecraftBlock::BlueGlazedTerracotta => "minecraft:blue_glazed_terracotta".to_owned(),
            MinecraftBlock::PurpleGlazedTerracotta => "minecraft:purple_glazed_terracotta".to_owned(),
            MinecraftBlock::MagentaGlazedTerracotta => "minecraft:magenta_glazed_terracotta".to_owned(),
            MinecraftBlock::PinkGlazedTerracotta => "minecraft:pink_glazed_terracotta".to_owned(),
            MinecraftBlock::WhiteTerracotta => "minecraft:white_terracotta".to_owned(),
            MinecraftBlock::LightGrayTerracotta => "minecraft:light_gray_terracotta".to_owned(),
            MinecraftBlock::GrayTerracotta => "minecraft:gray_terracotta".to_owned(),
            MinecraftBlock::BlackTerracotta => "minecraft:black_terracotta".to_owned(),
            MinecraftBlock::BrownTerracotta => "minecraft:brown_terracotta".to_owned(),
            MinecraftBlock::RedTerracotta => "minecraft:red_terracotta".to_owned(),
            MinecraftBlock::OrangeTerracotta => "minecraft:orange_terracotta".to_owned(),
            MinecraftBlock::YellowTerracotta => "minecraft:yellow_terracotta".to_owned(),
            MinecraftBlock::LimeTerracotta => "minecraft:lime_terracotta".to_owned(),
            MinecraftBlock::GreenTerracotta => "minecraft:green_terracotta".to_owned(),
            MinecraftBlock::CyanTerracotta => "minecraft:cyan_terracotta".to_owned(),
            MinecraftBlock::LightBlueTerracotta => "minecraft:light_blue_terracotta".to_owned(),
            MinecraftBlock::BlueTerracotta => "minecraft:blue_terracotta".to_owned(),
            MinecraftBlock::PurpleTerracotta => "minecraft:purple_terracotta".to_owned(),
            MinecraftBlock::MagentaTerracotta => "minecraft:magenta_terracotta".to_owned(),
            MinecraftBlock::PinkTerracotta => "minecraft:pink_terracotta".to_owned(),
            MinecraftBlock::OakPlanks => "minecraft:oak_planks".to_owned(),
            MinecraftBlock::SprucePlanks => "minecraft:spruce_planks".to_owned(),
            MinecraftBlock::BirchPlanks => "minecraft:birch_planks".to_owned(),
            MinecraftBlock::JunglePlanks => "minecraft:jungle_planks".to_owned(),
            MinecraftBlock::AcaciaPlanks => "minecraft:acacia_planks".to_owned(),
            MinecraftBlock::DarkOakPlanks => "minecraft:dark_oak_planks".to_owned(),
            MinecraftBlock::MangrovePlanks => "minecraft:mangrove_planks".to_owned(),
            MinecraftBlock::CherryPlanks => "minecraft:cherry_planks".to_owned(),
            MinecraftBlock::BambooPlanks => "minecraft:bamboo_planks".to_owned(),
            MinecraftBlock::CrimsonPlanks => "minecraft:crimson_planks".to_owned(),
            MinecraftBlock::WarpedPlanks => "minecraft:warped_planks".to_owned(),
            MinecraftBlock::CoalBlock => "minecraft:coal_block".to_owned(),
            MinecraftBlock::RedstoneBlock => "minecraft:redstone_block".to_owned(),
            MinecraftBlock::CherryLog => "minecraft:cherry_log".to_owned(),
            MinecraftBlock::BambooLog => "minecraft:bamboo_block".to_owned(),
            MinecraftBlock::BirchLog => "minecraft:birch_log".to_owned(),
            MinecraftBlock::OakLog => "minecraft:oak_log".to_owned(),
            MinecraftBlock::JungleLog => "minecraft:jungle_log".to_owned(),
            MinecraftBlock::AcaciaLog => "minecraft:acacia_log".to_owned(),
            MinecraftBlock::SpruceLog => "minecraft:spruce_log".to_owned(),
            MinecraftBlock::DarkOakLog => "minecraft:dark_oak_log".to_owned(),
            MinecraftBlock::CrimsonStem => "minecraft:crimson_stem".to_owned(),
            MinecraftBlock::WarpedStem => "minecraft:warped_stem".to_owned(),
            MinecraftBlock::DarkOakFence => "minecraft:dark_oak_fence".to_owned(),
            MinecraftBlock::CherryFence => "minecraft:cherry_fence".to_owned(),
            MinecraftBlock::CrimsonFence => "minecraft:crimson_fence".to_owned(),
            MinecraftBlock::WarpedFence => "minecraft:warped_fence".to_owned(),
            MinecraftBlock::GoldBlock => "minecraft:gold_block".to_owned(),
            MinecraftBlock::IronBlock => "minecraft:iron_block".to_owned(),
            MinecraftBlock::LapisBlock => "minecraft:lapis_block".to_owned(),
            MinecraftBlock::EmeraldBlock => "minecraft:emerald_block".to_owned(),
            MinecraftBlock::DiamondBlock => "minecraft:diamond_block".to_owned(),
            MinecraftBlock::RawCopperBlock => "minecraft:raw_copper_block".to_owned(),
            MinecraftBlock::RawIronBlock => "minecraft:raw_iron_block".to_owned(),
            MinecraftBlock::RawGoldBlock => "minecraft:raw_gold_block".to_owned(),
            MinecraftBlock::Bricks => "minecraft:bricks".to_owned(),
            MinecraftBlock::Glass => "minecraft:glass".to_owned(),
            MinecraftBlock::CryingObsidian => "minecraft:crying_obsidian".to_owned(),
            MinecraftBlock::BeeNest => "minecraft:bee_nest".to_owned(),
            MinecraftBlock::Bedrock => "minecraft:bedrock".to_owned(),
            MinecraftBlock::RedstoneLamp => "minecraft:redstone_lamp".to_owned(),
            MinecraftBlock::Glowstone => "minecraft:glowstone".to_owned(),
            MinecraftBlock::NetherQuartzBlock => "minecraft:nether_quartz_block".to_owned(),
            MinecraftBlock::CrimsonNylium => "minecraft:crimson_nylium".to_owned(),
            MinecraftBlock::WarpedNylium => "minecraft:warped_nylium".to_owned(),
        }
    }

    /// Looks a canonical name up in the registry. Exactly the names in the
    /// range of [`block_name`] are accepted; any other string is an
    /// `UnknownBlockType` error carrying the offending name.
    pub fn from_name(s: &str) -> (r: Result<MinecraftBlock, MinecraftError>)
        ensures
            r matches Ok(b) ==> block_name(b) == s@,
            r is Err ==> forall|b: MinecraftBlock| block_name(b) != s@,
            r matches Err(e) ==> (e matches MinecraftError::UnknownBlockType(n) && n@ == s@),
    {
        if let Some(b) = Self::from_name_group0(s) {
            return Ok(b);
        }
        if let Some(b) = Self::from_name_group1(s) {
            return Ok(b);
        }
        if let Some(b) = Self::from_name_group2(s) {
            return Ok(b);
        }
        if let Some(b) = Self::from_name_group3(s) {
            return Ok(b);
        }
        if let Some(b) = Self::from_name_group4(s) {
            return Ok(b);
        }
        if let Some(b) = Self::from_name_group5(s) {
            return Ok(b);
        }
        if let Some(b) = Self::from_name_group6(s) {
            return Ok(b);
        }
        if let Some(b) = Self::from_name_group7(s) {
            return Ok(b);
        }
        if let Some(b) = Self::from_name_group8(s) {
            return Ok(b);
        }
        proof {
            assert forall|b: MinecraftBlock| block_name(b) != s@ by {
                lemma_name_groups_cover(b);
            };
        }
        Err(MinecraftError::UnknownBlockType(s.to_owned()))
    }

    #[verifier::rlimit(100)]
    #[verifier::spinoff_prover]
    fn from_name_group0(s: &str) -> (r: Option<MinecraftBlock>)
        ensures
            r matches Some(b) ==> block_name(b) == s@,
            r is None ==> forall|b: MinecraftBlock|
                #[trigger] name_in_group0(b) ==> block_name(b) != s@,
    {
        let bytes = s.as_bytes();
        if bytes_eq(bytes, "minecraft:stone".as_bytes()) {
            proof { lemma_utf8_injective(s@, "minecraft:stone"@); }
            return Some(MinecraftBlock::Stone);
        }
        if bytes_eq(bytes, "minecraft:end_stone".as_bytes()) {
            proof { lemma_utf8_injective(s@, "minecraft:end_stone"@); }
            return Some(MinecraftBlock::EndStone);
        }
        if bytes_eq(bytes, "minecraft:cobblestone".as_bytes()) {
            proof { lemma_utf8_injective(s@, "minecraft:cobblestone"@); }
            return Some(MinecraftBlock::Cobblestone);
        }
        if bytes_eq(bytes, "minecraft:quartz_block".as_bytes()) {
            proof { lemma_utf8_injective(s@, "minecraft:quartz_block"@); }
            return Some(MinecraftBlock::QuartzBlock);
        }
        if bytes_eq(bytes, "minecraft:obsidian".as_bytes()) {
            proof { lemma_utf8_injective(s@, "minecraft:obsidian"@); }
            return Some(MinecraftBlock::Obsidian);
        }
        if bytes_eq(bytes, "minecraft:shroomlight".as_bytes()) {
            proof { lemma_utf8_injective(s@, "minecraft:shroomlight"@); }
            return Some(MinecraftBlock::Shroomlight);
        }
        if bytes_eq(bytes, "minecraft:chiseled_deepslate".as_bytes()) {
            proof { lemma_utf8_injective(s@, "minecraft:chiseled_deepslate"@); }
            return Some(MinecraftBlock::ChiseledDeepslate);
        }
        if bytes_eq(bytes, "minecraft:blackstone".as_bytes()) {
            proof { lemma_utf8_injective(s@, "minecraft:blackstone"@); }
            return Some(MinecraftBlock::Blackstone);
        }
        if bytes_eq(bytes, "minecraft:gilded_blackstone".as_bytes()) {
            proof { lemma_utf8_injective(s@, "minecraft:gilded_blackstone"@); }
            return Some(MinecraftBlock::GildedBlackstone);
        }
        if bytes_eq(bytes, "minecraft:prismarine".as_bytes()) {
            proof { lemma_utf8_injective(s@, "minecraft:prismarine"@); }
            return Some(MinecraftBlock::Prismarine);
        }
        if bytes_eq(bytes, "minecraft:dark_prismarine".as_bytes()) {
            proof { lemma_utf8_injective(s@, "minecraft:dark_prismarine"@); }
            return Some(MinecraftBlock::DarkPrismarine);
        }
        if bytes_eq(bytes, "minecraft:amethyst_block".as_bytes()) {
            proof { lemma_utf8_injective(s@, "minecraft:amethyst_block"@); }
            return Some(MinecraftBlock::AmethystBlock);
        }
        if bytes_eq(bytes, "minecraft:purpur_block".as_bytes()) {
            proof { lemma_utf8_injective(s@, "minecraft:purpur_block"@); }
            return Some(MinecraftBlock::PurpurBlock);
        }
        if bytes_eq(bytes, "minecraft:purpur_pillar".as_bytes()) {
            proof { lemma_utf8_injective(s@, "minecraft:purpur_pillar"@); }
            return Some(MinecraftBlock::PurpurPillar);
        }
        if bytes_eq(bytes, "minecraft:ochre_froglight".as_bytes()) {
            proof { lemma_utf8_injective(s@, "minecraft:ochre_froglight"@); }
            return Some(MinecraftBlock::OchreFroglight);
        }
        if bytes_eq(bytes, "minecraft:verdant_froglight".as_bytes()) {
            proof { lemma_utf8_injective(s@, "minecraft:verdant_froglight"@); }
            return Some(MinecraftBlock::VerdantFroglight);
        }
        None
    }
    #[verifier::rlimit(100)]
    #[verifier::spinoff_prover]
    fn from_name_group1(s: &str) -> (r: Option<MinecraftBlock>)
        ensures
            r matches Some(b) ==> block_name(b) == s@,
            r is None ==> forall|b: MinecraftBlock|
                #[trigger] name_in_group1(b) ==> block_name(b) != s@,
    {
        let bytes = s.as_bytes();
        if bytes_eq(bytes, "minecraft:pearlescent_froglight".as_bytes()) {
            proof { lemma_utf8_injective(s@, "minecraft:pearlescent_froglight"@); }
            return Some(MinecraftBlock::PearlescentFroglight);
        }
        if bytes_eq(bytes, "minecraft:sea_lantern".as_bytes()) {
            proof { lemma_utf8_injective(s@, "minecraft:sea_lantern"@); }
            return Some(MinecraftBlock::SeaLantern);
        }
        if bytes_eq(bytes, "minecraft:white_wool".as_bytes()) {
            proof { lemma_utf8_injective(s@, "minecraft:white_wool"@); }
            return Some(MinecraftBlock::WhiteWool);
        }
        if bytes_eq(bytes, "minecraft:light_gray_wool".as_bytes()) {
            proof { lemma_utf8_injective(s@, "minecraft:light_gray_wool"@); }
            return Some(MinecraftBlock::LightGrayWool);
        }
        if bytes_eq(bytes, "minecraft:gray_wool".as_bytes()) {
            proof { lemma_utf8_injective(s@, "minecraft:gray_wool"@); }
            return Some(MinecraftBlock::GrayWool);
        }
        if bytes_eq(bytes, "minecraft:black_wool".as_bytes()) {
            proof { lemma_utf8_injective(s@, "minecraft:black_wool"@); }
            return Some(MinecraftBlock::BlackWool);
        }
        if bytes_eq(bytes, "minecraft:brown_wool".as_bytes()) {
            proof { lemma_utf8_injective(s@, "minecraft:brown_wool"@); }
            return Some(MinecraftBlock::BrownWool);
        }
        if bytes_eq(bytes, "minecraft:red_wool".as_bytes()) {
            proof { lemma_utf8_injective(s@, "minecraft:red_wool"@); }
            return Some(MinecraftBlock::RedWool);
        }
        if bytes_eq(bytes, "minecraft:orange_wool".as_bytes()) {
            proof { lemma_utf8_injective(s@, "minecraft:orange_wool"@); }
            return Some(MinecraftBlock::OrangeWool);
        }
        if bytes_eq(bytes, "minecraft:yellow_wool".as_bytes()) {
            proof { lemma_utf8_injective(s@, "minecraft:yellow_wool"@); }
            return Some(MinecraftBlock::YellowWool);
        }
        if bytes_eq(bytes, "minecraft:lime_wool".as_bytes()) {
            proof { lemma_utf8_injective(s@, "minecraft:lime_wool"@); }
            return Some(MinecraftBlock::LimeWool);
        }
        if bytes_eq(bytes, "minecraft:green_wool".as_bytes()) {
            proof { lemma_utf8_injective(s@, "minecraft:green_wool"@); }
            return Some(MinecraftBlock::GreenWool);
        }
        if bytes_eq(bytes, "minecraft:cyan_wool".as_bytes()) {
            proof { lemma_utf8_injective(s@, "minecraft:cyan_wool"@); }
            return Some(MinecraftBlock::CyanWool);
        }
        if bytes_eq(bytes, "minecraft:light_blue_wool".as_bytes()) {
            proof { lemma_utf8_injective(s@, "minecraft:light_blue_wool"@); }
            return Some(MinecraftBlock::LightBlueWool);
        }
        if bytes_eq(bytes, "minecraft:blue_wool".as_bytes()) {
            proof { lemma_utf8_injective(s@, "minecraft:blue_wool"@); }
            return Some(MinecraftBlock::BlueWool);
        }
        if bytes_eq(bytes, "minecraft:purple_wool".as_bytes()) {
            proof { lemma_utf8_injective(s@, "minecraft:purple_wool"@); }
            return Some(MinecraftBlock::PurpleWool);
        }
        None
    }
    #[verifier::rlimit(100)]
    #[verifier::spinoff_prover]
    fn from_name_group2(s: &str) -> (r: Option<MinecraftBlock>)
        ensures
            r matches Some(b) ==> block_name(b) == s@,
            r is None ==> forall|b: MinecraftBlock|
                #[trigger] name_in_group2(b) ==> block_name(b) != s@,
    {
        let bytes = s.as_bytes();
        if bytes_eq(bytes, "minecraft:magenta_wool".as_bytes()) {
            proof { lemma_utf8_injective(s@, "minecraft:magenta_wool"@); }
            return Some(MinecraftBlock::MagentaWool);
        }
        if bytes_eq(bytes, "minecraft:pink_wool".as_bytes()) {
            proof { lemma_utf8_injective(s@, "minecraft:pink_wool"@); }
            return Some(MinecraftBlock::PinkWool);
        }
        if bytes_eq(bytes, "minecraft:white_stained_glass".as_bytes()) {
            proof { lemma_utf8_injective(s@, "minecraft:white_stained_glass"@); }
            return Some(MinecraftBlock::WhiteStainedGlass);
        }
        if bytes_eq(bytes, "minecraft:light_gray_stained_glass".as_bytes()) {
            proof { lemma_utf8_injective(s@, "minecraft:light_gray_stained_glass"@); }
            return Some(MinecraftBlock::LightGrayStainedGlass);
        }
        if bytes_eq(bytes, "minecraft:gray_stained_glass".as_bytes()) {
            proof { lemma_utf8_injective(s@, "minecraft:gray_stained_glass"@); }
            return Some(MinecraftBlock::GrayStainedGlass);
        }
        if bytes_eq(bytes, "minecraft:black_stained_glass".as_bytes()) {
            proof { lemma_utf8_injective(s@, "minecraft:black_stained_glass"@); }
            return Some(MinecraftBlock::BlackStainedGlass);
        }
        if bytes_eq(bytes, "minecraft:brown_stained_glass".as_bytes()) {
            proof { lemma_utf8_injective(s@, "minecraft:brown_stained_glass"@); }
            return Some(MinecraftBlock::BrownStainedGlass);
        }
        if bytes_eq(bytes, "minecraft:red_stained_glass".as_bytes()) {
            proof { lemma_utf8_injective(s@, "minecraft:red_stained_glass"@); }
            return Some(MinecraftBlock::RedStainedGlass);
        }
        if bytes_eq(bytes, "minecraft:orange_stained_glass".as_bytes()) {
            proof { lemma_utf8_injective(s@, "minecraft:orange_stained_glass"@); }
            return Some(MinecraftBlock::OrangeStainedGlass);
        }
        if bytes_eq(bytes, "minecraft:yellow_stained_glass".as_bytes()) {
            proof { lemma_utf8_injective(s@, "minecraft:yellow_stained_glass"@); }
            return Some(MinecraftBlock::YellowStainedGlass);
        }
        if bytes_eq(bytes, "minecraft:lime_stained_glass".as_bytes()) {
            proof { lemma_utf8_injective(s@, "minecraft:lime_stained_glass"@); }
            return Some(MinecraftBlock::LimeStainedGlass);
        }
        if bytes_eq(bytes, "minecraft:green_stained_glass".as_bytes()) {
            proof { lemma_utf8_injective(s@, "minecraft:green_stained_glass"@); }
            return Some(MinecraftBlock::GreenStainedGlass);
        }
        if bytes_eq(bytes, "minecraft:cyan_stained_glass".as_bytes()) {
            proof { lemma_utf8_injective(s@, "minecraft:cyan_stained_glass"@); }
            return Some(MinecraftBlock::CyanStainedGlass);
        }
        if bytes_eq(bytes, "minecraft:light_blue_stained_glass".as_bytes()) {
            proof { lemma_utf8_injective(s@, "minecraft:light_blue_stained_glass"@); }
            return Some(MinecraftBlock::LightBlueStainedGlass);
        }
        if bytes_eq(bytes, "minecraft:blue_stained_glass".as_bytes()) {
            proof { lemma_utf8_injective(s@, "minecraft:blue_stained_glass"@); }
            return Some(MinecraftBlock::BlueStainedGlass);
        }
        if bytes_eq(bytes, "minecraft:purple_stained_glass".as_bytes()) {
            proof { lemma_utf8_injective(s@, "minecraft:purple_stained_glass"@); }
            return Some(MinecraftBlock::PurpleStainedGlass);
        }
        None
    }
    #[verifier::rlimit(100)]
    #[verifier::spinoff_prover]
    fn from_name_group3(s: &str) -> (r: Option<MinecraftBlock>)
        ensures
            r matches Some(b) ==> block_name(b) == s@,
            r is None ==> forall|b: MinecraftBlock|
                #[trigger] name_in_group3(b) ==> block_name(b) != s@,
    {
        let bytes = s.as_bytes();
        if bytes_eq(bytes, "minecraft:magenta_stained_glass".as_bytes()) {
            proof { lemma_utf8_injective(s@, "minecraft:magenta_stained_glass"@); }
            return Some(MinecraftBlock::MagentaStainedGlass);
        }
        if bytes_eq(bytes, "minecraft:pink_stained_glass".as_bytes()) {
            proof { lemma_utf8_injective(s@, "minecraft:pink_stained_glass"@); }
            return Some(MinecraftBlock::PinkStainedGlass);
        }
        if bytes_eq(bytes, "minecraft:white_concrete".as_bytes()) {
            proof { lemma_utf8_injective(s@, "minecraft:white_concrete"@); }
            return Some(MinecraftBlock::WhiteConcrete);
        }
        if bytes_eq(bytes, "minecraft:light_gray_concrete".as_bytes()) {
            proof { lemma_utf8_injective(s@, "minecraft:light_gray_concrete"@); }
            return Some(MinecraftBlock::LightGrayConcrete);
        }
        if bytes_eq(bytes, "minecraft:gray_concrete".as_bytes()) {
            proof { lemma_utf8_injective(s@, "minecraft:gray_concrete"@); }
            return Some(MinecraftBlock::GrayConcrete);
        }
        if bytes_eq(bytes, "minecraft:black_concrete".as_bytes()) {
            proof { lemma_utf8_injective(s@, "minecraft:black_concrete"@); }
            return Some(MinecraftBlock::BlackConcrete);
        }
        if bytes_eq(bytes, "minecraft:brown_concrete".as_bytes()) {
            proof { lemma_utf8_injective(s@, "minecraft:brown_concrete"@); }
            return Some(MinecraftBlock::BrownConcrete);
        }
        if bytes_eq(bytes, "minecraft:red_concrete".as_bytes()) {
            proof { lemma_utf8_injective(s@, "minecraft:red_concrete"@); }
            return Some(MinecraftBlock::RedConcrete);
        }
        if bytes_eq(bytes, "minecraft:orange_concrete".as_bytes()) {
            proof { lemma_utf8_injective(s@, "minecraft:orange_concrete"@); }
            return Some(MinecraftBlock::OrangeConcrete);
        }
        if bytes_eq(bytes, "minecraft:yellow_concrete".as_bytes()) {
            proof { lemma_utf8_injective(s@, "minecraft:yellow_concrete"@); }
            return Some(MinecraftBlock::YellowConcrete);
        }
        if bytes_eq(bytes, "minecraft:lime_concrete".as_bytes()) {
            proof { lemma_utf8_injective(s@, "minecraft:lime_concrete"@); }
            return Some(MinecraftBlock::LimeConcrete);
        }
        if bytes_eq(bytes, "minecraft:green_concrete".as_bytes()) {
            proof { lemma_utf8_injective(s@, "minecraft:green_concrete"@); }
            return Some(MinecraftBlock::GreenConcrete);
        }
        if bytes_eq(bytes, "minecraft:cyan_concrete".as_bytes()) {
            proof { lemma_utf8_injective(s@, "minecraft:cyan_concrete"@); }
            return Some(MinecraftBlock::CyanConcrete);
        }
        if bytes_eq(bytes, "minecraft:light_blue_concrete".as_bytes()) {
            proof { lemma_utf8_injective(s@, "minecraft:light_blue_concrete"@); }
            return Some(MinecraftBlock::LightBlueConcrete);
        }
        if bytes_eq(bytes, "minecraft:blue_concrete".as_bytes()) {
            proof { lemma_utf8_injective(s@, "minecraft:blue_concrete"@); }
            return Some(MinecraftBlock::BlueConcrete);
        }
        if bytes_eq(bytes, "minecraft:purple_concrete".as_bytes()) {
            proof { lemma_utf8_injective(s@, "minecraft:purple_concrete"@); }
            return Some(MinecraftBlock::PurpleConcrete);
        }
        None
    }
    #[verifier::rlimit(100)]
    #[verifier::spinoff_prover]
    fn from_name_group4(s: &str) -> (r: Option<MinecraftBlock>)
        ensures
            r matches Some(b) ==> block_name(b) == s@,
            r is None ==> forall|b: MinecraftBlock|
                #[trigger] name_in_group4(b) ==> block_name(b) != s@,
    {
        let bytes = s.as_bytes();
        if bytes_eq(bytes, "minecraft:magenta_concrete".as_bytes()) {
            proof { lemma_utf8_injective(s@, "minecraft:magenta_concrete"@); }
            return Some(MinecraftBlock::MagentaConcrete);
        }
        if bytes_eq(bytes, "minecraft:pink_concrete".as_bytes()) {
            proof { lemma_utf8_injective(s@, "minecraft:pink_concrete"@); }
            return Some(MinecraftBlock::PinkConcrete);
        }
        if bytes_eq(bytes, "minecraft:white_glazed_terracotta".as_bytes()) {
            proof { lemma_utf8_injective(s@, "minecraft:white_glazed_terracotta"@); }
            return Some(MinecraftBlock::WhiteGlazedTerracotta);
        }
        if bytes_eq(bytes, "minecraft:light_gray_glazed_terracotta".as_bytes()) {
            proof { lemma_utf8_injective(s@, "minecraft:light_gray_glazed_terracotta"@); }
            return Some(MinecraftBlock::LightGrayGlazedTerracotta);
        }
        if bytes_eq(bytes, "minecraft:gray_glazed_terracotta".as_bytes()) {
            proof { lemma_utf8_injective(s@, "minecraft:gray_glazed_terracotta"@); }
            return Some(MinecraftBlock::GrayGlazedTerracotta);
        }
        if bytes_eq(bytes, "minecraft:black_glazed_terracotta".as_bytes()) {
            proof { lemma_utf8_injective(s@, "minecraft:black_glazed_terracotta"@); }
            return Some(MinecraftBlock::BlackGlazedTerracotta);
        }
        if bytes_eq(bytes, "minecraft:brown_glazed_terracotta".as_bytes()) {
            proof { lemma_utf8_injective(s@, "minecraft:brown_glazed_terracotta"@); }
            return Some(MinecraftBlock::BrownGlazedTerracotta);
        }
        if bytes_eq(bytes, "minecraft:red_glazed_terracotta".as_bytes()) {
            proof { lemma_utf8_injective(s@, "minecraft:red_glazed_terracotta"@); }
            return Some(MinecraftBlock::RedGlazedTerracotta);
        }
        if bytes_eq(bytes, "minecraft:orange_glazed_terracotta".as_bytes()) {
            proof { lemma_utf8_injective(s@, "minecraft:orange_glazed_terracotta"@); }
            return Some(MinecraftBlock::OrangeGlazedTerracotta);
        }
        if bytes_eq(bytes, "minecraft:yellow_glazed_terracotta".as_bytes()) {
            proof { lemma_utf8_injective(s@, "minecraft:yellow_glazed_terracotta"@); }
            return Some(MinecraftBlock::YellowGlazedTerracotta);
        }
        if bytes_eq(bytes, "minecraft:lime_glazed_terracotta".as_bytes()) {
            proof { lemma_utf8_injective(s@, "minecraft:lime_glazed_terracotta"@); }
            return Some(MinecraftBlock::LimeGlazedTerracotta);
        }
        if bytes_eq(bytes, "minecraft:green_glazed_terracotta".as_bytes()) {
            proof { lemma_utf8_injective(s@, "minecraft:green_glazed_terracotta"@); }
            return Some(MinecraftBlock::GreenGlazedTerracotta);
        }
        if bytes_eq(bytes, "minecraft:cyan_glazed_terracotta".as_bytes()) {
            proof { lemma_utf8_injective(s@, "minecraft:cyan_glazed_terracotta"@); }
            return Some(MinecraftBlock::CyanGlazedTerracotta);
        }
        if bytes_eq(bytes, "minecraft:light_blue_glazed_terracotta".as_bytes()) {
            proof { lemma_utf8_injective(s@, "minecraft:light_blue_glazed_terracotta"@); }
            return Some(MinecraftBlock::LightBlueGlazedTerracotta);
        }
        if bytes_eq(bytes, "minecraft:blue_glazed_terracotta".as_bytes()) {
            proof { lemma_utf8_injective(s@, "minecraft:blue_glazed_terracotta"@); }
            return Some(MinecraftBlock::BlueGlazedTerracotta);
        }
        if bytes_eq(bytes, "minecraft:purple_glazed_terracotta".as_bytes()) {
            proof { lemma_utf8_injective(s@, "minecraft:purple_glazed_terracotta"@); }
            return Some(MinecraftBlock::PurpleGlazedTerracotta);
        }
        None
    }
    #[verifier::rlimit(100)]
    #[verifier::spinoff_prover]
    fn from_name_group5(s: &str) -> (r: Option<MinecraftBlock>)
        ensures
            r matches Some(b) ==> block_name(b) == s@,
            r is None ==> forall|b: MinecraftBlock|
                #[trigger] name_in_group5(b) ==> block_name(b) != s@,
    {
        let bytes = s.as_bytes();
        if bytes_eq(bytes, "minecraft:magenta_glazed_terracotta".as_bytes()) {
            proof { lemma_utf8_injective(s@, "minecraft:magenta_glazed_terracotta"@); }
            return Some(MinecraftBlock::MagentaGlazedTerracotta);
        }
        if bytes_eq(bytes, "minecraft:pink_glazed_terracotta".as_bytes()) {
            proof { lemma_utf8_injective(s@, "minecraft:pink_glazed_terracotta"@); }
            return Some(MinecraftBlock::PinkGlazedTerracotta);
        }
        if bytes_eq(bytes, "minecraft:white_terracotta".as_bytes()) {
            proof { lemma_utf8_injective(s@, "minecraft:white_terracotta"@); }
            return Some(MinecraftBlock::WhiteTerracotta);
        }
        if bytes_eq(bytes, "minecraft:light_gray_terracotta".as_bytes()) {
            proof { lemma_utf8_injective(s@, "minecraft:light_gray_terracotta"@); }
            return Some(MinecraftBlock::LightGrayTerracotta);
        }
        if bytes_eq(bytes, "minecraft:gray_terracotta".as_bytes()) {
            proof { lemma_utf8_injective(s@, "minecraft:gray_terracotta"@); }
            return Some(MinecraftBlock::GrayTerracotta);
        }
        if bytes_eq(bytes, "minecraft:black_terracotta".as_bytes()) {
            proof { lemma_utf8_injective(s@, "minecraft:black_terracotta"@); }
            return Some(MinecraftBlock::BlackTerracotta);
        }
        if bytes_eq(bytes, "minecraft:brown_terracotta".as_bytes()) {
            proof { lemma_utf8_injective(s@, "minecraft:brown_terracotta"@); }
            return Some(MinecraftBlock::BrownTerracotta);
        }
        if bytes_eq(bytes, "minecraft:red_terracotta".as_bytes()) {
            proof { lemma_utf8_injective(s@, "minecraft:red_terracotta"@); }
            return Some(MinecraftBlock::RedTerracotta);
        }
        if bytes_eq(bytes, "minecraft:orange_terracotta".as_bytes()) {
            proof { lemma_utf8_injective(s@, "minecraft:orange_terracotta"@); }
            return Some(MinecraftBlock::OrangeTerracotta);
        }
        if bytes_eq(bytes, "minecraft:yellow_terracotta".as_bytes()) {
            proof { lemma_utf8_injective(s@, "minecraft:yellow_terracotta"@); }
            return Some(MinecraftBlock::YellowTerracotta);
        }
        if bytes_eq(bytes, "minecraft:lime_terracotta".as_bytes()) {
            proof { lemma_utf8_injective(s@, "minecraft:lime_terracotta"@); }
            return Some(MinecraftBlock::LimeTerracotta);
        }
        if bytes_eq(bytes, "minecraft:green_terracotta".as_bytes()) {
            proof { lemma_utf8_injective(s@, "minecraft:green_terracotta"@); }
            return Some(MinecraftBlock::GreenTerracotta);
        }
        if bytes_eq(bytes, "minecraft:cyan_terracotta".as_bytes()) {
            proof { lemma_utf8_injective(s@, "minecraft:cyan_terracotta"@); }
            return Some(MinecraftBlock::CyanTerracotta);
        }
        if bytes_eq(bytes, "minecraft:light_blue_terracotta".as_bytes()) {
            proof { lemma_utf8_injective(s@, "minecraft:light_blue_terracotta"@); }
            return Some(MinecraftBlock::LightBlueTerracotta);
        }
        if bytes_eq(bytes, "minecraft:blue_terracotta".as_bytes()) {
            proof { lemma_utf8_injective(s@, "minecraft:blue_terracotta"@); }
            return Some(MinecraftBlock::BlueTerracotta);
        }
        if bytes_eq(bytes, "minecraft:purple_terracotta".as_bytes()) {
            proof { lemma_utf8_injective(s@, "minecraft:purple_terracotta"@); }
            return Some(MinecraftBlock::PurpleTerracotta);
        }
        None
    }
    #[verifier::rlimit(100)]
    #[verifier::spinoff_prover]
    fn from_name_group6(s: &str) -> (r: Option<MinecraftBlock>)
        ensures
            r matches Some(b) ==> block_name(b) == s@,
            r is None ==> forall|b: MinecraftBlock|
                #[trigger] name_in_group6(b) ==> block_name(b) != s@,
    {
        let bytes = s.as_bytes();
        if bytes_eq(bytes, "minecraft:magenta_terracotta".as_bytes()) {
            proof { lemma_utf8_injective(s@, "minecraft:magenta_terracotta"@); }
            return Some(MinecraftBlock::MagentaTerracotta);
        }
        if bytes_eq(bytes, "minecraft:pink_terracotta".as_bytes()) {
            proof { lemma_utf8_injective(s@, "minecraft:pink_terracotta"@); }
            return Some(MinecraftBlock::PinkTerracotta);
        }
        if bytes_eq(bytes, "minecraft:oak_planks".as_bytes()) {
            proof { lemma_utf8_injective(s@, "minecraft:oak_planks"@); }
            return Some(MinecraftBlock::OakPlanks);
        }
        if bytes_eq(bytes, "minecraft:spruce_planks".as_bytes()) {
            proof { lemma_utf8_injective(s@, "minecraft:spruce_planks"@); }
            return Some(MinecraftBlock::SprucePlanks);
        }
        if bytes_eq(bytes, "minecraft:birch_planks".as_bytes()) {
            proof { lemma_utf8_injective(s@, "minecraft:birch_planks"@); }
            return Some(MinecraftBlock::BirchPlanks);
        }
        if bytes_eq(bytes, "minecraft:jungle_planks".as_bytes()) {
            proof { lemma_utf8_injective(s@, "minecraft:jungle_planks"@); }
            return Some(MinecraftBlock::JunglePlanks);
        }
        if bytes_eq(bytes, "minecraft:acacia_planks".as_bytes()) {
            proof { lemma_utf8_injective(s@, "minecraft:acacia_planks"@); }
            return Some(MinecraftBlock::AcaciaPlanks);
        }
        if bytes_eq(bytes, "minecraft:dark_oak_planks".as_bytes()) {
            proof { lemma_utf8_injective(s@, "minecraft:dark_oak_planks"@); }
            return Some(MinecraftBlock::DarkOakPlanks);
        }
        if bytes_eq(bytes, "minecraft:mangrove_planks".as_bytes()) {
            proof { lemma_utf8_injective(s@, "minecraft:mangrove_planks"@); }
            return Some(MinecraftBlock::MangrovePlanks);
        }
        if bytes_eq(bytes, "minecraft:cherry_planks".as_bytes()) {
            proof { lemma_utf8_injective(s@, "minecraft:cherry_planks"@); }
            return Some(MinecraftBlock::CherryPlanks);
        }
        if bytes_eq(bytes, "minecraft:bamboo_planks".as_bytes()) {
            proof { lemma_utf8_injective(s@, "minecraft:bamboo_planks"@); }
            return Some(MinecraftBlock::BambooPlanks);
        }
        if bytes_eq(bytes, "minecraft:crimson_planks".as_bytes()) {
            proof { lemma_utf8_injective(s@, "minecraft:crimson_planks"@); }
            return Some(MinecraftBlock::CrimsonPlanks);
        }
        if bytes_eq(bytes, "minecraft:warped_planks".as_bytes()) {
            proof { lemma_utf8_injective(s@, "minecraft:warped_planks"@); }
            return Some(MinecraftBlock::WarpedPlanks);
        }
        if bytes_eq(bytes, "minecraft:coal_block".as_bytes()) {
            proof { lemma_utf8_injective(s@, "minecraft:coal_block"@); }
            return Some(MinecraftBlock::CoalBlock);
        }
        if bytes_eq(bytes, "minecraft:redstone_block".as_bytes()) {
            proof { lemma_utf8_injective(s@, "minecraft:redstone_block"@); }
            return Some(MinecraftBlock::RedstoneBlock);
        }
        if bytes_eq(bytes, "minecraft:cherry_log".as_bytes()) {
            proof { lemma_utf8_injective(s@, "minecraft:cherry_log"@); }
            return Some(MinecraftBlock::CherryLog);
        }
        None
    }
    #[verifier::rlimit(100)]
    #[verifier::spinoff_prover]
    fn from_name_group7(s: &str) -> (r: Option<MinecraftBlock>)
        ensures
            r matches Some(b) ==> block_name(b) == s@,
            r is None ==> forall|b: MinecraftBlock|
                #[trigger] name_in_group7(b) ==> block_name(b) != s@,
    {
        let bytes = s.as_bytes();
        if bytes_eq(bytes, "minecraft:bamboo_block".as_bytes()) {
            proof { lemma_utf8_injective(s@, "minecraft:bamboo_block"@); }
            return Some(MinecraftBlock::BambooLog);
        }
        if bytes_eq(bytes, "minecraft:birch_log".as_bytes()) {
            proof { lemma_utf8_injective(s@, "minecraft:birch_log"@); }
            return Some(MinecraftBlock::BirchLog);
        }
        if bytes_eq(bytes, "minecraft:oak_log".as_bytes()) {
            proof { lemma_utf8_injective(s@, "minecraft:oak_log"@); }
            return Some(MinecraftBlock::OakLog);
        }
        if bytes_eq(bytes, "minecraft:jungle_log".as_bytes()) {
            proof { lemma_utf8_injective(s@, "minecraft:jungle_log"@); }
            return Some(MinecraftBlock::JungleLog);
        }
        if bytes_eq(bytes, "minecraft:acacia_log".as_bytes()) {
            proof { lemma_utf8_injective(s@, "minecraft:acacia_log"@); }
            return Some(MinecraftBlock::AcaciaLog);
        }
        if bytes_eq(bytes, "minecraft:spruce_log".as_bytes()) {
            proof { lemma_utf8_injective(s@, "minecraft:spruce_log"@); }
            return Some(MinecraftBlock::SpruceLog);
        }
        if bytes_eq(bytes, "minecraft:dark_oak_log".as_bytes()) {
            proof { lemma_utf8_injective(s@, "minecraft:dark_oak_log"@); }
            return Some(MinecraftBlock::DarkOakLog);
        }
        if bytes_eq(bytes, "minecraft:crimson_stem".as_bytes()) {
            proof { lemma_utf8_injective(s@, "minecraft:crimson_stem"@); }
            return Some(MinecraftBlock::CrimsonStem);
        }
        if bytes_eq(bytes, "minecraft:warped_stem".as_bytes()) {
            proof { lemma_utf8_injective(s@, "minecraft:warped_stem"@); }
            return Some(MinecraftBlock::WarpedStem);
        }
        if bytes_eq(bytes, "minecraft:dark_oak_fence".as_bytes()) {
            proof { lemma_utf8_injective(s@, "minecraft:dark_oak_fence"@); }
            return Some(MinecraftBlock::DarkOakFence);
        }
        if bytes_eq(bytes, "minecraft:cherry_fence".as_bytes()) {
            proof { lemma_utf8_injective(s@, "minecraft:cherry_fence"@); }
            return Some(MinecraftBlock::CherryFence);
        }
        if bytes_eq(bytes, "minecraft:crimson_fence".as_bytes()) {
            proof { lemma_utf8_injective(s@, "minecraft:crimson_fence"@); }
            return Some(MinecraftBlock::CrimsonFence);
        }
        if bytes_eq(bytes, "minecraft:warped_fence".as_bytes()) {
            proof { lemma_utf8_injective(s@, "minecraft:warped_fence"@); }
            return Some(MinecraftBlock::WarpedFence);
        }
        if bytes_eq(bytes, "minecraft:gold_block".as_bytes()) {
            proof { lemma_utf8_injective(s@, "minecraft:gold_block"@); }
            return Some(MinecraftBlock::GoldBlock);
        }
        if bytes_eq(bytes, "minecraft:iron_block".as_bytes()) {
            proof { lemma_utf8_injective(s@, "minecraft:iron_block"@); }
            return Some(MinecraftBlock::IronBlock);
        }
        if bytes_eq(bytes, "minecraft:lapis_block".as_bytes()) {
            proof { lemma_utf8_injective(s@, "minecraft:lapis_block"@); }
            return Some(MinecraftBlock::LapisBlock);
        }
        None
    }
    #[verifier::rlimit(100)]
    #[verifier::spinoff_prover]
    fn from_name_group8(s: &str) -> (r: Option<MinecraftBlock>)
        ensures
            r matches Some(b) ==> block_name(b) == s@,
            r is None ==> forall|b: MinecraftBlock|
                #[trigger] name_in_group8(b) ==> block_name(b) != s@,
    {
        let bytes = s.as_bytes();
        if bytes_eq(bytes, "minecraft:emerald_block".as_bytes()) {
            proof { lemma_utf8_injective(s@, "minecraft:emerald_block"@); }
            return Some(MinecraftBlock::EmeraldBlock);
        }
        if bytes_eq(bytes, "minecraft:diamond_block".as_bytes()) {
            proof { lemma_utf8_injective(s@, "minecraft:diamond_block"@); }
            return Some(MinecraftBlock::DiamondBlock);
        }
        if bytes_eq(bytes, "minecraft:raw_copper_block".as_bytes()) {
            proof { lemma_utf8_injective(s@, "minecraft:raw_copper_block"@); }
            return Some(MinecraftBlock::RawCopperBlock);
        }
        if bytes_eq(bytes, "minecraft:raw_iron_block".as_bytes()) {
            proof { lemma_utf8_injective(s@, "minecraft:raw_iron_block"@); }
            return Some(MinecraftBlock::RawIronBlock);
        }
        if bytes_eq(bytes, "minecraft:raw_gold_block".as_bytes()) {
            proof { lemma_utf8_injective(s@, "minecraft:raw_gold_block"@); }
            return Some(MinecraftBlock::RawGoldBlock);
        }
        if bytes_eq(bytes, "minecraft:bricks".as_bytes()) {
            proof { lemma_utf8_injective(s@, "minecraft:bricks"@); }
            return Some(MinecraftBlock::Bricks);
        }
        if bytes_eq(bytes, "minecraft:glass".as_bytes()) {
            proof { lemma_utf8_injective(s@, "minecraft:glass"@); }
            return Some(MinecraftBlock::Glass);
        }
        if bytes_eq(bytes, "minecraft:crying_obsidian".as_bytes()) {
            proof { lemma_utf8_injective(s@, "minecraft:crying_obsidian"@); }
            return Some(MinecraftBlock::CryingObsidian);
        }
        if bytes_eq(bytes, "minecraft:bee_nest".as_bytes()) {
            proof { lemma_utf8_injective(s@, "minecraft:bee_nest"@); }
            return Some(MinecraftBlock::BeeNest);
        }
        if bytes_eq(bytes, "minecraft:bedrock".as_bytes()) {
            proof { lemma_utf8_injective(s@, "minecraft:bedrock"@); }
            return Some(MinecraftBlock::Bedrock);
        }
        if bytes_eq(bytes, "minecraft:redstone_lamp".as_bytes()) {
            proof { lemma_utf8_injective(s@, "minecraft:redstone_lamp"@); }
            return Some(MinecraftBlock::RedstoneLamp);
        }
        if bytes_eq(bytes, "minecraft:glowstone".as_bytes()) {
            proof { lemma_utf8_injective(s@, "minecraft:glowstone"@); }
            return Some(MinecraftBlock::Glowstone);
        }
        if bytes_eq(bytes, "minecraft:nether_quartz_block".as_bytes()) {
            proof { lemma_utf8_injective(s@, "minecraft:nether_quartz_block"@); }
            return Some(MinecraftBlock::NetherQuartzBlock);
        }
        if bytes_eq(bytes, "minecraft:crimson_nylium".as_bytes()) {
            proof { lemma_utf8_injective(s@, "minecraft:crimson_nylium"@); }
            return Some(MinecraftBlock::CrimsonNylium);
        }
        if bytes_eq(bytes, "minecraft:warped_nylium".as_bytes()) {
            proof { lemma_utf8_injective(s@, "minecraft:warped_nylium"@); }
            return Some(MinecraftBlock::WarpedNylium);
        }
        None
    }
}

/// The blocks whose names the matching lookup helper tries.
pub open spec fn name_in_group0(b: MinecraftBlock) -> bool {
    ||| b == MinecraftBlock::Stone
    ||| b == MinecraftBlock::EndStone
    ||| b == MinecraftBlock::Cobblestone
    ||| b == MinecraftBlock::QuartzBlock
    ||| b == MinecraftBlock::Obsidian
    ||| b == MinecraftBlock::Shroomlight
    ||| b == MinecraftBlock::ChiseledDeepslate
    ||| b == MinecraftBlock::Blackstone
    ||| b == MinecraftBlock::GildedBlackstone
    ||| b == MinecraftBlock::Prismarine
    ||| b == MinecraftBlock::DarkPrismarine
    ||| b == MinecraftBlock::AmethystBlock
    ||| b == MinecraftBlock::PurpurBlock
    ||| b == MinecraftBlock::PurpurPillar
    ||| b == MinecraftBlock::OchreFroglight
    ||| b == MinecraftBlock::VerdantFroglight
}

/// The blocks whose names the matching lookup helper tries.
pub open spec fn name_in_group1(b: MinecraftBlock) -> bool {
    ||| b == MinecraftBlock::PearlescentFroglight
    ||| b == MinecraftBlock::SeaLantern
    ||| b == MinecraftBlock::WhiteWool
    ||| b == MinecraftBlock::LightGrayWool
    ||| b == MinecraftBlock::GrayWool
    ||| b == MinecraftBlock::BlackWool
    ||| b == MinecraftBlock::BrownWool
    ||| b == MinecraftBlock::RedWool
    ||| b == MinecraftBlock::OrangeWool
    ||| b == MinecraftBlock::YellowWool
    ||| b == MinecraftBlock::LimeWool
    ||| b == MinecraftBlock::GreenWool
    ||| b == MinecraftBlock::CyanWool
    ||| b == MinecraftBlock::LightBlueWool
    ||| b == MinecraftBlock::BlueWool
    ||| b == MinecraftBlock::PurpleWool
}

/// The blocks whose names the matching lookup helper tries.
pub open spec fn name_in_group2(b: MinecraftBlock) -> bool {
    ||| b == MinecraftBlock::MagentaWool
    ||| b == MinecraftBlock::PinkWool
    ||| b == MinecraftBlock::WhiteStainedGlass
    ||| b == MinecraftBlock::LightGrayStainedGlass
    ||| b == MinecraftBlock::GrayStainedGlass
    ||| b == MinecraftBlock::BlackStainedGlass
    ||| b == MinecraftBlock::BrownStainedGlass
    ||| b == MinecraftBlock::RedStainedGlass
    ||| b == MinecraftBlock::OrangeStainedGlass
    ||| b == MinecraftBlock::YellowStainedGlass
    ||| b == MinecraftBlock::LimeStainedGlass
    ||| b == MinecraftBlock::GreenStainedGlass
    ||| b == MinecraftBlock::CyanStainedGlass
    ||| b == MinecraftBlock::LightBlueStainedGlass
    ||| b == MinecraftBlock::BlueStainedGlass
    ||| b == MinecraftBlock::PurpleStainedGlass
}

/// The blocks whose names the matching lookup helper tries.
pub open spec fn name_in_group3(b: MinecraftBlock) -> bool {
    ||| b == MinecraftBlock::MagentaStainedGlass
    ||| b == MinecraftBlock::PinkStainedGlass
    ||| b == MinecraftBlock::WhiteConcrete
    ||| b == MinecraftBlock::LightGrayConcrete
    ||| b == MinecraftBlock::GrayConcrete
    ||| b == MinecraftBlock::BlackConcrete
    ||| b == MinecraftBlock::BrownConcrete
    ||| b == MinecraftBlock::RedConcrete
    ||| b == MinecraftBlock::OrangeConcrete
    ||| b == MinecraftBlock::YellowConcrete
    ||| b == MinecraftBlock::LimeConcrete
    ||| b == MinecraftBlock::GreenConcrete
    ||| b == MinecraftBlock::CyanConcrete
    ||| b == MinecraftBlock::LightBlueConcrete
    ||| b == MinecraftBlock::BlueConcrete
    ||| b == MinecraftBlock::PurpleConcrete
}

/// The blocks whose names the matching lookup helper tries.
pub open spec fn name_in_group4(b: MinecraftBlock) -> bool {
    ||| b == MinecraftBlock::MagentaConcrete
    ||| b == MinecraftBlock::PinkConcrete
    ||| b == MinecraftBlock::WhiteGlazedTerracotta
    ||| b == MinecraftBlock::LightGrayGlazedTerracotta
    ||| b == MinecraftBlock::GrayGlazedTerracotta
    ||| b == MinecraftBlock::BlackGlazedTerracotta
    ||| b == MinecraftBlock::BrownGlazedTerracotta
    ||| b == MinecraftBlock::RedGlazedTerracotta
    ||| b == MinecraftBlock::OrangeGlazedTerracotta
    ||| b == MinecraftBlock::YellowGlazedTerracotta
    ||| b == MinecraftBlock::LimeGlazedTerracotta
    ||| b == MinecraftBlock::GreenGlazedTerracotta
    ||| b == MinecraftBlock::CyanGlazedTerracotta
    ||| b == MinecraftBlock::LightBlueGlazedTerracotta
    ||| b == MinecraftBlock::BlueGlazedTerracotta
    ||| b == MinecraftBlock::PurpleGlazedTerracotta
}

/// The blocks whose names the matching lookup helper tries.
pub open spec fn name_in_group5(b: MinecraftBlock) -> bool {
    ||| b == MinecraftBlock::MagentaGlazedTerracotta
    ||| b == MinecraftBlock::PinkGlazedTerracotta
    ||| b == MinecraftBlock::WhiteTerracotta
    ||| b == MinecraftBlock::LightGrayTerracotta
    ||| b == MinecraftBlock::GrayTerracotta
    ||| b == MinecraftBlock::BlackTerracotta
    ||| b == MinecraftBlock::BrownTerracotta
    ||| b == MinecraftBlock::RedTerracotta
    ||| b == MinecraftBlock::OrangeTerracotta
    ||| b == MinecraftBlock::YellowTerracotta
    ||| b == MinecraftBlock::LimeTerracotta
    ||| b == MinecraftBlock::GreenTerracotta
    ||| b == MinecraftBlock::CyanTerracotta
    ||| b == MinecraftBlock::LightBlueTerracotta
    ||| b == MinecraftBlock::BlueTerracotta
    ||| b == MinecraftBlock::PurpleTerracotta
}

/// The blocks whose names the matching lookup helper tries.
pub open spec fn name_in_group6(b: MinecraftBlock) -> bool {
    ||| b == MinecraftBlock::MagentaTerracotta
    ||| b == MinecraftBlock::PinkTerracotta
    ||| b == MinecraftBlock::OakPlanks
    ||| b == MinecraftBlock::SprucePlanks
    ||| b == MinecraftBlock::BirchPlanks
    ||| b == MinecraftBlock::JunglePlanks
    ||| b == MinecraftBlock::AcaciaPlanks
    ||| b == MinecraftBlock::DarkOakPlanks
    ||| b == MinecraftBlock::MangrovePlanks
    ||| b == MinecraftBlock::CherryPlanks
    ||| b == MinecraftBlock::BambooPlanks
    ||| b == MinecraftBlock::CrimsonPlanks
    ||| b == MinecraftBlock::WarpedPlanks
    ||| b == MinecraftBlock::CoalBlock
    ||| b == MinecraftBlock::RedstoneBlock
    ||| b == MinecraftBlock::CherryLog
}

/// The blocks whose names the matching lookup helper tries.
pub open spec fn name_in_group7(b: MinecraftBlock) -> bool {
    ||| b == MinecraftBlock::BambooLog
    ||| b == MinecraftBlock::BirchLog
    ||| b == MinecraftBlock::OakLog
    ||| b == MinecraftBlock::JungleLog
    ||| b == MinecraftBlock::AcaciaLog
    ||| b == MinecraftBlock::SpruceLog
    ||| b == MinecraftBlock::DarkOakLog
    ||| b == MinecraftBlock::CrimsonStem
    ||| b == MinecraftBlock::WarpedStem
    ||| b == MinecraftBlock::DarkOakFence
    ||| b == MinecraftBlock::CherryFence
    ||| b == MinecraftBlock::CrimsonFence
    ||| b == MinecraftBlock::WarpedFence
    ||| b == MinecraftBlock::GoldBlock
    ||| b == MinecraftBlock::IronBlock
    ||| b == MinecraftBlock::LapisBlock
}

/// The blocks whose names the matching lookup helper tries.
pub open spec fn name_in_group8(b: MinecraftBlock) -> bool {
    ||| b == MinecraftBlock::EmeraldBlock
    ||| b == MinecraftBlock::DiamondBlock
    ||| b == MinecraftBlock::RawCopperBlock
    ||| b == MinecraftBlock::RawIronBlock
    ||| b == MinecraftBlock::RawGoldBlock
    ||| b == MinecraftBlock::Bricks
    ||| b == MinecraftBlock::Glass
    ||| b == MinecraftBlock::CryingObsidian
    ||| b == MinecraftBlock::BeeNest
    ||| b == MinecraftBlock::Bedrock
    ||| b == MinecraftBlock::RedstoneLamp
    ||| b == MinecraftBlock::Glowstone
    ||| b == MinecraftBlock::NetherQuartzBlock
    ||| b == MinecraftBlock::CrimsonNylium
    ||| b == MinecraftBlock::WarpedNylium
}

/// Every block falls in one of the lookup helpers' groups.
pub proof fn lemma_name_groups_cover(b: MinecraftBlock)
    ensures
        name_in_group0(b) || name_in_group1(b) || name_in_group2(b) || name_in_group3(b) || name_in_group4(b) || name_in_group5(b) || name_in_group6(b) || name_in_group7(b) || name_in_group8(b),
{
}

/// Two byte slices are `==` exactly when their contents agree.
pub fn bytes_eq(a: &[u8], b: &[u8]) -> (r: bool)
    ensures
        r <==> a@ == b@,
{
    if a.len() != b.len() {
        proof {
            assert(a@.len() != b@.len());
        }
        return false;
    }
    let mut i: usize = 0;
    while i < a.len()
        invariant
            i <= a@.len(),
            a@.len() == b@.len(),
            forall|j: int| 0 <= j < i ==> a@[j] == b@[j],
        decreases a@.len() - i,
    {
        if a[i] != b[i] {
            return false;
        }
        i = i + 1;
    }
    proof {
        assert(a@ =~= b@);
    }
    true
}

/// UTF-8 encoding is injective: equal encodings come from equal
/// character sequences.
pub proof fn lemma_utf8_injective(a: Seq<char>, b: Seq<char>)
    requires
        vstd::utf8::encode_utf8(a) == vstd::utf8::encode_utf8(b),
    ensures
        a == b,
{
    broadcast use vstd::utf8::encode_utf8_decode_utf8;
    assert(vstd::utf8::decode_utf8(vstd::utf8::encode_utf8(a)) == a);
    assert(vstd::utf8::decode_utf8(vstd::utf8::encode_utf8(b)) == b);
}

} // verus!
