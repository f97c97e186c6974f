use serdecraft::{
    BlockBuffer, MCEnumAccessor, MCMapAccess, MCStructAccessor, MCTupleAccessor, MCWebSocket,
    McKind, MinecraftBlock, MinecraftDeserializer, MinecraftError, MinecraftSerializer,
    NumberMarker, OptionSerializer,
};
use serdecraft::de::EnumKind;
use serdecraft::de::McIdentifier;

fn digit(v: u8) -> MinecraftBlock {
    MinecraftBlock::bit_to_block(v).unwrap()
}

fn writer() -> MinecraftSerializer<BlockBuffer> {
    MinecraftSerializer::new(BlockBuffer::new())
}

fn reader_of(ser: MinecraftSerializer<BlockBuffer>) -> MinecraftDeserializer<BlockBuffer> {
    let mut buf = ser.into_socket();
    buf.reset();
    MinecraftDeserializer::new(buf)
}

#[test]
fn block_to_bit_test() {
    for i in 0..91u8 {
        let block = MinecraftBlock::bit_to_block(i).unwrap();
        let bit = block.block_to_bit().unwrap();
        assert_eq!(bit, i);
    }
}

#[test]
fn bit_to_block_rejects_out_of_range() {
    assert_eq!(
        MinecraftBlock::bit_to_block(91),
        Err(MinecraftError::BitToBlock(91))
    );
    assert_eq!(
        MinecraftBlock::bit_to_block(255),
        Err(MinecraftError::BitToBlock(255))
    );
}

#[test]
fn block_to_bit_rejects_non_digits() {
    assert_eq!(
        MinecraftBlock::EndStone.block_to_bit(),
        Err(MinecraftError::BlockToBit(MinecraftBlock::EndStone))
    );
    assert_eq!(
        MinecraftBlock::Prismarine.block_to_bit(),
        Err(MinecraftError::BlockToBit(MinecraftBlock::Prismarine))
    );
}

#[test]
fn digit_family_bounds() {
    assert_eq!(digit(0), MinecraftBlock::WhiteWool);
    assert_eq!(digit(15), MinecraftBlock::PinkWool);
    assert_eq!(digit(16), MinecraftBlock::WhiteConcrete);
    assert_eq!(digit(32), MinecraftBlock::WhiteTerracotta);
    assert_eq!(digit(48), MinecraftBlock::WhiteGlazedTerracotta);
    assert_eq!(digit(64), MinecraftBlock::OakPlanks);
    assert_eq!(digit(74), MinecraftBlock::WarpedPlanks);
    assert_eq!(digit(75), MinecraftBlock::WhiteStainedGlass);
    assert_eq!(digit(90), MinecraftBlock::PinkStainedGlass);
}

#[test]
fn family_predicates() {
    assert!(MinecraftBlock::WhiteWool.is_wool());
    assert!(!MinecraftBlock::WhiteConcrete.is_wool());
    assert!(MinecraftBlock::PinkStainedGlass.is_glass());
    assert!(MinecraftBlock::GreenTerracotta.is_terracotta());
    assert!(!MinecraftBlock::GreenGlazedTerracotta.is_terracotta());
    assert!(MinecraftBlock::GreenGlazedTerracotta.is_glazed_terracotta());
    assert!(MinecraftBlock::WarpedPlanks.is_planks());
    assert!(MinecraftBlock::CherryLog.is_log());
    assert!(MinecraftBlock::WarpedStem.is_log());
    assert!(MinecraftBlock::Shroomlight.is_light());
    assert!(MinecraftBlock::Glowstone.is_light());
    assert!(!MinecraftBlock::Stone.is_light());
}

#[test]
fn name_round_trip_digits_and_markers() {
    for i in 0..91u8 {
        let b = MinecraftBlock::bit_to_block(i).unwrap();
        assert_eq!(MinecraftBlock::from_name(&b.name()), Ok(b));
    }
    for b in [
        MinecraftBlock::EndStone,
        MinecraftBlock::RawIronBlock,
        MinecraftBlock::RawCopperBlock,
        MinecraftBlock::RawGoldBlock,
        MinecraftBlock::Shroomlight,
        MinecraftBlock::Glowstone,
        MinecraftBlock::ChiseledDeepslate,
        MinecraftBlock::Blackstone,
        MinecraftBlock::GildedBlackstone,
        MinecraftBlock::Prismarine,
        MinecraftBlock::DarkPrismarine,
        MinecraftBlock::AmethystBlock,
        MinecraftBlock::EmeraldBlock,
        MinecraftBlock::Bedrock,
        MinecraftBlock::CoalBlock,
        MinecraftBlock::RedstoneBlock,
        MinecraftBlock::RedstoneLamp,
    ] {
        assert_eq!(MinecraftBlock::from_name(&b.name()), Ok(b));
    }
    assert_eq!(MinecraftBlock::EndStone.name(), "minecraft:end_stone");
    assert_eq!(MinecraftBlock::BambooLog.name(), "minecraft:bamboo_block");
}

#[test]
fn unknown_name_is_rejected() {
    match MinecraftBlock::from_name("minecraft:sponge") {
        Err(MinecraftError::UnknownBlockType(n)) => assert_eq!(n, "minecraft:sponge"),
        other => panic!("expected UnknownBlockType, got {:?}", other),
    }
    assert!(MinecraftBlock::from_name("").is_err());
    assert!(MinecraftBlock::from_name("minecraft:stonee").is_err());
}

#[test]
fn number_marker_predicates() {
    assert!(NumberMarker::is_marker(&MinecraftBlock::EndStone));
    assert!(NumberMarker::is_marker(&MinecraftBlock::ChiseledDeepslate));
    assert!(!NumberMarker::is_marker(&MinecraftBlock::Bedrock));
    assert!(NumberMarker::is_sign_marker(&MinecraftBlock::SeaLantern));
    assert!(!NumberMarker::is_sign_marker(&MinecraftBlock::EndStone));
    let m = NumberMarker::new(
        MinecraftBlock::EndStone,
        Some(MinecraftBlock::OchreFroglight),
    );
    assert_eq!(m.marker, MinecraftBlock::EndStone);
    assert_eq!(m.signed, Some(MinecraftBlock::OchreFroglight));
}

#[test]
fn bool_true_is_a_single_redstone_block() {
    let mut ser = writer();
    ser.serialize_bool(true).unwrap();
    let buf = ser.into_socket();
    assert_eq!(buf.blocks().as_slice(), &[MinecraftBlock::RedstoneBlock]);

    let mut ser = writer();
    ser.serialize_bool(true).unwrap();
    let mut de = reader_of(ser);
    assert_eq!(de.deserialize_bool(), Ok(true));
}

#[test]
fn bool_false_round_trip() {
    let mut ser = writer();
    ser.serialize_bool(false).unwrap();
    let mut de = reader_of(ser);
    assert_eq!(de.deserialize_bool(), Ok(false));
}

#[test]
fn u8_200_wire_form() {
    let mut ser = writer();
    ser.serialize_u8(200).unwrap();
    let buf = ser.into_socket();
    assert_eq!(
        buf.blocks().as_slice(),
        &[
            MinecraftBlock::EndStone,
            digit(2),
            digit(18),
            MinecraftBlock::EndStone,
        ]
    );
}

#[test]
fn i16_minus_one_wire_form() {
    let mut ser = writer();
    ser.serialize_i16(-1).unwrap();
    let buf = ser.into_socket();
    assert_eq!(
        buf.blocks().as_slice(),
        &[
            MinecraftBlock::RawIronBlock,
            MinecraftBlock::VerdantFroglight,
            digit(7),
            digit(83),
            digit(15),
            MinecraftBlock::RawIronBlock,
        ]
    );
}

#[test]
fn string_hi_wire_form() {
    let mut ser = writer();
    ser.serialize_str("Hi").unwrap();
    let buf = ser.into_socket();
    assert_eq!(
        buf.blocks().as_slice(),
        &[
            MinecraftBlock::GildedBlackstone,
            digit(0),
            digit(72),
            digit(1),
            digit(14),
            MinecraftBlock::Prismarine,
        ]
    );
}

#[test]
fn integer_round_trips() {
    let mut ser = writer();
    ser.serialize_u8(0).unwrap();
    ser.serialize_u8(255).unwrap();
    ser.serialize_u16(65535).unwrap();
    ser.serialize_u32(4294967295).unwrap();
    ser.serialize_u64(u64::MAX).unwrap();
    ser.serialize_i8(-128).unwrap();
    ser.serialize_i8(127).unwrap();
    ser.serialize_i16(-32768).unwrap();
    ser.serialize_i32(-2147483648).unwrap();
    ser.serialize_i64(i64::MIN).unwrap();
    ser.serialize_i64(i64::MAX).unwrap();
    let mut de = reader_of(ser);
    assert_eq!(de.deserialize_u8(), Ok(0));
    assert_eq!(de.deserialize_u8(), Ok(255));
    assert_eq!(de.deserialize_u16(), Ok(65535));
    assert_eq!(de.deserialize_u32(), Ok(4294967295));
    assert_eq!(de.deserialize_u64(), Ok(u64::MAX));
    assert_eq!(de.deserialize_i8(), Ok(-128));
    assert_eq!(de.deserialize_i8(), Ok(127));
    assert_eq!(de.deserialize_i16(), Ok(-32768));
    assert_eq!(de.deserialize_i32(), Ok(-2147483648));
    assert_eq!(de.deserialize_i64(), Ok(i64::MIN));
    assert_eq!(de.deserialize_i64(), Ok(i64::MAX));
}

#[test]
fn float_bit_patterns_round_trip() {
    let f32_patterns = [
        0u32,
        1.5f32.to_bits(),
        (-0.0f32).to_bits(),
        f32::NAN.to_bits(),
        f32::INFINITY.to_bits(),
        0x7fa00001u32, // a signalling, non-canonical NaN pattern
    ];
    let f64_patterns = [
        0u64,
        2.25f64.to_bits(),
        (-0.0f64).to_bits(),
        f64::NAN.to_bits(),
        f64::NEG_INFINITY.to_bits(),
        0x7ff4000000000001u64,
    ];
    let mut ser = writer();
    for p in f32_patterns {
        ser.serialize_f32_bits(p).unwrap();
    }
    for p in f64_patterns {
        ser.serialize_f64_bits(p).unwrap();
    }
    let mut de = reader_of(ser);
    for p in f32_patterns {
        assert_eq!(de.deserialize_f32_bits(), Ok(p));
    }
    for p in f64_patterns {
        assert_eq!(de.deserialize_f64_bits(), Ok(p));
    }
}

#[test]
fn char_round_trips() {
    let chars = ['\0', 'A', 'é', '中', '\u{10FFFF}'];
    let mut ser = writer();
    for c in chars {
        ser.serialize_char(c).unwrap();
    }
    let mut de = reader_of(ser);
    for c in chars {
        assert_eq!(de.deserialize_char(), Ok(c));
    }
}

#[test]
fn surrogate_scalar_is_rejected() {
    // 0xD800 is no Unicode scalar: build the number production by hand.
    let mut ser = writer();
    ser.serialize_u32(0xD800).unwrap();
    let mut blocks = ser.into_socket().blocks().clone();
    // Swap the u32 marker for the char marker on both ends.
    let last = blocks.len() - 1;
    blocks[0] = MinecraftBlock::ChiseledDeepslate;
    blocks[last] = MinecraftBlock::ChiseledDeepslate;
    let mut de = MinecraftDeserializer::new(BlockBuffer::from_blocks(blocks));
    assert_eq!(de.deserialize_char(), Err(MinecraftError::InvalidChar(0xD800)));
}

#[test]
fn bytes_round_trip_and_shape() {
    let data: Vec<u8> = vec![0, 1, 90, 91, 200, 255];
    let mut ser = writer();
    ser.serialize_bytes(&data).unwrap();
    let buf = ser.into_socket();
    let blocks = buf.blocks();
    assert_eq!(blocks[0], MinecraftBlock::Blackstone);
    assert_eq!(blocks[blocks.len() - 1], MinecraftBlock::Prismarine);
    assert_eq!(blocks.len(), 2 * data.len() + 2);
    for b in &blocks[1..blocks.len() - 1] {
        assert!(b.block_to_bit().is_ok());
    }

    let mut ser = writer();
    ser.serialize_bytes(&data).unwrap();
    let mut de = reader_of(ser);
    assert_eq!(de.deserialize_bytes(), Ok(data));
}

#[test]
fn empty_bytes_round_trip() {
    let mut ser = writer();
    ser.serialize_bytes(&[]).unwrap();
    let buf = ser.into_socket();
    assert_eq!(
        buf.blocks().as_slice(),
        &[MinecraftBlock::Blackstone, MinecraftBlock::Prismarine]
    );
    let mut ser = writer();
    ser.serialize_bytes(&[]).unwrap();
    let mut de = reader_of(ser);
    assert_eq!(de.deserialize_bytes(), Ok(Vec::new()));
}

#[test]
fn string_round_trips() {
    for s in ["", "Hi", "héllo wörld", "中文字符", "\u{10FFFF}"] {
        let mut ser = writer();
        ser.serialize_str(s).unwrap();
        let mut de = reader_of(ser);
        assert_eq!(de.deserialize_string(), Ok(s.to_string()));
    }
}

#[test]
fn invalid_utf8_string_is_rejected() {
    // A lone 0xFF byte framed as a string production.
    let blocks = vec![
        MinecraftBlock::GildedBlackstone,
        digit(255 / 91),
        digit(255 % 91),
        MinecraftBlock::Prismarine,
    ];
    let mut de = MinecraftDeserializer::new(BlockBuffer::from_blocks(blocks));
    assert_eq!(de.deserialize_string(), Err(MinecraftError::InvalidUtf8));
}

#[test]
fn option_round_trips() {
    let mut ser = writer();
    ser.serialize_none().unwrap();
    ser.serialize_some().unwrap();
    OptionSerializer::new()
        .serialize_tag(&mut ser, McKind::U8)
        .unwrap();
    ser.serialize_u8(7).unwrap();
    let mut de = reader_of(ser);
    assert_eq!(de.deserialize_option_head(), Ok(None));
    assert_eq!(de.deserialize_option_head(), Ok(Some(McKind::U8)));
    assert_eq!(de.deserialize_u8(), Ok(7));
}

#[test]
fn kind_tags_round_trip() {
    for t in 0..=26u8 {
        let k = McKind::of_tag(t).unwrap();
        assert_eq!(k.tag(), t);
    }
    assert_eq!(McKind::of_tag(27), None);
    assert_eq!(McKind::of_tag(90), None);
}

#[test]
fn unit_and_unit_struct_round_trip() {
    let mut ser = writer();
    ser.serialize_unit().unwrap();
    ser.serialize_unit_struct().unwrap();
    let buf = ser.into_socket();
    assert_eq!(
        buf.blocks().as_slice(),
        &[MinecraftBlock::Bedrock, MinecraftBlock::Bedrock]
    );
    let mut ser = writer();
    ser.serialize_unit().unwrap();
    ser.serialize_unit_struct().unwrap();
    let mut de = reader_of(ser);
    assert_eq!(de.deserialize_unit(), Ok(()));
    assert_eq!(de.deserialize_unit_struct(), Ok(()));
}

#[test]
fn newtype_struct_round_trip() {
    let mut ser = writer();
    ser.serialize_newtype_struct("Meters").unwrap();
    ser.serialize_u32(500).unwrap();
    let mut de = reader_of(ser);
    assert_eq!(de.deserialize_newtype_struct("Meters"), Ok(()));
    assert_eq!(de.deserialize_u32(), Ok(500));
}

#[test]
fn newtype_struct_name_mismatch() {
    let mut ser = writer();
    ser.serialize_newtype_struct("Meters").unwrap();
    ser.serialize_u32(500).unwrap();
    let mut de = reader_of(ser);
    assert_eq!(
        de.deserialize_newtype_struct("Seconds"),
        Err(MinecraftError::NameMismatch)
    );
}

#[test]
fn sequence_round_trip_keeps_order() {
    let values: Vec<u64> = vec![3, 1, 4, 1, 5, 9, 2, 6];
    let mut ser = writer();
    ser.serialize_seq().unwrap();
    for v in &values {
        ser.serialize_u64(*v).unwrap();
    }
    ser.end_seq().unwrap();
    let buf = ser.into_socket();
    let blocks = buf.blocks();
    assert_eq!(blocks[0], MinecraftBlock::CherryLog);
    assert_eq!(blocks[blocks.len() - 1], MinecraftBlock::DarkPrismarine);

    let mut ser = writer();
    ser.serialize_seq().unwrap();
    for v in &values {
        ser.serialize_u64(*v).unwrap();
    }
    ser.end_seq().unwrap();
    let mut de = reader_of(ser);
    de.deserialize_seq().unwrap();
    let mut acc = MCMapAccess::new(MinecraftBlock::DarkPrismarine);
    let mut got: Vec<u64> = Vec::new();
    while acc.next_entry(&mut de).unwrap() {
        got.push(de.deserialize_u64().unwrap());
    }
    assert_eq!(got, values);
}

#[test]
fn empty_sequence_round_trip() {
    let mut ser = writer();
    ser.serialize_seq().unwrap();
    ser.end_seq().unwrap();
    let mut de = reader_of(ser);
    de.deserialize_seq().unwrap();
    let mut acc = MCMapAccess::new(MinecraftBlock::DarkPrismarine);
    assert_eq!(acc.next_entry(&mut de), Ok(false));
    assert_eq!(acc.next_entry(&mut de), Ok(false));
}

#[test]
fn tuple_round_trip() {
    let mut ser = writer();
    ser.serialize_tuple().unwrap();
    ser.serialize_bool(true).unwrap();
    ser.serialize_u8(9).unwrap();
    ser.end_tuple().unwrap();
    let mut de = reader_of(ser);
    de.deserialize_tuple().unwrap();
    let mut acc = MCTupleAccessor::new(2);
    assert!(acc.next_element());
    assert_eq!(de.deserialize_bool(), Ok(true));
    assert!(acc.next_element());
    assert_eq!(de.deserialize_u8(), Ok(9));
    assert!(!acc.next_element());
    assert_eq!(acc.finish(&mut de), Ok(()));
}

#[test]
fn tuple_struct_round_trip_and_length_mismatch() {
    let mut ser = writer();
    ser.serialize_tuple_struct("Pair", 2).unwrap();
    ser.serialize_u8(1).unwrap();
    ser.serialize_u8(2).unwrap();
    ser.end_tuple().unwrap();
    let mut de = reader_of(ser);
    assert_eq!(de.deserialize_tuple_struct("Pair", 2), Ok(()));
    assert_eq!(de.deserialize_u8(), Ok(1));
    assert_eq!(de.deserialize_u8(), Ok(2));

    let mut ser = writer();
    ser.serialize_tuple_struct("Pair", 2).unwrap();
    let mut de = reader_of(ser);
    assert_eq!(
        de.deserialize_tuple_struct("Pair", 3),
        Err(MinecraftError::LengthMismatch(2))
    );
}

#[test]
fn map_round_trip() {
    let mut ser = writer();
    ser.serialize_map().unwrap();
    ser.serialize_str("a").unwrap();
    ser.serialize_u8(1).unwrap();
    ser.serialize_str("b").unwrap();
    ser.serialize_u8(2).unwrap();
    ser.end_map().unwrap();
    let mut de = reader_of(ser);
    de.deserialize_map().unwrap();
    let mut acc = MCMapAccess::new(MinecraftBlock::AmethystBlock);
    let mut entries: Vec<(String, u8)> = Vec::new();
    while acc.next_entry(&mut de).unwrap() {
        let k = de.deserialize_string().unwrap();
        let v = de.deserialize_u8().unwrap();
        entries.push((k, v));
    }
    assert_eq!(
        entries,
        vec![("a".to_string(), 1), ("b".to_string(), 2)]
    );
}

#[test]
fn point_struct_round_trip() {
    // Point { x: i32 = 1, y: i32 = 2 }
    let mut ser = writer();
    ser.serialize_struct("Point", 2).unwrap();
    ser.serialize_str("x").unwrap();
    ser.serialize_i32(1).unwrap();
    ser.serialize_str("y").unwrap();
    ser.serialize_i32(2).unwrap();
    ser.end_struct().unwrap();
    let buf = ser.into_socket();
    let blocks = buf.blocks();
    assert_eq!(blocks[0], MinecraftBlock::GoldBlock);
    assert_eq!(blocks[blocks.len() - 1], MinecraftBlock::EmeraldBlock);

    let mut ser = writer();
    ser.serialize_struct("Point", 2).unwrap();
    ser.serialize_str("x").unwrap();
    ser.serialize_i32(1).unwrap();
    ser.serialize_str("y").unwrap();
    ser.serialize_i32(2).unwrap();
    ser.end_struct().unwrap();
    let mut de = reader_of(ser);
    assert_eq!(de.deserialize_struct("Point", 2), Ok(()));
    let mut fields = MCStructAccessor::new(2);
    let mut seen: Vec<(String, i32)> = Vec::new();
    while fields.next_field() {
        match de.deserialize_identifier().unwrap() {
            McIdentifier::Name(n) => {
                let v = de.deserialize_i32().unwrap();
                seen.push((n, v));
            }
            other => panic!("expected a field name, got {:?}", other),
        }
    }
    assert_eq!(fields.finish(&mut de), Ok(()));
    assert_eq!(seen, vec![("x".to_string(), 1), ("y".to_string(), 2)]);
}

#[test]
fn tuple_variant_round_trip() {
    // Color::Rgb(10, 20, 30) at variant index 2.
    let mut ser = writer();
    ser.serialize_tuple_variant(2, 3).unwrap();
    ser.serialize_u8(10).unwrap();
    ser.serialize_u8(20).unwrap();
    ser.serialize_u8(30).unwrap();
    ser.end_tuple().unwrap();
    let buf = ser.into_socket();
    assert_eq!(buf.blocks()[0], MinecraftBlock::PurpurBlock);

    let mut ser = writer();
    ser.serialize_tuple_variant(2, 3).unwrap();
    ser.serialize_u8(10).unwrap();
    ser.serialize_u8(20).unwrap();
    ser.serialize_u8(30).unwrap();
    ser.end_tuple().unwrap();
    let mut de = reader_of(ser);
    assert_eq!(de.deserialize_enum(), Ok(EnumKind::TupleVariant));
    let acc = MCEnumAccessor::new();
    assert_eq!(acc.variant_index(&mut de), Ok(2));
    assert_eq!(acc.tuple_variant_len(&mut de), Ok(3));
    let mut elems = MCTupleAccessor::new(3);
    let mut got: Vec<u8> = Vec::new();
    while elems.next_element() {
        got.push(de.deserialize_u8().unwrap());
    }
    assert_eq!(elems.finish(&mut de), Ok(()));
    assert_eq!(got, vec![10, 20, 30]);
}

#[test]
fn unit_variant_round_trip() {
    let mut ser = writer();
    ser.serialize_unit_variant(5).unwrap();
    let mut de = reader_of(ser);
    assert_eq!(de.deserialize_enum(), Ok(EnumKind::UnitVariant));
    let acc = MCEnumAccessor::new();
    assert_eq!(acc.variant_index(&mut de), Ok(5));
    assert_eq!(acc.unit_variant(), Ok(()));
}

#[test]
fn newtype_variant_round_trip() {
    let mut ser = writer();
    ser.serialize_newtype_variant(1).unwrap();
    ser.serialize_str("inner").unwrap();
    let mut de = reader_of(ser);
    assert_eq!(de.deserialize_enum(), Ok(EnumKind::NewtypeVariant));
    let acc = MCEnumAccessor::new();
    assert_eq!(acc.variant_index(&mut de), Ok(1));
    assert_eq!(de.deserialize_string(), Ok("inner".to_string()));
}

#[test]
fn struct_variant_round_trip() {
    let mut ser = writer();
    ser.serialize_struct_variant(3, 1).unwrap();
    ser.serialize_str("level").unwrap();
    ser.serialize_u16(700).unwrap();
    ser.end_struct().unwrap();
    let mut de = reader_of(ser);
    assert_eq!(de.deserialize_enum(), Ok(EnumKind::StructVariant));
    let acc = MCEnumAccessor::new();
    assert_eq!(acc.variant_index(&mut de), Ok(3));
    assert_eq!(acc.struct_variant_len(&mut de), Ok(1));
    let mut body = MCMapAccess::new(MinecraftBlock::EmeraldBlock);
    assert_eq!(body.next_entry(&mut de), Ok(true));
    assert_eq!(
        de.deserialize_identifier(),
        Ok(McIdentifier::Name("level".to_string()))
    );
    assert_eq!(de.deserialize_u16(), Ok(700));
    assert_eq!(body.next_entry(&mut de), Ok(false));
}

#[test]
fn identifier_index_form() {
    let mut ser = writer();
    ser.serialize_u32(42).unwrap();
    let mut de = reader_of(ser);
    assert_eq!(de.deserialize_identifier(), Ok(McIdentifier::Index(42)));
}

#[test]
fn wrong_marker_is_unexpected_block() {
    let mut ser = writer();
    ser.serialize_u16(5).unwrap();
    let mut de = reader_of(ser);
    assert_eq!(
        de.deserialize_u8(),
        Err(MinecraftError::UnexpectedBlock {
            expected: MinecraftBlock::EndStone,
            found: MinecraftBlock::RawIronBlock,
        })
    );
}

#[test]
fn truncated_stream_is_transport_error() {
    let blocks = vec![MinecraftBlock::EndStone, digit(5)];
    let mut de = MinecraftDeserializer::new(BlockBuffer::from_blocks(blocks));
    assert_eq!(de.deserialize_u8(), Err(MinecraftError::Transport));
    let mut de = MinecraftDeserializer::new(BlockBuffer::new());
    assert_eq!(de.deserialize_bool(), Err(MinecraftError::Transport));
}

#[test]
fn overflow_past_declared_width() {
    // Three digits reach 91 * 91 > 255 while a u8 is expected.
    let blocks = vec![
        MinecraftBlock::EndStone,
        digit(1),
        digit(0),
        digit(0),
        MinecraftBlock::EndStone,
    ];
    let mut de = MinecraftDeserializer::new(BlockBuffer::from_blocks(blocks));
    assert_eq!(de.deserialize_u8(), Err(MinecraftError::Overflow));
}

#[test]
fn stray_block_in_digits_is_rejected() {
    // A non-digit block where digits belong: never a wrong value.
    let mut ser = writer();
    ser.serialize_u8(200).unwrap();
    let mut blocks = ser.into_socket().blocks().clone();
    blocks.insert(2, MinecraftBlock::Stone);
    let mut de = MinecraftDeserializer::new(BlockBuffer::from_blocks(blocks));
    assert_eq!(
        de.deserialize_u8(),
        Err(MinecraftError::BlockToBit(MinecraftBlock::Stone))
    );
}

#[test]
fn stray_block_before_marker_is_rejected() {
    let mut ser = writer();
    ser.serialize_u8(200).unwrap();
    let mut blocks = ser.into_socket().blocks().clone();
    blocks.insert(0, MinecraftBlock::BeeNest);
    let mut de = MinecraftDeserializer::new(BlockBuffer::from_blocks(blocks));
    assert_eq!(
        de.deserialize_u8(),
        Err(MinecraftError::UnexpectedBlock {
            expected: MinecraftBlock::EndStone,
            found: MinecraftBlock::BeeNest,
        })
    );
}

#[test]
fn rewind_after_consume_restores_position() {
    let mut buf = BlockBuffer::from_blocks(vec![
        MinecraftBlock::RedstoneBlock,
        MinecraftBlock::Bedrock,
    ]);
    let first = buf.consume_block().unwrap();
    assert_eq!(first, MinecraftBlock::RedstoneBlock);
    buf.rewind_block().unwrap();
    let again = buf.consume_block().unwrap();
    assert_eq!(again, MinecraftBlock::RedstoneBlock);
    assert_eq!(buf.consume_block(), Ok(MinecraftBlock::Bedrock));
    assert_eq!(buf.consume_block(), Err(MinecraftError::Transport));
}

#[test]
fn rewind_at_start_fails() {
    let mut buf = BlockBuffer::new();
    assert_eq!(buf.rewind_block(), Err(MinecraftError::RewindFailed));
}

#[test]
fn skip_advances_one_block() {
    let mut buf = BlockBuffer::from_blocks(vec![
        MinecraftBlock::RedstoneBlock,
        MinecraftBlock::Bedrock,
    ]);
    buf.skip_block().unwrap();
    assert_eq!(buf.consume_block(), Ok(MinecraftBlock::Bedrock));
}

#[test]
fn composite_lock_step_round_trip() {
    // A nested composite: a struct holding a sequence and an option.
    let mut ser = writer();
    ser.serialize_struct("Reading", 2).unwrap();
    ser.serialize_str("samples").unwrap();
    ser.serialize_seq().unwrap();
    for v in [10u64, 20, 30] {
        ser.serialize_u64(v).unwrap();
    }
    ser.end_seq().unwrap();
    ser.serialize_str("label").unwrap();
    ser.serialize_some().unwrap();
    OptionSerializer::new()
        .serialize_tag(&mut ser, McKind::Str)
        .unwrap();
    ser.serialize_str("ok").unwrap();
    ser.end_struct().unwrap();

    let mut de = reader_of(ser);
    assert_eq!(de.deserialize_struct("Reading", 2), Ok(()));
    let mut body = MCMapAccess::new(MinecraftBlock::EmeraldBlock);
    assert_eq!(body.next_entry(&mut de), Ok(true));
    assert_eq!(
        de.deserialize_identifier(),
        Ok(McIdentifier::Name("samples".to_string()))
    );
    de.deserialize_seq().unwrap();
    let mut elems = MCMapAccess::new(MinecraftBlock::DarkPrismarine);
    let mut got: Vec<u64> = Vec::new();
    while elems.next_entry(&mut de).unwrap() {
        got.push(de.deserialize_u64().unwrap());
    }
    assert_eq!(got, vec![10, 20, 30]);
    assert_eq!(body.next_entry(&mut de), Ok(true));
    assert_eq!(
        de.deserialize_identifier(),
        Ok(McIdentifier::Name("label".to_string()))
    );
    assert_eq!(de.deserialize_option_head(), Ok(Some(McKind::Str)));
    assert_eq!(de.deserialize_string(), Ok("ok".to_string()));
    assert_eq!(body.next_entry(&mut de), Ok(false));
}

#[test]
fn peek_leaves_stream_unchanged() {
    let mut ser = writer();
    ser.serialize_bool(true).unwrap();
    let mut de = reader_of(ser);
    assert_eq!(de.peek(), Ok(MinecraftBlock::RedstoneBlock));
    assert_eq!(de.peek(), Ok(MinecraftBlock::RedstoneBlock));
    assert_eq!(de.deserialize_bool(), Ok(true));
}

#[test]
fn parse_a_number_accepts_any_numeric_marker() {
    let mut ser = writer();
    ser.serialize_u16(300).unwrap();
    ser.serialize_i32(-7).unwrap();
    let mut de = reader_of(ser);
    assert_eq!(de.parse_a_number(u32::MAX as u64), Ok(300));
    // For the signed value the sign token is skipped and the raw
    // two's-complement pattern comes back.
    assert_eq!(
        de.parse_a_number(u64::MAX),
        Ok((-7i32 as u32) as u64)
    );
}

#[test]
fn parse_a_number_rejects_non_numeric_prefix() {
    let blocks = vec![MinecraftBlock::Bedrock];
    let mut de = MinecraftDeserializer::new(BlockBuffer::from_blocks(blocks));
    assert_eq!(
        de.parse_a_number(u64::MAX),
        Err(MinecraftError::AnUnexpectedBlock(MinecraftBlock::Bedrock))
    );
}
