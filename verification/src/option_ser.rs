use vstd::prelude::*;
use crate::blocks::MinecraftBlock;
use crate::result::MinecraftResult;
use crate::websocket::MCWebSocket;
use crate::ser::MinecraftSerializer;

verus! {

/// The structural kinds of the visitor protocol. An option's `some`
/// arm is not self-delimiting, so the serializer puts a single digit
/// block carrying the inner kind's tag in front of the inner value,
/// and the deserializer dispatches on it.
#[derive(Debug, Clone, Copy, PartialEq, Eq, Structural)]
pub enum McKind {
    Bool,
    I8,
    I16,
    I32,
    I64,
    U8,
    U16,
    U32,
    U64,
    F32,
    F64,
    Char,
    Str,
    Bytes,
    NoneValue,
    UnitValue,
    UnitStruct,
    UnitVariant,
    NewtypeStruct,
    NewtypeVariant,
    SeqValue,
    TupleValue,
    TupleStruct,
    TupleVariant,
    MapValue,
    StructValue,
    StructVariant,
}

/// The fixed wire tag of each structural kind; a stable part of the
/// wire contract.
pub open spec fn spec_kind_tag(k: McKind) -> u8 {
    match k {
        McKind::Bool => 0u8,
        McKind::I8 => 1u8,
        McKind::I16 => 2u8,
        McKind::I32 => 3u8,
        McKind::I64 => 4u8,
        McKind::U8 => 5u8,
        McKind::U16 => 6u8,
        McKind::U32 => 7u8,
        McKind::U64 => 8u8,
        McKind::F32 => 9u8,
        McKind::F64 => 10u8,
        McKind::Char => 11u8,
        McKind::Str => 12u8,
        McKind::Bytes => 13u8,
        McKind::NoneValue => 14u8,
        McKind::UnitValue => 15u8,
        McKind::UnitStruct => 16u8,
        McKind::UnitVariant => 17u8,
        McKind::NewtypeStruct => 18u8,
        McKind::NewtypeVariant => 19u8,
        McKind::SeqValue => 20u8,
        McKind::TupleValue => 21u8,
        McKind::TupleStruct => 22u8,
        McKind::TupleVariant => 23u8,
        McKind::MapValue => 24u8,
        McKind::StructValue => 25u8,
        McKind::StructVariant => 26u8,
    }
}

/// The kind of a wire tag; values past the table are no kind.
pub open spec fn spec_kind_of_tag(t: u8) -> Option<McKind> {
    if t == 0 { Some(McKind::Bool) }
    else if t == 1 { Some(McKind::I8) }
    else if t == 2 { Some(McKind::I16) }
    else if t == 3 { Some(McKind::I32) }
    else if t == 4 { Some(McKind::I64) }
    else if t == 5 { Some(McKind::U8) }
    else if t == 6 { Some(McKind::U16) }
    else if t == 7 { Some(McKind::U32) }
    else if t == 8 { Some(McKind::U64) }
    else if t == 9 { Some(McKind::F32) }
    else if t == 10 { Some(McKind::F64) }
    else if t == 11 { Some(McKind::Char) }
    else if t == 12 { Some(McKind::Str) }
    else if t == 13 { Some(McKind::Bytes) }
    else if t == 14 { Some(McKind::NoneValue) }
    else if t == 15 { Some(McKind::UnitValue) }
    else if t == 16 { Some(McKind::UnitStruct) }
    else if t == 17 { Some(McKind::UnitVariant) }
    else if t == 18 { Some(McKind::NewtypeStruct) }
    else if t == 19 { Some(McKind::NewtypeVariant) }
    else if t == 20 { Some(McKind::SeqValue) }
    else if t == 21 { Some(McKind::TupleValue) }
    else if t == 22 { Some(McKind::TupleStruct) }
    else if t == 23 { Some(McKind::TupleVariant) }
    else if t == 24 { Some(McKind::MapValue) }
    else if t == 25 { Some(McKind::StructValue) }
    else if t == 26 { Some(McKind::StructVariant) }
    else { None }
}

impl McKind {
    /// The wire tag of this kind.
    pub fn tag(&self) -> (r: u8)
        ensures
            r == spec_kind_tag(*self),
            r <= 26,
    {
        match *self {
            McKind::Bool => 0,
            McKind::I8 => 1,
            McKind::I16 => 2,
            McKind::I32 => 3,
            McKind::I64 => 4,
            McKind::U8 => 5,
            McKind::U16 => 6,
            McKind::U32 => 7,
            McKind::U64 => 8,
            McKind::F32 => 9,
            McKind::F64 => 10,
            McKind::Char => 11,
            McKind::Str => 12,
            McKind::Bytes => 13,
            McKind::NoneValue => 14,
            McKind::UnitValue => 15,
            McKind::UnitStruct => 16,
            McKind::UnitVariant => 17,
            McKind::NewtypeStruct => 18,
            McKind::NewtypeVariant => 19,
            McKind::SeqValue => 20,
            McKind::TupleValue => 21,
            McKind::TupleStruct => 22,
            McKind::TupleVariant => 23,
            McKind::MapValue => 24,
            McKind::StructValue => 25,
            McKind::StructVariant => 26,
        }
    }

    /// The kind a wire tag names, if any.
    pub fn of_tag(t: u8) -> (r: Option<McKind>)
        ensures
            r == spec_kind_of_tag(t),
    {
        match t {
            0 => Some(McKind::Bool),
            1 => Some(McKind::I8),
            2 => Some(McKind::I16),
            3 => Some(McKind::I32),
            4 => Some(McKind::I64),
            5 => Some(McKind::U8),
            6 => Some(McKind::U16),
            7 => Some(McKind::U32),
            8 => Some(McKind::U64),
            9 => Some(McKind::F32),
            10 => Some(McKind::F64),
            11 => Some(McKind::Char),
            12 => Some(McKind::Str),
            13 => Some(McKind::Bytes),
            14 => Some(McKind::NoneValue),
            15 => Some(McKind::UnitValue),
            16 => Some(McKind::UnitStruct),
            17 => Some(McKind::UnitVariant),
            18 => Some(McKind::NewtypeStruct),
            19 => Some(McKind::NewtypeVariant),
            20 => Some(McKind::SeqValue),
            21 => Some(McKind::TupleValue),
            22 => Some(McKind::TupleStruct),
            23 => Some(McKind::TupleVariant),
            24 => Some(McKind::MapValue),
            25 => Some(McKind::StructValue),
            26 => Some(McKind::StructVariant),
            _ => None,
        }
    }
}

/// Tag-to-kind-to-tag is the identity on the tag table.
pub proof fn lemma_kind_tag_round_trip(k: McKind)
    ensures
        spec_kind_of_tag(spec_kind_tag(k)) == Some(k),
{
}

/// Kind-to-tag-to-kind is the identity on tags 0..27.
pub proof fn lemma_tag_kind_round_trip(t: u8)
    requires
        t <= 26,
    ensures
        spec_kind_of_tag(t) matches Some(k) && spec_kind_tag(k) == t,
{
}

/// Emits the extra tag digit that precedes the inner value of a
/// present option.
pub struct OptionSerializer;

impl OptionSerializer {
    pub fn new() -> (r: OptionSerializer) {
        OptionSerializer
    }

    /// Sends the digit block whose base-91 value is the inner kind's
    /// tag; the caller then emits the inner value's normal production.
    pub fn serialize_tag<S: MCWebSocket>(
        &self,
        ser: &mut MinecraftSerializer<S>,
        kind: McKind,
    ) -> (r: MinecraftResult<()>)
        ensures
            final(ser).infallible() == old(ser).infallible(),
            r is Ok ==> final(ser).outgoing() == old(ser).outgoing() + seq![
                crate::digits::spec_bit_to_block(spec_kind_tag(kind)),
            ],
            old(ser).infallible() ==> r is Ok,
    {
        let t = kind.tag();
        ser.place_block(MinecraftBlock::digit_block(t))
    }
}

} // verus!
