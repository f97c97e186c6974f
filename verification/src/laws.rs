use vstd::prelude::*;
use crate::blocks::MinecraftBlock;
use crate::result::MinecraftError;
use crate::wire::{encode_uint, spec_parse_number, lemma_number_round_trip};

verus! {

// ------------------------------------------------------------------
// Decode-of-encode identity, width by width. Each lemma says: the
// stream a serializer method emits for a value, followed by anything,
// parses back to exactly that value with the remainder untouched.
// ------------------------------------------------------------------

/// Round trip for u8 values.
pub proof fn lemma_u8_round_trip(v: u8, rest: Seq<MinecraftBlock>)
    ensures
        spec_parse_number(
            encode_uint(MinecraftBlock::EndStone, None, v as nat) + rest,
            MinecraftBlock::EndStone,
            None,
            u8::MAX as nat,
        ) == Ok::<(nat, Seq<MinecraftBlock>), MinecraftError>((v as nat, rest)),
{
    lemma_number_round_trip(MinecraftBlock::EndStone, None, v as nat, u8::MAX as nat, rest);
}

/// Round trip for u16 values.
pub proof fn lemma_u16_round_trip(v: u16, rest: Seq<MinecraftBlock>)
    ensures
        spec_parse_number(
            encode_uint(MinecraftBlock::RawIronBlock, None, v as nat) + rest,
            MinecraftBlock::RawIronBlock,
            None,
            u16::MAX as nat,
        ) == Ok::<(nat, Seq<MinecraftBlock>), MinecraftError>((v as nat, rest)),
{
    lemma_number_round_trip(MinecraftBlock::RawIronBlock, None, v as nat, u16::MAX as nat, rest);
}

/// Round trip for u32 values.
pub proof fn lemma_u32_round_trip(v: u32, rest: Seq<MinecraftBlock>)
    ensures
        spec_parse_number(
            encode_uint(MinecraftBlock::RawCopperBlock, None, v as nat) + rest,
            MinecraftBlock::RawCopperBlock,
            None,
            u32::MAX as nat,
        ) == Ok::<(nat, Seq<MinecraftBlock>), MinecraftError>((v as nat, rest)),
{
    lemma_number_round_trip(
        MinecraftBlock::RawCopperBlock,
        None,
        v as nat,
        u32::MAX as nat,
        rest,
    );
}

/// Round trip for u64 values.
pub proof fn lemma_u64_round_trip(v: u64, rest: Seq<MinecraftBlock>)
    ensures
        spec_parse_number(
            encode_uint(MinecraftBlock::RawGoldBlock, None, v as nat) + rest,
            MinecraftBlock::RawGoldBlock,
            None,
            u64::MAX as nat,
        ) == Ok::<(nat, Seq<MinecraftBlock>), MinecraftError>((v as nat, rest)),
{
    lemma_number_round_trip(MinecraftBlock::RawGoldBlock, None, v as nat, u64::MAX as nat, rest);
}

/// Round trip for i8 values: the wire carries the two's-complement
/// bit pattern, and reinterpreting it restores the value.
pub proof fn lemma_i8_round_trip(v: i8, rest: Seq<MinecraftBlock>)
    ensures
        spec_parse_number(
            encode_uint(
                MinecraftBlock::EndStone,
                Some(MinecraftBlock::OchreFroglight),
                (v as u8) as nat,
            ) + rest,
            MinecraftBlock::EndStone,
            Some(MinecraftBlock::OchreFroglight),
            u8::MAX as nat,
        ) == Ok::<(nat, Seq<MinecraftBlock>), MinecraftError>(((v as u8) as nat, rest)),
        ((v as u8) as nat as u8) as i8 == v,
{
    lemma_number_round_trip(
        MinecraftBlock::EndStone,
        Some(MinecraftBlock::OchreFroglight),
        (v as u8) as nat,
        u8::MAX as nat,
        rest,
    );
    assert((v as u8) as i8 == v) by (bit_vector);
}

/// Round trip for i16 values.
pub proof fn lemma_i16_round_trip(v: i16, rest: Seq<MinecraftBlock>)
    ensures
        spec_parse_number(
            encode_uint(
                MinecraftBlock::RawIronBlock,
                Some(MinecraftBlock::VerdantFroglight),
                (v as u16) as nat,
            ) + rest,
            MinecraftBlock::RawIronBlock,
            Some(MinecraftBlock::VerdantFroglight),
            u16::MAX as nat,
        ) == Ok::<(nat, Seq<MinecraftBlock>), MinecraftError>(((v as u16) as nat, rest)),
        ((v as u16) as nat as u16) as i16 == v,
{
    lemma_number_round_trip(
        MinecraftBlock::RawIronBlock,
        Some(MinecraftBlock::VerdantFroglight),
        (v as u16) as nat,
        u16::MAX as nat,
        rest,
    );
    assert((v as u16) as i16 == v) by (bit_vector);
}

/// Round trip for i32 values.
pub proof fn lemma_i32_round_trip(v: i32, rest: Seq<MinecraftBlock>)
    ensures
        spec_parse_number(
            encode_uint(
                MinecraftBlock::RawCopperBlock,
                Some(MinecraftBlock::PearlescentFroglight),
                (v as u32) as nat,
            ) + rest,
            MinecraftBlock::RawCopperBlock,
            Some(MinecraftBlock::PearlescentFroglight),
            u32::MAX as nat,
        ) == Ok::<(nat, Seq<MinecraftBlock>), MinecraftError>(((v as u32) as nat, rest)),
        ((v as u32) as nat as u32) as i32 == v,
{
    lemma_number_round_trip(
        MinecraftBlock::RawCopperBlock,
        Some(MinecraftBlock::PearlescentFroglight),
        (v as u32) as nat,
        u32::MAX as nat,
        rest,
    );
    assert((v as u32) as i32 == v) by (bit_vector);
}

/// Round trip for i64 values.
pub proof fn lemma_i64_round_trip(v: i64, rest: Seq<MinecraftBlock>)
    ensures
        spec_parse_number(
            encode_uint(
                MinecraftBlock::RawGoldBlock,
                Some(MinecraftBlock::SeaLantern),
                (v as u64) as nat,
            ) + rest,
            MinecraftBlock::RawGoldBlock,
            Some(MinecraftBlock::SeaLantern),
            u64::MAX as nat,
        ) == Ok::<(nat, Seq<MinecraftBlock>), MinecraftError>(((v as u64) as nat, rest)),
        ((v as u64) as nat as u64) as i64 == v,
{
    lemma_number_round_trip(
        MinecraftBlock::RawGoldBlock,
        Some(MinecraftBlock::SeaLantern),
        (v as u64) as nat,
        u64::MAX as nat,
        rest,
    );
    assert((v as u64) as i64 == v) by (bit_vector);
}

/// Round trip for 32-bit float bit patterns: every pattern, canonical
/// NaN or not, survives bit-exactly.
pub proof fn lemma_f32_bits_round_trip(bits: u32, rest: Seq<MinecraftBlock>)
    ensures
        spec_parse_number(
            encode_uint(MinecraftBlock::Shroomlight, None, bits as nat) + rest,
            MinecraftBlock::Shroomlight,
            None,
            u32::MAX as nat,
        ) == Ok::<(nat, Seq<MinecraftBlock>), MinecraftError>((bits as nat, rest)),
{
    lemma_number_round_trip(MinecraftBlock::Shroomlight, None, bits as nat, u32::MAX as nat, rest);
}

/// Round trip for 64-bit float bit patterns.
pub proof fn lemma_f64_bits_round_trip(bits: u64, rest: Seq<MinecraftBlock>)
    ensures
        spec_parse_number(
            encode_uint(MinecraftBlock::Glowstone, None, bits as nat) + rest,
            MinecraftBlock::Glowstone,
            None,
            u64::MAX as nat,
        ) == Ok::<(nat, Seq<MinecraftBlock>), MinecraftError>((bits as nat, rest)),
{
    lemma_number_round_trip(MinecraftBlock::Glowstone, None, bits as nat, u64::MAX as nat, rest);
}

/// Round trip for characters: the wire carries the Unicode scalar
/// value, which is a scalar again on arrival, so decoding restores the
/// character.
pub proof fn lemma_char_round_trip(c: char, rest: Seq<MinecraftBlock>)
    ensures
        spec_parse_number(
            encode_uint(MinecraftBlock::ChiseledDeepslate, None, (c as u32) as nat) + rest,
            MinecraftBlock::ChiseledDeepslate,
            None,
            u32::MAX as nat,
        ) == Ok::<(nat, Seq<MinecraftBlock>), MinecraftError>(((c as u32) as nat, rest)),
        vstd::utf8::is_scalar(c as u32),
{
    vstd::utf8::char_is_scalar(c);
    lemma_number_round_trip(
        MinecraftBlock::ChiseledDeepslate,
        None,
        (c as u32) as nat,
        u32::MAX as nat,
        rest,
    );
}

// ------------------------------------------------------------------
// Corruption: a foreign block among the digits is never read over.
// ------------------------------------------------------------------

/// A block that is neither a digit nor the closing marker, standing
/// anywhere in the digit region, fails the digit parse: it can never
/// yield a successful wrong value.
pub proof fn lemma_parse_digits_corrupt(
    ds: Seq<MinecraftBlock>,
    marker: MinecraftBlock,
    x: MinecraftBlock,
    rest: Seq<MinecraftBlock>,
    acc: nat,
    max: nat,
)
    requires
        crate::wire::all_digits(ds),
        !crate::digits::is_digit(marker),
        !crate::digits::is_digit(x),
        x != marker,
    ensures
        crate::wire::spec_parse_digits(ds + seq![x] + rest, marker, acc, max) is Err,
    decreases ds.len(),
{
    let s = ds + seq![x] + rest;
    if ds.len() == 0 {
        assert(s[0] == x);
    } else {
        assert(s[0] == ds[0]);
        assert(crate::digits::is_digit(ds[0]));
        if acc * 91 + crate::digits::digit_val(ds[0]) <= max {
            assert(s.drop_first() =~= ds.drop_first() + seq![x] + rest);
            lemma_parse_digits_corrupt(
                ds.drop_first(),
                marker,
                x,
                rest,
                acc * 91 + crate::digits::digit_val(ds[0]),
                max,
            );
        }
    }
}

/// A foreign block inserted at any position among the digit blocks of
/// a number encoding makes the number parse fail, whatever else
/// follows on the stream.
#[verifier::rlimit(100)]
#[verifier::spinoff_prover]
pub proof fn lemma_number_rejects_foreign_block(
    marker: MinecraftBlock,
    sign: Option<MinecraftBlock>,
    v: nat,
    max: nat,
    i: int,
    x: MinecraftBlock,
    rest: Seq<MinecraftBlock>,
)
    requires
        !crate::digits::is_digit(marker),
        !crate::digits::is_digit(x),
        x != marker,
        0 <= i <= crate::wire::be_digits(v).len(),
    ensures
        crate::wire::spec_parse_number(
            seq![marker] + (match sign {
                Some(sb) => seq![sb],
                None => Seq::<MinecraftBlock>::empty(),
            }) + crate::wire::be_digits(v).take(i) + seq![x] + crate::wire::be_digits(v).skip(i)
                + seq![marker] + rest,
            marker,
            sign,
            max,
        ) is Err,
{
    let ds = crate::wire::be_digits(v);
    crate::wire::lemma_be_digits_shape(v);
    let head = ds.take(i);
    let tail = ds.skip(i) + seq![marker] + rest;
    assert(crate::wire::all_digits(head)) by {
        assert forall|j: int| 0 <= j < head.len() implies crate::digits::is_digit(
            #[trigger] head[j],
        ) by {
            assert(head[j] == ds[j]);
        }
    }
    let s = seq![marker] + (match sign {
        Some(sb) => seq![sb],
        None => Seq::<MinecraftBlock>::empty(),
    }) + head + seq![x] + ds.skip(i) + seq![marker] + rest;
    assert(s[0] == marker);
    lemma_parse_digits_corrupt(head, marker, x, tail, 0, max);
    match sign {
        None => {
            assert(s.drop_first() =~= head + seq![x] + tail);
        },
        Some(sb) => {
            let t = s.drop_first();
            assert(t =~= seq![sb] + (head + seq![x] + tail));
            assert(t[0] == sb);
            assert(t.drop_first() =~= head + seq![x] + tail);
        },
    }
}

// ------------------------------------------------------------------
// Sequences: framing and element order.
// ------------------------------------------------------------------

/// The bodies of a sequence of u64 elements, in element order.
pub open spec fn u64_seq_body(vs: Seq<u64>) -> Seq<MinecraftBlock>
    decreases vs.len(),
{
    if vs.len() == 0 {
        Seq::<MinecraftBlock>::empty()
    } else {
        encode_uint(MinecraftBlock::RawGoldBlock, None, vs[0] as nat) + u64_seq_body(
            vs.drop_first(),
        )
    }
}

/// The full sequence production for u64 elements: CherryLog, the
/// elements in order, DarkPrismarine.
pub open spec fn encode_u64_seq(vs: Seq<u64>) -> Seq<MinecraftBlock> {
    seq![MinecraftBlock::CherryLog] + u64_seq_body(vs) + seq![MinecraftBlock::DarkPrismarine]
}

/// Reads `n` u64 elements and then the DarkPrismarine terminator, the
/// way the accessor protocol walks a sequence body.
pub open spec fn spec_parse_u64_elems(s: Seq<MinecraftBlock>, n: nat) -> Result<
    (Seq<u64>, Seq<MinecraftBlock>),
    MinecraftError,
>
    decreases n,
{
    if n == 0 {
        if s.len() == 0 {
            Err(MinecraftError::Transport)
        } else if s[0] == MinecraftBlock::DarkPrismarine {
            Ok((Seq::<u64>::empty(), s.drop_first()))
        } else {
            Err(MinecraftError::AnUnexpectedBlock(s[0]))
        }
    } else {
        match spec_parse_number(s, MinecraftBlock::RawGoldBlock, None, u64::MAX as nat) {
            Ok(p) => match spec_parse_u64_elems(p.1, (n - 1) as nat) {
                Ok(q) => Ok((seq![p.0 as u64] + q.0, q.1)),
                Err(e) => Err(e),
            },
            Err(e) => Err(e),
        }
    }
}

/// A sequence of u64 values encodes between CherryLog and
/// DarkPrismarine, and its body reads back to the same elements in the
/// same order, leaving the rest of the stream untouched.
pub proof fn lemma_u64_seq_round_trip(vs: Seq<u64>, rest: Seq<MinecraftBlock>)
    ensures
        encode_u64_seq(vs)[0] == MinecraftBlock::CherryLog,
        encode_u64_seq(vs).last() == MinecraftBlock::DarkPrismarine,
        spec_parse_u64_elems(
            u64_seq_body(vs) + seq![MinecraftBlock::DarkPrismarine] + rest,
            vs.len(),
        ) == Ok::<(Seq<u64>, Seq<MinecraftBlock>), MinecraftError>((vs, rest)),
    decreases vs.len(),
{
    let w = u64_seq_body(vs) + seq![MinecraftBlock::DarkPrismarine] + rest;
    if vs.len() == 0 {
        assert(w[0] == MinecraftBlock::DarkPrismarine);
        assert(w.drop_first() =~= rest);
        assert(vs =~= Seq::<u64>::empty());
    } else {
        let tailw = u64_seq_body(vs.drop_first()) + seq![MinecraftBlock::DarkPrismarine] + rest;
        assert(w =~= encode_uint(MinecraftBlock::RawGoldBlock, None, vs[0] as nat) + tailw);
        lemma_number_round_trip(
            MinecraftBlock::RawGoldBlock,
            None,
            vs[0] as nat,
            u64::MAX as nat,
            tailw,
        );
        lemma_u64_seq_round_trip(vs.drop_first(), rest);
        assert(seq![vs[0]] + vs.drop_first() =~= vs);
    }
}

} // verus!
