use vstd::prelude::*;
use crate::blocks::MinecraftBlock;
use crate::digits::{spec_bit_to_block, is_digit, digit_val, lemma_bit_to_block_to_bit};
use crate::result::MinecraftError;
use vstd::arithmetic::div_mod::lemma_fundamental_div_mod;

verus! {

// ------------------------------------------------------------------
// Encoding side: the token sequences the serializer owes for each
// production of the grammar.
// ------------------------------------------------------------------

/// The big-endian base-91 digit blocks of a value; zero is a single
/// zero digit, and no other value has a leading zero digit.
pub open spec fn be_digits(v: nat) -> Seq<MinecraftBlock>
    decreases v,
{
    if v < 91 {
        seq![spec_bit_to_block(v as u8)]
    } else {
        be_digits(v / 91) + seq![spec_bit_to_block((v % 91) as u8)]
    }
}

/// The number production: marker, optional signedness token, big-endian
/// digits, marker again as terminator.
pub open spec fn encode_uint(
    marker: MinecraftBlock,
    sign: Option<MinecraftBlock>,
    v: nat,
) -> Seq<MinecraftBlock> {
    seq![marker] + (match sign {
        Some(s) => seq![s],
        None => Seq::<MinecraftBlock>::empty(),
    }) + be_digits(v) + seq![marker]
}

/// The two digit blocks of one byte: its base-91 quotient and remainder.
pub open spec fn byte_digits(b: u8) -> Seq<MinecraftBlock> {
    seq![spec_bit_to_block((b / 91) as u8), spec_bit_to_block((b % 91) as u8)]
}

/// Two digit blocks for each byte, in byte order.
pub open spec fn bytes_body(s: Seq<u8>) -> Seq<MinecraftBlock>
    decreases s.len(),
{
    if s.len() == 0 {
        Seq::<MinecraftBlock>::empty()
    } else {
        byte_digits(s[0]) + bytes_body(s.drop_first())
    }
}

/// The bytes production: Blackstone, byte pairs, Prismarine.
pub open spec fn encode_bytes(s: Seq<u8>) -> Seq<MinecraftBlock> {
    seq![MinecraftBlock::Blackstone] + bytes_body(s) + seq![MinecraftBlock::Prismarine]
}

/// The string production: GildedBlackstone, the UTF-8 bytes of the
/// string as byte pairs, Prismarine.
pub open spec fn encode_str(chars: Seq<char>) -> Seq<MinecraftBlock> {
    seq![MinecraftBlock::GildedBlackstone] + bytes_body(vstd::utf8::encode_utf8(chars))
        + seq![MinecraftBlock::Prismarine]
}

// ------------------------------------------------------------------
// The value carried by a digit sequence.
// ------------------------------------------------------------------

/// Horner accumulation of digit values, front to back: the value of
/// `acc` followed by the digits of `s`.
pub open spec fn digits_value_acc(s: Seq<MinecraftBlock>, acc: nat) -> nat
    decreases s.len(),
{
    if s.len() == 0 {
        acc
    } else {
        digits_value_acc(s.drop_first(), acc * 91 + digit_val(s[0]))
    }
}

/// The base-91 value of a digit sequence.
pub open spec fn digits_value(s: Seq<MinecraftBlock>) -> nat {
    digits_value_acc(s, 0)
}

/// True when every block of the sequence is a digit block.
pub open spec fn all_digits(s: Seq<MinecraftBlock>) -> bool {
    forall|i: int| 0 <= i < s.len() ==> is_digit(#[trigger] s[i])
}

// ------------------------------------------------------------------
// Decoding side: total functions giving, for every stream, either the
// decoded value with the unread remainder, or the exact error.
// ------------------------------------------------------------------

/// Reads digit blocks until the closing marker, Horner-accumulating
/// their values. A non-digit block that is not the marker is a
/// `BlockToBit` error; a value growing past `max` is `Overflow`; a
/// stream ending before the marker is `Transport`.
pub open spec fn spec_parse_digits(
    s: Seq<MinecraftBlock>,
    marker: MinecraftBlock,
    acc: nat,
    max: nat,
) -> Result<(nat, Seq<MinecraftBlock>), MinecraftError>
    decreases s.len(),
{
    if s.len() == 0 {
        Err(MinecraftError::Transport)
    } else if s[0] == marker {
        Ok((acc, s.drop_first()))
    } else if !is_digit(s[0]) {
        Err(MinecraftError::BlockToBit(s[0]))
    } else if acc * 91 + digit_val(s[0]) > max {
        Err(MinecraftError::Overflow)
    } else {
        spec_parse_digits(s.drop_first(), marker, acc * 91 + digit_val(s[0]), max)
    }
}

/// The number production, read back: exactly one marker, exactly the
/// signedness token where one is expected, digits, the marker again.
pub open spec fn spec_parse_number(
    s: Seq<MinecraftBlock>,
    marker: MinecraftBlock,
    sign: Option<MinecraftBlock>,
    max: nat,
) -> Result<(nat, Seq<MinecraftBlock>), MinecraftError> {
    if s.len() == 0 {
        Err(MinecraftError::Transport)
    } else if s[0] != marker {
        Err(MinecraftError::UnexpectedBlock { expected: marker, found: s[0] })
    } else {
        match sign {
            None => spec_parse_digits(s.drop_first(), marker, 0, max),
            Some(sb) => {
                let t = s.drop_first();
                if t.len() == 0 {
                    Err(MinecraftError::Transport)
                } else if t[0] != sb {
                    Err(MinecraftError::UnexpectedBlock { expected: sb, found: t[0] })
                } else {
                    spec_parse_digits(t.drop_first(), marker, 0, max)
                }
            },
        }
    }
}

/// Byte pairs until the Prismarine terminator. Each pair must be two
/// digit blocks whose combined value fits a byte.
pub open spec fn spec_parse_byte_body(s: Seq<MinecraftBlock>) -> Result<
    (Seq<u8>, Seq<MinecraftBlock>),
    MinecraftError,
>
    decreases s.len(),
{
    if s.len() == 0 {
        Err(MinecraftError::Transport)
    } else if s[0] == MinecraftBlock::Prismarine {
        Ok((Seq::<u8>::empty(), s.drop_first()))
    } else if !is_digit(s[0]) {
        Err(MinecraftError::BlockToBit(s[0]))
    } else if s.len() == 1 {
        Err(MinecraftError::Transport)
    } else if !is_digit(s[1]) {
        Err(MinecraftError::BlockToBit(s[1]))
    } else if digit_val(s[0]) * 91 + digit_val(s[1]) > 255 {
        Err(MinecraftError::Overflow)
    } else {
        match spec_parse_byte_body(s.skip(2)) {
            Ok((bytes, rest)) => Ok(
                (seq![(digit_val(s[0]) * 91 + digit_val(s[1])) as u8] + bytes, rest),
            ),
            Err(e) => Err(e),
        }
    }
}

/// The bytes / string production, read back: the marker, then byte
/// pairs up to Prismarine.
pub open spec fn spec_parse_bytes(s: Seq<MinecraftBlock>, marker: MinecraftBlock) -> Result<
    (Seq<u8>, Seq<MinecraftBlock>),
    MinecraftError,
> {
    if s.len() == 0 {
        Err(MinecraftError::Transport)
    } else if s[0] != marker {
        Err(MinecraftError::UnexpectedBlock { expected: marker, found: s[0] })
    } else {
        spec_parse_byte_body(s.drop_first())
    }
}

// ------------------------------------------------------------------
// Lemmas.
// ------------------------------------------------------------------

/// The digit blocks of a value are digits, and there is at least one.
pub proof fn lemma_be_digits_shape(v: nat)
    ensures
        be_digits(v).len() >= 1,
        all_digits(be_digits(v)),
    decreases v,
{
    if v < 91 {
        lemma_bit_to_block_to_bit(v as u8);
        assert(is_digit(be_digits(v)[0]));
    } else {
        lemma_be_digits_shape(v / 91);
        lemma_bit_to_block_to_bit((v % 91) as u8);
        assert forall|i: int| 0 <= i < be_digits(v).len() implies is_digit(
            #[trigger] be_digits(v)[i],
        ) by {
            if i < be_digits(v / 91).len() {
                assert(be_digits(v)[i] == be_digits(v / 91)[i]);
            } else {
                assert(be_digits(v)[i] == spec_bit_to_block((v % 91) as u8));
            }
        }
    }
}

/// Horner accumulation never shrinks below its seed.
pub proof fn lemma_digits_value_acc_ge(s: Seq<MinecraftBlock>, acc: nat)
    ensures
        digits_value_acc(s, acc) >= acc,
    decreases s.len(),
{
    if s.len() > 0 {
        lemma_digits_value_acc_ge(s.drop_first(), acc * 91 + digit_val(s[0]));
    }
}

/// Appending one digit multiplies the accumulated value by the radix
/// and adds the digit.
pub proof fn lemma_digits_value_acc_push(s: Seq<MinecraftBlock>, d: MinecraftBlock, acc: nat)
    ensures
        digits_value_acc(s.push(d), acc) == digits_value_acc(s, acc) * 91 + digit_val(d),
    decreases s.len(),
{
    reveal_with_fuel(digits_value_acc, 3);
    if s.len() == 0 {
        assert(s.push(d).drop_first() =~= Seq::<MinecraftBlock>::empty());
        assert(s.push(d)[0] == d);
        assert(digits_value_acc(s.push(d), acc) == acc * 91 + digit_val(d));
    } else {
        assert(s.push(d)[0] == s[0]);
        assert(s.push(d).drop_first() =~= s.drop_first().push(d));
        lemma_digits_value_acc_push(s.drop_first(), d, acc * 91 + digit_val(s[0]));
    }
}

/// The big-endian digits of a value carry exactly that value.
pub proof fn lemma_be_digits_value(v: nat)
    ensures
        digits_value(be_digits(v)) == v,
    decreases v,
{
    reveal_with_fuel(digits_value_acc, 3);
    if v < 91 {
        lemma_bit_to_block_to_bit(v as u8);
        assert(be_digits(v).drop_first() =~= Seq::<MinecraftBlock>::empty());
    } else {
        assert(be_digits(v) =~= be_digits(v / 91).push(spec_bit_to_block((v % 91) as u8)));
        lemma_bit_to_block_to_bit((v % 91) as u8);
        lemma_digits_value_acc_push(be_digits(v / 91), spec_bit_to_block((v % 91) as u8), 0);
        lemma_be_digits_value(v / 91);
        assert(digits_value_acc(be_digits(v), 0) == (v / 91) * 91 + v % 91);
        lemma_fundamental_div_mod(v as int, 91);
    }
}

/// Parsing an all-digit prefix followed by the closing marker yields
/// the Horner value of the digits and leaves exactly the remainder.
pub proof fn lemma_parse_digits_of(
    ds: Seq<MinecraftBlock>,
    marker: MinecraftBlock,
    rest: Seq<MinecraftBlock>,
    acc: nat,
    max: nat,
)
    requires
        all_digits(ds),
        !is_digit(marker),
        digits_value_acc(ds, acc) <= max,
    ensures
        spec_parse_digits(ds + seq![marker] + rest, marker, acc, max) == Ok::<
            (nat, Seq<MinecraftBlock>),
            MinecraftError,
        >((digits_value_acc(ds, acc), rest)),
    decreases ds.len(),
{
    let s = ds + seq![marker] + rest;
    if ds.len() == 0 {
        assert(s[0] == marker);
        assert(s.drop_first() =~= rest);
    } else {
        assert(s[0] == ds[0]);
        assert(is_digit(ds[0]));
        assert(s[0] != marker);
        let acc1 = acc * 91 + digit_val(ds[0]);
        lemma_digits_value_acc_ge(ds.drop_first(), acc1);
        assert(digits_value_acc(ds, acc) == digits_value_acc(ds.drop_first(), acc1));
        assert(s.drop_first() =~= ds.drop_first() + seq![marker] + rest);
        lemma_parse_digits_of(ds.drop_first(), marker, rest, acc1, max);
    }
}

/// Number round trip: a marker-framed encoding of any value within the
/// declared width parses back to that value, leaving the rest of the
/// stream untouched. Together with the per-width reinterpretation
/// lemmas this gives decode-of-encode identity for all integer widths,
/// float bit patterns and Unicode scalars.
pub proof fn lemma_number_round_trip(
    marker: MinecraftBlock,
    sign: Option<MinecraftBlock>,
    v: nat,
    max: nat,
    rest: Seq<MinecraftBlock>,
)
    requires
        !is_digit(marker),
        v <= max,
    ensures
        spec_parse_number(encode_uint(marker, sign, v) + rest, marker, sign, max) == Ok::<
            (nat, Seq<MinecraftBlock>),
            MinecraftError,
        >((v, rest)),
{
    let e = encode_uint(marker, sign, v) + rest;
    lemma_be_digits_shape(v);
    lemma_be_digits_value(v);
    assert(e[0] == marker);
    match sign {
        None => {
            assert(e.drop_first() =~= be_digits(v) + seq![marker] + rest);
            lemma_parse_digits_of(be_digits(v), marker, rest, 0, max);
        },
        Some(sb) => {
            let t = e.drop_first();
            assert(t =~= seq![sb] + be_digits(v) + seq![marker] + rest);
            assert(t[0] == sb);
            assert(t.drop_first() =~= be_digits(v) + seq![marker] + rest);
            lemma_parse_digits_of(be_digits(v), marker, rest, 0, max);
        },
    }
}

/// Appending one byte to a byte string appends exactly its two digit
/// blocks to the body.
pub proof fn lemma_bytes_body_snoc(s: Seq<u8>, b: u8)
    ensures
        bytes_body(s.push(b)) == bytes_body(s) + byte_digits(b),
    decreases s.len(),
{
    reveal_with_fuel(bytes_body, 3);
    if s.len() == 0 {
        assert(s.push(b).drop_first() =~= Seq::<u8>::empty());
        assert(s.push(b)[0] == b);
        assert(bytes_body(s.push(b)) =~= bytes_body(s) + byte_digits(b));
    } else {
        assert(s.push(b)[0] == s[0]);
        assert(s.push(b).drop_first() =~= s.drop_first().push(b));
        lemma_bytes_body_snoc(s.drop_first(), b);
        assert(bytes_body(s.push(b)) =~= bytes_body(s) + byte_digits(b));
    }
}

/// The body of a bytes production holds exactly two digit blocks per
/// byte.
pub proof fn lemma_bytes_body_shape(s: Seq<u8>)
    ensures
        bytes_body(s).len() == 2 * s.len(),
        all_digits(bytes_body(s)),
    decreases s.len(),
{
    if s.len() > 0 {
        lemma_bit_to_block_to_bit((s[0] / 91) as u8);
        lemma_bit_to_block_to_bit((s[0] % 91) as u8);
        lemma_bytes_body_shape(s.drop_first());
        assert forall|i: int| 0 <= i < bytes_body(s).len() implies is_digit(
            #[trigger] bytes_body(s)[i],
        ) by {
            if i < 2 {
                assert(bytes_body(s)[i] == byte_digits(s[0])[i]);
            } else {
                assert(bytes_body(s)[i] == bytes_body(s.drop_first())[i - 2]);
            }
        }
    }
}

/// Byte-pair round trip: the two-digit encoding of any byte string,
/// closed by Prismarine, parses back to the same bytes.
pub proof fn lemma_parse_byte_body_of(s: Seq<u8>, rest: Seq<MinecraftBlock>)
    ensures
        spec_parse_byte_body(bytes_body(s) + seq![MinecraftBlock::Prismarine] + rest) == Ok::<
            (Seq<u8>, Seq<MinecraftBlock>),
            MinecraftError,
        >((s, rest)),
    decreases s.len(),
{
    let w = bytes_body(s) + seq![MinecraftBlock::Prismarine] + rest;
    if s.len() == 0 {
        assert(w[0] == MinecraftBlock::Prismarine);
        assert(w.drop_first() =~= rest);
        assert(s =~= Seq::<u8>::empty());
    } else {
        let b = s[0];
        let d0 = spec_bit_to_block((b / 91) as u8);
        let d1 = spec_bit_to_block((b % 91) as u8);
        lemma_bit_to_block_to_bit((b / 91) as u8);
        lemma_bit_to_block_to_bit((b % 91) as u8);
        assert(w[0] == d0);
        assert(w[1] == d1);
        assert(is_digit(d0) && is_digit(d1));
        assert(w[0] != MinecraftBlock::Prismarine);
        assert(digit_val(d0) * 91 + digit_val(d1) == (b / 91) * 91 + b % 91);
        lemma_fundamental_div_mod(b as int, 91);
        assert(digit_val(d0) * 91 + digit_val(d1) == b);
        assert(w.len() >= 2);
        assert(w.skip(2) =~= bytes_body(s.drop_first()) + seq![MinecraftBlock::Prismarine] + rest);
        lemma_parse_byte_body_of(s.drop_first(), rest);
        assert(spec_parse_byte_body(w.skip(2)) == Ok::<(Seq<u8>, Seq<MinecraftBlock>), MinecraftError>((
            s.drop_first(),
            rest,
        )));
        assert(spec_parse_byte_body(w) == Ok::<(Seq<u8>, Seq<MinecraftBlock>), MinecraftError>((
            seq![(digit_val(w[0]) * 91 + digit_val(w[1])) as u8] + s.drop_first(),
            rest,
        )));
        assert(seq![(digit_val(d0) * 91 + digit_val(d1)) as u8] + s.drop_first() =~= s);
    }
}

/// Bytes round trip, and the shape of the bytes production: it opens
/// with Blackstone, closes with Prismarine, and holds exactly two
/// digit blocks per input byte in between.
pub proof fn lemma_bytes_round_trip(s: Seq<u8>, rest: Seq<MinecraftBlock>)
    ensures
        spec_parse_bytes(encode_bytes(s) + rest, MinecraftBlock::Blackstone) == Ok::<
            (Seq<u8>, Seq<MinecraftBlock>),
            MinecraftError,
        >((s, rest)),
        encode_bytes(s)[0] == MinecraftBlock::Blackstone,
        encode_bytes(s).last() == MinecraftBlock::Prismarine,
        encode_bytes(s).len() == 2 * s.len() + 2,
        all_digits(encode_bytes(s).subrange(1, encode_bytes(s).len() - 1)),
{
    let e = encode_bytes(s) + rest;
    assert(e[0] == MinecraftBlock::Blackstone);
    assert(e.drop_first() =~= bytes_body(s) + seq![MinecraftBlock::Prismarine] + rest);
    lemma_parse_byte_body_of(s, rest);
    lemma_bytes_body_shape(s);
    assert(encode_bytes(s).subrange(1, encode_bytes(s).len() - 1) =~= bytes_body(s));
}

/// String round trip: the encoding of any character sequence parses
/// back to its UTF-8 bytes, which decode to the same characters.
pub proof fn lemma_string_round_trip(chars: Seq<char>, rest: Seq<MinecraftBlock>)
    ensures
        spec_parse_bytes(encode_str(chars) + rest, MinecraftBlock::GildedBlackstone) == Ok::<
            (Seq<u8>, Seq<MinecraftBlock>),
            MinecraftError,
        >((vstd::utf8::encode_utf8(chars), rest)),
        vstd::utf8::valid_utf8(vstd::utf8::encode_utf8(chars)),
        vstd::utf8::decode_utf8(vstd::utf8::encode_utf8(chars)) == chars,
{
    broadcast use vstd::utf8::encode_utf8_valid_utf8;
    broadcast use vstd::utf8::encode_utf8_decode_utf8;

    let bs = vstd::utf8::encode_utf8(chars);
    let e = encode_str(chars) + rest;
    assert(e[0] == MinecraftBlock::GildedBlackstone);
    assert(e.drop_first() =~= bytes_body(bs) + seq![MinecraftBlock::Prismarine] + rest);
    lemma_parse_byte_body_of(bs, rest);
}

} // verus!
