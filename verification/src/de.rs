use vstd::prelude::*;
use crate::blocks::{MinecraftBlock, bytes_eq, lemma_utf8_injective, spec_is_light};
use crate::option_ser::{McKind, spec_kind_of_tag};
use crate::result::{MinecraftError, MinecraftResult};
use crate::websocket::MCWebSocket;
use crate::wire::{spec_parse_digits, spec_parse_number, spec_parse_bytes};

verus! {

// ------------------------------------------------------------------
// Spec-level productions that belong to the input driver.
// ------------------------------------------------------------------

/// The markers that may open a self-described number (a length or an
/// index read without knowing its exact type beforehand).
pub open spec fn spec_is_number_prefix(b: MinecraftBlock) -> bool {
    ||| b == MinecraftBlock::EndStone
    ||| b == MinecraftBlock::RawIronBlock
    ||| b == MinecraftBlock::RawCopperBlock
    ||| b == MinecraftBlock::RawGoldBlock
    ||| b == MinecraftBlock::Shroomlight
    ||| b == MinecraftBlock::Glowstone
}

/// A number production opened by any numeric marker; a signedness
/// token after the marker is skipped.
pub open spec fn spec_parse_any_number(s: Seq<MinecraftBlock>, max: nat) -> Result<
    (nat, Seq<MinecraftBlock>),
    MinecraftError,
> {
    if s.len() == 0 {
        Err(MinecraftError::Transport)
    } else if !spec_is_number_prefix(s[0]) {
        Err(MinecraftError::AnUnexpectedBlock(s[0]))
    } else {
        let marker = s[0];
        let t = s.drop_first();
        if t.len() == 0 {
            Err(MinecraftError::Transport)
        } else if spec_is_light(t[0]) {
            spec_parse_digits(t.drop_first(), marker, 0, max)
        } else {
            spec_parse_digits(t, marker, 0, max)
        }
    }
}

/// One expected block at the head of the stream.
pub open spec fn spec_parse_prefix(s: Seq<MinecraftBlock>, prefix: MinecraftBlock) -> Result<
    Seq<MinecraftBlock>,
    MinecraftError,
> {
    if s.len() == 0 {
        Err(MinecraftError::Transport)
    } else if s[0] != prefix {
        Err(MinecraftError::UnexpectedBlock { expected: prefix, found: s[0] })
    } else {
        Ok(s.drop_first())
    }
}

/// The string production: its bytes must be valid UTF-8.
pub open spec fn spec_parse_string(s: Seq<MinecraftBlock>) -> Result<
    (Seq<char>, Seq<MinecraftBlock>),
    MinecraftError,
> {
    match spec_parse_bytes(s, MinecraftBlock::GildedBlackstone) {
        Ok(p) => if vstd::utf8::valid_utf8(p.0) {
            Ok((vstd::utf8::decode_utf8(p.0), p.1))
        } else {
            Err(MinecraftError::InvalidUtf8)
        },
        Err(e) => Err(e),
    }
}

/// A string that must equal the name the schema asked for.
pub open spec fn spec_parse_name_check(s: Seq<MinecraftBlock>, name: Seq<char>) -> Result<
    Seq<MinecraftBlock>,
    MinecraftError,
> {
    match spec_parse_string(s) {
        Ok(p) => if p.0 == name {
            Ok(p.1)
        } else {
            Err(MinecraftError::NameMismatch)
        },
        Err(e) => Err(e),
    }
}

/// A length that must equal the one the schema asked for.
pub open spec fn spec_parse_len_check(s: Seq<MinecraftBlock>, len: u32) -> Result<
    Seq<MinecraftBlock>,
    MinecraftError,
> {
    match spec_parse_any_number(s, u32::MAX as nat) {
        Ok(p) => if p.0 == len {
            Ok(p.1)
        } else {
            Err(MinecraftError::LengthMismatch(p.0 as u32))
        },
        Err(e) => Err(e),
    }
}

/// The head of an option: CoalBlock twice for `none`; CoalBlock and a
/// digit block carrying the inner kind's tag for `some`.
pub open spec fn spec_parse_option_head(s: Seq<MinecraftBlock>) -> Result<
    (Option<McKind>, Seq<MinecraftBlock>),
    MinecraftError,
> {
    if s.len() == 0 {
        Err(MinecraftError::Transport)
    } else if s[0] != MinecraftBlock::CoalBlock {
        Err(MinecraftError::UnexpectedBlock {
            expected: MinecraftBlock::CoalBlock,
            found: s[0],
        })
    } else if s.len() == 1 {
        Err(MinecraftError::Transport)
    } else if s[1] == MinecraftBlock::CoalBlock {
        Ok((None, s.skip(2)))
    } else if !crate::digits::is_digit(s[1]) {
        Err(MinecraftError::BlockToBit(s[1]))
    } else {
        match spec_kind_of_tag(crate::digits::spec_block_to_bit(s[1])->0) {
            Some(k) => Ok((Some(k), s.skip(2))),
            None => Err(MinecraftError::AnUnexpectedBlock(s[1])),
        }
    }
}

/// The four structural kinds an enum value can take on the wire, told
/// apart by the block that opens it.
#[derive(Debug, Clone, Copy, PartialEq, Eq, Structural)]
pub enum EnumKind {
    UnitVariant,
    NewtypeVariant,
    TupleVariant,
    StructVariant,
}

/// The enum dispatch table of the decoder.
pub open spec fn spec_enum_kind(b: MinecraftBlock) -> Option<EnumKind> {
    if b == MinecraftBlock::OakLog {
        Some(EnumKind::UnitVariant)
    } else if b == MinecraftBlock::DarkOakLog {
        Some(EnumKind::NewtypeVariant)
    } else if b == MinecraftBlock::PurpurBlock {
        Some(EnumKind::TupleVariant)
    } else if b == MinecraftBlock::DiamondBlock {
        Some(EnumKind::StructVariant)
    } else {
        None
    }
}

/// A field or variant identifier as it stands on the wire: a string
/// name or a numeric variant index.
#[derive(Debug, PartialEq)]
pub enum McIdentifier {
    Name(String),
    Index(u32),
}

// ------------------------------------------------------------------
// Trusted views of the standard library.
// ------------------------------------------------------------------

/// Relies on String::from_utf8: it succeeds exactly on valid UTF-8
/// input and yields the string whose characters are its decoding.
#[verifier::external_body]
fn string_from_utf8(bytes: Vec<u8>) -> (r: Option<String>)
    ensures
        r is Some <==> vstd::utf8::valid_utf8(bytes@),
        r matches Some(s) ==> s@ == vstd::utf8::decode_utf8(bytes@),
{
    String::from_utf8(bytes).ok()
}

/// Relies on char::from_u32: it succeeds exactly on Unicode scalar
/// values and yields the character with that scalar value.
#[verifier::external_body]
fn char_from_u32(v: u32) -> (r: Option<char>)
    ensures
        r is Some <==> vstd::utf8::is_scalar(v),
        r matches Some(c) ==> c as u32 == v,
{
    char::from_u32(v)
}

// ------------------------------------------------------------------
// The input driver.
// ------------------------------------------------------------------

/// The input side of the codec: consumes prefixes, digits and
/// terminators from a block channel and reconstructs values.
///
/// The driver keeps a one-block lookahead buffer, so the channel never
/// needs to peek on its own. Its model is `remaining()`: the blocks not
/// yet consumed, lookahead included. Every method promises, on success,
/// exactly what prefix of `remaining()` it consumed and what it decoded
/// from it; over an infallible channel the outcome, error included, is
/// pinned down for every stream.
pub struct MinecraftDeserializer<S: MCWebSocket> {
    socket: S,
    next: Option<MinecraftBlock>,
}

impl<S: MCWebSocket> MinecraftDeserializer<S> {
    /// The blocks not yet consumed, in the order they will be yielded.
    pub closed spec fn remaining(&self) -> Seq<MinecraftBlock> {
        (match self.next {
            Some(b) => seq![b],
            None => Seq::<MinecraftBlock>::empty(),
        }) + (if self.socket.cursor() <= self.socket.incoming().len() {
            self.socket.incoming().skip(self.socket.cursor() as int)
        } else {
            Seq::<MinecraftBlock>::empty()
        })
    }

    /// True when the underlying channel cannot fail.
    pub closed spec fn infallible(&self) -> bool {
        self.socket.infallible()
    }

    /// Wraps a channel whose cursor is at the start of its stream.
    pub fn new(socket: S) -> (r: Self)
        ensures
            socket.cursor() <= socket.incoming().len() ==> r.remaining()
                == socket.incoming().skip(socket.cursor() as int),
            r.infallible() == socket.infallible(),
    {
        let r = MinecraftDeserializer { socket, next: None };
        proof {
            if r.socket.cursor() <= r.socket.incoming().len() {
                assert(r.remaining() =~= r.socket.incoming().skip(r.socket.cursor() as int));
            }
        }
        r
    }

    /// Reads the next block without consuming it.
    pub fn peek(&mut self) -> (r: MinecraftResult<MinecraftBlock>)
        ensures
            final(self).infallible() == old(self).infallible(),
            r matches Ok(b) ==> final(self).remaining() == old(self).remaining() && old(
                self,
            ).remaining().len() > 0 && b == old(self).remaining()[0],
            old(self).infallible() ==> (r is Ok <==> old(self).remaining().len() > 0),
            old(self).infallible() && r is Err ==> r == Err::<MinecraftBlock, MinecraftError>(
                MinecraftError::Transport,
            ) && final(self).remaining() == old(self).remaining(),
    {
        match self.next {
            Some(b) => Ok(b),
            None => {
                match self.socket.consume_block() {
                    Ok(b) => {
                        self.next = Some(b);
                        proof {
                            lemma_skip_first(
                                old(self).socket.incoming(),
                                old(self).socket.cursor() as int,
                            );
                            assert(final(self).remaining() =~= old(self).remaining());
                        }
                        Ok(b)
                    },
                    Err(e) => Err(e),
                }
            },
        }
    }

    /// Reads the next block and consumes it.
    pub fn consume(&mut self) -> (r: MinecraftResult<MinecraftBlock>)
        ensures
            final(self).infallible() == old(self).infallible(),
            r matches Ok(b) ==> old(self).remaining().len() > 0 && b == old(self).remaining()[0]
                && final(self).remaining() == old(self).remaining().drop_first(),
            old(self).infallible() ==> (r is Ok <==> old(self).remaining().len() > 0),
            old(self).infallible() && r is Err ==> r == Err::<MinecraftBlock, MinecraftError>(
                MinecraftError::Transport,
            ) && final(self).remaining() == old(self).remaining(),
    {
        match self.next {
            Some(b) => {
                self.next = None;
                proof {
                    assert(final(self).remaining() =~= old(self).remaining().drop_first());
                }
                Ok(b)
            },
            None => {
                match self.socket.consume_block() {
                    Ok(b) => {
                        proof {
                            lemma_skip_first(
                                old(self).socket.incoming(),
                                old(self).socket.cursor() as int,
                            );
                            assert(final(self).remaining() =~= old(
                                self,
                            ).remaining().drop_first());
                        }
                        Ok(b)
                    },
                    Err(e) => Err(e),
                }
            },
        }
    }

    /// Reads digit blocks up to the closing marker, Horner-accumulating
    /// their base-91 values; `max` is the largest value the declared
    /// width admits.
    fn parse_digits(&mut self, marker: MinecraftBlock, max: u64) -> (r: MinecraftResult<u64>)
        ensures
            final(self).infallible() == old(self).infallible(),
            r matches Ok(n) ==> n <= max && spec_parse_digits(
                old(self).remaining(),
                marker,
                0,
                max as nat,
            ) == Ok::<(nat, Seq<MinecraftBlock>), MinecraftError>(
                (n as nat, final(self).remaining()),
            ),
            old(self).infallible() ==> (match spec_parse_digits(
                old(self).remaining(),
                marker,
                0,
                max as nat,
            ) {
                Ok(p) => r matches Ok(n) && n as nat == p.0 && final(self).remaining() == p.1,
                Err(e) => r == Err::<u64, MinecraftError>(e),
            }),
    {
        let ghost rem0 = self.remaining();
        let ghost inf0 = self.infallible();
        let mut acc: u64 = 0;
        loop
            invariant
                self.infallible() == inf0,
                inf0 == old(self).infallible(),
                rem0 == old(self).remaining(),
                acc <= max,
                spec_parse_digits(rem0, marker, 0, max as nat) == spec_parse_digits(
                    self.remaining(),
                    marker,
                    acc as nat,
                    max as nat,
                ),
            decreases self.remaining().len(),
        {
            let b = match self.consume() {
                Ok(b) => b,
                Err(e) => {
                    return Err(e);
                },
            };
            if b == marker {
                return Ok(acc);
            }
            let d = b.block_to_bit()?;
            let wide: u128 = acc as u128 * 91 + d as u128;
            if wide > max as u128 {
                return Err(MinecraftError::Overflow);
            }
            acc = wide as u64;
        }
    }

    /// A complete number production: the marker, the signedness token
    /// where the schema expects one, the digits, the marker again.
    pub fn parse_number(
        &mut self,
        marker: MinecraftBlock,
        signed: Option<MinecraftBlock>,
        max: u64,
    ) -> (r: MinecraftResult<u64>)
        ensures
            final(self).infallible() == old(self).infallible(),
            r matches Ok(n) ==> n <= max && spec_parse_number(
                old(self).remaining(),
                marker,
                signed,
                max as nat,
            ) == Ok::<(nat, Seq<MinecraftBlock>), MinecraftError>(
                (n as nat, final(self).remaining()),
            ),
            old(self).infallible() ==> (match spec_parse_number(
                old(self).remaining(),
                marker,
                signed,
                max as nat,
            ) {
                Ok(p) => r matches Ok(n) && n as nat == p.0 && final(self).remaining() == p.1,
                Err(e) => r == Err::<u64, MinecraftError>(e),
            }),
    {
        let b = self.consume()?;
        if b != marker {
            return Err(MinecraftError::UnexpectedBlock { expected: marker, found: b });
        }
        if let Some(sign_block) = signed {
            let b2 = self.consume()?;
            if b2 != sign_block {
                return Err(MinecraftError::UnexpectedBlock { expected: sign_block, found: b2 });
            }
        }
        self.parse_digits(marker, max)
    }

    /// A number production opened by whichever numeric marker stands
    /// next; a signedness token after the marker is skipped. Lengths
    /// and indices are read this way.
    pub fn parse_a_number(&mut self, max: u64) -> (r: MinecraftResult<u64>)
        ensures
            final(self).infallible() == old(self).infallible(),
            r matches Ok(n) ==> n <= max && spec_parse_any_number(
                old(self).remaining(),
                max as nat,
            ) == Ok::<(nat, Seq<MinecraftBlock>), MinecraftError>(
                (n as nat, final(self).remaining()),
            ),
            old(self).infallible() ==> (match spec_parse_any_number(
                old(self).remaining(),
                max as nat,
            ) {
                Ok(p) => r matches Ok(n) && n as nat == p.0 && final(self).remaining() == p.1,
                Err(e) => r == Err::<u64, MinecraftError>(e),
            }),
    {
        let marker = self.consume()?;
        let is_prefix = match marker {
            MinecraftBlock::EndStone
            | MinecraftBlock::RawIronBlock
            | MinecraftBlock::RawCopperBlock
            | MinecraftBlock::RawGoldBlock
            | MinecraftBlock::Shroomlight
            | MinecraftBlock::Glowstone => true,
            _ => false,
        };
        if !is_prefix {
            return Err(MinecraftError::AnUnexpectedBlock(marker));
        }
        let b = self.peek()?;
        if b.is_light() {
            match self.consume() {
                Ok(_) => {},
                Err(e) => {
                    return Err(e);
                },
            }
        }
        self.parse_digits(marker, max)
    }

    /// The byte pairs of a bytes or string production, after its
    /// opening marker, up to the Prismarine terminator.
    pub fn parse_bytes(&mut self, marker: MinecraftBlock) -> (r: MinecraftResult<Vec<u8>>)
        ensures
            final(self).infallible() == old(self).infallible(),
            r matches Ok(bs) ==> spec_parse_bytes(old(self).remaining(), marker) == Ok::<
                (Seq<u8>, Seq<MinecraftBlock>),
                MinecraftError,
            >((bs@, final(self).remaining())),
            old(self).infallible() ==> (match spec_parse_bytes(old(self).remaining(), marker) {
                Ok(p) => r matches Ok(bs) && bs@ == p.0 && final(self).remaining() == p.1,
                Err(e) => r == Err::<Vec<u8>, MinecraftError>(e),
            }),
    {
        let b = self.consume()?;
        if b != marker {
            return Err(MinecraftError::UnexpectedBlock { expected: marker, found: b });
        }
        let ghost rem0 = self.remaining();
        let ghost inf0 = self.infallible();
        let mut out: Vec<u8> = Vec::new();
        loop
            invariant
                self.infallible() == inf0,
                inf0 == old(self).infallible(),
                spec_parse_bytes(old(self).remaining(), marker)
                    == crate::wire::spec_parse_byte_body(rem0),
                crate::wire::spec_parse_byte_body(rem0) == (match crate::wire::spec_parse_byte_body(
                    self.remaining(),
                ) {
                    Ok(p) => Ok::<(Seq<u8>, Seq<MinecraftBlock>), MinecraftError>(
                        (out@ + p.0, p.1),
                    ),
                    Err(e) => Err(e),
                }),
            decreases self.remaining().len(),
        {
            let ghost cur = self.remaining();
            let b0 = match self.consume() {
                Ok(b) => b,
                Err(e) => {
                    return Err(e);
                },
            };
            if b0 == MinecraftBlock::Prismarine {
                proof {
                    assert(out@ + Seq::<u8>::empty() =~= out@);
                }
                return Ok(out);
            }
            let d0 = b0.block_to_bit()?;
            let b1 = match self.consume() {
                Ok(b) => b,
                Err(e) => {
                    return Err(e);
                },
            };
            let d1 = b1.block_to_bit()?;
            let val: u16 = d0 as u16 * 91 + d1 as u16;
            if val > 255 {
                return Err(MinecraftError::Overflow);
            }
            let ghost out0 = out@;
            out.push(val as u8);
            proof {
                assert(cur.skip(2) =~= self.remaining());
                let pr = crate::wire::spec_parse_byte_body(self.remaining());
                if pr is Ok {
                    assert(out0 + (seq![val as u8] + pr->Ok_0.0) =~= out@ + pr->Ok_0.0);
                }
            }
        }
    }

    /// The string production: GildedBlackstone, byte pairs, Prismarine,
    /// with the bytes required to be valid UTF-8.
    pub fn parse_string(&mut self) -> (r: MinecraftResult<String>)
        ensures
            final(self).infallible() == old(self).infallible(),
            r matches Ok(s) ==> (spec_parse_string(old(self).remaining()) matches Ok(p) && s@
                == p.0 && final(self).remaining() == p.1),
            old(self).infallible() ==> (match spec_parse_string(old(self).remaining()) {
                Ok(p) => r matches Ok(s) && s@ == p.0 && final(self).remaining() == p.1,
                Err(e) => r == Err::<String, MinecraftError>(e),
            }),
    {
        let bytes = self.parse_bytes(MinecraftBlock::GildedBlackstone)?;
        match string_from_utf8(bytes) {
            Some(s) => Ok(s),
            None => Err(MinecraftError::InvalidUtf8),
        }
    }
}

/// A boolean at the head of the stream.
pub open spec fn spec_parse_bool(s: Seq<MinecraftBlock>) -> Result<
    (bool, Seq<MinecraftBlock>),
    MinecraftError,
> {
    if s.len() == 0 {
        Err(MinecraftError::Transport)
    } else if s[0] == MinecraftBlock::RedstoneBlock {
        Ok((true, s.drop_first()))
    } else if s[0] == MinecraftBlock::RedstoneLamp {
        Ok((false, s.drop_first()))
    } else {
        Err(MinecraftError::AnUnexpectedBlock(s[0]))
    }
}

impl<S: MCWebSocket> MinecraftDeserializer<S> {
    /// Consumes one block that must be the given prefix.
    fn expect_block(&mut self, prefix: MinecraftBlock) -> (r: MinecraftResult<()>)
        ensures
            final(self).infallible() == old(self).infallible(),
            r is Ok ==> spec_parse_prefix(old(self).remaining(), prefix) == Ok::<
                Seq<MinecraftBlock>,
                MinecraftError,
            >(final(self).remaining()),
            old(self).infallible() ==> (match spec_parse_prefix(old(self).remaining(), prefix) {
                Ok(rest) => r is Ok && final(self).remaining() == rest,
                Err(e) => r == Err::<(), MinecraftError>(e),
            }),
    {
        let b = self.consume()?;
        if b != prefix {
            return Err(MinecraftError::UnexpectedBlock { expected: prefix, found: b });
        }
        Ok(())
    }

    /// Reads a string and holds it against the name the schema gave.
    fn check_name(&mut self, name: &str) -> (r: MinecraftResult<()>)
        ensures
            final(self).infallible() == old(self).infallible(),
            r is Ok ==> spec_parse_name_check(old(self).remaining(), name@) == Ok::<
                Seq<MinecraftBlock>,
                MinecraftError,
            >(final(self).remaining()),
            old(self).infallible() ==> (match spec_parse_name_check(
                old(self).remaining(),
                name@,
            ) {
                Ok(rest) => r is Ok && final(self).remaining() == rest,
                Err(e) => r == Err::<(), MinecraftError>(e),
            }),
    {
        let actual = self.parse_string()?;
        if bytes_eq(actual.as_str().as_bytes(), name.as_bytes()) {
            proof {
                lemma_utf8_injective(actual@, name@);
            }
            Ok(())
        } else {
            Err(MinecraftError::NameMismatch)
        }
    }

    /// Reads a length and holds it against the one the schema gave.
    fn check_len(&mut self, len: u32) -> (r: MinecraftResult<()>)
        ensures
            final(self).infallible() == old(self).infallible(),
            r is Ok ==> spec_parse_len_check(old(self).remaining(), len) == Ok::<
                Seq<MinecraftBlock>,
                MinecraftError,
            >(final(self).remaining()),
            old(self).infallible() ==> (match spec_parse_len_check(old(self).remaining(), len) {
                Ok(rest) => r is Ok && final(self).remaining() == rest,
                Err(e) => r == Err::<(), MinecraftError>(e),
            }),
    {
        let n = self.parse_a_number(u32::MAX as u64)?;
        if n == len as u64 {
            Ok(())
        } else {
            Err(MinecraftError::LengthMismatch(n as u32))
        }
    }

    /// RedstoneBlock is `true`; RedstoneLamp is `false`.
    pub fn deserialize_bool(&mut self) -> (r: MinecraftResult<bool>)
        ensures
            final(self).infallible() == old(self).infallible(),
            r matches Ok(v) ==> spec_parse_bool(old(self).remaining()) == Ok::<
                (bool, Seq<MinecraftBlock>),
                MinecraftError,
            >((v, final(self).remaining())),
            old(self).infallible() ==> (match spec_parse_bool(old(self).remaining()) {
                Ok(p) => r matches Ok(v) && v == p.0 && final(self).remaining() == p.1,
                Err(e) => r == Err::<bool, MinecraftError>(e),
            }),
    {
        let b = self.consume()?;
        match b {
            MinecraftBlock::RedstoneBlock => Ok(true),
            MinecraftBlock::RedstoneLamp => Ok(false),
            _ => Err(MinecraftError::AnUnexpectedBlock(b)),
        }
    }

    /// A signed byte: the decoded bit pattern, reinterpreted.
    pub fn deserialize_i8(&mut self) -> (r: MinecraftResult<i8>)
        ensures
            final(self).infallible() == old(self).infallible(),
            r matches Ok(v) ==> (spec_parse_number(
                old(self).remaining(),
                MinecraftBlock::EndStone,
                Some(MinecraftBlock::OchreFroglight),
                u8::MAX as nat,
            ) matches Ok(p) && v == (p.0 as u8) as i8 && final(self).remaining() == p.1),
            old(self).infallible() ==> (match spec_parse_number(
                old(self).remaining(),
                MinecraftBlock::EndStone,
                Some(MinecraftBlock::OchreFroglight),
                u8::MAX as nat,
            ) {
                Ok(p) => r matches Ok(v) && v == (p.0 as u8) as i8 && final(self).remaining()
                    == p.1,
                Err(e) => r == Err::<i8, MinecraftError>(e),
            }),
    {
        let n = self.parse_number(
            MinecraftBlock::EndStone,
            Some(MinecraftBlock::OchreFroglight),
            u8::MAX as u64,
        )?;
        Ok(n as u8 as i8)
    }

    /// A signed 16-bit value: the decoded bit pattern, reinterpreted.
    pub fn deserialize_i16(&mut self) -> (r: MinecraftResult<i16>)
        ensures
            final(self).infallible() == old(self).infallible(),
            r matches Ok(v) ==> (spec_parse_number(
                old(self).remaining(),
                MinecraftBlock::RawIronBlock,
                Some(MinecraftBlock::VerdantFroglight),
                u16::MAX as nat,
            ) matches Ok(p) && v == (p.0 as u16) as i16 && final(self).remaining() == p.1),
            old(self).infallible() ==> (match spec_parse_number(
                old(self).remaining(),
                MinecraftBlock::RawIronBlock,
                Some(MinecraftBlock::VerdantFroglight),
                u16::MAX as nat,
            ) {
                Ok(p) => r matches Ok(v) && v == (p.0 as u16) as i16 && final(self).remaining()
                    == p.1,
                Err(e) => r == Err::<i16, MinecraftError>(e),
            }),
    {
        let n = self.parse_number(
            MinecraftBlock::RawIronBlock,
            Some(MinecraftBlock::VerdantFroglight),
            u16::MAX as u64,
        )?;
        Ok(n as u16 as i16)
    }

    /// A signed 32-bit value: the decoded bit pattern, reinterpreted.
    pub fn deserialize_i32(&mut self) -> (r: MinecraftResult<i32>)
        ensures
            final(self).infallible() == old(self).infallible(),
            r matches Ok(v) ==> (spec_parse_number(
                old(self).remaining(),
                MinecraftBlock::RawCopperBlock,
                Some(MinecraftBlock::PearlescentFroglight),
                u32::MAX as nat,
            ) matches Ok(p) && v == (p.0 as u32) as i32 && final(self).remaining() == p.1),
            old(self).infallible() ==> (match spec_parse_number(
                old(self).remaining(),
                MinecraftBlock::RawCopperBlock,
                Some(MinecraftBlock::PearlescentFroglight),
                u32::MAX as nat,
            ) {
                Ok(p) => r matches Ok(v) && v == (p.0 as u32) as i32 && final(self).remaining()
                    == p.1,
                Err(e) => r == Err::<i32, MinecraftError>(e),
            }),
    {
        let n = self.parse_number(
            MinecraftBlock::RawCopperBlock,
            Some(MinecraftBlock::PearlescentFroglight),
            u32::MAX as u64,
        )?;
        Ok(n as u32 as i32)
    }

    /// A signed 64-bit value: the decoded bit pattern, reinterpreted.
    pub fn deserialize_i64(&mut self) -> (r: MinecraftResult<i64>)
        ensures
            final(self).infallible() == old(self).infallible(),
            r matches Ok(v) ==> (spec_parse_number(
                old(self).remaining(),
                MinecraftBlock::RawGoldBlock,
                Some(MinecraftBlock::SeaLantern),
                u64::MAX as nat,
            ) matches Ok(p) && v == p.0 as i64 && final(self).remaining() == p.1),
            old(self).infallible() ==> (match spec_parse_number(
                old(self).remaining(),
                MinecraftBlock::RawGoldBlock,
                Some(MinecraftBlock::SeaLantern),
                u64::MAX as nat,
            ) {
                Ok(p) => r matches Ok(v) && v == p.0 as i64 && final(self).remaining() == p.1,
                Err(e) => r == Err::<i64, MinecraftError>(e),
            }),
    {
        let n = self.parse_number(
            MinecraftBlock::RawGoldBlock,
            Some(MinecraftBlock::SeaLantern),
            u64::MAX,
        )?;
        Ok(n as i64)
    }

    pub fn deserialize_u8(&mut self) -> (r: MinecraftResult<u8>)
        ensures
            final(self).infallible() == old(self).infallible(),
            r matches Ok(v) ==> spec_parse_number(
                old(self).remaining(),
                MinecraftBlock::EndStone,
                None,
                u8::MAX as nat,
            ) == Ok::<(nat, Seq<MinecraftBlock>), MinecraftError>(
                (v as nat, final(self).remaining()),
            ),
            old(self).infallible() ==> (match spec_parse_number(
                old(self).remaining(),
                MinecraftBlock::EndStone,
                None,
                u8::MAX as nat,
            ) {
                Ok(p) => r matches Ok(v) && v as nat == p.0 && final(self).remaining() == p.1,
                Err(e) => r == Err::<u8, MinecraftError>(e),
            }),
    {
        let n = self.parse_number(MinecraftBlock::EndStone, None, u8::MAX as u64)?;
        Ok(n as u8)
    }

    pub fn deserialize_u16(&mut self) -> (r: MinecraftResult<u16>)
        ensures
            final(self).infallible() == old(self).infallible(),
            r matches Ok(v) ==> spec_parse_number(
                old(self).remaining(),
                MinecraftBlock::RawIronBlock,
                None,
                u16::MAX as nat,
            ) == Ok::<(nat, Seq<MinecraftBlock>), MinecraftError>(
                (v as nat, final(self).remaining()),
            ),
            old(self).infallible() ==> (match spec_parse_number(
                old(self).remaining(),
                MinecraftBlock::RawIronBlock,
                None,
                u16::MAX as nat,
            ) {
                Ok(p) => r matches Ok(v) && v as nat == p.0 && final(self).remaining() == p.1,
                Err(e) => r == Err::<u16, MinecraftError>(e),
            }),
    {
        let n = self.parse_number(MinecraftBlock::RawIronBlock, None, u16::MAX as u64)?;
        Ok(n as u16)
    }

    pub fn deserialize_u32(&mut self) -> (r: MinecraftResult<u32>)
        ensures
            final(self).infallible() == old(self).infallible(),
            r matches Ok(v) ==> spec_parse_number(
                old(self).remaining(),
                MinecraftBlock::RawCopperBlock,
                None,
                u32::MAX as nat,
            ) == Ok::<(nat, Seq<MinecraftBlock>), MinecraftError>(
                (v as nat, final(self).remaining()),
            ),
            old(self).infallible() ==> (match spec_parse_number(
                old(self).remaining(),
                MinecraftBlock::RawCopperBlock,
                None,
                u32::MAX as nat,
            ) {
                Ok(p) => r matches Ok(v) && v as nat == p.0 && final(self).remaining() == p.1,
                Err(e) => r == Err::<u32, MinecraftError>(e),
            }),
    {
        let n = self.parse_number(MinecraftBlock::RawCopperBlock, None, u32::MAX as u64)?;
        Ok(n as u32)
    }

    pub fn deserialize_u64(&mut self) -> (r: MinecraftResult<u64>)
        ensures
            final(self).infallible() == old(self).infallible(),
            r matches Ok(v) ==> spec_parse_number(
                old(self).remaining(),
                MinecraftBlock::RawGoldBlock,
                None,
                u64::MAX as nat,
            ) == Ok::<(nat, Seq<MinecraftBlock>), MinecraftError>(
                (v as nat, final(self).remaining()),
            ),
            old(self).infallible() ==> (match spec_parse_number(
                old(self).remaining(),
                MinecraftBlock::RawGoldBlock,
                None,
                u64::MAX as nat,
            ) {
                Ok(p) => r matches Ok(v) && v as nat == p.0 && final(self).remaining() == p.1,
                Err(e) => r == Err::<u64, MinecraftError>(e),
            }),
    {
        self.parse_number(MinecraftBlock::RawGoldBlock, None, u64::MAX)
    }

    /// A 32-bit float, returned as its IEEE-754 bit pattern.
    pub fn deserialize_f32_bits(&mut self) -> (r: MinecraftResult<u32>)
        ensures
            final(self).infallible() == old(self).infallible(),
            r matches Ok(v) ==> spec_parse_number(
                old(self).remaining(),
                MinecraftBlock::Shroomlight,
                None,
                u32::MAX as nat,
            ) == Ok::<(nat, Seq<MinecraftBlock>), MinecraftError>(
                (v as nat, final(self).remaining()),
            ),
            old(self).infallible() ==> (match spec_parse_number(
                old(self).remaining(),
                MinecraftBlock::Shroomlight,
                None,
                u32::MAX as nat,
            ) {
                Ok(p) => r matches Ok(v) && v as nat == p.0 && final(self).remaining() == p.1,
                Err(e) => r == Err::<u32, MinecraftError>(e),
            }),
    {
        let n = self.parse_number(MinecraftBlock::Shroomlight, None, u32::MAX as u64)?;
        Ok(n as u32)
    }

    /// A 64-bit float, returned as its IEEE-754 bit pattern.
    pub fn deserialize_f64_bits(&mut self) -> (r: MinecraftResult<u64>)
        ensures
            final(self).infallible() == old(self).infallible(),
            r matches Ok(v) ==> spec_parse_number(
                old(self).remaining(),
                MinecraftBlock::Glowstone,
                None,
                u64::MAX as nat,
            ) == Ok::<(nat, Seq<MinecraftBlock>), MinecraftError>(
                (v as nat, final(self).remaining()),
            ),
            old(self).infallible() ==> (match spec_parse_number(
                old(self).remaining(),
                MinecraftBlock::Glowstone,
                None,
                u64::MAX as nat,
            ) {
                Ok(p) => r matches Ok(v) && v as nat == p.0 && final(self).remaining() == p.1,
                Err(e) => r == Err::<u64, MinecraftError>(e),
            }),
    {
        self.parse_number(MinecraftBlock::Glowstone, None, u64::MAX)
    }

    /// A character: a 32-bit scalar value that must be a Unicode
    /// scalar.
    pub fn deserialize_char(&mut self) -> (r: MinecraftResult<char>)
        ensures
            final(self).infallible() == old(self).infallible(),
            r matches Ok(c) ==> (spec_parse_number(
                old(self).remaining(),
                MinecraftBlock::ChiseledDeepslate,
                None,
                u32::MAX as nat,
            ) matches Ok(p) && (c as u32) as nat == p.0 && final(self).remaining() == p.1),
            old(self).infallible() ==> (match spec_parse_number(
                old(self).remaining(),
                MinecraftBlock::ChiseledDeepslate,
                None,
                u32::MAX as nat,
            ) {
                Ok(p) => if vstd::utf8::is_scalar(p.0 as u32) {
                    r matches Ok(c) && (c as u32) as nat == p.0 && final(self).remaining() == p.1
                } else {
                    r == Err::<char, MinecraftError>(MinecraftError::InvalidChar(p.0 as u32))
                },
                Err(e) => r == Err::<char, MinecraftError>(e),
            }),
    {
        let n = self.parse_number(MinecraftBlock::ChiseledDeepslate, None, u32::MAX as u64)?;
        match char_from_u32(n as u32) {
            Some(c) => Ok(c),
            None => Err(MinecraftError::InvalidChar(n as u32)),
        }
    }

    /// The string production.
    pub fn deserialize_string(&mut self) -> (r: MinecraftResult<String>)
        ensures
            final(self).infallible() == old(self).infallible(),
            r matches Ok(s) ==> (spec_parse_string(old(self).remaining()) matches Ok(p) && s@
                == p.0 && final(self).remaining() == p.1),
            old(self).infallible() ==> (match spec_parse_string(old(self).remaining()) {
                Ok(p) => r matches Ok(s) && s@ == p.0 && final(self).remaining() == p.1,
                Err(e) => r == Err::<String, MinecraftError>(e),
            }),
    {
        self.parse_string()
    }

    /// The bytes production.
    pub fn deserialize_bytes(&mut self) -> (r: MinecraftResult<Vec<u8>>)
        ensures
            final(self).infallible() == old(self).infallible(),
            r matches Ok(bs) ==> spec_parse_bytes(
                old(self).remaining(),
                MinecraftBlock::Blackstone,
            ) == Ok::<(Seq<u8>, Seq<MinecraftBlock>), MinecraftError>(
                (bs@, final(self).remaining()),
            ),
            old(self).infallible() ==> (match spec_parse_bytes(
                old(self).remaining(),
                MinecraftBlock::Blackstone,
            ) {
                Ok(p) => r matches Ok(bs) && bs@ == p.0 && final(self).remaining() == p.1,
                Err(e) => r == Err::<Vec<u8>, MinecraftError>(e),
            }),
    {
        self.parse_bytes(MinecraftBlock::Blackstone)
    }

    /// The head of an option: `None` when the stream holds an absent
    /// option, the inner kind when it holds a present one. The caller
    /// then decodes the inner value per its kind.
    pub fn deserialize_option_head(&mut self) -> (r: MinecraftResult<Option<McKind>>)
        ensures
            final(self).infallible() == old(self).infallible(),
            r matches Ok(k) ==> spec_parse_option_head(old(self).remaining()) == Ok::<
                (Option<McKind>, Seq<MinecraftBlock>),
                MinecraftError,
            >((k, final(self).remaining())),
            old(self).infallible() ==> (match spec_parse_option_head(old(self).remaining()) {
                Ok(p) => r matches Ok(k) && k == p.0 && final(self).remaining() == p.1,
                Err(e) => r == Err::<Option<McKind>, MinecraftError>(e),
            }),
    {
        let ghost rem0 = self.remaining();
        let b = self.consume()?;
        if b != MinecraftBlock::CoalBlock {
            return Err(MinecraftError::UnexpectedBlock {
                expected: MinecraftBlock::CoalBlock,
                found: b,
            });
        }
        let b2 = self.consume()?;
        proof {
            assert(rem0.drop_first().drop_first() =~= rem0.skip(2));
        }
        if b2 == MinecraftBlock::CoalBlock {
            return Ok(None);
        }
        let d = b2.block_to_bit()?;
        match McKind::of_tag(d) {
            Some(k) => Ok(Some(k)),
            None => Err(MinecraftError::AnUnexpectedBlock(b2)),
        }
    }

    /// The unit value: a single Bedrock.
    pub fn deserialize_unit(&mut self) -> (r: MinecraftResult<()>)
        ensures
            final(self).infallible() == old(self).infallible(),
            r is Ok ==> spec_parse_prefix(old(self).remaining(), MinecraftBlock::Bedrock) == Ok::<
                Seq<MinecraftBlock>,
                MinecraftError,
            >(final(self).remaining()),
            old(self).infallible() ==> (match spec_parse_prefix(
                old(self).remaining(),
                MinecraftBlock::Bedrock,
            ) {
                Ok(rest) => r is Ok && final(self).remaining() == rest,
                Err(e) => r == Err::<(), MinecraftError>(e),
            }),
    {
        self.expect_block(MinecraftBlock::Bedrock)
    }

    /// A unit struct is decoded as the unit value.
    pub fn deserialize_unit_struct(&mut self) -> (r: MinecraftResult<()>)
        ensures
            final(self).infallible() == old(self).infallible(),
            r is Ok ==> spec_parse_prefix(old(self).remaining(), MinecraftBlock::Bedrock) == Ok::<
                Seq<MinecraftBlock>,
                MinecraftError,
            >(final(self).remaining()),
            old(self).infallible() ==> (match spec_parse_prefix(
                old(self).remaining(),
                MinecraftBlock::Bedrock,
            ) {
                Ok(rest) => r is Ok && final(self).remaining() == rest,
                Err(e) => r == Err::<(), MinecraftError>(e),
            }),
    {
        self.deserialize_unit()
    }

    /// A newtype struct: SpruceLog and the expected name; the caller
    /// decodes the inner value next.
    pub fn deserialize_newtype_struct(&mut self, name: &str) -> (r: MinecraftResult<()>)
        ensures
            final(self).infallible() == old(self).infallible(),
            r is Ok ==> (spec_parse_prefix(old(self).remaining(), MinecraftBlock::SpruceLog)
                matches Ok(t) && spec_parse_name_check(t, name@) == Ok::<
                Seq<MinecraftBlock>,
                MinecraftError,
            >(final(self).remaining())),
            old(self).infallible() ==> (match spec_parse_prefix(
                old(self).remaining(),
                MinecraftBlock::SpruceLog,
            ) {
                Ok(t) => match spec_parse_name_check(t, name@) {
                    Ok(rest) => r is Ok && final(self).remaining() == rest,
                    Err(e) => r == Err::<(), MinecraftError>(e),
                },
                Err(e) => r == Err::<(), MinecraftError>(e),
            }),
    {
        self.expect_block(MinecraftBlock::SpruceLog)?;
        self.check_name(name)
    }

    /// A sequence opens with CherryLog; elements follow until the
    /// DarkPrismarine terminator, read through [`crate::accessors::MCMapAccess`]'s
    /// sequence counterpart.
    pub fn deserialize_seq(&mut self) -> (r: MinecraftResult<()>)
        ensures
            final(self).infallible() == old(self).infallible(),
            r is Ok ==> spec_parse_prefix(old(self).remaining(), MinecraftBlock::CherryLog)
                == Ok::<Seq<MinecraftBlock>, MinecraftError>(final(self).remaining()),
            old(self).infallible() ==> (match spec_parse_prefix(
                old(self).remaining(),
                MinecraftBlock::CherryLog,
            ) {
                Ok(rest) => r is Ok && final(self).remaining() == rest,
                Err(e) => r == Err::<(), MinecraftError>(e),
            }),
    {
        self.expect_block(MinecraftBlock::CherryLog)
    }

    /// A tuple opens with CrimsonStem.
    pub fn deserialize_tuple(&mut self) -> (r: MinecraftResult<()>)
        ensures
            final(self).infallible() == old(self).infallible(),
            r is Ok ==> spec_parse_prefix(old(self).remaining(), MinecraftBlock::CrimsonStem)
                == Ok::<Seq<MinecraftBlock>, MinecraftError>(final(self).remaining()),
            old(self).infallible() ==> (match spec_parse_prefix(
                old(self).remaining(),
                MinecraftBlock::CrimsonStem,
            ) {
                Ok(rest) => r is Ok && final(self).remaining() == rest,
                Err(e) => r == Err::<(), MinecraftError>(e),
            }),
    {
        self.expect_block(MinecraftBlock::CrimsonStem)
    }

    /// A tuple struct: WarpedStem, the expected name, the expected
    /// element count; the elements follow.
    pub fn deserialize_tuple_struct(&mut self, name: &str, len: u32) -> (r: MinecraftResult<()>)
        ensures
            final(self).infallible() == old(self).infallible(),
            r is Ok ==> (spec_parse_prefix(old(self).remaining(), MinecraftBlock::WarpedStem)
                matches Ok(t) && spec_parse_name_check(t, name@) matches Ok(u)
                && spec_parse_len_check(u, len) == Ok::<Seq<MinecraftBlock>, MinecraftError>(
                final(self).remaining(),
            )),
            old(self).infallible() ==> (match spec_parse_prefix(
                old(self).remaining(),
                MinecraftBlock::WarpedStem,
            ) {
                Ok(t) => match spec_parse_name_check(t, name@) {
                    Ok(u) => match spec_parse_len_check(u, len) {
                        Ok(rest) => r is Ok && final(self).remaining() == rest,
                        Err(e) => r == Err::<(), MinecraftError>(e),
                    },
                    Err(e) => r == Err::<(), MinecraftError>(e),
                },
                Err(e) => r == Err::<(), MinecraftError>(e),
            }),
    {
        self.expect_block(MinecraftBlock::WarpedStem)?;
        self.check_name(name)?;
        self.check_len(len)
    }

    /// A map opens with PurpurPillar; entries follow until the
    /// AmethystBlock terminator.
    pub fn deserialize_map(&mut self) -> (r: MinecraftResult<()>)
        ensures
            final(self).infallible() == old(self).infallible(),
            r is Ok ==> spec_parse_prefix(old(self).remaining(), MinecraftBlock::PurpurPillar)
                == Ok::<Seq<MinecraftBlock>, MinecraftError>(final(self).remaining()),
            old(self).infallible() ==> (match spec_parse_prefix(
                old(self).remaining(),
                MinecraftBlock::PurpurPillar,
            ) {
                Ok(rest) => r is Ok && final(self).remaining() == rest,
                Err(e) => r == Err::<(), MinecraftError>(e),
            }),
    {
        self.expect_block(MinecraftBlock::PurpurPillar)
    }

    /// A struct: GoldBlock, the expected name, the expected field
    /// count; field-name/value pairs follow until EmeraldBlock.
    pub fn deserialize_struct(&mut self, name: &str, len: u32) -> (r: MinecraftResult<()>)
        ensures
            final(self).infallible() == old(self).infallible(),
            r is Ok ==> (spec_parse_prefix(old(self).remaining(), MinecraftBlock::GoldBlock)
                matches Ok(t) && spec_parse_name_check(t, name@) matches Ok(u)
                && spec_parse_len_check(u, len) == Ok::<Seq<MinecraftBlock>, MinecraftError>(
                final(self).remaining(),
            )),
            old(self).infallible() ==> (match spec_parse_prefix(
                old(self).remaining(),
                MinecraftBlock::GoldBlock,
            ) {
                Ok(t) => match spec_parse_name_check(t, name@) {
                    Ok(u) => match spec_parse_len_check(u, len) {
                        Ok(rest) => r is Ok && final(self).remaining() == rest,
                        Err(e) => r == Err::<(), MinecraftError>(e),
                    },
                    Err(e) => r == Err::<(), MinecraftError>(e),
                },
                Err(e) => r == Err::<(), MinecraftError>(e),
            }),
    {
        self.expect_block(MinecraftBlock::GoldBlock)?;
        self.check_name(name)?;
        self.check_len(len)
    }

    /// Enum dispatch: the block at the head selects the variant kind
    /// and is consumed as its prefix.
    pub fn deserialize_enum(&mut self) -> (r: MinecraftResult<EnumKind>)
        ensures
            final(self).infallible() == old(self).infallible(),
            r matches Ok(k) ==> old(self).remaining().len() > 0 && spec_enum_kind(
                old(self).remaining()[0],
            ) == Some(k) && final(self).remaining() == old(self).remaining().drop_first(),
            old(self).infallible() ==> (if old(self).remaining().len() == 0 {
                r == Err::<EnumKind, MinecraftError>(MinecraftError::Transport)
            } else {
                match spec_enum_kind(old(self).remaining()[0]) {
                    Some(k) => r matches Ok(k2) && k2 == k && final(self).remaining() == old(
                        self,
                    ).remaining().drop_first(),
                    None => r == Err::<EnumKind, MinecraftError>(
                        MinecraftError::AnUnexpectedBlock(old(self).remaining()[0]),
                    ),
                }
            }),
    {
        let b = self.consume()?;
        match b {
            MinecraftBlock::OakLog => Ok(EnumKind::UnitVariant),
            MinecraftBlock::DarkOakLog => Ok(EnumKind::NewtypeVariant),
            MinecraftBlock::PurpurBlock => Ok(EnumKind::TupleVariant),
            MinecraftBlock::DiamondBlock => Ok(EnumKind::StructVariant),
            _ => Err(MinecraftError::AnUnexpectedBlock(b)),
        }
    }

    /// A field or variant identifier: a string if GildedBlackstone
    /// stands next, a u32 if RawCopperBlock does.
    pub fn deserialize_identifier(&mut self) -> (r: MinecraftResult<McIdentifier>)
        ensures
            final(self).infallible() == old(self).infallible(),
            r matches Ok(id) ==> (match id {
                McIdentifier::Name(n) => spec_parse_string(old(self).remaining()) matches Ok(p)
                    && n@ == p.0 && final(self).remaining() == p.1,
                McIdentifier::Index(i) => spec_parse_number(
                    old(self).remaining(),
                    MinecraftBlock::RawCopperBlock,
                    None,
                    u32::MAX as nat,
                ) == Ok::<(nat, Seq<MinecraftBlock>), MinecraftError>(
                    (i as nat, final(self).remaining()),
                ),
            }),
            old(self).infallible() ==> (if old(self).remaining().len() == 0 {
                r == Err::<McIdentifier, MinecraftError>(MinecraftError::Transport)
            } else if old(self).remaining()[0] == MinecraftBlock::GildedBlackstone {
                match spec_parse_string(old(self).remaining()) {
                    Ok(p) => r matches Ok(id) && (id matches McIdentifier::Name(n) && n@ == p.0)
                        && final(self).remaining() == p.1,
                    Err(e) => r == Err::<McIdentifier, MinecraftError>(e),
                }
            } else if old(self).remaining()[0] == MinecraftBlock::RawCopperBlock {
                match spec_parse_number(
                    old(self).remaining(),
                    MinecraftBlock::RawCopperBlock,
                    None,
                    u32::MAX as nat,
                ) {
                    Ok(p) => r matches Ok(id) && (id matches McIdentifier::Index(i) && i as nat
                        == p.0) && final(self).remaining() == p.1,
                    Err(e) => r == Err::<McIdentifier, MinecraftError>(e),
                }
            } else {
                r == Err::<McIdentifier, MinecraftError>(
                    MinecraftError::AnUnexpectedBlock(old(self).remaining()[0]),
                )
            }),
    {
        let b = self.peek()?;
        match b {
            MinecraftBlock::GildedBlackstone => {
                let s = self.parse_string()?;
                Ok(McIdentifier::Name(s))
            },
            MinecraftBlock::RawCopperBlock => {
                let i = self.deserialize_u32()?;
                Ok(McIdentifier::Index(i))
            },
            _ => Err(MinecraftError::AnUnexpectedBlock(b)),
        }
    }
}

/// Dropping the first element of a suffix is taking the suffix one
/// place further on.
proof fn lemma_skip_first(s: Seq<MinecraftBlock>, c: int)
    requires
        0 <= c < s.len(),
    ensures
        s.skip(c).drop_first() =~= s.skip(c + 1),
        s.skip(c).len() > 0,
        s.skip(c)[0] == s[c],
{
}

} // verus!
