use vstd::prelude::*;
use crate::blocks::MinecraftBlock;
use crate::result::MinecraftResult;
use crate::websocket::MCWebSocket;
use crate::wire::{be_digits, encode_uint, byte_digits, bytes_body, encode_bytes, encode_str};

verus! {

/// The output side of the codec: maps each structural kind of the
/// visitor protocol to its token pattern and writes the tokens to a
/// block channel.
///
/// Every method promises, on success, exactly which blocks it appended
/// to the channel's outgoing stream; on an infallible channel it also
/// promises success. On a fallible channel a failed call leaves the
/// stream at an indeterminate position: partial output is not rewound.
pub struct MinecraftSerializer<S: MCWebSocket> {
    socket: S,
}

impl<S: MCWebSocket> MinecraftSerializer<S> {
    /// All blocks this serializer has sent, in order.
    pub closed spec fn outgoing(&self) -> Seq<MinecraftBlock> {
        self.socket.outgoing()
    }

    /// True when the underlying channel cannot fail.
    pub closed spec fn infallible(&self) -> bool {
        self.socket.infallible()
    }

    /// Wraps a channel.
    pub fn new(socket: S) -> (r: Self)
        ensures
            r.outgoing() == socket.outgoing(),
            r.infallible() == socket.infallible(),
    {
        MinecraftSerializer { socket }
    }

    /// Hands the channel back, with everything written to it.
    pub fn into_socket(self) -> (r: S)
        ensures
            r.outgoing() == self.outgoing(),
            r.infallible() == self.infallible(),
    {
        self.socket
    }

    /// Sends one block.
    pub fn place_block(&mut self, block: MinecraftBlock) -> (r: MinecraftResult<()>)
        ensures
            final(self).infallible() == old(self).infallible(),
            r is Ok ==> final(self).outgoing() == old(self).outgoing() + seq![block],
            old(self).infallible() ==> r is Ok,
    {
        let r = self.socket.send_block(block);
        proof {
            if r is Ok {
                assert(old(self).outgoing().push(block) =~= old(self).outgoing() + seq![block]);
            }
        }
        r
    }

    /// Sends a run of blocks, in order.
    pub fn place_blocks(&mut self, blocks: &[MinecraftBlock]) -> (r: MinecraftResult<()>)
        ensures
            final(self).infallible() == old(self).infallible(),
            r is Ok ==> final(self).outgoing() == old(self).outgoing() + blocks@,
            old(self).infallible() ==> r is Ok,
    {
        let mut i: usize = 0;
        while i < blocks.len()
            invariant
                i <= blocks@.len(),
                self.infallible() == old(self).infallible(),
                self.outgoing() == old(self).outgoing() + blocks@.take(i as int),
                old(self).infallible() ==> self.infallible(),
            decreases blocks@.len() - i,
        {
            let r = self.place_block(blocks[i]);
            if let Err(e) = r {
                return Err(e);
            }
            proof {
                assert(old(self).outgoing() + blocks@.take(i as int) + seq![blocks@[i as int]]
                    =~= old(self).outgoing() + blocks@.take(i as int + 1));
            }
            i = i + 1;
        }
        proof {
            assert(blocks@.take(blocks@.len() as int) =~= blocks@);
        }
        Ok(())
    }

    /// Sends the big-endian base-91 digit blocks of a value.
    fn emit_digits(&mut self, v: u64) -> (r: MinecraftResult<()>)
        ensures
            final(self).infallible() == old(self).infallible(),
            r is Ok ==> final(self).outgoing() == old(self).outgoing() + be_digits(v as nat),
            old(self).infallible() ==> r is Ok,
        decreases v,
    {
        if v < 91 {
            self.place_block(MinecraftBlock::digit_block(v as u8))
        } else {
            self.emit_digits(v / 91)?;
            self.place_block(MinecraftBlock::digit_block((v % 91) as u8))?;
            proof {
                assert(old(self).outgoing() + be_digits((v / 91) as nat) + seq![
                    crate::digits::spec_bit_to_block((v % 91) as u8),
                ] =~= old(self).outgoing() + be_digits(v as nat));
            }
            Ok(())
        }
    }

    /// Sends a complete number production: marker, optional signedness
    /// token, digits, marker again.
    pub fn serialize_number(
        &mut self,
        v: u64,
        marker: MinecraftBlock,
        signed: Option<MinecraftBlock>,
    ) -> (r: MinecraftResult<()>)
        ensures
            final(self).infallible() == old(self).infallible(),
            r is Ok ==> final(self).outgoing() == old(self).outgoing() + encode_uint(
                marker,
                signed,
                v as nat,
            ),
            old(self).infallible() ==> r is Ok,
    {
        self.place_block(marker)?;
        if let Some(block) = signed {
            self.place_block(block)?;
        }
        self.emit_digits(v)?;
        self.place_block(marker)?;
        proof {
            match signed {
                Some(block) => {
                    assert(old(self).outgoing() + seq![marker] + seq![block] + be_digits(v as nat)
                        + seq![marker] =~= old(self).outgoing() + encode_uint(
                        marker,
                        signed,
                        v as nat,
                    ));
                },
                None => {
                    assert(old(self).outgoing() + seq![marker] + be_digits(v as nat)
                        + seq![marker] =~= old(self).outgoing() + encode_uint(
                        marker,
                        signed,
                        v as nat,
                    ));
                },
            }
        }
        Ok(())
    }

    /// Sends two digit blocks for each byte, in order.
    pub fn write_bytes(&mut self, v: &[u8]) -> (r: MinecraftResult<()>)
        ensures
            final(self).infallible() == old(self).infallible(),
            r is Ok ==> final(self).outgoing() == old(self).outgoing() + bytes_body(v@),
            old(self).infallible() ==> r is Ok,
    {
        let mut i: usize = 0;
        proof {
            assert(old(self).outgoing() + bytes_body(v@.take(0)) =~= old(self).outgoing());
        }
        while i < v.len()
            invariant
                i <= v@.len(),
                self.infallible() == old(self).infallible(),
                self.outgoing() == old(self).outgoing() + bytes_body(v@.take(i as int)),
                old(self).infallible() ==> self.infallible(),
            decreases v@.len() - i,
        {
            let b = v[i];
            self.place_block(MinecraftBlock::digit_block(b / 91))?;
            self.place_block(MinecraftBlock::digit_block(b % 91))?;
            proof {
                crate::wire::lemma_bytes_body_snoc(v@.take(i as int), b);
                assert(v@.take(i as int).push(b) =~= v@.take(i as int + 1));
                assert(old(self).outgoing() + bytes_body(v@.take(i as int)) + seq![
                    crate::digits::spec_bit_to_block(b / 91),
                ] + seq![crate::digits::spec_bit_to_block(b % 91)] =~= old(self).outgoing()
                    + bytes_body(v@.take(i as int + 1)));
            }
            i = i + 1;
        }
        proof {
            assert(v@.take(v@.len() as int) =~= v@);
        }
        Ok(())
    }

    /// `true` is a single RedstoneBlock; `false` a single RedstoneLamp.
    pub fn serialize_bool(&mut self, v: bool) -> (r: MinecraftResult<()>)
        ensures
            final(self).infallible() == old(self).infallible(),
            r is Ok ==> final(self).outgoing() == old(self).outgoing() + seq![
                if v {
                    MinecraftBlock::RedstoneBlock
                } else {
                    MinecraftBlock::RedstoneLamp
                },
            ],
            old(self).infallible() ==> r is Ok,
    {
        match v {
            true => self.place_block(MinecraftBlock::RedstoneBlock),
            false => self.place_block(MinecraftBlock::RedstoneLamp),
        }
    }

    /// A signed byte, reinterpreted as its two's-complement bit pattern.
    pub fn serialize_i8(&mut self, v: i8) -> (r: MinecraftResult<()>)
        ensures
            final(self).infallible() == old(self).infallible(),
            r is Ok ==> final(self).outgoing() == old(self).outgoing() + encode_uint(
                MinecraftBlock::EndStone,
                Some(MinecraftBlock::OchreFroglight),
                (v as u8) as nat,
            ),
            old(self).infallible() ==> r is Ok,
    {
        self.serialize_number(
            (v as u8) as u64,
            MinecraftBlock::EndStone,
            Some(MinecraftBlock::OchreFroglight),
        )
    }

    /// A signed 16-bit value, reinterpreted as its bit pattern.
    pub fn serialize_i16(&mut self, v: i16) -> (r: MinecraftResult<()>)
        ensures
            final(self).infallible() == old(self).infallible(),
            r is Ok ==> final(self).outgoing() == old(self).outgoing() + encode_uint(
                MinecraftBlock::RawIronBlock,
                Some(MinecraftBlock::VerdantFroglight),
                (v as u16) as nat,
            ),
            old(self).infallible() ==> r is Ok,
    {
        self.serialize_number(
            (v as u16) as u64,
            MinecraftBlock::RawIronBlock,
            Some(MinecraftBlock::VerdantFroglight),
        )
    }

    /// A signed 32-bit value, reinterpreted as its bit pattern.
    pub fn serialize_i32(&mut self, v: i32) -> (r: MinecraftResult<()>)
        ensures
            final(self).infallible() == old(self).infallible(),
            r is Ok ==> final(self).outgoing() == old(self).outgoing() + encode_uint(
                MinecraftBlock::RawCopperBlock,
                Some(MinecraftBlock::PearlescentFroglight),
                (v as u32) as nat,
            ),
            old(self).infallible() ==> r is Ok,
    {
        self.serialize_number(
            (v as u32) as u64,
            MinecraftBlock::RawCopperBlock,
            Some(MinecraftBlock::PearlescentFroglight),
        )
    }

    /// A signed 64-bit value, reinterpreted as its bit pattern.
    pub fn serialize_i64(&mut self, v: i64) -> (r: MinecraftResult<()>)
        ensures
            final(self).infallible() == old(self).infallible(),
            r is Ok ==> final(self).outgoing() == old(self).outgoing() + encode_uint(
                MinecraftBlock::RawGoldBlock,
                Some(MinecraftBlock::SeaLantern),
                (v as u64) as nat,
            ),
            old(self).infallible() ==> r is Ok,
    {
        self.serialize_number(
            v as u64,
            MinecraftBlock::RawGoldBlock,
            Some(MinecraftBlock::SeaLantern),
        )
    }

    pub fn serialize_u8(&mut self, v: u8) -> (r: MinecraftResult<()>)
        ensures
            final(self).infallible() == old(self).infallible(),
            r is Ok ==> final(self).outgoing() == old(self).outgoing() + encode_uint(
                MinecraftBlock::EndStone,
                None,
                v as nat,
            ),
            old(self).infallible() ==> r is Ok,
    {
        self.serialize_number(v as u64, MinecraftBlock::EndStone, None)
    }

    pub fn serialize_u16(&mut self, v: u16) -> (r: MinecraftResult<()>)
        ensures
            final(self).infallible() == old(self).infallible(),
            r is Ok ==> final(self).outgoing() == old(self).outgoing() + encode_uint(
                MinecraftBlock::RawIronBlock,
                None,
                v as nat,
            ),
            old(self).infallible() ==> r is Ok,
    {
        self.serialize_number(v as u64, MinecraftBlock::RawIronBlock, None)
    }

    pub fn serialize_u32(&mut self, v: u32) -> (r: MinecraftResult<()>)
        ensures
            final(self).infallible() == old(self).infallible(),
            r is Ok ==> final(self).outgoing() == old(self).outgoing() + encode_uint(
                MinecraftBlock::RawCopperBlock,
                None,
                v as nat,
            ),
            old(self).infallible() ==> r is Ok,
    {
        self.serialize_number(v as u64, MinecraftBlock::RawCopperBlock, None)
    }

    pub fn serialize_u64(&mut self, v: u64) -> (r: MinecraftResult<()>)
        ensures
            final(self).infallible() == old(self).infallible(),
            r is Ok ==> final(self).outgoing() == old(self).outgoing() + encode_uint(
                MinecraftBlock::RawGoldBlock,
                None,
                v as nat,
            ),
            old(self).infallible() ==> r is Ok,
    {
        self.serialize_number(v, MinecraftBlock::RawGoldBlock, None)
    }

    /// A 32-bit float, given as its IEEE-754 bit pattern.
    pub fn serialize_f32_bits(&mut self, bits: u32) -> (r: MinecraftResult<()>)
        ensures
            final(self).infallible() == old(self).infallible(),
            r is Ok ==> final(self).outgoing() == old(self).outgoing() + encode_uint(
                MinecraftBlock::Shroomlight,
                None,
                bits as nat,
            ),
            old(self).infallible() ==> r is Ok,
    {
        self.serialize_number(bits as u64, MinecraftBlock::Shroomlight, None)
    }

    /// A 64-bit float, given as its IEEE-754 bit pattern.
    pub fn serialize_f64_bits(&mut self, bits: u64) -> (r: MinecraftResult<()>)
        ensures
            final(self).infallible() == old(self).infallible(),
            r is Ok ==> final(self).outgoing() == old(self).outgoing() + encode_uint(
                MinecraftBlock::Glowstone,
                None,
                bits as nat,
            ),
            old(self).infallible() ==> r is Ok,
    {
        self.serialize_number(bits, MinecraftBlock::Glowstone, None)
    }

    /// A character, encoded as its 32-bit Unicode scalar value.
    pub fn serialize_char(&mut self, v: char) -> (r: MinecraftResult<()>)
        ensures
            final(self).infallible() == old(self).infallible(),
            r is Ok ==> final(self).outgoing() == old(self).outgoing() + encode_uint(
                MinecraftBlock::ChiseledDeepslate,
                None,
                (v as u32) as nat,
            ),
            old(self).infallible() ==> r is Ok,
    {
        self.serialize_number((v as u32) as u64, MinecraftBlock::ChiseledDeepslate, None)
    }

    /// The string production: GildedBlackstone, the UTF-8 bytes as digit
    /// pairs, Prismarine.
    pub fn serialize_str(&mut self, v: &str) -> (r: MinecraftResult<()>)
        ensures
            final(self).infallible() == old(self).infallible(),
            r is Ok ==> final(self).outgoing() == old(self).outgoing() + encode_str(v@),
            old(self).infallible() ==> r is Ok,
    {
        self.place_block(MinecraftBlock::GildedBlackstone)?;
        self.write_bytes(v.as_bytes())?;
        self.place_block(MinecraftBlock::Prismarine)?;
        proof {
            assert(old(self).outgoing() + seq![MinecraftBlock::GildedBlackstone] + bytes_body(
                vstd::utf8::encode_utf8(v@),
            ) + seq![MinecraftBlock::Prismarine] =~= old(self).outgoing() + encode_str(v@));
        }
        Ok(())
    }

    /// The bytes production: Blackstone, digit pairs, Prismarine.
    pub fn serialize_bytes(&mut self, v: &[u8]) -> (r: MinecraftResult<()>)
        ensures
            final(self).infallible() == old(self).infallible(),
            r is Ok ==> final(self).outgoing() == old(self).outgoing() + encode_bytes(v@),
            old(self).infallible() ==> r is Ok,
    {
        self.place_block(MinecraftBlock::Blackstone)?;
        self.write_bytes(v)?;
        self.place_block(MinecraftBlock::Prismarine)?;
        proof {
            assert(old(self).outgoing() + seq![MinecraftBlock::Blackstone] + bytes_body(v@)
                + seq![MinecraftBlock::Prismarine] =~= old(self).outgoing() + encode_bytes(v@));
        }
        Ok(())
    }

    /// An absent option: two CoalBlocks.
    pub fn serialize_none(&mut self) -> (r: MinecraftResult<()>)
        ensures
            final(self).infallible() == old(self).infallible(),
            r is Ok ==> final(self).outgoing() == old(self).outgoing() + seq![
                MinecraftBlock::CoalBlock,
                MinecraftBlock::CoalBlock,
            ],
            old(self).infallible() ==> r is Ok,
    {
        self.place_block(MinecraftBlock::CoalBlock)?;
        self.place_block(MinecraftBlock::CoalBlock)?;
        proof {
            assert(old(self).outgoing() + seq![MinecraftBlock::CoalBlock] + seq![
                MinecraftBlock::CoalBlock,
            ] =~= old(self).outgoing() + seq![
                MinecraftBlock::CoalBlock,
                MinecraftBlock::CoalBlock,
            ]);
        }
        Ok(())
    }

    /// A present option opens with one CoalBlock; the caller then emits
    /// the inner kind's tag digit and the inner value.
    pub fn serialize_some(&mut self) -> (r: MinecraftResult<()>)
        ensures
            final(self).infallible() == old(self).infallible(),
            r is Ok ==> final(self).outgoing() == old(self).outgoing() + seq![
                MinecraftBlock::CoalBlock,
            ],
            old(self).infallible() ==> r is Ok,
    {
        self.place_block(MinecraftBlock::CoalBlock)
    }

    /// The unit value: a single Bedrock.
    pub fn serialize_unit(&mut self) -> (r: MinecraftResult<()>)
        ensures
            final(self).infallible() == old(self).infallible(),
            r is Ok ==> final(self).outgoing() == old(self).outgoing() + seq![
                MinecraftBlock::Bedrock,
            ],
            old(self).infallible() ==> r is Ok,
    {
        self.place_block(MinecraftBlock::Bedrock)
    }

    /// A unit struct is encoded as the unit value.
    pub fn serialize_unit_struct(&mut self) -> (r: MinecraftResult<()>)
        ensures
            final(self).infallible() == old(self).infallible(),
            r is Ok ==> final(self).outgoing() == old(self).outgoing() + seq![
                MinecraftBlock::Bedrock,
            ],
            old(self).infallible() ==> r is Ok,
    {
        self.serialize_unit()
    }

    /// A unit variant: OakLog, then the variant index as a u32.
    pub fn serialize_unit_variant(&mut self, variant_index: u32) -> (r: MinecraftResult<()>)
        ensures
            final(self).infallible() == old(self).infallible(),
            r is Ok ==> final(self).outgoing() == old(self).outgoing() + seq![
                MinecraftBlock::OakLog,
            ] + encode_uint(MinecraftBlock::RawCopperBlock, None, variant_index as nat),
            old(self).infallible() ==> r is Ok,
    {
        self.place_block(MinecraftBlock::OakLog)?;
        self.serialize_u32(variant_index)?;
        Ok(())
    }

    /// A newtype struct: SpruceLog, the struct name, then the inner
    /// value, which the caller emits next.
    pub fn serialize_newtype_struct(&mut self, name: &str) -> (r: MinecraftResult<()>)
        ensures
            final(self).infallible() == old(self).infallible(),
            r is Ok ==> final(self).outgoing() == old(self).outgoing() + seq![
                MinecraftBlock::SpruceLog,
            ] + encode_str(name@),
            old(self).infallible() ==> r is Ok,
    {
        self.place_block(MinecraftBlock::SpruceLog)?;
        self.serialize_str(name)?;
        Ok(())
    }

    /// A newtype variant: DarkOakLog, the variant index, then the inner
    /// value, which the caller emits next.
    pub fn serialize_newtype_variant(&mut self, variant_index: u32) -> (r: MinecraftResult<()>)
        ensures
            final(self).infallible() == old(self).infallible(),
            r is Ok ==> final(self).outgoing() == old(self).outgoing() + seq![
                MinecraftBlock::DarkOakLog,
            ] + encode_uint(MinecraftBlock::RawCopperBlock, None, variant_index as nat),
            old(self).infallible() ==> r is Ok,
    {
        self.place_block(MinecraftBlock::DarkOakLog)?;
        self.serialize_u32(variant_index)?;
        Ok(())
    }

    /// A sequence opens with CherryLog; elements follow in call order,
    /// then [`Self::end_seq`] closes it.
    pub fn serialize_seq(&mut self) -> (r: MinecraftResult<()>)
        ensures
            final(self).infallible() == old(self).infallible(),
            r is Ok ==> final(self).outgoing() == old(self).outgoing() + seq![
                MinecraftBlock::CherryLog,
            ],
            old(self).infallible() ==> r is Ok,
    {
        self.place_block(MinecraftBlock::CherryLog)
    }

    /// A tuple opens with CrimsonStem and closes with
    /// [`Self::end_tuple`].
    pub fn serialize_tuple(&mut self) -> (r: MinecraftResult<()>)
        ensures
            final(self).infallible() == old(self).infallible(),
            r is Ok ==> final(self).outgoing() == old(self).outgoing() + seq![
                MinecraftBlock::CrimsonStem,
            ],
            old(self).infallible() ==> r is Ok,
    {
        self.place_block(MinecraftBlock::CrimsonStem)
    }

    /// A tuple struct: WarpedStem, the struct name, the element count,
    /// then the elements, closed by [`Self::end_tuple`].
    pub fn serialize_tuple_struct(&mut self, name: &str, len: u32) -> (r: MinecraftResult<()>)
        ensures
            final(self).infallible() == old(self).infallible(),
            r is Ok ==> final(self).outgoing() == old(self).outgoing() + seq![
                MinecraftBlock::WarpedStem,
            ] + encode_str(name@) + encode_uint(MinecraftBlock::RawCopperBlock, None, len as nat),
            old(self).infallible() ==> r is Ok,
    {
        self.place_block(MinecraftBlock::WarpedStem)?;
        self.serialize_str(name)?;
        self.serialize_u32(len)?;
        Ok(())
    }

    /// A tuple variant: PurpurBlock, the variant index, the element
    /// count, then the elements, closed by [`Self::end_tuple`].
    pub fn serialize_tuple_variant(&mut self, variant_index: u32, len: u32) -> (r:
        MinecraftResult<()>)
        ensures
            final(self).infallible() == old(self).infallible(),
            r is Ok ==> final(self).outgoing() == old(self).outgoing() + seq![
                MinecraftBlock::PurpurBlock,
            ] + encode_uint(MinecraftBlock::RawCopperBlock, None, variant_index as nat)
                + encode_uint(MinecraftBlock::RawCopperBlock, None, len as nat),
            old(self).infallible() ==> r is Ok,
    {
        self.place_block(MinecraftBlock::PurpurBlock)?;
        self.serialize_u32(variant_index)?;
        self.serialize_u32(len)?;
        Ok(())
    }

    /// A map opens with PurpurPillar; key and value pairs follow, then
    /// [`Self::end_map`] closes it.
    pub fn serialize_map(&mut self) -> (r: MinecraftResult<()>)
        ensures
            final(self).infallible() == old(self).infallible(),
            r is Ok ==> final(self).outgoing() == old(self).outgoing() + seq![
                MinecraftBlock::PurpurPillar,
            ],
            old(self).infallible() ==> r is Ok,
    {
        self.place_block(MinecraftBlock::PurpurPillar)
    }

    /// A struct: GoldBlock, the struct name, the field count, then
    /// field-name/value pairs, closed by [`Self::end_struct`].
    pub fn serialize_struct(&mut self, name: &str, len: u32) -> (r: MinecraftResult<()>)
        ensures
            final(self).infallible() == old(self).infallible(),
            r is Ok ==> final(self).outgoing() == old(self).outgoing() + seq![
                MinecraftBlock::GoldBlock,
            ] + encode_str(name@) + encode_uint(MinecraftBlock::RawCopperBlock, None, len as nat),
            old(self).infallible() ==> r is Ok,
    {
        self.place_block(MinecraftBlock::GoldBlock)?;
        self.serialize_str(name)?;
        self.serialize_u32(len)?;
        Ok(())
    }

    /// A struct variant: DiamondBlock, the variant index, the field
    /// count, then field-name/value pairs, closed by
    /// [`Self::end_struct`].
    pub fn serialize_struct_variant(&mut self, variant_index: u32, len: u32) -> (r:
        MinecraftResult<()>)
        ensures
            final(self).infallible() == old(self).infallible(),
            r is Ok ==> final(self).outgoing() == old(self).outgoing() + seq![
                MinecraftBlock::DiamondBlock,
            ] + encode_uint(MinecraftBlock::RawCopperBlock, None, variant_index as nat)
                + encode_uint(MinecraftBlock::RawCopperBlock, None, len as nat),
            old(self).infallible() ==> r is Ok,
    {
        self.place_block(MinecraftBlock::DiamondBlock)?;
        self.serialize_u32(variant_index)?;
        self.serialize_u32(len)?;
        Ok(())
    }

    /// Closes a sequence with DarkPrismarine.
    pub fn end_seq(&mut self) -> (r: MinecraftResult<()>)
        ensures
            final(self).infallible() == old(self).infallible(),
            r is Ok ==> final(self).outgoing() == old(self).outgoing() + seq![
                MinecraftBlock::DarkPrismarine,
            ],
            old(self).infallible() ==> r is Ok,
    {
        self.place_block(MinecraftBlock::DarkPrismarine)
    }

    /// Closes a tuple, tuple struct or tuple variant with
    /// DarkPrismarine.
    pub fn end_tuple(&mut self) -> (r: MinecraftResult<()>)
        ensures
            final(self).infallible() == old(self).infallible(),
            r is Ok ==> final(self).outgoing() == old(self).outgoing() + seq![
                MinecraftBlock::DarkPrismarine,
            ],
            old(self).infallible() ==> r is Ok,
    {
        self.place_block(MinecraftBlock::DarkPrismarine)
    }

    /// Closes a map with AmethystBlock.
    pub fn end_map(&mut self) -> (r: MinecraftResult<()>)
        ensures
            final(self).infallible() == old(self).infallible(),
            r is Ok ==> final(self).outgoing() == old(self).outgoing() + seq![
                MinecraftBlock::AmethystBlock,
            ],
            old(self).infallible() ==> r is Ok,
    {
        self.place_block(MinecraftBlock::AmethystBlock)
    }

    /// Closes a struct or struct variant with EmeraldBlock.
    pub fn end_struct(&mut self) -> (r: MinecraftResult<()>)
        ensures
            final(self).infallible() == old(self).infallible(),
            r is Ok ==> final(self).outgoing() == old(self).outgoing() + seq![
                MinecraftBlock::EmeraldBlock,
            ],
            old(self).infallible() ==> r is Ok,
    {
        self.place_block(MinecraftBlock::EmeraldBlock)
    }
}

} // verus!
