use vstd::prelude::*;
use crate::blocks::MinecraftBlock;
use crate::de::{MinecraftDeserializer, spec_parse_prefix};
use crate::result::{MinecraftError, MinecraftResult};
use crate::websocket::MCWebSocket;

verus! {

/// Walks the entries of a map, a struct body or a sequence body on the
/// decode side. At each step it peeks: the terminator block closes the
/// production and is consumed; anything else means one more entry,
/// which the caller decodes.
pub struct MCMapAccess {
    terminator: MinecraftBlock,
    finished: bool,
}

impl MCMapAccess {
    /// The block that closes this production.
    pub closed spec fn spec_terminator(&self) -> MinecraftBlock {
        self.terminator
    }

    /// True once the terminator has been consumed.
    pub closed spec fn spec_finished(&self) -> bool {
        self.finished
    }

    /// An accessor that walks entries up to the given terminator.
    pub fn new(terminator: MinecraftBlock) -> (r: MCMapAccess)
        ensures
            r.spec_terminator() == terminator,
            !r.spec_finished(),
    {
        MCMapAccess { terminator, finished: false }
    }

    /// True when one more entry follows; consumes the terminator and
    /// answers false when the production is over.
    pub fn next_entry<S: MCWebSocket>(&mut self, de: &mut MinecraftDeserializer<S>) -> (r:
        MinecraftResult<bool>)
        ensures
            final(de).infallible() == old(de).infallible(),
            final(self).spec_terminator() == old(self).spec_terminator(),
            old(self).spec_finished() ==> r == Ok::<bool, MinecraftError>(false) && final(self).spec_finished() && final(de).remaining() == old(de).remaining(),
            r == Ok::<bool, MinecraftError>(true) ==> !final(self).spec_finished() && final(de).remaining() == old(de).remaining() && old(de).remaining().len() > 0 && old(de).remaining()[0] != old(self).spec_terminator(),
            !old(self).spec_finished() && r == Ok::<bool, MinecraftError>(false) ==> final(self).spec_finished() && old(de).remaining().len() > 0 && old(de).remaining()[0] == old(self).spec_terminator() && final(de).remaining() == old(de).remaining().drop_first(),
            old(de).infallible() && !old(self).spec_finished() && old(de).remaining().len() == 0
                ==> r == Err::<bool, MinecraftError>(MinecraftError::Transport),
            old(de).infallible() && old(de).remaining().len() > 0 ==> r is Ok,
    {
        if self.finished {
            return Ok(false);
        }
        let b = de.peek()?;
        if b == self.terminator {
            match de.consume() {
                Ok(_) => {},
                Err(e) => {
                    return Err(e);
                },
            }
            self.finished = true;
            Ok(false)
        } else {
            Ok(true)
        }
    }
}

/// Walks the fields of a struct body whose count is known from the
/// schema, counting down; [`Self::finish`] then consumes the
/// EmeraldBlock terminator.
pub struct MCStructAccessor {
    remaining: u32,
}

impl MCStructAccessor {
    /// How many fields are still to be read.
    pub closed spec fn spec_fields_left(&self) -> u32 {
        self.remaining
    }

    /// An accessor expecting the given number of fields.
    pub fn new(len: u32) -> (r: MCStructAccessor)
        ensures
            r.spec_fields_left() == len,
    {
        MCStructAccessor { remaining: len }
    }

    /// True when one more field follows, counting it off.
    pub fn next_field(&mut self) -> (r: bool)
        ensures
            r <==> old(self).spec_fields_left() > 0,
            r ==> final(self).spec_fields_left() == old(self).spec_fields_left() - 1,
            !r ==> final(self).spec_fields_left() == 0,
    {
        if self.remaining == 0 {
            false
        } else {
            self.remaining = self.remaining - 1;
            true
        }
    }

    /// Consumes the EmeraldBlock that closes the struct body.
    pub fn finish<S: MCWebSocket>(&self, de: &mut MinecraftDeserializer<S>) -> (r:
        MinecraftResult<()>)
        ensures
            final(de).infallible() == old(de).infallible(),
            r is Ok ==> spec_parse_prefix(old(de).remaining(), MinecraftBlock::EmeraldBlock)
                == Ok::<Seq<MinecraftBlock>, MinecraftError>(final(de).remaining()),
            old(de).infallible() ==> (match spec_parse_prefix(
                old(de).remaining(),
                MinecraftBlock::EmeraldBlock,
            ) {
                Ok(rest) => r is Ok && final(de).remaining() == rest,
                Err(e) => r == Err::<(), MinecraftError>(e),
            }),
    {
        let b = de.consume()?;
        if b != MinecraftBlock::EmeraldBlock {
            return Err(MinecraftError::UnexpectedBlock {
                expected: MinecraftBlock::EmeraldBlock,
                found: b,
            });
        }
        Ok(())
    }
}

/// Walks the elements of a tuple, tuple struct or tuple variant whose
/// count is known from the schema; [`Self::finish`] then consumes the
/// DarkPrismarine terminator.
pub struct MCTupleAccessor {
    remaining: u32,
}

impl MCTupleAccessor {
    /// How many elements are still to be read.
    pub closed spec fn spec_elements_left(&self) -> u32 {
        self.remaining
    }

    /// An accessor expecting the given number of elements.
    pub fn new(len: u32) -> (r: MCTupleAccessor)
        ensures
            r.spec_elements_left() == len,
    {
        MCTupleAccessor { remaining: len }
    }

    /// True when one more element follows, counting it off.
    pub fn next_element(&mut self) -> (r: bool)
        ensures
            r <==> old(self).spec_elements_left() > 0,
            r ==> final(self).spec_elements_left() == old(self).spec_elements_left() - 1,
            !r ==> final(self).spec_elements_left() == 0,
    {
        if self.remaining == 0 {
            false
        } else {
            self.remaining = self.remaining - 1;
            true
        }
    }

    /// Consumes the DarkPrismarine that closes the elements.
    pub fn finish<S: MCWebSocket>(&self, de: &mut MinecraftDeserializer<S>) -> (r:
        MinecraftResult<()>)
        ensures
            final(de).infallible() == old(de).infallible(),
            r is Ok ==> spec_parse_prefix(old(de).remaining(), MinecraftBlock::DarkPrismarine)
                == Ok::<Seq<MinecraftBlock>, MinecraftError>(final(de).remaining()),
            old(de).infallible() ==> (match spec_parse_prefix(
                old(de).remaining(),
                MinecraftBlock::DarkPrismarine,
            ) {
                Ok(rest) => r is Ok && final(de).remaining() == rest,
                Err(e) => r == Err::<(), MinecraftError>(e),
            }),
    {
        let b = de.consume()?;
        if b != MinecraftBlock::DarkPrismarine {
            return Err(MinecraftError::UnexpectedBlock {
                expected: MinecraftBlock::DarkPrismarine,
                found: b,
            });
        }
        Ok(())
    }
}

/// Reads the parts of an enum value after its kind was dispatched: the
/// variant index first, then whatever the kind's body asks for.
pub struct MCEnumAccessor {
}

impl MCEnumAccessor {
    pub fn new() -> (r: MCEnumAccessor) {
        MCEnumAccessor {  }
    }

    /// The u32 variant index that follows every enum prefix.
    pub fn variant_index<S: MCWebSocket>(&self, de: &mut MinecraftDeserializer<S>) -> (r:
        MinecraftResult<u32>)
        ensures
            final(de).infallible() == old(de).infallible(),
            r matches Ok(v) ==> crate::wire::spec_parse_number(
                old(de).remaining(),
                MinecraftBlock::RawCopperBlock,
                None,
                u32::MAX as nat,
            ) == Ok::<(nat, Seq<MinecraftBlock>), MinecraftError>(
                (v as nat, final(de).remaining()),
            ),
            old(de).infallible() ==> (match crate::wire::spec_parse_number(
                old(de).remaining(),
                MinecraftBlock::RawCopperBlock,
                None,
                u32::MAX as nat,
            ) {
                Ok(p) => r matches Ok(v) && v as nat == p.0 && final(de).remaining() == p.1,
                Err(e) => r == Err::<u32, MinecraftError>(e),
            }),
    {
        de.deserialize_u32()
    }

    /// A unit variant has no body.
    pub fn unit_variant(&self) -> (r: MinecraftResult<()>)
        ensures
            r is Ok,
    {
        Ok(())
    }

    /// The element count of a tuple variant's body; the elements then
    /// follow up to DarkPrismarine.
    pub fn tuple_variant_len<S: MCWebSocket>(&self, de: &mut MinecraftDeserializer<S>) -> (r:
        MinecraftResult<u32>)
        ensures
            final(de).infallible() == old(de).infallible(),
            r matches Ok(v) ==> crate::wire::spec_parse_number(
                old(de).remaining(),
                MinecraftBlock::RawCopperBlock,
                None,
                u32::MAX as nat,
            ) == Ok::<(nat, Seq<MinecraftBlock>), MinecraftError>(
                (v as nat, final(de).remaining()),
            ),
            old(de).infallible() ==> (match crate::wire::spec_parse_number(
                old(de).remaining(),
                MinecraftBlock::RawCopperBlock,
                None,
                u32::MAX as nat,
            ) {
                Ok(p) => r matches Ok(v) && v as nat == p.0 && final(de).remaining() == p.1,
                Err(e) => r == Err::<u32, MinecraftError>(e),
            }),
    {
        de.deserialize_u32()
    }

    /// The field count of a struct variant's body; field-name/value
    /// pairs then follow up to EmeraldBlock.
    pub fn struct_variant_len<S: MCWebSocket>(&self, de: &mut MinecraftDeserializer<S>) -> (r:
        MinecraftResult<u32>)
        ensures
            final(de).infallible() == old(de).infallible(),
            r matches Ok(v) ==> crate::wire::spec_parse_number(
                old(de).remaining(),
                MinecraftBlock::RawCopperBlock,
                None,
                u32::MAX as nat,
            ) == Ok::<(nat, Seq<MinecraftBlock>), MinecraftError>(
                (v as nat, final(de).remaining()),
            ),
            old(de).infallible() ==> (match crate::wire::spec_parse_number(
                old(de).remaining(),
                MinecraftBlock::RawCopperBlock,
                None,
                u32::MAX as nat,
            ) {
                Ok(p) => r matches Ok(v) && v as nat == p.0 && final(de).remaining() == p.1,
                Err(e) => r == Err::<u32, MinecraftError>(e),
            }),
    {
        de.deserialize_u32()
    }
}

} // verus!
