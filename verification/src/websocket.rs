use vstd::prelude::*;
use crate::blocks::MinecraftBlock;
use crate::result::{MinecraftError, MinecraftResult};

verus! {

/// The block channel: a stateful cursor over a token stream. The codec
/// needs nothing else from a transport.
///
/// The model is a write-side history `outgoing`, a full read-side stream
/// `incoming` (past and future blocks alike) and a `cursor` counting how
/// many incoming blocks have been consumed. A transport that can neither
/// lose nor reorder blocks may declare itself `infallible`; the stronger
/// clauses below then apply, and the codec's error behaviour becomes
/// exact. On a fallible transport an operation may fail at any time, and
/// after a failure the cursor is indeterminate: the channel is poisoned
/// for the current call.
pub trait MCWebSocket: Sized {
    /// All blocks sent over this channel so far, in order. A transport
    /// that states no model of its own is opaque: empty streams and
    /// fallible, which makes every stronger clause below vacuous.
    open spec fn outgoing(&self) -> Seq<MinecraftBlock> {
        Seq::<MinecraftBlock>::empty()
    }

    /// The full inbound stream this channel yields, past and future.
    open spec fn incoming(&self) -> Seq<MinecraftBlock> {
        Seq::<MinecraftBlock>::empty()
    }

    /// How many inbound blocks have been consumed or skipped.
    open spec fn cursor(&self) -> nat {
        0
    }

    /// True of channels whose operations fail only for stream-structural
    /// reasons: consuming past the end, rewinding at the start.
    open spec fn infallible(&self) -> bool {
        false
    }

    /// Writes one block at the end of the outgoing stream.
    /// A loopback channel may share one stream between both sides, so
    /// nothing is claimed of `incoming` here.
    fn send_block(&mut self, block: MinecraftBlock) -> (r: MinecraftResult<()>)
        ensures
            final(self).cursor() == old(self).cursor(),
            final(self).infallible() == old(self).infallible(),
            r is Ok ==> final(self).outgoing() == old(self).outgoing().push(block),
            old(self).infallible() ==> r is Ok,
    ;

    /// Reads the block under the cursor and advances past it.
    fn consume_block(&mut self) -> (r: MinecraftResult<MinecraftBlock>)
        ensures
            final(self).incoming() == old(self).incoming(),
            final(self).outgoing() == old(self).outgoing(),
            final(self).infallible() == old(self).infallible(),
            r matches Ok(b) ==> old(self).cursor() < old(self).incoming().len()
                && b == old(self).incoming()[old(self).cursor() as int]
                && final(self).cursor() == old(self).cursor() + 1,
            old(self).infallible() ==> (r is Ok <==> old(self).cursor() < old(
                self,
            ).incoming().len()),
            old(self).infallible() && r is Err ==> r == Err::<
                MinecraftBlock,
                MinecraftError,
            >(MinecraftError::Transport) && final(self).cursor() == old(self).cursor(),
    ;

    /// Advances past the block under the cursor without reading it.
    fn skip_block(&mut self) -> (r: MinecraftResult<()>)
        ensures
            final(self).incoming() == old(self).incoming(),
            final(self).outgoing() == old(self).outgoing(),
            final(self).infallible() == old(self).infallible(),
            r is Ok ==> old(self).cursor() < old(self).incoming().len() && final(self).cursor() == old(
                self,
            ).cursor() + 1,
            old(self).infallible() ==> (r is Ok <==> old(self).cursor() < old(
                self,
            ).incoming().len()),
            old(self).infallible() && r is Err ==> r == Err::<(), MinecraftError>(
                MinecraftError::Transport,
            ) && final(self).cursor() == old(self).cursor(),
    ;

    /// Steps the cursor back by one block, so that the block consumed
    /// last is yielded again. One level of rewind is all the grammar
    /// ever needs, and all a transport must support.
    fn rewind_block(&mut self) -> (r: MinecraftResult<()>)
        ensures
            final(self).incoming() == old(self).incoming(),
            final(self).outgoing() == old(self).outgoing(),
            final(self).infallible() == old(self).infallible(),
            r is Ok ==> old(self).cursor() >= 1 && final(self).cursor() == (old(self).cursor()
                - 1) as nat,
            old(self).infallible() ==> (r is Ok <==> old(self).cursor() >= 1),
            old(self).infallible() && r is Err ==> r == Err::<(), MinecraftError>(
                MinecraftError::RewindFailed,
            ) && final(self).cursor() == old(self).cursor(),
    ;

    /// Pushes buffered writes to the transport. The abstract streams are
    /// unaffected; most channels have nothing to do.
    fn flush(&mut self) -> (r: MinecraftResult<()>)
        ensures
            final(self).incoming() == old(self).incoming(),
            final(self).outgoing() == old(self).outgoing(),
            final(self).cursor() == old(self).cursor(),
            final(self).infallible() == old(self).infallible(),
        default_ensures
            r is Ok,
    {
        Ok(())
    }
}

/// An in-memory block channel: a growable token stream and a cursor.
/// The writer appends at the end; the reader walks the same stream, so a
/// buffer filled by the serializer can be handed to the deserializer.
pub struct BlockBuffer {
    blocks: Vec<MinecraftBlock>,
    pos: usize,
}

impl BlockBuffer {
    /// An empty stream with the cursor at the start.
    pub fn new() -> (r: BlockBuffer)
        ensures
            r.outgoing() == Seq::<MinecraftBlock>::empty(),
            r.incoming() == Seq::<MinecraftBlock>::empty(),
            r.cursor() == 0,
            r.infallible(),
    {
        BlockBuffer { blocks: Vec::new(), pos: 0 }
    }

    /// A stream holding the given blocks, with the cursor at the start.
    pub fn from_blocks(blocks: Vec<MinecraftBlock>) -> (r: BlockBuffer)
        ensures
            r.incoming() == blocks@,
            r.outgoing() == blocks@,
            r.cursor() == 0,
            r.infallible(),
    {
        BlockBuffer { blocks, pos: 0 }
    }

    /// The blocks held by the stream, in order.
    pub fn blocks(&self) -> (r: &Vec<MinecraftBlock>)
        ensures
            r@ == self.incoming(),
    {
        &self.blocks
    }

    /// Moves the cursor back to the start, so the stream can be read
    /// from the beginning.
    pub fn reset(&mut self) -> (r: ())
        ensures
            final(self).incoming() == old(self).incoming(),
            final(self).outgoing() == old(self).outgoing(),
            final(self).cursor() == 0,
            final(self).infallible(),
    {
        self.pos = 0;
    }
}

impl MCWebSocket for BlockBuffer {
    closed spec fn outgoing(&self) -> Seq<MinecraftBlock> {
        self.blocks@
    }

    closed spec fn incoming(&self) -> Seq<MinecraftBlock> {
        self.blocks@
    }

    closed spec fn cursor(&self) -> nat {
        self.pos as nat
    }

    closed spec fn infallible(&self) -> bool {
        true
    }

    fn send_block(&mut self, block: MinecraftBlock) -> (r: MinecraftResult<()>) {
        self.blocks.push(block);
        Ok(())
    }

    fn consume_block(&mut self) -> (r: MinecraftResult<MinecraftBlock>) {
        if self.pos < self.blocks.len() {
            let b = self.blocks[self.pos];
            self.pos = self.pos + 1;
            Ok(b)
        } else {
            Err(MinecraftError::Transport)
        }
    }

    fn skip_block(&mut self) -> (r: MinecraftResult<()>) {
        if self.pos < self.blocks.len() {
            self.pos = self.pos + 1;
            Ok(())
        } else {
            Err(MinecraftError::Transport)
        }
    }

    fn rewind_block(&mut self) -> (r: MinecraftResult<()>) {
        if self.pos >= 1 {
            self.pos = self.pos - 1;
            Ok(())
        } else {
            Err(MinecraftError::RewindFailed)
        }
    }
}

} // verus!
