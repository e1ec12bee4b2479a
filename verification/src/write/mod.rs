//! Writing values to a [`Cursor`].

pub mod adapters;
pub mod impls;
pub mod tuples;

use vstd::prelude::*;

use crate::cursor::Cursor;
use crate::endian::Endian;
use crate::error::{BinError, BinResult};

verus! {

/// Unit struct used to seal methods: only this crate can make one, so only
/// this crate calls [`BinWrite::write_non_backtracking`] directly.
pub struct BinWriteToken(pub(crate) ());

/// What a write gives: the bytes and the position after it, or an error
/// together with the bytes as the failed write left them.
pub open spec fn write_outcome(r: BinResult<()>, data: Seq<u8>, pos: u64) -> Result<
    (Seq<u8>, u64),
    (BinError, Seq<u8>),
> {
    match r {
        Ok(_) => Ok((data, pos)),
        Err(e) => Err((e, data)),
    }
}

/// Writes a value to a stream.
pub trait BinWrite<Args, In>: Sized {
    /// Whether the writer can run: every callback it holds accepts every input.
    ///
    /// A writer that does not say so can always run.
    open spec fn write_wf(&self) -> bool {
        true
    }

    /// The value that is written.
    ///
    /// A writer that does not say is known to write some value.
    open spec fn spec_inner(&self) -> In {
        vstd::pervasive::arbitrary()
    }

    /// Whether writing at position `pos` of `data` with `endian` and `args`
    /// may give `outcome`: the new bytes and the position right after the
    /// value, or an error and the bytes as the failed write left them.
    ///
    /// A writer that does not say may give any outcome.
    open spec fn writes(
        &self,
        data: Seq<u8>,
        pos: u64,
        endian: Endian,
        args: Args,
        outcome: Result<(Seq<u8>, u64), (BinError, Seq<u8>)>,
    ) -> bool {
        true
    }

    /// Writes the value to the stream, advancing it to after the value.
    ///
    /// The stream is not returned to its position before an error: call
    /// [`BinWriteExt::write`] instead, which does.
    fn write_non_backtracking(
        &self,
        writer: &mut Cursor,
        endian: Endian,
        args: Args,
        token: BinWriteToken,
    ) -> (r: BinResult<()>)
        requires
            self.write_wf(),
        ensures
            self.writes(
                old(writer)@.data,
                old(writer)@.pos,
                endian,
                args,
                write_outcome(r, final(writer)@.data, final(writer)@.pos),
            ),
    ;

    /// The value that is written.
    fn inner(&self) -> (v: &In)
        ensures
            *v == self.spec_inner(),
    ;
}

/// Entry point of a writable type: gives the writer of a value that lives
/// for `'a`.
pub trait BinWriter<'a> {
    /// Arguments (context) required to write the `In` type.
    type Args;

    /// The type of the values written.
    type In;

    /// The writer that [`BinWriter::writer_mapped`] gives.
    type Writer: BinWrite<Self::Args, Self::In>;

    /// The writer that [`BinWriter::writer_mapped`] gives for `this`.
    ///
    /// A type that does not say gives some writer.
    open spec fn spec_writer_mapped(this: &'a Self::In) -> Self::Writer {
        vstd::pervasive::arbitrary()
    }

    /// A writer of `this`.
    fn writer_mapped(this: &'a Self::In) -> (w: Self::Writer)
        ensures
            w == Self::spec_writer_mapped(this),
            w.write_wf(),
            w.spec_inner() == *this,
    ;
}

/// The writer of a value of a type that writes itself.
pub trait BinWriterSelf<'a>: BinWriter<'a, In = Self> + Sized {
    fn writer(&'a self) -> (w: Self::Writer)
        ensures
            w == Self::spec_writer_mapped(self),
            w.write_wf(),
            w.spec_inner() == *self,
    {
        Self::writer_mapped(self)
    }
}

impl<'a, T> BinWriterSelf<'a> for T where T: BinWriter<'a, In = T> {

}

/// Allows writing with backtracking and chaining adapters.
pub trait BinWriteExt<Args, In>: BinWrite<Args, In> {
    /// Writes the value to the stream, advancing it to after the value.
    ///
    /// The stream is returned to the position before an error; the bytes are
    /// left as the failed write left them.
    fn write(&self, writer: &mut Cursor, endian: Endian, args: Args) -> (r: BinResult<()>)
        requires
            self.write_wf(),
        ensures
            r is Ok ==> self.writes(
                old(writer)@.data,
                old(writer)@.pos,
                endian,
                args,
                Ok((final(writer)@.data, final(writer)@.pos)),
            ),
            r matches Err(e) ==> self.writes(
                old(writer)@.data,
                old(writer)@.pos,
                endian,
                args,
                Err((e, final(writer)@.data)),
            ) && final(writer)@.pos == old(writer)@.pos,
    {
        let pos: u64 = writer.position();
        match self.write_non_backtracking(writer, endian, args, BinWriteToken(())) {
            Err(e) => {
                writer.set_position(pos);
                Err(e)
            },
            Ok(v) => Ok(v),
        }
    }

    /// Fails, writing nothing, if a condition on the value doesn't pass.
    fn assert_value<AssertFn, MessageFn>(self, assertion: AssertFn, message: MessageFn) -> (r:
        adapters::assertion::Assert<Self, AssertFn, MessageFn>) where
        AssertFn: Fn(&In) -> bool,
        MessageFn: Fn(&In) -> String,
        In: core::fmt::Debug,

        ensures
            r.f == self,
            r.assertion == assertion,
            r.message == message,
    {
        adapters::assertion::Assert::new(self, assertion, message)
    }
}

impl<T, Args, In> BinWriteExt<Args, In> for T where T: BinWrite<Args, In> {

}

} // verus!
