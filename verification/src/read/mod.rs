//! Reading values from a [`Cursor`].

pub mod adapters;
pub mod impls;
pub mod tuples;

use vstd::prelude::*;

use crate::cursor::Cursor;
use crate::endian::Endian;
use crate::error::{BinError, BinResult};

verus! {

/// Unit struct used to seal methods: only this crate can make one, so only
/// this crate calls [`BinReadCollect::collect_non_backtracking`] directly.
pub struct BinReadCollectToken(pub(crate) ());

/// What a read gives: the value and the position right after it, or an error.
pub open spec fn outcome<Out>(r: BinResult<Out>, end: u64) -> Result<(Out, u64), BinError> {
    match r {
        Ok(v) => Ok((v, end)),
        Err(e) => Err(e),
    }
}

/// Reads data from a stream and constructs an `Out` value, keeping its
/// state in `self`.
///
/// It is used for adapters (like `.pad_before`) that can be chained. If you
/// are making a parseable type, implement [`BinReader`] instead.
pub trait BinReadCollect<Args, Out>: Sized {
    /// Whether the reader can run: every callback it holds accepts every input.
    ///
    /// A reader that does not say so can always run.
    open spec fn collect_wf(&self) -> bool {
        true
    }

    /// Whether reading at position `pos` of `data` with `endian` and `args`
    /// may give `outcome`: `Ok((value, end))`, where `end` is the position
    /// right after the value, or `Err(error)`.
    ///
    /// A reader that does not say may give any outcome.
    open spec fn collects(
        &self,
        data: Seq<u8>,
        pos: u64,
        endian: Endian,
        args: Args,
        outcome: Result<(Out, u64), BinError>,
    ) -> bool {
        true
    }

    /// Reads and constructs an `Out` value from the stream, advancing it to
    /// after the value.
    ///
    /// The stream is not returned to its position before an error: call
    /// [`BinReadExt::read`] instead, which does.
    fn collect_non_backtracking(
        &self,
        reader: &mut Cursor,
        endian: Endian,
        args: Args,
        token: BinReadCollectToken,
    ) -> (r: BinResult<Out>)
        requires
            self.collect_wf(),
        ensures
            final(reader)@.data == old(reader)@.data,
            self.collects(old(reader)@.data, old(reader)@.pos, endian, args, outcome(r, final(reader)@.pos)),
    ;
}

/// Entry point of a parseable type: gives the reader that constructs it.
pub trait BinReader {
    /// Arguments (context) required to parse the `Out` type.
    type Args;

    /// Output of the parsing.
    type Out;

    /// The reader that [`BinReader::reader`] gives.
    type Reader: BinReadCollect<Self::Args, Self::Out>;

    /// The reader that [`BinReader::reader`] gives.
    ///
    /// A type that does not say gives some reader.
    open spec fn spec_reader() -> Self::Reader {
        vstd::pervasive::arbitrary()
    }

    /// Instantiates a reader that can read a stream and return an `Out` value.
    fn reader() -> (r: Self::Reader)
        ensures
            r == Self::spec_reader(),
            r.collect_wf(),
    ;
}

/// Allows reading with backtracking and chaining adapters to create more
/// complex parsers.
pub trait BinReadExt<Args, Out>: BinReadCollect<Args, Out> {
    /// Reads and constructs an `Out` value from the stream, advancing it to
    /// after the value.
    ///
    /// The stream is returned to the position before an error.
    fn read(&self, reader: &mut Cursor, endian: Endian, args: Args) -> (r: BinResult<Out>)
        requires
            self.collect_wf(),
        ensures
            final(reader)@.data == old(reader)@.data,
            self.collects(old(reader)@.data, old(reader)@.pos, endian, args, outcome(r, final(reader)@.pos)),
            r is Err ==> final(reader)@.pos == old(reader)@.pos,
    {
        let pos: u64 = reader.position();
        match self.collect_non_backtracking(reader, endian, args, BinReadCollectToken(())) {
            Err(e) => {
                reader.set_position(pos);
                Err(e)
            },
            Ok(v) => Ok(v),
        }
    }

    /// The same as [`BinReadExt::read`].
    fn collect(&self, reader: &mut Cursor, endian: Endian, args: Args) -> (r: BinResult<Out>)
        requires
            self.collect_wf(),
        ensures
            final(reader)@.data == old(reader)@.data,
            self.collects(old(reader)@.data, old(reader)@.pos, endian, args, outcome(r, final(reader)@.pos)),
            r is Err ==> final(reader)@.pos == old(reader)@.pos,
    {
        self.read(reader, endian, args)
    }

    /// Fails if a specified condition on a parsed value doesn't pass.
    ///
    /// # Arguments
    ///
    /// * `assertion`: Function that should return `true` if the parsed value is valid.
    /// * `message`: Function that should return an error message explaining the validation.
    fn assert_value<AssertFn, MessageFn>(self, assertion: AssertFn, message: MessageFn) -> (r:
        adapters::assertion::Assert<Self, AssertFn, MessageFn>) where
        AssertFn: Fn(&Out) -> bool,
        MessageFn: Fn(&Out) -> String,
        Out: core::fmt::Debug,

        ensures
            r.f == self,
            r.assertion == assertion,
            r.message == message,
    {
        adapters::assertion::Assert::new(self, assertion, message)
    }

    /// Maps a value being read from one type to another.
    fn map<MapFn, Out2>(self, map: MapFn) -> (m: adapters::map::ReadMap<Self, MapFn, Out, Out2>) where
        MapFn: Fn(Out) -> Out2,

        ensures
            m.f == self,
            m.map == map,
    {
        adapters::map::ReadMap::new(self, map)
    }

    /// Skips an amount of bytes after a value.
    ///
    /// Will not fail if the stream has ended during padding.
    fn pad_after(self, padding: usize) -> (r: adapters::pad_after::ReadPadAfter<Self>)
        ensures
            r.f == self,
            r.padding == padding,
    {
        adapters::pad_after::ReadPadAfter::new(self, padding)
    }

    /// Skips some bytes after the value so the stream always advances by a given amount.
    ///
    /// Will not fail if the stream has ended during padding.
    fn pad_after_to(self, size: usize) -> (r: adapters::pad_after_to::ReadPadAfterTo<Self>)
        ensures
            r.f == self,
            r.size == size,
    {
        adapters::pad_after_to::ReadPadAfterTo::new(self, size)
    }

    /// Skips an amount of bytes before a value.
    fn pad_before(self, padding: usize) -> (r: adapters::pad_before::PadBefore<Self>)
        ensures
            r.f == self,
            r.padding == padding,
    {
        adapters::pad_before::PadBefore::new(self, padding)
    }

    /// Repeats the parser an amount of times, collecting the results into an array.
    fn repeat_array<const N: usize>(self) -> (r: adapters::repeat_array::RepeatArray<Self, N>) where
        Args: Copy,

        ensures
            r.f == self,
    {
        adapters::repeat_array::RepeatArray::new(self)
    }

    /// Repeats the parser an amount of times, collecting the results into a vector.
    fn repeat_vec(self, len: usize) -> (r: adapters::repeat_vec::ReadRepeatVec<Self>) where
        Args: Copy,

        ensures
            r.f == self,
            r.len == len,
    {
        adapters::repeat_vec::ReadRepeatVec::new(self, len)
    }

    /// Repeats the parser once per item of a vector of arguments, each time
    /// applying that item, collecting the results into a vector.
    fn repeat_vec_args_iter(self) -> (r: adapters::repeat_vec_args_iter::RepeatVecArgsIter<Self>)
        ensures
            r.f == self,
    {
        adapters::repeat_vec_args_iter::RepeatVecArgsIter::new(self)
    }

    /// Reads the value without advancing the stream.
    fn restore_position(self) -> (r: adapters::restore_position::ReadRestorePosition<Self>)
        ensures
            r.f == self,
    {
        adapters::restore_position::ReadRestorePosition::new(self)
    }

    /// Positions the stream at `position` before reading the value.
    ///
    /// If it succeeds, the stream is kept in the position right after the
    /// parsed value.
    fn seek_before(self, position: usize) -> (r: adapters::seek_before::ReadSeekBefore<Self>)
        ensures
            r.f == self,
            r.position == position,
    {
        adapters::seek_before::ReadSeekBefore::new(self, position)
    }
}

impl<T, Args, Out> BinReadExt<Args, Out> for T where T: BinReadCollect<Args, Out> {

}

} // verus!
