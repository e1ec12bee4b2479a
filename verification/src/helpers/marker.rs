use vstd::prelude::*;

use crate::cursor::Cursor;
use crate::endian::Endian;
use crate::error::{BinError, BinResult};
use crate::bytes::lemma_pow256_positive;
use crate::number::BinNumber;
use crate::read::{BinReadCollect, BinReadCollectToken, BinReadExt, BinReader};
use crate::write::impls::{number_write_outcome, NumberWriter};
use crate::write::{BinWrite, BinWriteExt, BinWriteToken, BinWriter};

verus! {

/// A wrapper that stores the value along with the position in which it was read / written.
///
/// When reading, both [`Marker::pos`] and [`Marker::value`] are populated.
///
/// When writing, a zero placeholder is written in place of the value;
/// [`Marker::write_placeholder`] gives the marker of the position it was
/// written at.
#[derive(Debug, Default, PartialEq, Eq)]
pub struct Marker<M> {
    pos: u64,
    value: M,
}

impl<M> Marker<M> {
    /// The position at which `value` was read.
    pub closed spec fn spec_pos(&self) -> u64 {
        self.pos
    }

    /// The value.
    pub closed spec fn spec_value(&self) -> M {
        self.value
    }

    /// A marker of `value`, read at `pos`.
    pub fn new(pos: u64, value: M) -> (m: Self)
        ensures
            m.spec_pos() == pos,
            m.spec_value() == value,
    {
        Marker { pos, value }
    }

    /// Position of the [`Marker::value`] in the stream.
    pub fn pos(&self) -> (p: u64)
        ensures
            p == self.spec_pos(),
    {
        self.pos
    }

    /// Underlying value.
    pub fn value(&self) -> (v: &M)
        ensures
            *v == self.spec_value(),
    {
        &self.value
    }
}

/// Reads a value with the inner reader and marks it with the position at
/// which it started.
pub struct MarkerReader<R> {
    pub inner: R,
}

impl<R, Args, M> BinReadCollect<Args, Marker<M>> for MarkerReader<R> where R: BinReadCollect<Args, M> {
    open spec fn collect_wf(&self) -> bool {
        self.inner.collect_wf()
    }

    /// The value is read, and stored with the position at which it started.
    open spec fn collects(
        &self,
        data: Seq<u8>,
        pos: u64,
        endian: Endian,
        args: Args,
        outcome: Result<(Marker<M>, u64), BinError>,
    ) -> bool {
        match outcome {
            Ok((m, end)) => m.spec_pos() == pos && self.inner.collects(
                data,
                pos,
                endian,
                args,
                Ok((m.spec_value(), end)),
            ),
            Err(e) => self.inner.collects(data, pos, endian, args, Err(e)),
        }
    }

    fn collect_non_backtracking(
        &self,
        reader: &mut Cursor,
        endian: Endian,
        args: Args,
        token: BinReadCollectToken,
    ) -> (r: BinResult<Marker<M>>) {
        let pos: u64 = reader.position();
        match self.inner.read(reader, endian, args) {
            Ok(value) => Ok(Marker::new(pos, value)),
            Err(e) => Err(e),
        }
    }
}

impl<M> BinReader for Marker<M> where M: BinReader<Out = M> {
    type Args = M::Args;
    type Out = Marker<M>;
    type Reader = MarkerReader<M::Reader>;

    open spec fn spec_reader() -> MarkerReader<M::Reader> {
        MarkerReader { inner: M::spec_reader() }
    }

    fn reader() -> (r: MarkerReader<M::Reader>) {
        MarkerReader { inner: M::reader() }
    }
}

/// Writes the placeholder of a marker: the zero of its number type.
pub struct MarkerWriter<'a, T> {
    pub marker: &'a Marker<T>,
}

impl<'a, T: BinNumber> BinWrite<(), Marker<T>> for MarkerWriter<'a, T> {
    open spec fn write_wf(&self) -> bool {
        true
    }

    open spec fn spec_inner(&self) -> Marker<T> {
        *self.marker
    }

    /// A zero of the number type is written, whatever value the marker holds.
    open spec fn writes(
        &self,
        data: Seq<u8>,
        pos: u64,
        endian: Endian,
        args: (),
        outcome: Result<(Seq<u8>, u64), (BinError, Seq<u8>)>,
    ) -> bool {
        outcome == number_write_outcome(data, pos, endian, T::spec_from_raw(0))
    }

    fn write_non_backtracking(
        &self,
        writer: &mut Cursor,
        endian: Endian,
        args: (),
        token: BinWriteToken,
    ) -> (r: BinResult<()>) {
        proof {
            lemma_pow256_positive(T::spec_width());
        }
        let zero = T::from_raw(0);
        NumberWriter { value: &zero }.write_non_backtracking(writer, endian, (), token)
    }

    fn inner(&self) -> (v: &Marker<T>) {
        self.marker
    }
}

impl<'a, T: BinNumber + 'a> BinWriter<'a> for Marker<T> {
    type Args = ();
    type In = Marker<T>;
    type Writer = MarkerWriter<'a, T>;

    open spec fn spec_writer_mapped(this: &'a Marker<T>) -> MarkerWriter<'a, T> {
        MarkerWriter { marker: this }
    }

    fn writer_mapped(this: &'a Marker<T>) -> (w: MarkerWriter<'a, T>) {
        MarkerWriter { marker: this }
    }
}

impl<T: BinNumber> Marker<T> {
    /// Writes a zero placeholder at the position and gives the marker that
    /// records that position, holding the placeholder.
    ///
    /// The stream is returned to the position before an error.
    pub fn write_placeholder(writer: &mut Cursor, endian: Endian) -> (r: BinResult<Marker<T>>)
        ensures
            r matches Ok(m) ==> m.spec_pos() == old(writer)@.pos && m.spec_value()
                == T::spec_from_raw(0) && number_write_outcome(
                old(writer)@.data,
                old(writer)@.pos,
                endian,
                T::spec_from_raw(0),
            ) == Ok::<(Seq<u8>, u64), (BinError, Seq<u8>)>((final(writer)@.data, final(writer)@.pos)),
            r matches Err(e) ==> number_write_outcome(
                old(writer)@.data,
                old(writer)@.pos,
                endian,
                T::spec_from_raw(0),
            ) == Err::<(Seq<u8>, u64), (BinError, Seq<u8>)>((e, final(writer)@.data))
                && final(writer)@.pos == old(writer)@.pos,
    {
        let pos: u64 = writer.position();
        proof {
            lemma_pow256_positive(T::spec_width());
        }
        let zero = T::from_raw(0);
        match (NumberWriter { value: &zero }).write(writer, endian, ()) {
            Ok(()) => Ok(Marker::new(pos, zero)),
            Err(e) => Err(e),
        }
    }
}

} // verus!
