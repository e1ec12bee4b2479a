//! Readers of the built-in types.

use core::marker::PhantomData;

use vstd::prelude::*;

use crate::bytes::{decode_uint, lemma_uint_bytes_roundtrip, uint_value};
use crate::cursor::Cursor;
use crate::endian::Endian;
use crate::error::{eof_at, BinError, BinErrorKind, BinResult};
use crate::number::BinNumber;
use crate::read::adapters::repeat::{same_args, sequence_collects};
use crate::read::adapters::repeat_array::RepeatArray;
use crate::read::adapters::repeat_vec::read_repeated;
use crate::read::{BinReadCollect, BinReadCollectToken, BinReadExt, BinReader};

verus! {

/// What reading a number of type `T` at `pos` of `data` gives.
pub open spec fn number_outcome<T: BinNumber>(data: Seq<u8>, pos: u64, endian: Endian) -> Result<(T, u64), BinError> {
    let w = T::spec_width();
    if pos + w <= data.len() {
        Ok((
            T::spec_from_raw(uint_value(data.subrange(pos as int, pos + w), endian)),
            (pos + w) as u64,
        ))
    } else {
        Err(eof_at(pos))
    }
}

/// Reads a fixed-width integer in the requested byte order.
pub struct NumberReader<T> {
    pub number: PhantomData<T>,
}

impl<T: BinNumber> BinReadCollect<(), T> for NumberReader<T> {
    open spec fn collect_wf(&self) -> bool {
        true
    }

    open spec fn collects(
        &self,
        data: Seq<u8>,
        pos: u64,
        endian: Endian,
        args: (),
        outcome: Result<(T, u64), BinError>,
    ) -> bool {
        outcome == number_outcome::<T>(data, pos, endian)
    }

    fn collect_non_backtracking(
        &self,
        reader: &mut Cursor,
        endian: Endian,
        args: (),
        token: BinReadCollectToken,
    ) -> (r: BinResult<T>) {
        let pos: u64 = reader.position();
        let w: usize = T::width();
        match reader.read_exact(w) {
            Ok(bytes) => {
                let raw: u128 = decode_uint(&bytes, endian);
                proof {
                    lemma_uint_bytes_roundtrip(bytes@, endian);
                }
                Ok(T::from_raw(raw))
            },
            Err(k) => Err(BinError::new(Some(pos), BinErrorKind::Io(k))),
        }
    }
}

impl BinReader for u8 {
    type Args = ();
    type Out = u8;
    type Reader = NumberReader<u8>;

    open spec fn spec_reader() -> NumberReader<u8> {
        NumberReader { number: PhantomData }
    }

    fn reader() -> (r: NumberReader<u8>) {
        let r = NumberReader { number: PhantomData };
        assert(<NumberReader<u8> as BinReadCollect<(), u8>>::collect_wf(&r));
        r
    }
}

impl BinReader for u16 {
    type Args = ();
    type Out = u16;
    type Reader = NumberReader<u16>;

    open spec fn spec_reader() -> NumberReader<u16> {
        NumberReader { number: PhantomData }
    }

    fn reader() -> (r: NumberReader<u16>) {
        NumberReader { number: PhantomData }
    }
}

impl BinReader for u32 {
    type Args = ();
    type Out = u32;
    type Reader = NumberReader<u32>;

    open spec fn spec_reader() -> NumberReader<u32> {
        NumberReader { number: PhantomData }
    }

    fn reader() -> (r: NumberReader<u32>) {
        NumberReader { number: PhantomData }
    }
}

impl BinReader for u64 {
    type Args = ();
    type Out = u64;
    type Reader = NumberReader<u64>;

    open spec fn spec_reader() -> NumberReader<u64> {
        NumberReader { number: PhantomData }
    }

    fn reader() -> (r: NumberReader<u64>) {
        NumberReader { number: PhantomData }
    }
}

impl BinReader for u128 {
    type Args = ();
    type Out = u128;
    type Reader = NumberReader<u128>;

    open spec fn spec_reader() -> NumberReader<u128> {
        NumberReader { number: PhantomData }
    }

    fn reader() -> (r: NumberReader<u128>) {
        NumberReader { number: PhantomData }
    }
}

impl BinReader for i8 {
    type Args = ();
    type Out = i8;
    type Reader = NumberReader<i8>;

    open spec fn spec_reader() -> NumberReader<i8> {
        NumberReader { number: PhantomData }
    }

    fn reader() -> (r: NumberReader<i8>) {
        NumberReader { number: PhantomData }
    }
}

impl BinReader for i16 {
    type Args = ();
    type Out = i16;
    type Reader = NumberReader<i16>;

    open spec fn spec_reader() -> NumberReader<i16> {
        NumberReader { number: PhantomData }
    }

    fn reader() -> (r: NumberReader<i16>) {
        NumberReader { number: PhantomData }
    }
}

impl BinReader for i32 {
    type Args = ();
    type Out = i32;
    type Reader = NumberReader<i32>;

    open spec fn spec_reader() -> NumberReader<i32> {
        NumberReader { number: PhantomData }
    }

    fn reader() -> (r: NumberReader<i32>) {
        NumberReader { number: PhantomData }
    }
}

impl BinReader for i64 {
    type Args = ();
    type Out = i64;
    type Reader = NumberReader<i64>;

    open spec fn spec_reader() -> NumberReader<i64> {
        NumberReader { number: PhantomData }
    }

    fn reader() -> (r: NumberReader<i64>) {
        NumberReader { number: PhantomData }
    }
}

impl BinReader for i128 {
    type Args = ();
    type Out = i128;
    type Reader = NumberReader<i128>;

    open spec fn spec_reader() -> NumberReader<i128> {
        NumberReader { number: PhantomData }
    }

    fn reader() -> (r: NumberReader<i128>) {
        NumberReader { number: PhantomData }
    }
}

/// Reads nothing and gives `()`.
pub struct UnitReader;

impl BinReadCollect<(), ()> for UnitReader {
    open spec fn collect_wf(&self) -> bool {
        true
    }

    open spec fn collects(
        &self,
        data: Seq<u8>,
        pos: u64,
        endian: Endian,
        args: (),
        outcome: Result<((), u64), BinError>,
    ) -> bool {
        outcome == Ok::<((), u64), BinError>(((), pos))
    }

    fn collect_non_backtracking(
        &self,
        reader: &mut Cursor,
        endian: Endian,
        args: (),
        token: BinReadCollectToken,
    ) -> (r: BinResult<()>) {
        Ok(())
    }
}

impl BinReader for () {
    type Args = ();
    type Out = ();
    type Reader = UnitReader;

    open spec fn spec_reader() -> UnitReader {
        UnitReader
    }

    fn reader() -> (r: UnitReader) {
        UnitReader
    }
}

/// Reads nothing and gives a `PhantomData`.
pub struct PhantomReader<T> {
    pub marker: PhantomData<T>,
}

impl<T> BinReadCollect<(), PhantomData<T>> for PhantomReader<T> {
    open spec fn collect_wf(&self) -> bool {
        true
    }

    open spec fn collects(
        &self,
        data: Seq<u8>,
        pos: u64,
        endian: Endian,
        args: (),
        outcome: Result<(PhantomData<T>, u64), BinError>,
    ) -> bool {
        outcome == Ok::<(PhantomData<T>, u64), BinError>((PhantomData, pos))
    }

    fn collect_non_backtracking(
        &self,
        reader: &mut Cursor,
        endian: Endian,
        args: (),
        token: BinReadCollectToken,
    ) -> (r: BinResult<PhantomData<T>>) {
        Ok(PhantomData)
    }
}

impl<T> BinReader for PhantomData<T> {
    type Args = ();
    type Out = PhantomData<T>;
    type Reader = PhantomReader<T>;

    open spec fn spec_reader() -> PhantomReader<T> {
        PhantomReader { marker: PhantomData }
    }

    fn reader() -> (r: PhantomReader<T>) {
        PhantomReader { marker: PhantomData }
    }
}

/// Reads a value with the inner reader and puts it in a `Box`.
pub struct BoxReader<R> {
    pub inner: R,
}

impl<R, Args, Out> BinReadCollect<Args, Box<Out>> for BoxReader<R> where R: BinReadCollect<Args, Out> {
    open spec fn collect_wf(&self) -> bool {
        self.inner.collect_wf()
    }

    open spec fn collects(
        &self,
        data: Seq<u8>,
        pos: u64,
        endian: Endian,
        args: Args,
        outcome: Result<(Box<Out>, u64), BinError>,
    ) -> bool {
        match outcome {
            Ok((b, end)) => self.inner.collects(data, pos, endian, args, Ok((*b, end))),
            Err(e) => self.inner.collects(data, pos, endian, args, Err(e)),
        }
    }

    fn collect_non_backtracking(
        &self,
        reader: &mut Cursor,
        endian: Endian,
        args: Args,
        token: BinReadCollectToken,
    ) -> (r: BinResult<Box<Out>>) {
        match self.inner.read(reader, endian, args) {
            Ok(v) => Ok(Box::new(v)),
            Err(e) => Err(e),
        }
    }
}

impl<T> BinReader for Box<T> where T: BinReader<Out = T> {
    type Args = T::Args;
    type Out = Box<T>;
    type Reader = BoxReader<T::Reader>;

    open spec fn spec_reader() -> BoxReader<T::Reader> {
        BoxReader { inner: T::spec_reader() }
    }

    fn reader() -> (r: BoxReader<T::Reader>) {
        BoxReader { inner: T::reader() }
    }
}

/// Reads a value with the inner reader and puts it in a 1-tuple.
pub struct SingleReader<R> {
    pub inner: R,
}

impl<R, Args, Out> BinReadCollect<Args, (Out,)> for SingleReader<R> where R: BinReadCollect<Args, Out> {
    open spec fn collect_wf(&self) -> bool {
        self.inner.collect_wf()
    }

    open spec fn collects(
        &self,
        data: Seq<u8>,
        pos: u64,
        endian: Endian,
        args: Args,
        outcome: Result<((Out,), u64), BinError>,
    ) -> bool {
        match outcome {
            Ok((t, end)) => self.inner.collects(data, pos, endian, args, Ok((t.0, end))),
            Err(e) => self.inner.collects(data, pos, endian, args, Err(e)),
        }
    }

    fn collect_non_backtracking(
        &self,
        reader: &mut Cursor,
        endian: Endian,
        args: Args,
        token: BinReadCollectToken,
    ) -> (r: BinResult<(Out,)>) {
        match self.inner.read(reader, endian, args) {
            Ok(v) => Ok((v,)),
            Err(e) => Err(e),
        }
    }
}

impl<T0> BinReader for (T0,) where T0: BinReader<Out = T0> {
    type Args = T0::Args;
    type Out = (T0,);
    type Reader = SingleReader<T0::Reader>;

    open spec fn spec_reader() -> SingleReader<T0::Reader> {
        SingleReader { inner: T0::spec_reader() }
    }

    fn reader() -> (r: SingleReader<T0::Reader>) {
        SingleReader { inner: T0::reader() }
    }
}

/// Reads two values one after the other, with the same arguments.
pub struct PairReader<R0, R1> {
    pub first: R0,
    pub second: R1,
}

impl<R0, R1, Args, Out0, Out1> BinReadCollect<Args, (Out0, Out1)> for PairReader<R0, R1> where
    R0: BinReadCollect<Args, Out0>,
    R1: BinReadCollect<Args, Out1>,
    Args: Copy,
 {
    open spec fn collect_wf(&self) -> bool {
        self.first.collect_wf() && self.second.collect_wf()
    }

    /// The first value is read, then the second right after it.
    open spec fn collects(
        &self,
        data: Seq<u8>,
        pos: u64,
        endian: Endian,
        args: Args,
        outcome: Result<((Out0, Out1), u64), BinError>,
    ) -> bool {
        match outcome {
            Ok((t, end)) => exists|mid: u64|
                #[trigger] self.first.collects(data, pos, endian, args, Ok((t.0, mid)))
                    && self.second.collects(data, mid, endian, args, Ok((t.1, end))),
            Err(e) => {
                ||| self.first.collects(data, pos, endian, args, Err(e))
                ||| exists|v: Out0, mid: u64|
                    #[trigger] self.first.collects(data, pos, endian, args, Ok((v, mid)))
                        && self.second.collects(data, mid, endian, args, Err(e))
            },
        }
    }

    fn collect_non_backtracking(
        &self,
        reader: &mut Cursor,
        endian: Endian,
        args: Args,
        token: BinReadCollectToken,
    ) -> (r: BinResult<(Out0, Out1)>) {
        let ghost data = reader@.data;
        let ghost pos = reader@.pos;
        let t0 = match self.first.read(reader, endian, args) {
            Ok(v) => v,
            Err(e) => return Err(e),
        };
        let ghost mid = reader@.pos;
        assert(self.first.collects(data, pos, endian, args, Ok((t0, mid))));
        let t1 = match self.second.read(reader, endian, args) {
            Ok(v) => v,
            Err(e) => return Err(e),
        };
        let ghost end = reader@.pos;
        let ghost t = (t0, t1);
        assert(self.second.collects(data, mid, endian, args, Ok((t.1, end))));
        assert(self.first.collects(data, pos, endian, args, Ok((t.0, mid))));
        let ghost o: Result<((Out0, Out1), u64), BinError> = Ok((t, end));
        assert(o matches Ok((x, y)) && x == t && y == end);
        Ok((t0, t1))
    }
}

impl<T0, T1> BinReader for (T0, T1) where
    T0: BinReader<Out = T0>,
    T1: BinReader<Args = T0::Args, Out = T1>,
    T0::Args: Copy,
 {
    type Args = T0::Args;
    type Out = (T0, T1);
    type Reader = PairReader<T0::Reader, T1::Reader>;

    open spec fn spec_reader() -> PairReader<T0::Reader, T1::Reader> {
        PairReader { first: T0::spec_reader(), second: T1::spec_reader() }
    }

    fn reader() -> (r: PairReader<T0::Reader, T1::Reader>) {
        PairReader { first: T0::reader(), second: T1::reader() }
    }
}

impl<T, const N: usize> BinReader for [T; N] where T: BinReader<Out = T>, T::Args: Copy {
    type Args = T::Args;
    type Out = [T; N];
    type Reader = RepeatArray<T::Reader, N>;

    open spec fn spec_reader() -> RepeatArray<T::Reader, N> {
        RepeatArray { f: T::spec_reader() }
    }

    fn reader() -> (r: RepeatArray<T::Reader, N>) {
        T::reader().repeat_array::<N>()
    }
}

/// Arguments of a vector reader: how many values to read, and the
/// arguments of each.
#[derive(Copy, Debug)]
pub struct VecArgs<InnerArgs> {
    pub len: usize,
    pub inner_args: InnerArgs,
}

impl<InnerArgs: Copy> Clone for VecArgs<InnerArgs> {
    fn clone(&self) -> (r: Self)
        ensures
            r == *self,
    {
        *self
    }
}

/// Reads as many values as its arguments say, into a vector.
pub struct VecReader<R> {
    pub inner: R,
}

impl<R, Args, Out> BinReadCollect<VecArgs<Args>, Vec<Out>> for VecReader<R> where
    R: BinReadCollect<Args, Out>,
    Args: Copy,
 {
    open spec fn collect_wf(&self) -> bool {
        self.inner.collect_wf()
    }

    /// `args.len` values are read one after another, each with `args.inner_args`.
    open spec fn collects(
        &self,
        data: Seq<u8>,
        pos: u64,
        endian: Endian,
        args: VecArgs<Args>,
        outcome: Result<(Vec<Out>, u64), BinError>,
    ) -> bool {
        let all = same_args(args.inner_args, args.len as nat);
        match outcome {
            Ok((vs, end)) => sequence_collects(self.inner, data, pos, endian, all, Ok((vs@, end))),
            Err(e) => sequence_collects(self.inner, data, pos, endian, all, Err(e)),
        }
    }

    fn collect_non_backtracking(
        &self,
        reader: &mut Cursor,
        endian: Endian,
        args: VecArgs<Args>,
        token: BinReadCollectToken,
    ) -> (r: BinResult<Vec<Out>>) {
        read_repeated(&self.inner, args.len, reader, endian, args.inner_args)
    }
}

impl<T> BinReader for Vec<T> where T: BinReader<Out = T>, T::Args: Copy {
    type Args = VecArgs<T::Args>;
    type Out = Vec<T>;
    type Reader = VecReader<T::Reader>;

    open spec fn spec_reader() -> VecReader<T::Reader> {
        VecReader { inner: T::spec_reader() }
    }

    fn reader() -> (r: VecReader<T::Reader>) {
        VecReader { inner: T::reader() }
    }
}

} // verus!
