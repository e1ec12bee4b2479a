//! Writers of the built-in types.

use core::marker::PhantomData;
use std::rc::Rc;
use std::sync::Arc;

use vstd::prelude::*;

use crate::bytes::{encode_uint, uint_bytes};
use crate::cursor::{splice_bytes, Cursor};
use crate::endian::Endian;
use crate::error::{invalid_at, BinError, BinErrorKind, BinResult};
use crate::number::BinNumber;
use crate::write::{write_outcome, BinWrite, BinWriteExt, BinWriteToken, BinWriter};

verus! {

/// What writing the number `value` at `pos` of `data` gives.
pub open spec fn number_write_outcome<T: BinNumber>(data: Seq<u8>, pos: u64, endian: Endian, value: T) -> Result<
    (Seq<u8>, u64),
    (BinError, Seq<u8>),
> {
    let w = T::spec_width();
    if pos + w <= usize::MAX {
        Ok((splice_bytes(data, pos as int, uint_bytes(T::spec_to_raw(value), w, endian)), (pos + w) as u64))
    } else {
        Err((invalid_at(pos), data))
    }
}

/// Writes a fixed-width integer in the requested byte order.
pub struct NumberWriter<'a, T> {
    pub value: &'a T,
}

impl<'a, T: BinNumber> BinWrite<(), T> for NumberWriter<'a, T> {
    open spec fn write_wf(&self) -> bool {
        true
    }

    open spec fn spec_inner(&self) -> T {
        *self.value
    }

    open spec fn writes(
        &self,
        data: Seq<u8>,
        pos: u64,
        endian: Endian,
        args: (),
        outcome: Result<(Seq<u8>, u64), (BinError, Seq<u8>)>,
    ) -> bool {
        outcome == number_write_outcome(data, pos, endian, *self.value)
    }

    fn write_non_backtracking(
        &self,
        writer: &mut Cursor,
        endian: Endian,
        args: (),
        token: BinWriteToken,
    ) -> (r: BinResult<()>) {
        let pos: u64 = writer.position();
        let w: usize = T::width();
        let raw: u128 = self.value.to_raw();
        let bytes = encode_uint(raw, w, endian);
        match writer.write_all(bytes.as_slice()) {
            Ok(()) => Ok(()),
            Err(k) => Err(BinError::new(Some(pos), BinErrorKind::Io(k))),
        }
    }

    fn inner(&self) -> (v: &T) {
        self.value
    }
}

impl<'a> BinWriter<'a> for u8 {
    type Args = ();
    type In = u8;
    type Writer = NumberWriter<'a, u8>;

    open spec fn spec_writer_mapped(this: &'a u8) -> NumberWriter<'a, u8> {
        NumberWriter { value: this }
    }

    fn writer_mapped(this: &'a u8) -> (w: NumberWriter<'a, u8>) {
        NumberWriter { value: this }
    }
}

impl<'a> BinWriter<'a> for u16 {
    type Args = ();
    type In = u16;
    type Writer = NumberWriter<'a, u16>;

    open spec fn spec_writer_mapped(this: &'a u16) -> NumberWriter<'a, u16> {
        NumberWriter { value: this }
    }

    fn writer_mapped(this: &'a u16) -> (w: NumberWriter<'a, u16>) {
        NumberWriter { value: this }
    }
}

impl<'a> BinWriter<'a> for u32 {
    type Args = ();
    type In = u32;
    type Writer = NumberWriter<'a, u32>;

    open spec fn spec_writer_mapped(this: &'a u32) -> NumberWriter<'a, u32> {
        NumberWriter { value: this }
    }

    fn writer_mapped(this: &'a u32) -> (w: NumberWriter<'a, u32>) {
        NumberWriter { value: this }
    }
}

impl<'a> BinWriter<'a> for u64 {
    type Args = ();
    type In = u64;
    type Writer = NumberWriter<'a, u64>;

    open spec fn spec_writer_mapped(this: &'a u64) -> NumberWriter<'a, u64> {
        NumberWriter { value: this }
    }

    fn writer_mapped(this: &'a u64) -> (w: NumberWriter<'a, u64>) {
        NumberWriter { value: this }
    }
}

impl<'a> BinWriter<'a> for u128 {
    type Args = ();
    type In = u128;
    type Writer = NumberWriter<'a, u128>;

    open spec fn spec_writer_mapped(this: &'a u128) -> NumberWriter<'a, u128> {
        NumberWriter { value: this }
    }

    fn writer_mapped(this: &'a u128) -> (w: NumberWriter<'a, u128>) {
        NumberWriter { value: this }
    }
}

impl<'a> BinWriter<'a> for i8 {
    type Args = ();
    type In = i8;
    type Writer = NumberWriter<'a, i8>;

    open spec fn spec_writer_mapped(this: &'a i8) -> NumberWriter<'a, i8> {
        NumberWriter { value: this }
    }

    fn writer_mapped(this: &'a i8) -> (w: NumberWriter<'a, i8>) {
        NumberWriter { value: this }
    }
}

impl<'a> BinWriter<'a> for i16 {
    type Args = ();
    type In = i16;
    type Writer = NumberWriter<'a, i16>;

    open spec fn spec_writer_mapped(this: &'a i16) -> NumberWriter<'a, i16> {
        NumberWriter { value: this }
    }

    fn writer_mapped(this: &'a i16) -> (w: NumberWriter<'a, i16>) {
        NumberWriter { value: this }
    }
}

impl<'a> BinWriter<'a> for i32 {
    type Args = ();
    type In = i32;
    type Writer = NumberWriter<'a, i32>;

    open spec fn spec_writer_mapped(this: &'a i32) -> NumberWriter<'a, i32> {
        NumberWriter { value: this }
    }

    fn writer_mapped(this: &'a i32) -> (w: NumberWriter<'a, i32>) {
        NumberWriter { value: this }
    }
}

impl<'a> BinWriter<'a> for i64 {
    type Args = ();
    type In = i64;
    type Writer = NumberWriter<'a, i64>;

    open spec fn spec_writer_mapped(this: &'a i64) -> NumberWriter<'a, i64> {
        NumberWriter { value: this }
    }

    fn writer_mapped(this: &'a i64) -> (w: NumberWriter<'a, i64>) {
        NumberWriter { value: this }
    }
}

impl<'a> BinWriter<'a> for i128 {
    type Args = ();
    type In = i128;
    type Writer = NumberWriter<'a, i128>;

    open spec fn spec_writer_mapped(this: &'a i128) -> NumberWriter<'a, i128> {
        NumberWriter { value: this }
    }

    fn writer_mapped(this: &'a i128) -> (w: NumberWriter<'a, i128>) {
        NumberWriter { value: this }
    }
}

/// Writes nothing.
pub struct UnitWriter;

impl BinWrite<(), ()> for UnitWriter {
    open spec fn write_wf(&self) -> bool {
        true
    }

    open spec fn spec_inner(&self) -> () {
        ()
    }

    open spec fn writes(
        &self,
        data: Seq<u8>,
        pos: u64,
        endian: Endian,
        args: (),
        outcome: Result<(Seq<u8>, u64), (BinError, Seq<u8>)>,
    ) -> bool {
        outcome == Ok::<(Seq<u8>, u64), (BinError, Seq<u8>)>((data, pos))
    }

    fn write_non_backtracking(
        &self,
        writer: &mut Cursor,
        endian: Endian,
        args: (),
        token: BinWriteToken,
    ) -> (r: BinResult<()>) {
        Ok(())
    }

    fn inner(&self) -> (v: &()) {
        &()
    }
}

impl<'a> BinWriter<'a> for () {
    type Args = ();
    type In = ();
    type Writer = UnitWriter;

    open spec fn spec_writer_mapped(this: &'a ()) -> UnitWriter {
        UnitWriter
    }

    fn writer_mapped(this: &'a ()) -> (w: UnitWriter) {
        UnitWriter
    }
}

/// Whether the `i`-th write, of `writers[i]`, may start on `datas[i]` at
/// `positions[i]` and leave `datas[i + 1]` at `positions[i + 1]`, for every
/// `i`: a run of successful writes one after another.
pub open spec fn write_trace_ok<W: BinWrite<Args, In>, Args, In>(
    writers: Seq<W>,
    endian: Endian,
    args: Args,
    datas: Seq<Seq<u8>>,
    positions: Seq<u64>,
) -> bool {
    &&& datas.len() == writers.len() + 1
    &&& positions.len() == writers.len() + 1
    &&& forall|i: int|
        #![trigger writers[i]]
        0 <= i < writers.len() ==> writers[i].writes(
            datas[i],
            positions[i],
            endian,
            args,
            Ok((datas[i + 1], positions[i + 1])),
        )
}

/// Whether writing with `writers` one after another from `pos` of `data`,
/// each with `args`, may give `outcome`: the bytes and the position after the
/// last write, or the error of the first write that fails with the bytes as
/// it left them.
pub open spec fn sequence_writes<W: BinWrite<Args, In>, Args, In>(
    writers: Seq<W>,
    data: Seq<u8>,
    pos: u64,
    endian: Endian,
    args: Args,
    outcome: Result<(Seq<u8>, u64), (BinError, Seq<u8>)>,
) -> bool {
    match outcome {
        Ok((d, end)) => exists|datas: Seq<Seq<u8>>, ps: Seq<u64>|
            #[trigger] write_trace_ok(writers, endian, args, datas, ps) && datas[0] == data && ps[0]
                == pos && datas.last() == d && ps.last() == end,
        Err((e, d)) => exists|k: int, datas: Seq<Seq<u8>>, ps: Seq<u64>|
            0 <= k < writers.len() && #[trigger] write_trace_ok(writers.take(k), endian, args, datas, ps)
                && datas[0] == data && ps[0] == pos && writers[k].writes(
                datas.last(),
                ps.last(),
                endian,
                args,
                Err((e, d)),
            ),
    }
}

/// The writers of the items of `items`, in order.
pub open spec fn item_writers<'a, T: BinWriter<'a, In = T>>(items: Seq<T>) -> Seq<T::Writer> {
    Seq::new(items.len(), |i: int| T::spec_writer_mapped(&items[i]))
}

/// Writes the items of `items` one after another, each with `args`.
pub fn write_items<'a, T>(items: &'a [T], writer: &mut Cursor, endian: Endian, args: T::Args) -> (r:
    BinResult<()>) where T: BinWriter<'a, In = T>, T::Args: Copy
    ensures
        sequence_writes(
            item_writers::<'a, T>(items@),
            old(writer)@.data,
            old(writer)@.pos,
            endian,
            args,
            write_outcome(r, final(writer)@.data, final(writer)@.pos),
        ),
{
    let ghost all = item_writers::<'a, T>(items@);
    let ghost data = writer@.data;
    let ghost pos = writer@.pos;
    let ghost mut datas: Seq<Seq<u8>> = seq![data];
    let ghost mut ps: Seq<u64> = seq![pos];
    let n: usize = items.len();
    let mut i: usize = 0;
    assert(all.take(0) =~= Seq::<T::Writer>::empty());
    while i < n
        invariant
            n == items@.len(),
            i <= n,
            all == item_writers::<'a, T>(items@),
            data == old(writer)@.data,
            pos == old(writer)@.pos,
            write_trace_ok(all.take(i as int), endian, args, datas, ps),
            datas[0] == data,
            ps[0] == pos,
            datas.last() == writer@.data,
            ps.last() == writer@.pos,
        decreases n - i,
    {
        let w = T::writer_mapped(&items[i]);
        assert(w == all[i as int]);
        match w.write(writer, endian, args) {
            Ok(()) => {
                proof {
                    assert(all.take(i + 1) =~= all.take(i as int).push(w));
                    datas = datas.push(writer@.data);
                    ps = ps.push(writer@.pos);
                }
                i = i + 1;
                assert(write_trace_ok(all.take(i as int), endian, args, datas, ps));
            },
            Err(e) => {
                assert(write_trace_ok(all.take(i as int), endian, args, datas, ps));
                let ghost o: Result<(Seq<u8>, u64), (BinError, Seq<u8>)> = Err((e, writer@.data));
                assert(o matches Err((x, y)) && x == e && y == writer@.data);
                return Err(e);
            },
        }
    }
    assert(all.take(n as int) =~= all);
    let ghost o: Result<(Seq<u8>, u64), (BinError, Seq<u8>)> = Ok((writer@.data, writer@.pos));
    assert(o matches Ok((x, y)) && x == writer@.data && y == writer@.pos);
    Ok(())
}

/// Writes the items of a vector one after another.
pub struct VecWriter<'a, T> {
    pub items: &'a Vec<T>,
}

impl<'a, T> BinWrite<T::Args, Vec<T>> for VecWriter<'a, T> where T: BinWriter<'a, In = T>, T::Args: Copy {
    open spec fn write_wf(&self) -> bool {
        true
    }

    open spec fn spec_inner(&self) -> Vec<T> {
        *self.items
    }

    /// The items are written one after another, each with `args`.
    open spec fn writes(
        &self,
        data: Seq<u8>,
        pos: u64,
        endian: Endian,
        args: T::Args,
        outcome: Result<(Seq<u8>, u64), (BinError, Seq<u8>)>,
    ) -> bool {
        sequence_writes(item_writers::<'a, T>(self.items@), data, pos, endian, args, outcome)
    }

    fn write_non_backtracking(
        &self,
        writer: &mut Cursor,
        endian: Endian,
        args: T::Args,
        token: BinWriteToken,
    ) -> (r: BinResult<()>) {
        write_items(self.items.as_slice(), writer, endian, args)
    }

    fn inner(&self) -> (v: &Vec<T>) {
        self.items
    }
}

impl<'a, T> BinWriter<'a> for Vec<T> where T: BinWriter<'a, In = T> + 'a, T::Args: Copy {
    type Args = T::Args;
    type In = Vec<T>;
    type Writer = VecWriter<'a, T>;

    open spec fn spec_writer_mapped(this: &'a Vec<T>) -> VecWriter<'a, T> {
        VecWriter { items: this }
    }

    fn writer_mapped(this: &'a Vec<T>) -> (w: VecWriter<'a, T>) {
        VecWriter { items: this }
    }
}

/// Writes nothing for a `PhantomData`.
pub struct PhantomWriter<'a, T> {
    pub value: &'a PhantomData<T>,
}

impl<'a, T> BinWrite<(), PhantomData<T>> for PhantomWriter<'a, T> {
    open spec fn write_wf(&self) -> bool {
        true
    }

    open spec fn spec_inner(&self) -> PhantomData<T> {
        *self.value
    }

    open spec fn writes(
        &self,
        data: Seq<u8>,
        pos: u64,
        endian: Endian,
        args: (),
        outcome: Result<(Seq<u8>, u64), (BinError, Seq<u8>)>,
    ) -> bool {
        outcome == Ok::<(Seq<u8>, u64), (BinError, Seq<u8>)>((data, pos))
    }

    fn write_non_backtracking(
        &self,
        writer: &mut Cursor,
        endian: Endian,
        args: (),
        token: BinWriteToken,
    ) -> (r: BinResult<()>) {
        Ok(())
    }

    fn inner(&self) -> (v: &PhantomData<T>) {
        self.value
    }
}

impl<'a, T: 'a> BinWriter<'a> for PhantomData<T> {
    type Args = ();
    type In = PhantomData<T>;
    type Writer = PhantomWriter<'a, T>;

    open spec fn spec_writer_mapped(this: &'a PhantomData<T>) -> PhantomWriter<'a, T> {
        PhantomWriter { value: this }
    }

    fn writer_mapped(this: &'a PhantomData<T>) -> (w: PhantomWriter<'a, T>) {
        PhantomWriter { value: this }
    }
}

/// Writes the items of an array one after another.
pub struct ArrayWriter<'a, T, const N: usize> {
    pub items: &'a [T; N],
}

impl<'a, T, const N: usize> BinWrite<T::Args, [T; N]> for ArrayWriter<'a, T, N> where
    T: BinWriter<'a, In = T>,
    T::Args: Copy,
 {
    open spec fn write_wf(&self) -> bool {
        true
    }

    open spec fn spec_inner(&self) -> [T; N] {
        *self.items
    }

    /// The items are written one after another, each with `args`.
    open spec fn writes(
        &self,
        data: Seq<u8>,
        pos: u64,
        endian: Endian,
        args: T::Args,
        outcome: Result<(Seq<u8>, u64), (BinError, Seq<u8>)>,
    ) -> bool {
        sequence_writes(item_writers::<'a, T>(self.items@), data, pos, endian, args, outcome)
    }

    fn write_non_backtracking(
        &self,
        writer: &mut Cursor,
        endian: Endian,
        args: T::Args,
        token: BinWriteToken,
    ) -> (r: BinResult<()>) {
        write_items(self.items.as_slice(), writer, endian, args)
    }

    fn inner(&self) -> (v: &[T; N]) {
        self.items
    }
}

impl<'a, T, const N: usize> BinWriter<'a> for [T; N] where
    T: BinWriter<'a, In = T> + 'a,
    T::Args: Copy,
 {
    type Args = T::Args;
    type In = [T; N];
    type Writer = ArrayWriter<'a, T, N>;

    open spec fn spec_writer_mapped(this: &'a [T; N]) -> ArrayWriter<'a, T, N> {
        ArrayWriter { items: this }
    }

    fn writer_mapped(this: &'a [T; N]) -> (w: ArrayWriter<'a, T, N>) {
        ArrayWriter { items: this }
    }
}

/// Writes the two values of a pair one after the other, with the same arguments.
pub struct PairWriter<'a, T0, T1> {
    pub value: &'a (T0, T1),
}

impl<'a, T0, T1> BinWrite<T0::Args, (T0, T1)> for PairWriter<'a, T0, T1> where
    T0: BinWriter<'a, In = T0>,
    T1: BinWriter<'a, Args = T0::Args, In = T1>,
    T0::Args: Copy,
 {
    open spec fn write_wf(&self) -> bool {
        true
    }

    open spec fn spec_inner(&self) -> (T0, T1) {
        *self.value
    }

    /// The first value is written, then the second right after it.
    open spec fn writes(
        &self,
        data: Seq<u8>,
        pos: u64,
        endian: Endian,
        args: T0::Args,
        outcome: Result<(Seq<u8>, u64), (BinError, Seq<u8>)>,
    ) -> bool {
        let first = T0::spec_writer_mapped(&self.value.0);
        let second = T1::spec_writer_mapped(&self.value.1);
        match outcome {
            Ok((d, end)) => exists|mid_data: Seq<u8>, mid: u64|
                #[trigger] first.writes(data, pos, endian, args, Ok((mid_data, mid))) && second.writes(
                    mid_data,
                    mid,
                    endian,
                    args,
                    Ok((d, end)),
                ),
            Err((e, d)) => {
                ||| first.writes(data, pos, endian, args, Err((e, d)))
                ||| exists|mid_data: Seq<u8>, mid: u64|
                    #[trigger] first.writes(data, pos, endian, args, Ok((mid_data, mid)))
                        && second.writes(mid_data, mid, endian, args, Err((e, d)))
            },
        }
    }

    fn write_non_backtracking(
        &self,
        writer: &mut Cursor,
        endian: Endian,
        args: T0::Args,
        token: BinWriteToken,
    ) -> (r: BinResult<()>) {
        let ghost data = writer@.data;
        let ghost pos = writer@.pos;
        let first = T0::writer_mapped(&self.value.0);
        match first.write(writer, endian, args) {
            Ok(()) => {},
            Err(e) => return Err(e),
        }
        let ghost mid_data = writer@.data;
        let ghost mid = writer@.pos;
        assert(first.writes(data, pos, endian, args, Ok((mid_data, mid))));
        let second = T1::writer_mapped(&self.value.1);
        match second.write(writer, endian, args) {
            Ok(()) => {
                let ghost o: Result<(Seq<u8>, u64), (BinError, Seq<u8>)> = Ok((writer@.data, writer@.pos));
                assert(o matches Ok((x, y)) && x == writer@.data && y == writer@.pos);
                Ok(())
            },
            Err(e) => {
                let ghost o: Result<(Seq<u8>, u64), (BinError, Seq<u8>)> = Err((e, writer@.data));
                assert(o matches Err((x, y)) && x == e && y == writer@.data);
                Err(e)
            },
        }
    }

    fn inner(&self) -> (v: &(T0, T1)) {
        self.value
    }
}

impl<'a, T0, T1> BinWriter<'a> for (T0, T1) where
    T0: BinWriter<'a, In = T0> + 'a,
    T1: BinWriter<'a, Args = T0::Args, In = T1> + 'a,
    T0::Args: Copy,
 {
    type Args = T0::Args;
    type In = (T0, T1);
    type Writer = PairWriter<'a, T0, T1>;

    open spec fn spec_writer_mapped(this: &'a (T0, T1)) -> PairWriter<'a, T0, T1> {
        PairWriter { value: this }
    }

    fn writer_mapped(this: &'a (T0, T1)) -> (w: PairWriter<'a, T0, T1>) {
        PairWriter { value: this }
    }
}

/// Writes the value inside a `Box` as the value's own writer does.
pub struct BoxWriter<'a, T> {
    pub value: &'a Box<T>,
}

impl<'a, T> BinWrite<T::Args, Box<T>> for BoxWriter<'a, T> where T: BinWriter<'a, In = T> {
    open spec fn write_wf(&self) -> bool {
        true
    }

    open spec fn spec_inner(&self) -> Box<T> {
        *self.value
    }

    /// The boxed value is written by its own writer.
    open spec fn writes(
        &self,
        data: Seq<u8>,
        pos: u64,
        endian: Endian,
        args: T::Args,
        outcome: Result<(Seq<u8>, u64), (BinError, Seq<u8>)>,
    ) -> bool {
        T::spec_writer_mapped(&**self.value).writes(data, pos, endian, args, outcome)
    }

    fn write_non_backtracking(
        &self,
        writer: &mut Cursor,
        endian: Endian,
        args: T::Args,
        token: BinWriteToken,
    ) -> (r: BinResult<()>) {
        let inner: &'a T = &**self.value;
        T::writer_mapped(inner).write(writer, endian, args)
    }

    fn inner(&self) -> (v: &Box<T>) {
        self.value
    }
}

impl<'a, T> BinWriter<'a> for Box<T> where T: BinWriter<'a, In = T> + 'a {
    type Args = T::Args;
    type In = Box<T>;
    type Writer = BoxWriter<'a, T>;

    open spec fn spec_writer_mapped(this: &'a Box<T>) -> BoxWriter<'a, T> {
        BoxWriter { value: this }
    }

    fn writer_mapped(this: &'a Box<T>) -> (w: BoxWriter<'a, T>) {
        BoxWriter { value: this }
    }
}

/// Writes the value inside an `Rc` as the value's own writer does.
pub struct RcWriter<'a, T> {
    pub value: &'a Rc<T>,
}

impl<'a, T> BinWrite<T::Args, Rc<T>> for RcWriter<'a, T> where T: BinWriter<'a, In = T> {
    open spec fn write_wf(&self) -> bool {
        true
    }

    open spec fn spec_inner(&self) -> Rc<T> {
        *self.value
    }

    /// The boxed value is written by its own writer.
    open spec fn writes(
        &self,
        data: Seq<u8>,
        pos: u64,
        endian: Endian,
        args: T::Args,
        outcome: Result<(Seq<u8>, u64), (BinError, Seq<u8>)>,
    ) -> bool {
        T::spec_writer_mapped(&**self.value).writes(data, pos, endian, args, outcome)
    }

    fn write_non_backtracking(
        &self,
        writer: &mut Cursor,
        endian: Endian,
        args: T::Args,
        token: BinWriteToken,
    ) -> (r: BinResult<()>) {
        let inner: &'a T = &**self.value;
        T::writer_mapped(inner).write(writer, endian, args)
    }

    fn inner(&self) -> (v: &Rc<T>) {
        self.value
    }
}

impl<'a, T> BinWriter<'a> for Rc<T> where T: BinWriter<'a, In = T> + 'a {
    type Args = T::Args;
    type In = Rc<T>;
    type Writer = RcWriter<'a, T>;

    open spec fn spec_writer_mapped(this: &'a Rc<T>) -> RcWriter<'a, T> {
        RcWriter { value: this }
    }

    fn writer_mapped(this: &'a Rc<T>) -> (w: RcWriter<'a, T>) {
        RcWriter { value: this }
    }
}

/// Writes the value inside an `Arc` as the value's own writer does.
pub struct ArcWriter<'a, T> {
    pub value: &'a Arc<T>,
}

impl<'a, T> BinWrite<T::Args, Arc<T>> for ArcWriter<'a, T> where T: BinWriter<'a, In = T> {
    open spec fn write_wf(&self) -> bool {
        true
    }

    open spec fn spec_inner(&self) -> Arc<T> {
        *self.value
    }

    /// The boxed value is written by its own writer.
    open spec fn writes(
        &self,
        data: Seq<u8>,
        pos: u64,
        endian: Endian,
        args: T::Args,
        outcome: Result<(Seq<u8>, u64), (BinError, Seq<u8>)>,
    ) -> bool {
        T::spec_writer_mapped(&**self.value).writes(data, pos, endian, args, outcome)
    }

    fn write_non_backtracking(
        &self,
        writer: &mut Cursor,
        endian: Endian,
        args: T::Args,
        token: BinWriteToken,
    ) -> (r: BinResult<()>) {
        let inner: &'a T = &**self.value;
        T::writer_mapped(inner).write(writer, endian, args)
    }

    fn inner(&self) -> (v: &Arc<T>) {
        self.value
    }
}

impl<'a, T> BinWriter<'a> for Arc<T> where T: BinWriter<'a, In = T> + 'a {
    type Args = T::Args;
    type In = Arc<T>;
    type Writer = ArcWriter<'a, T>;

    open spec fn spec_writer_mapped(this: &'a Arc<T>) -> ArcWriter<'a, T> {
        ArcWriter { value: this }
    }

    fn writer_mapped(this: &'a Arc<T>) -> (w: ArcWriter<'a, T>) {
        ArcWriter { value: this }
    }
}

/// Writes the value of a 1-tuple as the value's own writer does.
pub struct SingleWriter<'a, T> {
    pub value: &'a (T,),
}

impl<'a, T> BinWrite<T::Args, (T,)> for SingleWriter<'a, T> where T: BinWriter<'a, In = T> {
    open spec fn write_wf(&self) -> bool {
        true
    }

    open spec fn spec_inner(&self) -> (T,) {
        *self.value
    }

    /// The value is written by its own writer.
    open spec fn writes(
        &self,
        data: Seq<u8>,
        pos: u64,
        endian: Endian,
        args: T::Args,
        outcome: Result<(Seq<u8>, u64), (BinError, Seq<u8>)>,
    ) -> bool {
        T::spec_writer_mapped(&self.value.0).writes(data, pos, endian, args, outcome)
    }

    fn write_non_backtracking(
        &self,
        writer: &mut Cursor,
        endian: Endian,
        args: T::Args,
        token: BinWriteToken,
    ) -> (r: BinResult<()>) {
        T::writer_mapped(&self.value.0).write(writer, endian, args)
    }

    fn inner(&self) -> (v: &(T,)) {
        self.value
    }
}

impl<'a, T> BinWriter<'a> for (T,) where T: BinWriter<'a, In = T> + 'a {
    type Args = T::Args;
    type In = (T,);
    type Writer = SingleWriter<'a, T>;

    open spec fn spec_writer_mapped(this: &'a (T,)) -> SingleWriter<'a, T> {
        SingleWriter { value: this }
    }

    fn writer_mapped(this: &'a (T,)) -> (w: SingleWriter<'a, T>) {
        SingleWriter { value: this }
    }
}

} // verus!
