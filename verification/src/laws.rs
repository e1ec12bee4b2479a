//! Properties of the readers and writers that hold across calls.

use core::marker::PhantomData;

use vstd::prelude::*;

use crate::bytes::{lemma_uint_roundtrip, ordered, uint_bytes, uint_value};
use crate::cursor::splice_bytes;
use crate::endian::Endian;
use crate::error::BinError;
use crate::helpers::marker::{Marker, MarkerReader};
use crate::number::BinNumber;
use crate::read::adapters::map::ReadMap;
use crate::read::adapters::pad_after::ReadPadAfter;
use crate::read::adapters::pad_after_to::{advance, ReadPadAfterTo};
use crate::read::adapters::pad_before::PadBefore;
use crate::read::adapters::repeat::{lemma_sequence_ok_len, same_args, sequence_collects, trace_ok};
use crate::read::adapters::repeat_vec::ReadRepeatVec;
use crate::read::adapters::repeat_vec_args_iter::RepeatVecArgsIter;
use crate::read::adapters::restore_position::ReadRestorePosition;
use crate::read::adapters::seek_before::ReadSeekBefore;
use crate::read::impls::{number_outcome, NumberReader};
use crate::read::BinReadCollect;
use crate::write::impls::{number_write_outcome, sequence_writes, write_trace_ok, NumberWriter};
use crate::write::BinWrite;

verus! {

/// Bytes written at a position are the bytes found there afterwards.
pub proof fn law_written_bytes_read_back(data: Seq<u8>, pos: nat, bytes: Seq<u8>)
    ensures
        splice_bytes(data, pos as int, bytes).subrange(pos as int, (pos + bytes.len()) as int) == bytes,
        splice_bytes(data, pos as int, bytes).len() >= pos + bytes.len(),
{
    assert(splice_bytes(data, pos as int, bytes).subrange(pos as int, (pos + bytes.len()) as int) =~= bytes);
}

/// Writing bytes leaves every byte outside the written range as it was, and
/// fills with zeros the bytes between the old end and the written range.
pub proof fn law_write_keeps_other_bytes(data: Seq<u8>, pos: nat, bytes: Seq<u8>, i: int)
    requires
        0 <= i < splice_bytes(data, pos as int, bytes).len(),
        !(pos <= i < pos + bytes.len()),
    ensures
        splice_bytes(data, pos as int, bytes)[i] == if i < data.len() {
            data[i]
        } else {
            0u8
        },
{
}

/// A number that was written reads back as the same number, at the same
/// position and in the same byte order, and the read ends where the write
/// ended.
pub proof fn law_number_roundtrip<T: BinNumber>(data: Seq<u8>, pos: u64, endian: Endian, value: T)
    requires
        pos + T::spec_width() <= usize::MAX,
    ensures
        number_write_outcome(data, pos, endian, value) matches Ok((written, end)) && number_outcome::<
            T,
        >(written, pos, endian) == Ok::<(T, u64), BinError>((value, end)),
{
    T::lemma_raw_roundtrip(value);
    let w = T::spec_width();
    let raw = T::spec_to_raw(value);
    lemma_uint_roundtrip(raw, w, endian);
    let bytes = uint_bytes(raw, w, endian);
    law_written_bytes_read_back(data, pos as nat, bytes);
}

/// The number writer and the number reader of a type undo each other:
/// reading back what a write gave yields the written value.
pub proof fn law_number_writer_reader_roundtrip<T: BinNumber>(
    writer: NumberWriter<'_, T>,
    reader: NumberReader<T>,
    data: Seq<u8>,
    pos: u64,
    endian: Endian,
    written: Seq<u8>,
    end: u64,
)
    requires
        writer.writes(data, pos, endian, (), Ok((written, end))),
    ensures
        reader.collects(written, pos, endian, (), Ok((*writer.value, end))),
{
    T::lemma_raw_roundtrip(*writer.value);
    law_number_roundtrip(data, pos, endian, *writer.value);
}

/// Bytes in little-endian order hold the value that the same bytes reversed
/// hold in big-endian order.
pub proof fn law_little_is_reversed_big(bytes: Seq<u8>)
    ensures
        uint_value(bytes, Endian::Little) == uint_value(
            Seq::new(bytes.len(), |i: int| bytes[bytes.len() - 1 - i]),
            Endian::Big,
        ),
{
    assert(ordered(bytes, Endian::Little) =~= Seq::new(bytes.len(), |i: int| bytes[bytes.len() - 1 - i]));
}

/// Reading with `restore_position` leaves the stream where it was.
pub proof fn law_restore_position_keeps_position<F: BinReadCollect<Args, Out>, Args, Out>(
    r: ReadRestorePosition<F>,
    data: Seq<u8>,
    pos: u64,
    endian: Endian,
    args: Args,
    value: Out,
    end: u64,
)
    requires
        r.collects(data, pos, endian, args, Ok((value, end))),
    ensures
        end == pos,
        exists|mid: u64| r.f.collects(data, pos, endian, args, Ok((value, mid))),
{
}

/// Reading with `seek_before` does not depend on where the stream stood.
pub proof fn law_seek_before_ignores_position<F: BinReadCollect<Args, Out>, Args, Out>(
    r: ReadSeekBefore<F>,
    data: Seq<u8>,
    pos1: u64,
    pos2: u64,
    endian: Endian,
    args: Args,
    outcome: Result<(Out, u64), BinError>,
)
    ensures
        r.collects(data, pos1, endian, args, outcome) == r.collects(data, pos2, endian, args, outcome),
        r.collects(data, pos1, endian, args, outcome) == r.f.collects(
            data,
            r.position as u64,
            endian,
            args,
            outcome,
        ),
{
}

/// `pad_after` leaves the stream `padding` bytes after the value.
pub proof fn law_pad_after_skips_padding<F: BinReadCollect<Args, Out>, Args, Out>(
    r: ReadPadAfter<F>,
    data: Seq<u8>,
    pos: u64,
    endian: Endian,
    args: Args,
    value: Out,
    end: u64,
)
    requires
        r.collects(data, pos, endian, args, Ok((value, end))),
    ensures
        end >= r.padding,
        r.f.collects(data, pos, endian, args, Ok((value, (end - r.padding) as u64))),
{
}

/// Padding after a value does not fail when the stream ends during the
/// padding: past the end of the data is still a valid place to stop.
pub proof fn law_pad_after_succeeds_past_end<F: BinReadCollect<Args, Out>, Args, Out>(
    r: ReadPadAfter<F>,
    data: Seq<u8>,
    pos: u64,
    endian: Endian,
    args: Args,
    value: Out,
    mid: u64,
)
    requires
        r.f.collects(data, pos, endian, args, Ok((value, mid))),
        r.padding <= i64::MAX,
        mid + r.padding <= u64::MAX,
    ensures
        r.collects(data, pos, endian, args, Ok((value, (mid + r.padding) as u64))),
{
    assert(((mid + r.padding) as u64 - r.padding) as u64 == mid);
}

/// Padding a value to a size does not fail when the stream ends during the
/// padding, as long as the value fits in the size.
pub proof fn law_pad_after_to_succeeds_past_end<F: BinReadCollect<Args, Out>, Args, Out>(
    r: ReadPadAfterTo<F>,
    data: Seq<u8>,
    pos: u64,
    endian: Endian,
    args: Args,
    value: Out,
    mid: u64,
)
    requires
        r.f.collects(data, pos, endian, args, Ok((value, mid))),
        advance(pos, mid) <= r.size,
        pos + r.size <= u64::MAX,
    ensures
        r.collects(data, pos, endian, args, Ok((value, (pos + r.size) as u64))),
{
    let o: Result<(Out, u64), BinError> = Ok((value, (pos + r.size) as u64));
    assert(o matches Ok((x, y)) && x == value && y == pos + r.size);
}

/// `pad_after_to` always advances the stream by exactly `size` bytes, and
/// the value took at most that many.
pub proof fn law_pad_after_to_advances_by_size<F: BinReadCollect<Args, Out>, Args, Out>(
    r: ReadPadAfterTo<F>,
    data: Seq<u8>,
    pos: u64,
    endian: Endian,
    args: Args,
    value: Out,
    end: u64,
)
    requires
        r.collects(data, pos, endian, args, Ok((value, end))),
    ensures
        end == pos + r.size,
{
}

/// `pad_before` reads the value `padding` bytes after the start.
pub proof fn law_pad_before_skips_padding<F: BinReadCollect<Args, Out>, Args, Out>(
    r: PadBefore<F>,
    data: Seq<u8>,
    pos: u64,
    endian: Endian,
    args: Args,
    outcome: Result<(Out, u64), BinError>,
)
    requires
        r.padding <= i64::MAX,
        pos + r.padding <= u64::MAX,
    ensures
        r.collects(data, pos, endian, args, outcome) == r.f.collects(
            data,
            (pos + r.padding) as u64,
            endian,
            args,
            outcome,
        ),
{
}

/// `repeat_vec(len)` gives exactly `len` values.
pub proof fn law_repeat_vec_len<F: BinReadCollect<Args, Out>, Args: Copy, Out>(
    r: ReadRepeatVec<F>,
    data: Seq<u8>,
    pos: u64,
    endian: Endian,
    args: Args,
    values: Vec<Out>,
    end: u64,
)
    requires
        r.collects(data, pos, endian, args, Ok((values, end))),
    ensures
        values@.len() == r.len,
{
    lemma_sequence_ok_len(r.f, data, pos, endian, same_args(args, r.len as nat), values@, end);
}

/// `repeat_vec_args_iter` gives one value per argument.
pub proof fn law_repeat_vec_args_iter_len<F: BinReadCollect<Args, Out>, Args, Out>(
    r: RepeatVecArgsIter<F>,
    data: Seq<u8>,
    pos: u64,
    endian: Endian,
    args: Vec<Args>,
    values: Vec<Out>,
    end: u64,
)
    requires
        r.collects(data, pos, endian, args, Ok((values, end))),
    ensures
        values@.len() == args@.len(),
{
    lemma_sequence_ok_len(r.f, data, pos, endian, args@, values@, end);
}

/// Mapping twice applies the first map, then the second, to the value read.
pub proof fn law_map_then_map<F, MapFn1, MapFn2, Args, Out, Out2, Out3>(
    r: ReadMap<ReadMap<F, MapFn1, Out, Out2>, MapFn2, Out2, Out3>,
    data: Seq<u8>,
    pos: u64,
    endian: Endian,
    args: Args,
    value: Out3,
    end: u64,
) where F: BinReadCollect<Args, Out>, MapFn1: Fn(Out) -> Out2, MapFn2: Fn(Out2) -> Out3
    requires
        r.collects(data, pos, endian, args, Ok((value, end))),
    ensures
        exists|v1: Out, v2: Out2|
            r.f.f.collects(data, pos, endian, args, Ok((v1, end))) && call_ensures(r.f.map, (v1,), v2)
                && call_ensures(r.map, (v2,), value),
{
    let v2 = choose|v2: Out2|
        #[trigger] r.f.collects(data, pos, endian, args, Ok((v2, end))) && call_ensures(r.map, (v2,), value);
    let o: Result<(Out2, u64), BinError> = Ok((v2, end));
    assert(o matches Ok((x, y)) && x == v2 && y == end);
    let v1 = choose|v1: Out|
        #[trigger] r.f.f.collects(data, pos, endian, args, Ok((v1, end))) && call_ensures(r.f.map, (v1,), v2);
    assert(r.f.f.collects(data, pos, endian, args, Ok((v1, end))) && call_ensures(r.f.map, (v1,), v2)
        && call_ensures(r.map, (v2,), value));
}

/// A marker holds the position at which its value started.
pub proof fn law_marker_holds_start<R: BinReadCollect<Args, M>, Args, M>(
    r: MarkerReader<R>,
    data: Seq<u8>,
    pos: u64,
    endian: Endian,
    args: Args,
    marker: Marker<M>,
    end: u64,
)
    requires
        r.collects(data, pos, endian, args, Ok((marker, end))),
    ensures
        marker.spec_pos() == pos,
        r.inner.collects(data, pos, endian, args, Ok((marker.spec_value(), end))),
{
}

/// In a run of number writes, the bytes of the `i`-th number are still in
/// place after the `j`-th write, for every later `j`.
proof fn lemma_number_run_keeps_earlier<'a, T: BinNumber>(
    writers: Seq<NumberWriter<'a, T>>,
    endian: Endian,
    datas: Seq<Seq<u8>>,
    ps: Seq<u64>,
    i: int,
    j: int,
)
    requires
        write_trace_ok(writers, endian, (), datas, ps),
        0 <= i < j <= writers.len(),
    ensures
        ps[j] >= ps[i] + T::spec_width(),
        datas[j].len() >= ps[i] + T::spec_width(),
        datas[j].subrange(ps[i] as int, ps[i] + T::spec_width()) == uint_bytes(
            T::spec_to_raw(*writers[i].value),
            T::spec_width(),
            endian,
        ),
    decreases j - i,
{
    let w = T::spec_width();
    if j == i + 1 {
        assert(writers[i].writes(datas[i], ps[i], endian, (), Ok((datas[i + 1], ps[i + 1]))));
        T::lemma_raw_roundtrip(*writers[i].value);
        lemma_uint_roundtrip(T::spec_to_raw(*writers[i].value), w, endian);
        law_written_bytes_read_back(
            datas[i],
            ps[i] as nat,
            uint_bytes(T::spec_to_raw(*writers[i].value), w, endian),
        );
    } else {
        lemma_number_run_keeps_earlier(writers, endian, datas, ps, i, j - 1);
        let k = j - 1;
        assert(writers[k].writes(datas[k], ps[k], endian, (), Ok((datas[j], ps[j]))));
        T::lemma_raw_roundtrip(*writers[k].value);
        let bytes = uint_bytes(T::spec_to_raw(*writers[k].value), w, endian);
        lemma_uint_roundtrip(T::spec_to_raw(*writers[k].value), w, endian);
        assert(datas[j] == crate::cursor::splice_bytes(datas[k], ps[k] as int, bytes));
        assert(datas[j].subrange(ps[i] as int, ps[i] + w) =~= datas[k].subrange(ps[i] as int, ps[i] + w));
    }
}

/// Numbers written one after another read back, one after another from the
/// same position and in the same byte order, as the same numbers, ending
/// where the writes ended.
pub proof fn law_numbers_write_read_roundtrip<'a, T: BinNumber>(
    writers: Seq<NumberWriter<'a, T>>,
    data: Seq<u8>,
    pos: u64,
    endian: Endian,
    written: Seq<u8>,
    end: u64,
)
    requires
        sequence_writes(writers, data, pos, endian, (), Ok((written, end))),
    ensures
        sequence_collects(
            NumberReader::<T> { number: PhantomData },
            written,
            pos,
            endian,
            same_args((), writers.len()),
            Ok((Seq::new(writers.len(), |i: int| *writers[i].value), end)),
        ),
{
    let n = writers.len() as int;
    let (datas, ps) = choose|datas: Seq<Seq<u8>>, ps: Seq<u64>|
        #[trigger] write_trace_ok(writers, endian, (), datas, ps) && datas[0] == data && ps[0] == pos
            && datas.last() == written && ps.last() == end;
    let values = Seq::new(writers.len(), |i: int| *writers[i].value);
    let reader = NumberReader::<T> { number: PhantomData };
    let all = same_args((), writers.len());
    let w = T::spec_width();
    assert forall|i: int| 0 <= i < n implies reader.collects(
        written,
        ps[i],
        endian,
        all[i],
        Ok((#[trigger] values[i], ps[i + 1])),
    ) by {
        lemma_number_run_keeps_earlier(writers, endian, datas, ps, i, n);
        assert(writers[i].writes(datas[i], ps[i], endian, (), Ok((datas[i + 1], ps[i + 1]))));
        let raw = T::spec_to_raw(values[i]);
        T::lemma_raw_roundtrip(values[i]);
        lemma_uint_roundtrip(raw, w, endian);
    }
    assert(trace_ok(reader, written, endian, all, values, ps));
    let o: Result<(Seq<T>, u64), BinError> = Ok((values, end));
    assert(o matches Ok((x, y)) && x == values && y == end);
}

} // verus!
