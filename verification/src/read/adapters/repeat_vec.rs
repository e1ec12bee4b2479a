use vstd::prelude::*;

use crate::cursor::Cursor;
use crate::endian::Endian;
use crate::error::{BinError, BinResult};
use crate::read::adapters::repeat::{same_args, sequence_collects, trace_ok};
use crate::read::{BinReadCollect, BinReadCollectToken, BinReadExt};

verus! {

/// Reads `len` values one after another with the same arguments, collecting
/// them in order; the stream is advanced by each read.
pub fn read_repeated<F, Args, Out>(
    f: &F,
    len: usize,
    reader: &mut Cursor,
    endian: Endian,
    args: Args,
) -> (r: BinResult<Vec<Out>>) where F: BinReadCollect<Args, Out>, Args: Copy
    requires
        f.collect_wf(),
    ensures
        final(reader)@.data == old(reader)@.data,
        match r {
            Ok(vs) => sequence_collects(
                *f,
                old(reader)@.data,
                old(reader)@.pos,
                endian,
                same_args(args, len as nat),
                Ok((vs@, final(reader)@.pos)),
            ),
            Err(e) => sequence_collects(
                *f,
                old(reader)@.data,
                old(reader)@.pos,
                endian,
                same_args(args, len as nat),
                Err(e),
            ),
        },
{
    let ghost data = reader@.data;
    let ghost pos = reader@.pos;
    let ghost all = same_args(args, len as nat);
    let ghost mut ps: Seq<u64> = seq![pos];
    let mut vs: Vec<Out> = Vec::new();
    let mut i: usize = 0;
    assert(all.take(0) =~= Seq::<Args>::empty());
    while i < len
        invariant
            f.collect_wf(),
            i <= len,
            all == same_args(args, len as nat),
            reader@.data == data,
            data == old(reader)@.data,
            pos == old(reader)@.pos,
            trace_ok(*f, data, endian, all.take(i as int), vs@, ps),
            ps[0] == pos,
            ps.last() == reader@.pos,
        decreases len - i,
    {
        let ghost before = reader@.pos;
        match f.read(reader, endian, args) {
            Ok(v) => {
                proof {
                    assert(all.take(i + 1) =~= all.take(i as int).push(args));
                    ps = ps.push(reader@.pos);
                }
                vs.push(v);
                i = i + 1;
                assert(trace_ok(*f, data, endian, all.take(i as int), vs@, ps));
            },
            Err(e) => {
                assert(trace_ok(*f, data, endian, all.take(i as int), vs@, ps));
                assert(all[i as int] == args);
                return Err(e);
            },
        }
    }
    assert(all.take(len as int) =~= all);
    assert(trace_ok(*f, data, endian, all, vs@, ps));
    let ghost o: Result<(Seq<Out>, u64), BinError> = Ok((vs@, reader@.pos));
    assert(o matches Ok((x, y)) && x == vs@ && y == reader@.pos);
    Ok(vs)
}

/// Repeats the parser an amount of times, collecting the results into a vector.
pub struct ReadRepeatVec<F> {
    pub f: F,
    pub len: usize,
}

impl<F> ReadRepeatVec<F> {
    pub fn new(f: F, len: usize) -> (r: Self)
        ensures
            r.f == f,
            r.len == len,
    {
        ReadRepeatVec { f, len }
    }
}

impl<F, Args, Out> BinReadCollect<Args, Vec<Out>> for ReadRepeatVec<F> where
    F: BinReadCollect<Args, Out>,
    Args: Copy,
 {
    open spec fn collect_wf(&self) -> bool {
        self.f.collect_wf()
    }

    /// `len` values are read one after another, each with `args`.
    open spec fn collects(
        &self,
        data: Seq<u8>,
        pos: u64,
        endian: Endian,
        args: Args,
        outcome: Result<(Vec<Out>, u64), BinError>,
    ) -> bool {
        match outcome {
            Ok((vs, end)) => sequence_collects(
                self.f,
                data,
                pos,
                endian,
                same_args(args, self.len as nat),
                Ok((vs@, end)),
            ),
            Err(e) => sequence_collects(self.f, data, pos, endian, same_args(args, self.len as nat), Err(e)),
        }
    }

    fn collect_non_backtracking(
        &self,
        reader: &mut Cursor,
        endian: Endian,
        args: Args,
        token: BinReadCollectToken,
    ) -> (r: BinResult<Vec<Out>>) {
        read_repeated(&self.f, self.len, reader, endian, args)
    }
}

} // verus!
