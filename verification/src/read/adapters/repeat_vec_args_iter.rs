use vstd::prelude::*;

use crate::cursor::Cursor;
use crate::endian::Endian;
use crate::error::{BinError, BinResult};
use crate::read::adapters::repeat::{sequence_collects, trace_ok};
use crate::read::{BinReadCollect, BinReadCollectToken, BinReadExt};

verus! {

/// Repeats the parser once per item of the arguments, each time applying
/// that item as its arguments, collecting the results into a vector.
///
/// The produced vector has as many values as there are arguments.
pub struct RepeatVecArgsIter<F> {
    pub f: F,
}

impl<F> RepeatVecArgsIter<F> {
    pub fn new(f: F) -> (r: Self)
        ensures
            r.f == f,
    {
        RepeatVecArgsIter { f }
    }
}

impl<F, Args, Out> BinReadCollect<Vec<Args>, Vec<Out>> for RepeatVecArgsIter<F> where
    F: BinReadCollect<Args, Out>,
 {
    open spec fn collect_wf(&self) -> bool {
        self.f.collect_wf()
    }

    /// One value per item of `args` is read, one after another, the `i`-th
    /// with `args[i]`.
    open spec fn collects(
        &self,
        data: Seq<u8>,
        pos: u64,
        endian: Endian,
        args: Vec<Args>,
        outcome: Result<(Vec<Out>, u64), BinError>,
    ) -> bool {
        match outcome {
            Ok((vs, end)) => sequence_collects(self.f, data, pos, endian, args@, Ok((vs@, end))),
            Err(e) => sequence_collects(self.f, data, pos, endian, args@, Err(e)),
        }
    }

    fn collect_non_backtracking(
        &self,
        reader: &mut Cursor,
        endian: Endian,
        args: Vec<Args>,
        token: BinReadCollectToken,
    ) -> (r: BinResult<Vec<Out>>) {
        let ghost data = reader@.data;
        let ghost pos = reader@.pos;
        let ghost all = args@;
        let ghost given = args;
        let n: usize = args.len();
        // Take the arguments off the back, so that the first one ends on top.
        let mut rest = args;
        let mut stack: Vec<Args> = Vec::new();
        while rest.len() > 0
            invariant
                all.len() == n,
                rest@.len() + stack@.len() == n,
                rest@ == all.take(rest@.len() as int),
                forall|k: int| 0 <= k < stack@.len() ==> #[trigger] stack@[k] == all[n - 1 - k],
            decreases rest@.len(),
        {
            let ghost before = rest@;
            match rest.pop() {
                Some(a) => {
                    stack.push(a);
                    assert(rest@ =~= all.take(rest@.len() as int));
                },
                None => {},
            }
        }
        let ghost mut ps: Seq<u64> = seq![pos];
        let mut vs: Vec<Out> = Vec::new();
        let mut i: usize = 0;
        assert(all.take(0) =~= Seq::<Args>::empty());
        while stack.len() > 0
            invariant
                self.f.collect_wf(),
                all.len() == n,
                given@ == all,
                given == args,
                i + stack@.len() == n,
                forall|k: int| 0 <= k < stack@.len() ==> #[trigger] stack@[k] == all[n - 1 - k],
                reader@.data == data,
                data == old(reader)@.data,
                pos == old(reader)@.pos,
                trace_ok(self.f, data, endian, all.take(i as int), vs@, ps),
                ps[0] == pos,
                ps.last() == reader@.pos,
            decreases stack@.len(),
        {
            let a = match stack.pop() {
                Some(a) => a,
                None => vstd::pervasive::unreached(),
            };
            assert(a == all[i as int]);
            match self.f.read(reader, endian, a) {
                Ok(v) => {
                    proof {
                        assert(all.take(i + 1) =~= all.take(i as int).push(a));
                        ps = ps.push(reader@.pos);
                    }
                    vs.push(v);
                    i = i + 1;
                    assert(trace_ok(self.f, data, endian, all.take(i as int), vs@, ps));
                },
                Err(e) => {
                    assert(trace_ok(self.f, data, endian, all.take(i as int), vs@, ps));
                    assert(self.f.collects(data, ps.last(), endian, all[i as int], Err(e)));
                    let ghost o: Result<(Seq<Out>, u64), BinError> = Err(e);
                    assert(o matches Err(x) && x == e);
                    assert(sequence_collects(self.f, data, pos, endian, all, o));
                    let ghost r: Result<(Vec<Out>, u64), BinError> = Err(e);
                    assert(r matches Err(x) && x == e);
                    assert(self.collects(data, pos, endian, given, r));
                    return Err(e);
                },
            }
        }
        assert(all.take(n as int) =~= all);
        assert(trace_ok(self.f, data, endian, all, vs@, ps));
        let ghost o: Result<(Seq<Out>, u64), BinError> = Ok((vs@, reader@.pos));
        assert(o matches Ok((x, y)) && x == vs@ && y == reader@.pos);
        Ok(vs)
    }
}

} // verus!
