//! Reading several values one after another.

use vstd::prelude::*;

use crate::endian::Endian;
use crate::error::BinError;
use crate::read::BinReadCollect;

verus! {

/// Whether the `i`-th read of `f`, with `args[i]`, may start at
/// `positions[i]` and give `values[i]`, ending at `positions[i + 1]`, for
/// every `i`: a run of successful reads one after another.
pub open spec fn trace_ok<F: BinReadCollect<Args, Out>, Args, Out>(
    f: F,
    data: Seq<u8>,
    endian: Endian,
    args: Seq<Args>,
    values: Seq<Out>,
    positions: Seq<u64>,
) -> bool {
    &&& values.len() == args.len()
    &&& positions.len() == args.len() + 1
    &&& forall|i: int|
        #![trigger values[i]]
        0 <= i < args.len() ==> f.collects(
            data,
            positions[i],
            endian,
            args[i],
            Ok((values[i], positions[i + 1])),
        )
}

/// Whether reading values one after another from `pos`, the `i`-th with
/// `args[i]`, may give `outcome`: all the values and the position after the
/// last one, or the error of the first read that fails.
pub open spec fn sequence_collects<F: BinReadCollect<Args, Out>, Args, Out>(
    f: F,
    data: Seq<u8>,
    pos: u64,
    endian: Endian,
    args: Seq<Args>,
    outcome: Result<(Seq<Out>, u64), BinError>,
) -> bool {
    match outcome {
        Ok((vs, end)) => exists|ps: Seq<u64>|
            #[trigger] trace_ok(f, data, endian, args, vs, ps) && ps[0] == pos && ps.last() == end,
        Err(e) => exists|k: int, vs: Seq<Out>, ps: Seq<u64>|
            0 <= k < args.len() && #[trigger] trace_ok(f, data, endian, args.take(k), vs, ps) && ps[0]
                == pos && f.collects(data, ps.last(), endian, args[k], Err(e)),
    }
}

/// `n` copies of `args`.
pub open spec fn same_args<Args>(args: Args, n: nat) -> Seq<Args> {
    Seq::new(n, |i: int| args)
}

/// A successful run of reads gives one value per argument.
pub proof fn lemma_sequence_ok_len<F: BinReadCollect<Args, Out>, Args, Out>(
    f: F,
    data: Seq<u8>,
    pos: u64,
    endian: Endian,
    args: Seq<Args>,
    vs: Seq<Out>,
    end: u64,
)
    requires
        sequence_collects(f, data, pos, endian, args, Ok((vs, end))),
    ensures
        vs.len() == args.len(),
{
}

} // verus!
