use vstd::prelude::*;

use crate::cursor::Cursor;
use crate::endian::Endian;
use crate::error::{BinError, BinResult};
use crate::read::adapters::repeat::{lemma_sequence_ok_len, same_args, sequence_collects};
use crate::read::adapters::repeat_vec::read_repeated;
use crate::read::{BinReadCollect, BinReadCollectToken};

verus! {

/// `array_init::from_iter` on a vector: its first `N` items, in order, as an
/// array, or `None` when it holds fewer than `N` items.
#[verifier::external_body]
fn array_from_vec<T, const N: usize>(items: Vec<T>) -> (r: Option<[T; N]>)
    ensures
        r is Some <==> items@.len() >= N,
        r is Some ==> r.unwrap()@ == items@.take(N as int),
{
    array_init::from_iter(items)
}

/// Repeats the parser an amount of times, collecting the results into an array.
pub struct RepeatArray<F, const N: usize> {
    pub f: F,
}

impl<F, const N: usize> RepeatArray<F, N> {
    pub fn new(f: F) -> (r: Self)
        ensures
            r.f == f,
    {
        RepeatArray { f }
    }
}

impl<F, const N: usize, Args, Out> BinReadCollect<Args, [Out; N]> for RepeatArray<F, N> where
    F: BinReadCollect<Args, Out>,
    Args: Copy,
 {
    open spec fn collect_wf(&self) -> bool {
        self.f.collect_wf()
    }

    /// `N` values are read one after another, each with `args`.
    open spec fn collects(
        &self,
        data: Seq<u8>,
        pos: u64,
        endian: Endian,
        args: Args,
        outcome: Result<([Out; N], u64), BinError>,
    ) -> bool {
        match outcome {
            Ok((vs, end)) => sequence_collects(
                self.f,
                data,
                pos,
                endian,
                same_args(args, N as nat),
                Ok((vs@, end)),
            ),
            Err(e) => sequence_collects(self.f, data, pos, endian, same_args(args, N as nat), Err(e)),
        }
    }

    fn collect_non_backtracking(
        &self,
        reader: &mut Cursor,
        endian: Endian,
        args: Args,
        token: BinReadCollectToken,
    ) -> (r: BinResult<[Out; N]>) {
        let ghost data = reader@.data;
        let ghost pos = reader@.pos;
        let vs = match read_repeated(&self.f, N, reader, endian, args) {
            Ok(vs) => vs,
            Err(e) => return Err(e),
        };
        let ghost items = vs@;
        proof {
            lemma_sequence_ok_len(self.f, data, pos, endian, same_args(args, N as nat), items, reader@.pos);
        }
        match array_from_vec::<Out, N>(vs) {
            Some(a) => {
                assert(items.take(N as int) =~= items);
                let ghost o: Result<(Seq<Out>, u64), BinError> = Ok((a@, reader@.pos));
                assert(o matches Ok((x, y)) && x == a@ && y == reader@.pos);
                Ok(a)
            },
            None => vstd::pervasive::unreached(),
        }
    }
}

} // verus!
