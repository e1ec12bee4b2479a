use vstd::prelude::*;

use crate::cursor::Cursor;
use crate::endian::Endian;
use crate::error::{BinError, BinResult};
use crate::read::{BinReadCollect, BinReadCollectToken, BinReadExt};

verus! {

/// Reads the value without advancing the stream.
pub struct ReadRestorePosition<F> {
    pub f: F,
}

impl<F> ReadRestorePosition<F> {
    pub fn new(f: F) -> (r: Self)
        ensures
            r.f == f,
    {
        ReadRestorePosition { f }
    }
}

impl<F, Args, Out> BinReadCollect<Args, Out> for ReadRestorePosition<F> where
    F: BinReadCollect<Args, Out>,
 {
    open spec fn collect_wf(&self) -> bool {
        self.f.collect_wf()
    }

    /// The value is read, and the stream stays where it was.
    open spec fn collects(
        &self,
        data: Seq<u8>,
        pos: u64,
        endian: Endian,
        args: Args,
        outcome: Result<(Out, u64), BinError>,
    ) -> bool {
        match outcome {
            Ok((v, end)) => end == pos && exists|mid: u64|
                #[trigger] self.f.collects(data, pos, endian, args, Ok((v, mid))),
            Err(e) => self.f.collects(data, pos, endian, args, Err(e)),
        }
    }

    fn collect_non_backtracking(
        &self,
        reader: &mut Cursor,
        endian: Endian,
        args: Args,
        token: BinReadCollectToken,
    ) -> (r: BinResult<Out>) {
        let pos: u64 = reader.position();
        let ghost data = reader@.data;
        let ghost a = args;
        let value = match self.f.read(reader, endian, args) {
            Ok(v) => v,
            Err(e) => return Err(e),
        };
        let ghost gv = value;
        let ghost mid = reader@.pos;
        assert(self.f.collects(data, pos, endian, a, Ok((gv, mid))));
        reader.set_position(pos);
        let ghost o: Result<(Out, u64), BinError> = Ok((gv, pos));
        assert(o matches Ok((x, y)) && x == gv && y == pos);
        Ok(value)
    }
}

} // verus!
