use vstd::prelude::*;

use crate::cursor::Cursor;
use crate::endian::Endian;
use crate::error::{BinError, BinResult};
use crate::read::{BinReadCollect, BinReadCollectToken, BinReadExt};

verus! {

/// Positions the stream before reading the value.
///
/// If it succeeds, the stream is kept in the position right after the parsed
/// value. To restore the position, use `restore_position`.
pub struct ReadSeekBefore<F> {
    pub f: F,
    pub position: usize,
}

impl<F> ReadSeekBefore<F> {
    pub fn new(f: F, position: usize) -> (r: Self)
        ensures
            r.f == f,
            r.position == position,
    {
        ReadSeekBefore { f, position }
    }
}

impl<F, Args, Out> BinReadCollect<Args, Out> for ReadSeekBefore<F> where F: BinReadCollect<Args, Out> {
    open spec fn collect_wf(&self) -> bool {
        self.f.collect_wf()
    }

    /// The value is read at `position`, wherever the stream stood.
    open spec fn collects(
        &self,
        data: Seq<u8>,
        pos: u64,
        endian: Endian,
        args: Args,
        outcome: Result<(Out, u64), BinError>,
    ) -> bool {
        self.f.collects(data, self.position as u64, endian, args, outcome)
    }

    fn collect_non_backtracking(
        &self,
        reader: &mut Cursor,
        endian: Endian,
        args: Args,
        token: BinReadCollectToken,
    ) -> (r: BinResult<Out>) {
        reader.set_position(self.position as u64);
        self.f.read(reader, endian, args)
    }
}

} // verus!
