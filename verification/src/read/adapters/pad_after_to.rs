use vstd::prelude::*;

use crate::cursor::Cursor;
use crate::endian::Endian;
use crate::error::{seek_error_at, BinError, BinErrorKind, BinResult, SeekKind};
use crate::read::{BinReadCollect, BinReadCollectToken, BinReadExt};

verus! {

/// How far the stream moved from `start` to `end`, or zero if it moved back.
pub open spec fn advance(start: u64, end: u64) -> u64 {
    if end >= start {
        (end - start) as u64
    } else {
        0
    }
}

/// The error of a value that took `got` bytes where `expected` were allowed,
/// at the position `pos` right after it.
pub open spec fn size_error_at(pos: u64, expected: usize, got: u64) -> BinError {
    BinError { pos: Some(pos), kind: BinErrorKind::Size { expected, got: got as usize } }
}

/// Skips some bytes after the value so the stream always advances by a
/// given amount.
///
/// Does not fail if the stream has ended during padding.
pub struct ReadPadAfterTo<F> {
    pub f: F,
    pub size: usize,
}

impl<F> ReadPadAfterTo<F> {
    pub fn new(f: F, size: usize) -> (r: Self)
        ensures
            r.f == f,
            r.size == size,
    {
        ReadPadAfterTo { f, size }
    }
}

impl<F, Args, Out> BinReadCollect<Args, Out> for ReadPadAfterTo<F> where F: BinReadCollect<Args, Out> {
    open spec fn collect_wf(&self) -> bool {
        self.f.collect_wf()
    }

    /// The value is read; it fails with `Size` at the position after it if it
    /// took more than `size` bytes; otherwise the stream is placed `size`
    /// bytes after where the value started, unless that passes `u64::MAX`.
    open spec fn collects(
        &self,
        data: Seq<u8>,
        pos: u64,
        endian: Endian,
        args: Args,
        outcome: Result<(Out, u64), BinError>,
    ) -> bool {
        match outcome {
            Ok((v, end)) => pos + self.size <= u64::MAX && end == pos + self.size && exists|mid: u64|
                #[trigger] self.f.collects(data, pos, endian, args, Ok((v, mid))) && advance(pos, mid)
                    <= self.size,
            Err(e) => {
                ||| self.f.collects(data, pos, endian, args, Err(e))
                ||| exists|v: Out, mid: u64|
                    #[trigger] self.f.collects(data, pos, endian, args, Ok((v, mid))) && advance(pos, mid)
                        > self.size && e == size_error_at(mid, self.size, advance(pos, mid))
                ||| exists|v: Out, mid: u64|
                    #[trigger] self.f.collects(data, pos, endian, args, Ok((v, mid))) && advance(pos, mid)
                        <= self.size && pos + self.size > u64::MAX && e == seek_error_at(
                        pos,
                        SeekKind::Size,
                        self.size,
                    )
            },
        }
    }

    fn collect_non_backtracking(
        &self,
        reader: &mut Cursor,
        endian: Endian,
        args: Args,
        token: BinReadCollectToken,
    ) -> (r: BinResult<Out>) {
        let pos: u64 = reader.position();
        let size_expected: u64 = self.size as u64;
        let ghost data = reader@.data;
        let ghost a = args;
        let value = match self.f.read(reader, endian, args) {
            Ok(v) => v,
            Err(e) => return Err(e),
        };
        let pos_after: u64 = reader.position();
        let ghost gv = value;
        assert(self.f.collects(data, pos, endian, a, Ok((gv, pos_after))));
        let size: u64 = if pos_after >= pos {
            pos_after - pos
        } else {
            0
        };
        if size > size_expected {
            return Err(
                BinError::new(
                    Some(pos_after),
                    BinErrorKind::Size { expected: self.size, got: size as usize },
                ),
            );
        }
        if pos > u64::MAX - size_expected {
            return Err(
                BinError::new(Some(pos), BinErrorKind::Seek { kind: SeekKind::Size, value: self.size }),
            );
        }
        reader.set_position(pos + size_expected);
        let ghost o: Result<(Out, u64), BinError> = Ok((gv, reader@.pos));
        assert(o matches Ok((x, y)) && x == gv && y == reader@.pos);
        Ok(value)
    }
}

} // verus!
