use vstd::prelude::*;

use crate::cursor::Cursor;
use crate::endian::Endian;
use crate::error::{seek_error_at, BinError, BinErrorKind, BinResult, SeekKind};
use crate::read::{BinReadCollect, BinReadCollectToken, BinReadExt};

verus! {

/// Skips an amount of bytes after a value.
///
/// Does not fail if the stream has ended during padding.
pub struct ReadPadAfter<F> {
    pub f: F,
    pub padding: usize,
}

impl<F> ReadPadAfter<F> {
    pub fn new(f: F, padding: usize) -> (r: Self)
        ensures
            r.f == f,
            r.padding == padding,
    {
        ReadPadAfter { f, padding }
    }
}

impl<F, Args, Out> BinReadCollect<Args, Out> for ReadPadAfter<F> where F: BinReadCollect<Args, Out> {
    open spec fn collect_wf(&self) -> bool {
        self.f.collect_wf()
    }

    /// The padding must be a valid forward seek (at most `i64::MAX`), checked
    /// before the value is read; then the value is read and the stream
    /// advances by `padding` past it, unless that passes `u64::MAX`.
    open spec fn collects(
        &self,
        data: Seq<u8>,
        pos: u64,
        endian: Endian,
        args: Args,
        outcome: Result<(Out, u64), BinError>,
    ) -> bool {
        if self.padding > i64::MAX {
            outcome == Err::<(Out, u64), BinError>(seek_error_at(pos, SeekKind::Pad, self.padding))
        } else {
            match outcome {
                Ok((v, end)) => end >= self.padding && self.f.collects(
                    data,
                    pos,
                    endian,
                    args,
                    Ok((v, (end - self.padding) as u64)),
                ),
                Err(e) => self.f.collects(data, pos, endian, args, Err(e)) || (exists|v: Out, mid: u64|
                    #[trigger] self.f.collects(data, pos, endian, args, Ok((v, mid))) && mid
                        + self.padding > u64::MAX && e == seek_error_at(
                        pos,
                        SeekKind::Pad,
                        self.padding,
                    )),
            }
        }
    }

    fn collect_non_backtracking(
        &self,
        reader: &mut Cursor,
        endian: Endian,
        args: Args,
        token: BinReadCollectToken,
    ) -> (r: BinResult<Out>) {
        let pos: u64 = reader.position();
        if self.padding as u64 > i64::MAX as u64 {
            return Err(
                BinError::new(Some(pos), BinErrorKind::Seek { kind: SeekKind::Pad, value: self.padding }),
            );
        }
        let ghost data = reader@.data;
        let ghost a = args;
        let value = match self.f.read(reader, endian, args) {
            Ok(v) => v,
            Err(e) => return Err(e),
        };
        let ghost mid = reader@.pos;
        let ghost gv = value;
        match reader.seek_relative(self.padding as i64) {
            Ok(_) => {
                assert((reader@.pos - self.padding) as u64 == mid);
                Ok(value)
            },
            Err(_) => {
                let e = BinError::new(
                    Some(pos),
                    BinErrorKind::Seek { kind: SeekKind::Pad, value: self.padding },
                );
                assert(self.f.collects(data, pos, endian, a, Ok((gv, mid))));
                Err(e)
            },
        }
    }
}

} // verus!
