use vstd::prelude::*;

use crate::cursor::Cursor;
use crate::endian::Endian;
use crate::error::{seek_error_at, BinError, BinErrorKind, BinResult, SeekKind};
use crate::read::{BinReadCollect, BinReadCollectToken, BinReadExt};

verus! {

/// Skips an amount of bytes before a value.
pub struct PadBefore<F> {
    pub f: F,
    pub padding: usize,
}

impl<F> PadBefore<F> {
    pub fn new(f: F, padding: usize) -> (r: Self)
        ensures
            r.f == f,
            r.padding == padding,
    {
        PadBefore { f, padding }
    }
}

impl<F, Args, Out> BinReadCollect<Args, Out> for PadBefore<F> where F: BinReadCollect<Args, Out> {
    open spec fn collect_wf(&self) -> bool {
        self.f.collect_wf()
    }

    /// The padding must be a valid forward seek (at most `i64::MAX`, and not
    /// past `u64::MAX`); the value is then read `padding` bytes further on.
    open spec fn collects(
        &self,
        data: Seq<u8>,
        pos: u64,
        endian: Endian,
        args: Args,
        outcome: Result<(Out, u64), BinError>,
    ) -> bool {
        if self.padding > i64::MAX || pos + self.padding > u64::MAX {
            outcome == Err::<(Out, u64), BinError>(seek_error_at(pos, SeekKind::Pad, self.padding))
        } else {
            self.f.collects(data, (pos + self.padding) as u64, endian, args, outcome)
        }
    }

    fn collect_non_backtracking(
        &self,
        reader: &mut Cursor,
        endian: Endian,
        args: Args,
        token: BinReadCollectToken,
    ) -> (r: BinResult<Out>) {
        let pos: u64 = reader.position();
        if self.padding as u64 > i64::MAX as u64 {
            return Err(
                BinError::new(Some(pos), BinErrorKind::Seek { kind: SeekKind::Pad, value: self.padding }),
            );
        }
        match reader.seek_relative(self.padding as i64) {
            Ok(_) => {},
            Err(_) => {
                return Err(
                    BinError::new(
                        Some(pos),
                        BinErrorKind::Seek { kind: SeekKind::Pad, value: self.padding },
                    ),
                );
            },
        }
        self.f.read(reader, endian, args)
    }
}

} // verus!
