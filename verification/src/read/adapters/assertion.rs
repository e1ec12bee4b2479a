use core::fmt::Debug;

use vstd::prelude::*;

use crate::cursor::Cursor;
use crate::endian::Endian;
use crate::error::{BinError, BinErrorKind, BinResult};
use crate::read::{BinReadCollect, BinReadCollectToken, BinReadExt};
use crate::text::debug_text;

verus! {

/// Whether `e` is the failed assertion reported at `pos` for `value`, with
/// the message that `message` may give for it.
pub open spec fn is_assertion_error<Out, MessageFn: Fn(&Out) -> String>(
    e: BinError,
    pos: u64,
    message: MessageFn,
    value: Out,
) -> bool {
    &&& e.pos == Some(pos)
    &&& e.kind matches BinErrorKind::Assertion { message: m, .. } && call_ensures(message, (&value,), m)
}

/// Fails if a specified condition on a parsed value doesn't pass.
pub struct Assert<F, AssertFn, MessageFn> {
    pub f: F,
    pub assertion: AssertFn,
    pub message: MessageFn,
}

impl<F, AssertFn, MessageFn> Assert<F, AssertFn, MessageFn> {
    pub fn new(f: F, assertion: AssertFn, message: MessageFn) -> (r: Self)
        ensures
            r.f == f,
            r.assertion == assertion,
            r.message == message,
    {
        Assert { f, assertion, message }
    }
}

impl<F, AssertFn, MessageFn, Args, Out> BinReadCollect<Args, Out> for Assert<F, AssertFn, MessageFn> where
    F: BinReadCollect<Args, Out>,
    AssertFn: Fn(&Out) -> bool,
    MessageFn: Fn(&Out) -> String,
    Out: Debug,
 {
    open spec fn collect_wf(&self) -> bool {
        &&& self.f.collect_wf()
        &&& forall|v: &Out| call_requires(self.assertion, (v,))
        &&& forall|v: &Out| call_requires(self.message, (v,))
    }

    /// The value is read; it is given if the assertion holds of it, and
    /// otherwise an `Assertion` error at the position where it started, with
    /// the message for it, is.
    open spec fn collects(
        &self,
        data: Seq<u8>,
        pos: u64,
        endian: Endian,
        args: Args,
        outcome: Result<(Out, u64), BinError>,
    ) -> bool {
        match outcome {
            Ok((v, end)) => self.f.collects(data, pos, endian, args, Ok((v, end))) && call_ensures(
                self.assertion,
                (&v,),
                true,
            ),
            Err(e) => {
                ||| self.f.collects(data, pos, endian, args, Err(e))
                ||| exists|v: Out, mid: u64|
                    #[trigger] self.f.collects(data, pos, endian, args, Ok((v, mid))) && call_ensures(
                        self.assertion,
                        (&v,),
                        false,
                    ) && is_assertion_error(e, pos, self.message, v)
            },
        }
    }

    fn collect_non_backtracking(
        &self,
        reader: &mut Cursor,
        endian: Endian,
        args: Args,
        token: BinReadCollectToken,
    ) -> (r: BinResult<Out>) {
        let pos: u64 = reader.position();
        let ghost data = reader@.data;
        let ghost a = args;
        let value = match self.f.read(reader, endian, args) {
            Ok(v) => v,
            Err(e) => return Err(e),
        };
        let ghost mid = reader@.pos;
        assert(self.f.collects(data, pos, endian, a, Ok((value, mid))));
        if !(self.assertion)(&value) {
            let message = (self.message)(&value);
            let e = BinError::new(
                Some(pos),
                BinErrorKind::Assertion { value: debug_text(&value), message },
            );
            assert(is_assertion_error(e, pos, self.message, value));
            return Err(e);
        }
        Ok(value)
    }
}

} // verus!
