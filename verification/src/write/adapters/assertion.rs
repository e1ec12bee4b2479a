use core::fmt::Debug;

use vstd::prelude::*;

use crate::cursor::Cursor;
use crate::endian::Endian;
use crate::error::{BinError, BinErrorKind, BinResult};
use crate::read::adapters::assertion::is_assertion_error;
use crate::text::debug_text;
use crate::write::{BinWrite, BinWriteExt, BinWriteToken};

verus! {

/// Fails, writing nothing, if a specified condition on the value to write
/// doesn't pass.
pub struct Assert<F, AssertFn, MessageFn> {
    pub f: F,
    pub assertion: AssertFn,
    pub message: MessageFn,
}

impl<F, AssertFn, MessageFn> Assert<F, AssertFn, MessageFn> {
    pub fn new(f: F, assertion: AssertFn, message: MessageFn) -> (r: Self)
        ensures
            r.f == f,
            r.assertion == assertion,
            r.message == message,
    {
        Assert { f, assertion, message }
    }
}

impl<F, AssertFn, MessageFn, Args, In> BinWrite<Args, In> for Assert<F, AssertFn, MessageFn> where
    F: BinWrite<Args, In>,
    AssertFn: Fn(&In) -> bool,
    MessageFn: Fn(&In) -> String,
    In: Debug,
 {
    open spec fn write_wf(&self) -> bool {
        &&& self.f.write_wf()
        &&& forall|v: &In| call_requires(self.assertion, (v,))
        &&& forall|v: &In| call_requires(self.message, (v,))
    }

    open spec fn spec_inner(&self) -> In {
        self.f.spec_inner()
    }

    /// If the assertion holds of the value, it is written as the inner
    /// writer writes it; otherwise nothing is written and an `Assertion`
    /// error at the position, with the message for the value, is given.
    open spec fn writes(
        &self,
        data: Seq<u8>,
        pos: u64,
        endian: Endian,
        args: Args,
        outcome: Result<(Seq<u8>, u64), (BinError, Seq<u8>)>,
    ) -> bool {
        let v = self.f.spec_inner();
        ||| call_ensures(self.assertion, (&v,), true) && self.f.writes(data, pos, endian, args, outcome)
        ||| call_ensures(self.assertion, (&v,), false) && (outcome matches Err((e, d)) && d == data
            && is_assertion_error(e, pos, self.message, v))
    }

    fn write_non_backtracking(
        &self,
        writer: &mut Cursor,
        endian: Endian,
        args: Args,
        token: BinWriteToken,
    ) -> (r: BinResult<()>)
        ensures
            r is Err ==> final(writer)@.pos == old(writer)@.pos,
            r is Err && call_ensures(self.assertion, (&self.f.spec_inner(),), false)
                && !call_ensures(self.assertion, (&self.f.spec_inner(),), true) ==> final(writer)@
                == old(writer)@,
    {
        let pos: u64 = writer.position();
        let value = self.f.inner();
        if !(self.assertion)(value) {
            let message = (self.message)(value);
            let e = BinError::new(
                Some(pos),
                BinErrorKind::Assertion { value: debug_text(value), message },
            );
            assert(is_assertion_error(e, pos, self.message, *value));
            return Err(e);
        }
        self.f.write(writer, endian, args)
    }

    fn inner(&self) -> (v: &In) {
        self.f.inner()
    }
}

} // verus!
