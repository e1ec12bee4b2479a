use vstd::prelude::*;

use crate::error::IoErrorKind;

verus! {

/// The abstract state of a [`Cursor`]: the bytes it holds and where it stands.
///
/// The position may stand past the end of the bytes, as after a seek there.
pub struct CursorState {
    pub data: Seq<u8>,
    pub pos: u64,
}

/// The bytes that `data` holds after `bytes` are written at `pos`.
///
/// Bytes before `pos` that did not exist are filled with zeros, bytes under
/// the written range are replaced, and the sequence grows as needed.
pub open spec fn splice_bytes(data: Seq<u8>, pos: int, bytes: Seq<u8>) -> Seq<u8> {
    let len = if data.len() > pos + bytes.len() { data.len() as int } else { pos + bytes.len() };
    Seq::new(
        len as nat,
        |i: int|
            if pos <= i < pos + bytes.len() {
                bytes[i - pos]
            } else if i < data.len() {
                data[i]
            } else {
                0u8
            },
    )
}

/// An in-memory stream of bytes with a position, read from and written to
/// at that position.
pub struct Cursor {
    data: Vec<u8>,
    pos: u64,
}

impl View for Cursor {
    type V = CursorState;

    closed spec fn view(&self) -> CursorState {
        CursorState { data: self.data@, pos: self.pos }
    }
}

impl Cursor {
    /// A cursor over `data`, standing at its start.
    pub fn new(data: Vec<u8>) -> (c: Cursor)
        ensures
            c@.data == data@,
            c@.pos == 0,
    {
        Cursor { data, pos: 0 }
    }

    /// The bytes of a cursor fit in memory.
    pub proof fn lemma_data_len(&self)
        ensures
            self@.data.len() <= usize::MAX,
    {
        assert(self.data.len() == self.data@.len());
    }

    /// The current position.
    pub fn position(&self) -> (p: u64)
        ensures
            p == self@.pos,
    {
        self.pos
    }

    /// The bytes held.
    pub fn get_ref(&self) -> (d: &Vec<u8>)
        ensures
            d@ == self@.data,
    {
        &self.data
    }

    /// The bytes held, giving up the cursor.
    pub fn into_inner(self) -> (d: Vec<u8>)
        ensures
            d@ == self@.data,
    {
        self.data
    }

    /// Places the cursor at an absolute position; any position is allowed.
    pub fn set_position(&mut self, pos: u64)
        ensures
            final(self)@.data == old(self)@.data,
            final(self)@.pos == pos,
    {
        self.pos = pos;
    }

    /// Moves the cursor by `offset`; fails, leaving the cursor where it was,
    /// when the target is negative or past `u64::MAX`.
    pub fn seek_relative(&mut self, offset: i64) -> (r: Result<u64, IoErrorKind>)
        ensures
            final(self)@.data == old(self)@.data,
            (0 <= old(self)@.pos + offset <= u64::MAX) <==> r is Ok,
            r matches Ok(p) ==> p == old(self)@.pos + offset && final(self)@.pos == p,
            r matches Err(k) ==> k == IoErrorKind::InvalidInput && final(self)@.pos == old(self)@.pos,
    {
        if offset >= 0 {
            let off: u64 = offset as u64;
            if self.pos <= u64::MAX - off {
                self.pos = self.pos + off;
                Ok(self.pos)
            } else {
                Err(IoErrorKind::InvalidInput)
            }
        } else {
            let back: u64 = if offset == i64::MIN {
                0x8000_0000_0000_0000u64
            } else {
                (-offset) as u64
            };
            if self.pos >= back {
                self.pos = self.pos - back;
                Ok(self.pos)
            } else {
                Err(IoErrorKind::InvalidInput)
            }
        }
    }

    /// Reads exactly `n` bytes at the position and moves past them.
    ///
    /// When fewer than `n` bytes remain, fails and places the cursor at the
    /// end of the bytes.
    pub fn read_exact(&mut self, n: usize) -> (r: Result<Vec<u8>, IoErrorKind>)
        ensures
            final(self)@.data == old(self)@.data,
            (old(self)@.pos + n <= old(self)@.data.len()) <==> r is Ok,
            r matches Ok(bytes) ==> bytes@ == old(self)@.data.subrange(
                old(self)@.pos as int,
                old(self)@.pos + n,
            ) && final(self)@.pos == old(self)@.pos + n,
            r matches Err(k) ==> k == IoErrorKind::UnexpectedEof && final(self)@.pos
                == old(self)@.data.len(),
    {
        let len: usize = self.data.len();
        if self.pos > len as u64 || (len as u64) - self.pos < n as u64 {
            self.pos = len as u64;
            return Err(IoErrorKind::UnexpectedEof);
        }
        let start: usize = self.pos as usize;
        let mut out: Vec<u8> = Vec::new();
        let mut i: usize = 0;
        while i < n
            invariant
                start + n <= len,
                len == self.data@.len(),
                i <= n,
                out@ == self.data@.subrange(start as int, start + i),
            decreases n - i,
        {
            out.push(self.data[start + i]);
            i = i + 1;
            assert(out@ =~= self.data@.subrange(start as int, start + i));
        }
        self.pos = self.pos + n as u64;
        Ok(out)
    }

    /// Writes `bytes` at the position and moves past them.
    ///
    /// Writing past the end fills the gap with zeros. Fails, changing
    /// nothing, when the written range would end past `usize::MAX`.
    pub fn write_all(&mut self, bytes: &[u8]) -> (r: Result<(), IoErrorKind>)
        ensures
            (old(self)@.pos + bytes@.len() <= usize::MAX) <==> r is Ok,
            r is Ok ==> final(self)@.data == splice_bytes(
                old(self)@.data,
                old(self)@.pos as int,
                bytes@,
            ) && final(self)@.pos == old(self)@.pos + bytes@.len(),
            r matches Err(k) ==> k == IoErrorKind::InvalidInput && final(self)@ == old(self)@,
    {
        let n: usize = bytes.len();
        if self.pos > usize::MAX as u64 || (usize::MAX as u64) - self.pos < n as u64 {
            return Err(IoErrorKind::InvalidInput);
        }
        let start: usize = self.pos as usize;
        let ghost old_data = self.data@;
        while self.data.len() < start
            invariant
                old_data.len() <= start ==> self.data@ =~= Seq::new(
                    self.data@.len(),
                    |i: int| if i < old_data.len() { old_data[i] } else { 0u8 },
                ),
                old_data.len() > start ==> self.data@ == old_data,
                self.data@.len() >= old_data.len(),
                old_data.len() <= start ==> self.data@.len() <= start,
                self.pos == start as u64,
                start + n <= usize::MAX,
            decreases start - self.data@.len(),
        {
            self.data.push(0u8);
        }
        assert(self.data@ =~= splice_bytes(old_data, start as int, bytes@.subrange(0, 0)));
        let mut i: usize = 0;
        while i < n
            invariant
                start + n <= usize::MAX,
                self.pos == start as u64,
                n == bytes@.len(),
                i <= n,
                self.data@.len() >= start + i,
                self.data@ =~= splice_bytes(old_data, start as int, bytes@.subrange(0, i as int)),
            decreases n - i,
        {
            if start + i < self.data.len() {
                self.data.set(start + i, bytes[i]);
            } else {
                self.data.push(bytes[i]);
            }
            i = i + 1;
            assert(self.data@ =~= splice_bytes(old_data, start as int, bytes@.subrange(0, i as int)));
        }
        assert(bytes@.subrange(0, n as int) =~= bytes@);
        self.pos = self.pos + n as u64;
        Ok(())
    }
}

} // verus!
