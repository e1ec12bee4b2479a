use vstd::prelude::*;

verus! {

/// What a failed seek was trying to do.
#[derive(Clone, Copy, Debug, PartialEq, Eq, Structural)]
pub enum SeekKind {
    /// Positioning the stream at an absolute offset.
    Seek,
    /// Skipping padding bytes.
    Pad,
    /// Padding a value up to a fixed size.
    Size,
}

/// The stream errors that a [`crate::Cursor`] can report.
#[derive(Clone, Copy, Debug, PartialEq, Eq, Structural)]
pub enum IoErrorKind {
    /// The stream ended before all requested bytes could be read.
    UnexpectedEof,
    /// A seek or a write asked for a position that cannot exist.
    InvalidInput,
}

/// Errors that come from binary read / write operations.
#[allow(inconsistent_fields)]
#[derive(Debug, PartialEq, Eq)]
pub enum BinErrorKind {
    /// An assertion on a value failed.
    Assertion { value: String, message: String },
    /// A seek with a value that cannot be used as an offset.
    Seek { kind: SeekKind, value: usize },
    /// A value took more room than the size it had to fit in.
    Size { expected: usize, got: usize },
    /// An error occurred in the stream while reading / writing / seeking the data.
    Io(IoErrorKind),
    /// The bytes of a string are not valid UTF-8; holds those bytes.
    FromUtf8(Vec<u8>),
    /// The code units of a string are not valid UTF-16; holds those units.
    FromUtf16(Vec<u16>),
}

/// An error together with the stream position at which it happened.
#[derive(Debug, PartialEq, Eq)]
pub struct BinError {
    pub pos: Option<u64>,
    pub kind: BinErrorKind,
}

impl BinError {
    pub fn new(pos: Option<u64>, kind: BinErrorKind) -> (e: BinError)
        ensures
            e.pos == pos,
            e.kind == kind,
    {
        BinError { pos, kind }
    }
}

/// The error that a read past the end of the stream gives at `pos`.
pub open spec fn eof_at(pos: u64) -> BinError {
    BinError { pos: Some(pos), kind: BinErrorKind::Io(IoErrorKind::UnexpectedEof) }
}

/// The error that an impossible seek or write gives at `pos`.
pub open spec fn invalid_at(pos: u64) -> BinError {
    BinError { pos: Some(pos), kind: BinErrorKind::Io(IoErrorKind::InvalidInput) }
}

/// The error that a seek by `value`, which cannot be used as an offset, gives at `pos`.
pub open spec fn seek_error_at(pos: u64, kind: SeekKind, value: usize) -> BinError {
    BinError { pos: Some(pos), kind: BinErrorKind::Seek { kind, value } }
}

/// Result that comes from binary read / write operations.
pub type BinResult<T> = Result<T, BinError>;

} // verus!
