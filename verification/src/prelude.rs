//! The items most programs need, for a glob import.

pub use crate::cursor::Cursor;
pub use crate::endian::Endian;
pub use crate::error::{BinError, BinErrorKind, BinResult, IoErrorKind, SeekKind};
pub use crate::helpers::marker::Marker;
pub use crate::helpers::null_string::{NullStringAscii, NullStringUtf16, NullStringUtf8};
pub use crate::read::impls::VecArgs;
pub use crate::read::{BinReadCollect, BinReadCollectToken, BinReadExt, BinReader};
pub use crate::write::{BinWrite, BinWriteExt, BinWriteToken, BinWriter, BinWriterSelf};
