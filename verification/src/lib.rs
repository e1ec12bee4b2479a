//! Composable readers and writers for binary data held in an in-memory cursor.
//!
//! A reader is built from small pieces (`u16::reader()`, `.pad_after(3)`,
//! `.repeat_vec(n)`, ...) and then run on a [`Cursor`] with an [`Endian`].
//! Every reader states, as a relation over the bytes of the cursor and its
//! position, which outcomes it may produce.

pub mod adapters;
pub mod bytes;
pub mod cursor;
pub mod endian;
pub mod error;
pub mod helpers;
pub mod laws;
pub mod number;
pub mod number_laws;
pub mod prelude;
pub mod read;
pub mod text;
pub mod write;

pub use cursor::{Cursor, CursorState};
pub use endian::Endian;
pub use error::{BinError, BinErrorKind, BinResult, IoErrorKind, SeekKind};
