//! Wrappers and readers of common shapes of data.

pub mod marker;
pub mod null_string;
