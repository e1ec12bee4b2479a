//! Adapters that change how a reader reads.

pub mod map;
pub mod pad_after;
pub mod pad_after_to;
pub mod pad_before;
pub mod restore_position;
pub mod seek_before;
pub mod assertion;
pub mod repeat;
pub mod repeat_vec;
pub mod repeat_array;
pub mod repeat_vec_args_iter;
