//! Adapters available on every reader, as a trait of their own.

use core::fmt::Debug;

use vstd::prelude::*;

use crate::read::adapters::assertion::Assert;
use crate::read::adapters::map::ReadMap;
use crate::read::BinReadCollect;

verus! {

/// Adds the checking and mapping adapters to every reader.
pub trait BinReadAdapter<Args, Out>: BinReadCollect<Args, Out> {
    /// Fails if a specified condition on a parsed value doesn't pass.
    fn assert_value<C, E>(self, callback: C, error_message: E) -> (r: Assert<Self, C, E>) where
        C: Fn(&Out) -> bool,
        E: Fn(&Out) -> String,
        Out: Debug,

        ensures
            r.f == self,
            r.assertion == callback,
            r.message == error_message,
    {
        Assert::new(self, callback, error_message)
    }

    /// Maps a value being read from one type to another.
    fn map<C, Out2>(self, callback: C) -> (r: ReadMap<Self, C, Out, Out2>) where
        C: Fn(Out) -> Out2,

        ensures
            r.f == self,
            r.map == callback,
    {
        ReadMap::new(self, callback)
    }
}

impl<T, Args, Out> BinReadAdapter<Args, Out> for T where T: BinReadCollect<Args, Out> {

}

} // verus!
