use core::marker::PhantomData;

use vstd::prelude::*;

use crate::cursor::Cursor;
use crate::endian::Endian;
use crate::error::{BinError, BinResult};
use crate::read::{BinReadCollect, BinReadCollectToken, BinReadExt};

verus! {

/// Maps a value being read from one type to another.
pub struct ReadMap<F, MapFn, Out, Out2> {
    pub f: F,
    pub map: MapFn,
    pub out: PhantomData<(Out, Out2)>,
}

impl<F, MapFn, Out, Out2> ReadMap<F, MapFn, Out, Out2> {
    pub fn new(f: F, map: MapFn) -> (m: Self)
        ensures
            m.f == f,
            m.map == map,
    {
        ReadMap { f, map, out: PhantomData }
    }
}

impl<F, MapFn, Args, Out, Out2> BinReadCollect<Args, Out2> for ReadMap<F, MapFn, Out, Out2> where
    F: BinReadCollect<Args, Out>,
    MapFn: Fn(Out) -> Out2,
 {
    open spec fn collect_wf(&self) -> bool {
        &&& self.f.collect_wf()
        &&& forall|v: Out| call_requires(self.map, (v,))
    }

    open spec fn collects(
        &self,
        data: Seq<u8>,
        pos: u64,
        endian: Endian,
        args: Args,
        outcome: Result<(Out2, u64), BinError>,
    ) -> bool {
        match outcome {
            Ok((v2, end)) => exists|v: Out|
                #[trigger] self.f.collects(data, pos, endian, args, Ok((v, end)))
                    && call_ensures(self.map, (v,), v2),
            Err(e) => self.f.collects(data, pos, endian, args, Err(e)),
        }
    }

    fn collect_non_backtracking(
        &self,
        reader: &mut Cursor,
        endian: Endian,
        args: Args,
        token: BinReadCollectToken,
    ) -> (r: BinResult<Out2>) {
        let ghost data = reader@.data;
        let ghost pos = reader@.pos;
        let ghost a = args;
        match self.f.read(reader, endian, args) {
            Ok(v) => {
                let ghost gv = v;
                let v2: Out2 = (self.map)(v);
                let ghost end = reader@.pos;
                let ghost o: Result<(Out2, u64), BinError> = Ok((v2, end));
                assert(self.f.collects(data, pos, endian, a, Ok((gv, end))));
                assert(exists|w: Out|
                    #[trigger] self.f.collects(data, pos, endian, a, Ok((w, end)))
                        && call_ensures(self.map, (w,), v2));
                assert(o matches Ok((x, y)) && x == v2 && y == end);
                assert(match o {
                    Ok((x, y)) => exists|w: Out|
                        #[trigger] self.f.collects(data, pos, endian, a, Ok((w, y)))
                            && call_ensures(self.map, (w,), x),
                    Err(_) => true,
                });
                Ok(v2)
            },
            Err(e) => Err(e),
        }
    }
}

} // verus!
