//! Readers of tuples of three to twelve values.

use vstd::prelude::*;

use crate::cursor::Cursor;
use crate::endian::Endian;
use crate::error::{BinError, BinResult};
use crate::read::{BinReadCollect, BinReadCollectToken, BinReadExt, BinReader};

verus! {

/// Reads 3 values one after another, with the same arguments.
pub struct Tuple3Reader<R0, R1, R2> {
    pub r0: R0,
    pub r1: R1,
    pub r2: R2,
}

impl<R0, R1, R2, Args, Out0, Out1, Out2> BinReadCollect<Args, (Out0, Out1, Out2)> for Tuple3Reader<R0, R1, R2> where
    R0: BinReadCollect<Args, Out0>,
    R1: BinReadCollect<Args, Out1>,
    R2: BinReadCollect<Args, Out2>,
    Args: Copy,
 {
    open spec fn collect_wf(&self) -> bool {
        self.r0.collect_wf() && self.r1.collect_wf() && self.r2.collect_wf()
    }

    /// The values are read in order, each right after the one before.
    open spec fn collects(
        &self,
        data: Seq<u8>,
        pos: u64,
        endian: Endian,
        args: Args,
        outcome: Result<((Out0, Out1, Out2), u64), BinError>,
    ) -> bool {
        match outcome {
            Ok((t, end)) => exists|m1: u64, m2: u64|
                #![trigger self.r0.collects(data, pos, endian, args, Ok((t.0, m1))), self.r1.collects(data, m1, endian, args, Ok((t.1, m2)))]
                self.r0.collects(data, pos, endian, args, Ok((t.0, m1)))
                    && self.r1.collects(data, m1, endian, args, Ok((t.1, m2)))
                    && self.r2.collects(data, m2, endian, args, Ok((t.2, end))),
            Err(e) => {
                ||| self.r0.collects(data, pos, endian, args, Err(e))
                ||| exists|v0: Out0, m1: u64|
                    #![trigger self.r0.collects(data, pos, endian, args, Ok((v0, m1)))]
                    self.r0.collects(data, pos, endian, args, Ok((v0, m1)))
                        && self.r1.collects(data, m1, endian, args, Err(e))
                ||| exists|v0: Out0, v1: Out1, m1: u64, m2: u64|
                    #![trigger self.r0.collects(data, pos, endian, args, Ok((v0, m1))), self.r1.collects(data, m1, endian, args, Ok((v1, m2)))]
                    self.r0.collects(data, pos, endian, args, Ok((v0, m1)))
                        && self.r1.collects(data, m1, endian, args, Ok((v1, m2)))
                        && self.r2.collects(data, m2, endian, args, Err(e))
            },
        }
    }

    fn collect_non_backtracking(
        &self,
        reader: &mut Cursor,
        endian: Endian,
        args: Args,
        token: BinReadCollectToken,
    ) -> (r: BinResult<(Out0, Out1, Out2)>) {
        let ghost data = reader@.data;
        let ghost p0 = reader@.pos;
        let t0 = match self.r0.read(reader, endian, args) {
            Ok(v) => v,
            Err(e) => {
                return Err(e);
            },
        };
        let ghost p1 = reader@.pos;
        assert(self.r0.collects(data, p0, endian, args, Ok((t0, p1))));
        let t1 = match self.r1.read(reader, endian, args) {
            Ok(v) => v,
            Err(e) => {
                let ghost o: Result<((Out0, Out1, Out2), u64), BinError> = Err(e);
                assert(o matches Err(x) && x == e);
                return Err(e);
            },
        };
        let ghost p2 = reader@.pos;
        assert(self.r1.collects(data, p1, endian, args, Ok((t1, p2))));
        let t2 = match self.r2.read(reader, endian, args) {
            Ok(v) => v,
            Err(e) => {
                let ghost o: Result<((Out0, Out1, Out2), u64), BinError> = Err(e);
                assert(o matches Err(x) && x == e);
                return Err(e);
            },
        };
        let ghost p3 = reader@.pos;
        assert(self.r2.collects(data, p2, endian, args, Ok((t2, p3))));
        let ghost t = (t0, t1, t2);
        assert(self.r0.collects(data, p0, endian, args, Ok((t.0, p1))));
        assert(self.r1.collects(data, p1, endian, args, Ok((t.1, p2))));
        assert(self.r2.collects(data, p2, endian, args, Ok((t.2, p3))));
        let ghost o: Result<((Out0, Out1, Out2), u64), BinError> = Ok((t, p3));
        assert(o matches Ok((x, y)) && x == t && y == p3);
        Ok((t0, t1, t2))
    }
}

impl<T0, T1, T2> BinReader for (T0, T1, T2) where
    T0: BinReader<Out = T0>,
    T1: BinReader<Args = T0::Args, Out = T1>,
    T2: BinReader<Args = T0::Args, Out = T2>,
    T0::Args: Copy,
 {
    type Args = T0::Args;
    type Out = (T0, T1, T2);
    type Reader = Tuple3Reader<T0::Reader, T1::Reader, T2::Reader>;

    open spec fn spec_reader() -> Tuple3Reader<T0::Reader, T1::Reader, T2::Reader> {
        Tuple3Reader { r0: T0::spec_reader(), r1: T1::spec_reader(), r2: T2::spec_reader() }
    }

    fn reader() -> (r: Tuple3Reader<T0::Reader, T1::Reader, T2::Reader>) {
        Tuple3Reader { r0: T0::reader(), r1: T1::reader(), r2: T2::reader() }
    }
}

/// Reads 4 values one after another, with the same arguments.
pub struct Tuple4Reader<R0, R1, R2, R3> {
    pub r0: R0,
    pub r1: R1,
    pub r2: R2,
    pub r3: R3,
}

impl<R0, R1, R2, R3, Args, Out0, Out1, Out2, Out3> BinReadCollect<Args, (Out0, Out1, Out2, Out3)> for Tuple4Reader<R0, R1, R2, R3> where
    R0: BinReadCollect<Args, Out0>,
    R1: BinReadCollect<Args, Out1>,
    R2: BinReadCollect<Args, Out2>,
    R3: BinReadCollect<Args, Out3>,
    Args: Copy,
 {
    open spec fn collect_wf(&self) -> bool {
        self.r0.collect_wf() && self.r1.collect_wf() && self.r2.collect_wf() && self.r3.collect_wf()
    }

    /// The values are read in order, each right after the one before.
    open spec fn collects(
        &self,
        data: Seq<u8>,
        pos: u64,
        endian: Endian,
        args: Args,
        outcome: Result<((Out0, Out1, Out2, Out3), u64), BinError>,
    ) -> bool {
        match outcome {
            Ok((t, end)) => exists|m1: u64, m2: u64, m3: u64|
                #![trigger self.r0.collects(data, pos, endian, args, Ok((t.0, m1))), self.r1.collects(data, m1, endian, args, Ok((t.1, m2))), self.r2.collects(data, m2, endian, args, Ok((t.2, m3)))]
                self.r0.collects(data, pos, endian, args, Ok((t.0, m1)))
                    && self.r1.collects(data, m1, endian, args, Ok((t.1, m2)))
                    && self.r2.collects(data, m2, endian, args, Ok((t.2, m3)))
                    && self.r3.collects(data, m3, endian, args, Ok((t.3, end))),
            Err(e) => {
                ||| self.r0.collects(data, pos, endian, args, Err(e))
                ||| exists|v0: Out0, m1: u64|
                    #![trigger self.r0.collects(data, pos, endian, args, Ok((v0, m1)))]
                    self.r0.collects(data, pos, endian, args, Ok((v0, m1)))
                        && self.r1.collects(data, m1, endian, args, Err(e))
                ||| exists|v0: Out0, v1: Out1, m1: u64, m2: u64|
                    #![trigger self.r0.collects(data, pos, endian, args, Ok((v0, m1))), self.r1.collects(data, m1, endian, args, Ok((v1, m2)))]
                    self.r0.collects(data, pos, endian, args, Ok((v0, m1)))
                        && self.r1.collects(data, m1, endian, args, Ok((v1, m2)))
                        && self.r2.collects(data, m2, endian, args, Err(e))
                ||| exists|v0: Out0, v1: Out1, v2: Out2, m1: u64, m2: u64, m3: u64|
                    #![trigger self.r0.collects(data, pos, endian, args, Ok((v0, m1))), self.r1.collects(data, m1, endian, args, Ok((v1, m2))), self.r2.collects(data, m2, endian, args, Ok((v2, m3)))]
                    self.r0.collects(data, pos, endian, args, Ok((v0, m1)))
                        && self.r1.collects(data, m1, endian, args, Ok((v1, m2)))
                        && self.r2.collects(data, m2, endian, args, Ok((v2, m3)))
                        && self.r3.collects(data, m3, endian, args, Err(e))
            },
        }
    }

    fn collect_non_backtracking(
        &self,
        reader: &mut Cursor,
        endian: Endian,
        args: Args,
        token: BinReadCollectToken,
    ) -> (r: BinResult<(Out0, Out1, Out2, Out3)>) {
        let ghost data = reader@.data;
        let ghost p0 = reader@.pos;
        let t0 = match self.r0.read(reader, endian, args) {
            Ok(v) => v,
            Err(e) => {
                return Err(e);
            },
        };
        let ghost p1 = reader@.pos;
        assert(self.r0.collects(data, p0, endian, args, Ok((t0, p1))));
        let t1 = match self.r1.read(reader, endian, args) {
            Ok(v) => v,
            Err(e) => {
                let ghost o: Result<((Out0, Out1, Out2, Out3), u64), BinError> = Err(e);
                assert(o matches Err(x) && x == e);
                return Err(e);
            },
        };
        let ghost p2 = reader@.pos;
        assert(self.r1.collects(data, p1, endian, args, Ok((t1, p2))));
        let t2 = match self.r2.read(reader, endian, args) {
            Ok(v) => v,
            Err(e) => {
                let ghost o: Result<((Out0, Out1, Out2, Out3), u64), BinError> = Err(e);
                assert(o matches Err(x) && x == e);
                return Err(e);
            },
        };
        let ghost p3 = reader@.pos;
        assert(self.r2.collects(data, p2, endian, args, Ok((t2, p3))));
        let t3 = match self.r3.read(reader, endian, args) {
            Ok(v) => v,
            Err(e) => {
                let ghost o: Result<((Out0, Out1, Out2, Out3), u64), BinError> = Err(e);
                assert(o matches Err(x) && x == e);
                return Err(e);
            },
        };
        let ghost p4 = reader@.pos;
        assert(self.r3.collects(data, p3, endian, args, Ok((t3, p4))));
        let ghost t = (t0, t1, t2, t3);
        assert(self.r0.collects(data, p0, endian, args, Ok((t.0, p1))));
        assert(self.r1.collects(data, p1, endian, args, Ok((t.1, p2))));
        assert(self.r2.collects(data, p2, endian, args, Ok((t.2, p3))));
        assert(self.r3.collects(data, p3, endian, args, Ok((t.3, p4))));
        let ghost o: Result<((Out0, Out1, Out2, Out3), u64), BinError> = Ok((t, p4));
        assert(o matches Ok((x, y)) && x == t && y == p4);
        Ok((t0, t1, t2, t3))
    }
}

impl<T0, T1, T2, T3> BinReader for (T0, T1, T2, T3) where
    T0: BinReader<Out = T0>,
    T1: BinReader<Args = T0::Args, Out = T1>,
    T2: BinReader<Args = T0::Args, Out = T2>,
    T3: BinReader<Args = T0::Args, Out = T3>,
    T0::Args: Copy,
 {
    type Args = T0::Args;
    type Out = (T0, T1, T2, T3);
    type Reader = Tuple4Reader<T0::Reader, T1::Reader, T2::Reader, T3::Reader>;

    open spec fn spec_reader() -> Tuple4Reader<T0::Reader, T1::Reader, T2::Reader, T3::Reader> {
        Tuple4Reader { r0: T0::spec_reader(), r1: T1::spec_reader(), r2: T2::spec_reader(), r3: T3::spec_reader() }
    }

    fn reader() -> (r: Tuple4Reader<T0::Reader, T1::Reader, T2::Reader, T3::Reader>) {
        Tuple4Reader { r0: T0::reader(), r1: T1::reader(), r2: T2::reader(), r3: T3::reader() }
    }
}

/// Reads 5 values one after another, with the same arguments.
pub struct Tuple5Reader<R0, R1, R2, R3, R4> {
    pub r0: R0,
    pub r1: R1,
    pub r2: R2,
    pub r3: R3,
    pub r4: R4,
}

impl<R0, R1, R2, R3, R4, Args, Out0, Out1, Out2, Out3, Out4> BinReadCollect<Args, (Out0, Out1, Out2, Out3, Out4)> for Tuple5Reader<R0, R1, R2, R3, R4> where
    R0: BinReadCollect<Args, Out0>,
    R1: BinReadCollect<Args, Out1>,
    R2: BinReadCollect<Args, Out2>,
    R3: BinReadCollect<Args, Out3>,
    R4: BinReadCollect<Args, Out4>,
    Args: Copy,
 {
    open spec fn collect_wf(&self) -> bool {
        self.r0.collect_wf() && self.r1.collect_wf() && self.r2.collect_wf() && self.r3.collect_wf() && self.r4.collect_wf()
    }

    /// The values are read in order, each right after the one before.
    open spec fn collects(
        &self,
        data: Seq<u8>,
        pos: u64,
        endian: Endian,
        args: Args,
        outcome: Result<((Out0, Out1, Out2, Out3, Out4), u64), BinError>,
    ) -> bool {
        match outcome {
            Ok((t, end)) => exists|m1: u64, m2: u64, m3: u64, m4: u64|
                #![trigger self.r0.collects(data, pos, endian, args, Ok((t.0, m1))), self.r1.collects(data, m1, endian, args, Ok((t.1, m2))), self.r2.collects(data, m2, endian, args, Ok((t.2, m3))), self.r3.collects(data, m3, endian, args, Ok((t.3, m4)))]
                self.r0.collects(data, pos, endian, args, Ok((t.0, m1)))
                    && self.r1.collects(data, m1, endian, args, Ok((t.1, m2)))
                    && self.r2.collects(data, m2, endian, args, Ok((t.2, m3)))
                    && self.r3.collects(data, m3, endian, args, Ok((t.3, m4)))
                    && self.r4.collects(data, m4, endian, args, Ok((t.4, end))),
            Err(e) => {
                ||| self.r0.collects(data, pos, endian, args, Err(e))
                ||| exists|v0: Out0, m1: u64|
                    #![trigger self.r0.collects(data, pos, endian, args, Ok((v0, m1)))]
                    self.r0.collects(data, pos, endian, args, Ok((v0, m1)))
                        && self.r1.collects(data, m1, endian, args, Err(e))
                ||| exists|v0: Out0, v1: Out1, m1: u64, m2: u64|
                    #![trigger self.r0.collects(data, pos, endian, args, Ok((v0, m1))), self.r1.collects(data, m1, endian, args, Ok((v1, m2)))]
                    self.r0.collects(data, pos, endian, args, Ok((v0, m1)))
                        && self.r1.collects(data, m1, endian, args, Ok((v1, m2)))
                        && self.r2.collects(data, m2, endian, args, Err(e))
                ||| exists|v0: Out0, v1: Out1, v2: Out2, m1: u64, m2: u64, m3: u64|
                    #![trigger self.r0.collects(data, pos, endian, args, Ok((v0, m1))), self.r1.collects(data, m1, endian, args, Ok((v1, m2))), self.r2.collects(data, m2, endian, args, Ok((v2, m3)))]
                    self.r0.collects(data, pos, endian, args, Ok((v0, m1)))
                        && self.r1.collects(data, m1, endian, args, Ok((v1, m2)))
                        && self.r2.collects(data, m2, endian, args, Ok((v2, m3)))
                        && self.r3.collects(data, m3, endian, args, Err(e))
                ||| exists|v0: Out0, v1: Out1, v2: Out2, v3: Out3, m1: u64, m2: u64, m3: u64, m4: u64|
                    #![trigger self.r0.collects(data, pos, endian, args, Ok((v0, m1))), self.r1.collects(data, m1, endian, args, Ok((v1, m2))), self.r2.collects(data, m2, endian, args, Ok((v2, m3))), self.r3.collects(data, m3, endian, args, Ok((v3, m4)))]
                    self.r0.collects(data, pos, endian, args, Ok((v0, m1)))
                        && self.r1.collects(data, m1, endian, args, Ok((v1, m2)))
                        && self.r2.collects(data, m2, endian, args, Ok((v2, m3)))
                        && self.r3.collects(data, m3, endian, args, Ok((v3, m4)))
                        && self.r4.collects(data, m4, endian, args, Err(e))
            },
        }
    }

    fn collect_non_backtracking(
        &self,
        reader: &mut Cursor,
        endian: Endian,
        args: Args,
        token: BinReadCollectToken,
    ) -> (r: BinResult<(Out0, Out1, Out2, Out3, Out4)>) {
        let ghost data = reader@.data;
        let ghost p0 = reader@.pos;
        let t0 = match self.r0.read(reader, endian, args) {
            Ok(v) => v,
            Err(e) => {
                return Err(e);
            },
        };
        let ghost p1 = reader@.pos;
        assert(self.r0.collects(data, p0, endian, args, Ok((t0, p1))));
        let t1 = match self.r1.read(reader, endian, args) {
            Ok(v) => v,
            Err(e) => {
                let ghost o: Result<((Out0, Out1, Out2, Out3, Out4), u64), BinError> = Err(e);
                assert(o matches Err(x) && x == e);
                return Err(e);
            },
        };
        let ghost p2 = reader@.pos;
        assert(self.r1.collects(data, p1, endian, args, Ok((t1, p2))));
        let t2 = match self.r2.read(reader, endian, args) {
            Ok(v) => v,
            Err(e) => {
                let ghost o: Result<((Out0, Out1, Out2, Out3, Out4), u64), BinError> = Err(e);
                assert(o matches Err(x) && x == e);
                return Err(e);
            },
        };
        let ghost p3 = reader@.pos;
        assert(self.r2.collects(data, p2, endian, args, Ok((t2, p3))));
        let t3 = match self.r3.read(reader, endian, args) {
            Ok(v) => v,
            Err(e) => {
                let ghost o: Result<((Out0, Out1, Out2, Out3, Out4), u64), BinError> = Err(e);
                assert(o matches Err(x) && x == e);
                return Err(e);
            },
        };
        let ghost p4 = reader@.pos;
        assert(self.r3.collects(data, p3, endian, args, Ok((t3, p4))));
        let t4 = match self.r4.read(reader, endian, args) {
            Ok(v) => v,
            Err(e) => {
                let ghost o: Result<((Out0, Out1, Out2, Out3, Out4), u64), BinError> = Err(e);
                assert(o matches Err(x) && x == e);
                return Err(e);
            },
        };
        let ghost p5 = reader@.pos;
        assert(self.r4.collects(data, p4, endian, args, Ok((t4, p5))));
        let ghost t = (t0, t1, t2, t3, t4);
        assert(self.r0.collects(data, p0, endian, args, Ok((t.0, p1))));
        assert(self.r1.collects(data, p1, endian, args, Ok((t.1, p2))));
        assert(self.r2.collects(data, p2, endian, args, Ok((t.2, p3))));
        assert(self.r3.collects(data, p3, endian, args, Ok((t.3, p4))));
        assert(self.r4.collects(data, p4, endian, args, Ok((t.4, p5))));
        let ghost o: Result<((Out0, Out1, Out2, Out3, Out4), u64), BinError> = Ok((t, p5));
        assert(o matches Ok((x, y)) && x == t && y == p5);
        Ok((t0, t1, t2, t3, t4))
    }
}

impl<T0, T1, T2, T3, T4> BinReader for (T0, T1, T2, T3, T4) where
    T0: BinReader<Out = T0>,
    T1: BinReader<Args = T0::Args, Out = T1>,
    T2: BinReader<Args = T0::Args, Out = T2>,
    T3: BinReader<Args = T0::Args, Out = T3>,
    T4: BinReader<Args = T0::Args, Out = T4>,
    T0::Args: Copy,
 {
    type Args = T0::Args;
    type Out = (T0, T1, T2, T3, T4);
    type Reader = Tuple5Reader<T0::Reader, T1::Reader, T2::Reader, T3::Reader, T4::Reader>;

    open spec fn spec_reader() -> Tuple5Reader<T0::Reader, T1::Reader, T2::Reader, T3::Reader, T4::Reader> {
        Tuple5Reader { r0: T0::spec_reader(), r1: T1::spec_reader(), r2: T2::spec_reader(), r3: T3::spec_reader(), r4: T4::spec_reader() }
    }

    fn reader() -> (r: Tuple5Reader<T0::Reader, T1::Reader, T2::Reader, T3::Reader, T4::Reader>) {
        Tuple5Reader { r0: T0::reader(), r1: T1::reader(), r2: T2::reader(), r3: T3::reader(), r4: T4::reader() }
    }
}

/// Reads 6 values one after another, with the same arguments.
pub struct Tuple6Reader<R0, R1, R2, R3, R4, R5> {
    pub r0: R0,
    pub r1: R1,
    pub r2: R2,
    pub r3: R3,
    pub r4: R4,
    pub r5: R5,
}

impl<R0, R1, R2, R3, R4, R5, Args, Out0, Out1, Out2, Out3, Out4, Out5> BinReadCollect<Args, (Out0, Out1, Out2, Out3, Out4, Out5)> for Tuple6Reader<R0, R1, R2, R3, R4, R5> where
    R0: BinReadCollect<Args, Out0>,
    R1: BinReadCollect<Args, Out1>,
    R2: BinReadCollect<Args, Out2>,
    R3: BinReadCollect<Args, Out3>,
    R4: BinReadCollect<Args, Out4>,
    R5: BinReadCollect<Args, Out5>,
    Args: Copy,
 {
    open spec fn collect_wf(&self) -> bool {
        self.r0.collect_wf() && self.r1.collect_wf() && self.r2.collect_wf() && self.r3.collect_wf() && self.r4.collect_wf() && self.r5.collect_wf()
    }

    /// The values are read in order, each right after the one before.
    open spec fn collects(
        &self,
        data: Seq<u8>,
        pos: u64,
        endian: Endian,
        args: Args,
        outcome: Result<((Out0, Out1, Out2, Out3, Out4, Out5), u64), BinError>,
    ) -> bool {
        match outcome {
            Ok((t, end)) => exists|m1: u64, m2: u64, m3: u64, m4: u64, m5: u64|
                #![trigger self.r0.collects(data, pos, endian, args, Ok((t.0, m1))), self.r1.collects(data, m1, endian, args, Ok((t.1, m2))), self.r2.collects(data, m2, endian, args, Ok((t.2, m3))), self.r3.collects(data, m3, endian, args, Ok((t.3, m4))), self.r4.collects(data, m4, endian, args, Ok((t.4, m5)))]
                self.r0.collects(data, pos, endian, args, Ok((t.0, m1)))
                    && self.r1.collects(data, m1, endian, args, Ok((t.1, m2)))
                    && self.r2.collects(data, m2, endian, args, Ok((t.2, m3)))
                    && self.r3.collects(data, m3, endian, args, Ok((t.3, m4)))
                    && self.r4.collects(data, m4, endian, args, Ok((t.4, m5)))
                    && self.r5.collects(data, m5, endian, args, Ok((t.5, end))),
            Err(e) => {
                ||| self.r0.collects(data, pos, endian, args, Err(e))
                ||| exists|v0: Out0, m1: u64|
                    #![trigger self.r0.collects(data, pos, endian, args, Ok((v0, m1)))]
                    self.r0.collects(data, pos, endian, args, Ok((v0, m1)))
                        && self.r1.collects(data, m1, endian, args, Err(e))
                ||| exists|v0: Out0, v1: Out1, m1: u64, m2: u64|
                    #![trigger self.r0.collects(data, pos, endian, args, Ok((v0, m1))), self.r1.collects(data, m1, endian, args, Ok((v1, m2)))]
                    self.r0.collects(data, pos, endian, args, Ok((v0, m1)))
                        && self.r1.collects(data, m1, endian, args, Ok((v1, m2)))
                        && self.r2.collects(data, m2, endian, args, Err(e))
                ||| exists|v0: Out0, v1: Out1, v2: Out2, m1: u64, m2: u64, m3: u64|
                    #![trigger self.r0.collects(data, pos, endian, args, Ok((v0, m1))), self.r1.collects(data, m1, endian, args, Ok((v1, m2))), self.r2.collects(data, m2, endian, args, Ok((v2, m3)))]
                    self.r0.collects(data, pos, endian, args, Ok((v0, m1)))
                        && self.r1.collects(data, m1, endian, args, Ok((v1, m2)))
                        && self.r2.collects(data, m2, endian, args, Ok((v2, m3)))
                        && self.r3.collects(data, m3, endian, args, Err(e))
                ||| exists|v0: Out0, v1: Out1, v2: Out2, v3: Out3, m1: u64, m2: u64, m3: u64, m4: u64|
                    #![trigger self.r0.collects(data, pos, endian, args, Ok((v0, m1))), self.r1.collects(data, m1, endian, args, Ok((v1, m2))), self.r2.collects(data, m2, endian, args, Ok((v2, m3))), self.r3.collects(data, m3, endian, args, Ok((v3, m4)))]
                    self.r0.collects(data, pos, endian, args, Ok((v0, m1)))
                        && self.r1.collects(data, m1, endian, args, Ok((v1, m2)))
                        && self.r2.collects(data, m2, endian, args, Ok((v2, m3)))
                        && self.r3.collects(data, m3, endian, args, Ok((v3, m4)))
                        && self.r4.collects(data, m4, endian, args, Err(e))
                ||| exists|v0: Out0, v1: Out1, v2: Out2, v3: Out3, v4: Out4, m1: u64, m2: u64, m3: u64, m4: u64, m5: u64|
                    #![trigger self.r0.collects(data, pos, endian, args, Ok((v0, m1))), self.r1.collects(data, m1, endian, args, Ok((v1, m2))), self.r2.collects(data, m2, endian, args, Ok((v2, m3))), self.r3.collects(data, m3, endian, args, Ok((v3, m4))), self.r4.collects(data, m4, endian, args, Ok((v4, m5)))]
                    self.r0.collects(data, pos, endian, args, Ok((v0, m1)))
                        && self.r1.collects(data, m1, endian, args, Ok((v1, m2)))
                        && self.r2.collects(data, m2, endian, args, Ok((v2, m3)))
                        && self.r3.collects(data, m3, endian, args, Ok((v3, m4)))
                        && self.r4.collects(data, m4, endian, args, Ok((v4, m5)))
                        && self.r5.collects(data, m5, endian, args, Err(e))
            },
        }
    }

    fn collect_non_backtracking(
        &self,
        reader: &mut Cursor,
        endian: Endian,
        args: Args,
        token: BinReadCollectToken,
    ) -> (r: BinResult<(Out0, Out1, Out2, Out3, Out4, Out5)>) {
        let ghost data = reader@.data;
        let ghost p0 = reader@.pos;
        let t0 = match self.r0.read(reader, endian, args) {
            Ok(v) => v,
            Err(e) => {
                return Err(e);
            },
        };
        let ghost p1 = reader@.pos;
        assert(self.r0.collects(data, p0, endian, args, Ok((t0, p1))));
        let t1 = match self.r1.read(reader, endian, args) {
            Ok(v) => v,
            Err(e) => {
                let ghost o: Result<((Out0, Out1, Out2, Out3, Out4, Out5), u64), BinError> = Err(e);
                assert(o matches Err(x) && x == e);
                return Err(e);
            },
        };
        let ghost p2 = reader@.pos;
        assert(self.r1.collects(data, p1, endian, args, Ok((t1, p2))));
        let t2 = match self.r2.read(reader, endian, args) {
            Ok(v) => v,
            Err(e) => {
                let ghost o: Result<((Out0, Out1, Out2, Out3, Out4, Out5), u64), BinError> = Err(e);
                assert(o matches Err(x) && x == e);
                return Err(e);
            },
        };
        let ghost p3 = reader@.pos;
        assert(self.r2.collects(data, p2, endian, args, Ok((t2, p3))));
        let t3 = match self.r3.read(reader, endian, args) {
            Ok(v) => v,
            Err(e) => {
                let ghost o: Result<((Out0, Out1, Out2, Out3, Out4, Out5), u64), BinError> = Err(e);
                assert(o matches Err(x) && x == e);
                return Err(e);
            },
        };
        let ghost p4 = reader@.pos;
        assert(self.r3.collects(data, p3, endian, args, Ok((t3, p4))));
        let t4 = match self.r4.read(reader, endian, args) {
            Ok(v) => v,
            Err(e) => {
                let ghost o: Result<((Out0, Out1, Out2, Out3, Out4, Out5), u64), BinError> = Err(e);
                assert(o matches Err(x) && x == e);
                return Err(e);
            },
        };
        let ghost p5 = reader@.pos;
        assert(self.r4.collects(data, p4, endian, args, Ok((t4, p5))));
        let t5 = match self.r5.read(reader, endian, args) {
            Ok(v) => v,
            Err(e) => {
                let ghost o: Result<((Out0, Out1, Out2, Out3, Out4, Out5), u64), BinError> = Err(e);
                assert(o matches Err(x) && x == e);
                return Err(e);
            },
        };
        let ghost p6 = reader@.pos;
        assert(self.r5.collects(data, p5, endian, args, Ok((t5, p6))));
        let ghost t = (t0, t1, t2, t3, t4, t5);
        assert(self.r0.collects(data, p0, endian, args, Ok((t.0, p1))));
        assert(self.r1.collects(data, p1, endian, args, Ok((t.1, p2))));
        assert(self.r2.collects(data, p2, endian, args, Ok((t.2, p3))));
        assert(self.r3.collects(data, p3, endian, args, Ok((t.3, p4))));
        assert(self.r4.collects(data, p4, endian, args, Ok((t.4, p5))));
        assert(self.r5.collects(data, p5, endian, args, Ok((t.5, p6))));
        let ghost o: Result<((Out0, Out1, Out2, Out3, Out4, Out5), u64), BinError> = Ok((t, p6));
        assert(o matches Ok((x, y)) && x == t && y == p6);
        Ok((t0, t1, t2, t3, t4, t5))
    }
}

impl<T0, T1, T2, T3, T4, T5> BinReader for (T0, T1, T2, T3, T4, T5) where
    T0: BinReader<Out = T0>,
    T1: BinReader<Args = T0::Args, Out = T1>,
    T2: BinReader<Args = T0::Args, Out = T2>,
    T3: BinReader<Args = T0::Args, Out = T3>,
    T4: BinReader<Args = T0::Args, Out = T4>,
    T5: BinReader<Args = T0::Args, Out = T5>,
    T0::Args: Copy,
 {
    type Args = T0::Args;
    type Out = (T0, T1, T2, T3, T4, T5);
    type Reader = Tuple6Reader<T0::Reader, T1::Reader, T2::Reader, T3::Reader, T4::Reader, T5::Reader>;

    open spec fn spec_reader() -> Tuple6Reader<T0::Reader, T1::Reader, T2::Reader, T3::Reader, T4::Reader, T5::Reader> {
        Tuple6Reader { r0: T0::spec_reader(), r1: T1::spec_reader(), r2: T2::spec_reader(), r3: T3::spec_reader(), r4: T4::spec_reader(), r5: T5::spec_reader() }
    }

    fn reader() -> (r: Tuple6Reader<T0::Reader, T1::Reader, T2::Reader, T3::Reader, T4::Reader, T5::Reader>) {
        Tuple6Reader { r0: T0::reader(), r1: T1::reader(), r2: T2::reader(), r3: T3::reader(), r4: T4::reader(), r5: T5::reader() }
    }
}

/// Reads 7 values one after another, with the same arguments.
pub struct Tuple7Reader<R0, R1, R2, R3, R4, R5, R6> {
    pub r0: R0,
    pub r1: R1,
    pub r2: R2,
    pub r3: R3,
    pub r4: R4,
    pub r5: R5,
    pub r6: R6,
}

impl<R0, R1, R2, R3, R4, R5, R6, Args, Out0, Out1, Out2, Out3, Out4, Out5, Out6> BinReadCollect<Args, (Out0, Out1, Out2, Out3, Out4, Out5, Out6)> for Tuple7Reader<R0, R1, R2, R3, R4, R5, R6> where
    R0: BinReadCollect<Args, Out0>,
    R1: BinReadCollect<Args, Out1>,
    R2: BinReadCollect<Args, Out2>,
    R3: BinReadCollect<Args, Out3>,
    R4: BinReadCollect<Args, Out4>,
    R5: BinReadCollect<Args, Out5>,
    R6: BinReadCollect<Args, Out6>,
    Args: Copy,
 {
    open spec fn collect_wf(&self) -> bool {
        self.r0.collect_wf() && self.r1.collect_wf() && self.r2.collect_wf() && self.r3.collect_wf() && self.r4.collect_wf() && self.r5.collect_wf() && self.r6.collect_wf()
    }

    /// The values are read in order, each right after the one before.
    open spec fn collects(
        &self,
        data: Seq<u8>,
        pos: u64,
        endian: Endian,
        args: Args,
        outcome: Result<((Out0, Out1, Out2, Out3, Out4, Out5, Out6), u64), BinError>,
    ) -> bool {
        match outcome {
            Ok((t, end)) => exists|m1: u64, m2: u64, m3: u64, m4: u64, m5: u64, m6: u64|
                #![trigger self.r0.collects(data, pos, endian, args, Ok((t.0, m1))), self.r1.collects(data, m1, endian, args, Ok((t.1, m2))), self.r2.collects(data, m2, endian, args, Ok((t.2, m3))), self.r3.collects(data, m3, endian, args, Ok((t.3, m4))), self.r4.collects(data, m4, endian, args, Ok((t.4, m5))), self.r5.collects(data, m5, endian, args, Ok((t.5, m6)))]
                self.r0.collects(data, pos, endian, args, Ok((t.0, m1)))
                    && self.r1.collects(data, m1, endian, args, Ok((t.1, m2)))
                    && self.r2.collects(data, m2, endian, args, Ok((t.2, m3)))
                    && self.r3.collects(data, m3, endian, args, Ok((t.3, m4)))
                    && self.r4.collects(data, m4, endian, args, Ok((t.4, m5)))
                    && self.r5.collects(data, m5, endian, args, Ok((t.5, m6)))
                    && self.r6.collects(data, m6, endian, args, Ok((t.6, end))),
            Err(e) => {
                ||| self.r0.collects(data, pos, endian, args, Err(e))
                ||| exists|v0: Out0, m1: u64|
                    #![trigger self.r0.collects(data, pos, endian, args, Ok((v0, m1)))]
                    self.r0.collects(data, pos, endian, args, Ok((v0, m1)))
                        && self.r1.collects(data, m1, endian, args, Err(e))
                ||| exists|v0: Out0, v1: Out1, m1: u64, m2: u64|
                    #![trigger self.r0.collects(data, pos, endian, args, Ok((v0, m1))), self.r1.collects(data, m1, endian, args, Ok((v1, m2)))]
                    self.r0.collects(data, pos, endian, args, Ok((v0, m1)))
                        && self.r1.collects(data, m1, endian, args, Ok((v1, m2)))
                        && self.r2.collects(data, m2, endian, args, Err(e))
                ||| exists|v0: Out0, v1: Out1, v2: Out2, m1: u64, m2: u64, m3: u64|
                    #![trigger self.r0.collects(data, pos, endian, args, Ok((v0, m1))), self.r1.collects(data, m1, endian, args, Ok((v1, m2))), self.r2.collects(data, m2, endian, args, Ok((v2, m3)))]
                    self.r0.collects(data, pos, endian, args, Ok((v0, m1)))
                        && self.r1.collects(data, m1, endian, args, Ok((v1, m2)))
                        && self.r2.collects(data, m2, endian, args, Ok((v2, m3)))
                        && self.r3.collects(data, m3, endian, args, Err(e))
                ||| exists|v0: Out0, v1: Out1, v2: Out2, v3: Out3, m1: u64, m2: u64, m3: u64, m4: u64|
                    #![trigger self.r0.collects(data, pos, endian, args, Ok((v0, m1))), self.r1.collects(data, m1, endian, args, Ok((v1, m2))), self.r2.collects(data, m2, endian, args, Ok((v2, m3))), self.r3.collects(data, m3, endian, args, Ok((v3, m4)))]
                    self.r0.collects(data, pos, endian, args, Ok((v0, m1)))
                        && self.r1.collects(data, m1, endian, args, Ok((v1, m2)))
                        && self.r2.collects(data, m2, endian, args, Ok((v2, m3)))
                        && self.r3.collects(data, m3, endian, args, Ok((v3, m4)))
                        && self.r4.collects(data, m4, endian, args, Err(e))
                ||| exists|v0: Out0, v1: Out1, v2: Out2, v3: Out3, v4: Out4, m1: u64, m2: u64, m3: u64, m4: u64, m5: u64|
                    #![trigger self.r0.collects(data, pos, endian, args, Ok((v0, m1))), self.r1.collects(data, m1, endian, args, Ok((v1, m2))), self.r2.collects(data, m2, endian, args, Ok((v2, m3))), self.r3.collects(data, m3, endian, args, Ok((v3, m4))), self.r4.collects(data, m4, endian, args, Ok((v4, m5)))]
                    self.r0.collects(data, pos, endian, args, Ok((v0, m1)))
                        && self.r1.collects(data, m1, endian, args, Ok((v1, m2)))
                        && self.r2.collects(data, m2, endian, args, Ok((v2, m3)))
                        && self.r3.collects(data, m3, endian, args, Ok((v3, m4)))
                        && self.r4.collects(data, m4, endian, args, Ok((v4, m5)))
                        && self.r5.collects(data, m5, endian, args, Err(e))
                ||| exists|v0: Out0, v1: Out1, v2: Out2, v3: Out3, v4: Out4, v5: Out5, m1: u64, m2: u64, m3: u64, m4: u64, m5: u64, m6: u64|
                    #![trigger self.r0.collects(data, pos, endian, args, Ok((v0, m1))), self.r1.collects(data, m1, endian, args, Ok((v1, m2))), self.r2.collects(data, m2, endian, args, Ok((v2, m3))), self.r3.collects(data, m3, endian, args, Ok((v3, m4))), self.r4.collects(data, m4, endian, args, Ok((v4, m5))), self.r5.collects(data, m5, endian, args, Ok((v5, m6)))]
                    self.r0.collects(data, pos, endian, args, Ok((v0, m1)))
                        && self.r1.collects(data, m1, endian, args, Ok((v1, m2)))
                        && self.r2.collects(data, m2, endian, args, Ok((v2, m3)))
                        && self.r3.collects(data, m3, endian, args, Ok((v3, m4)))
                        && self.r4.collects(data, m4, endian, args, Ok((v4, m5)))
                        && self.r5.collects(data, m5, endian, args, Ok((v5, m6)))
                        && self.r6.collects(data, m6, endian, args, Err(e))
            },
        }
    }

    fn collect_non_backtracking(
        &self,
        reader: &mut Cursor,
        endian: Endian,
        args: Args,
        token: BinReadCollectToken,
    ) -> (r: BinResult<(Out0, Out1, Out2, Out3, Out4, Out5, Out6)>) {
        let ghost data = reader@.data;
        let ghost p0 = reader@.pos;
        let t0 = match self.r0.read(reader, endian, args) {
            Ok(v) => v,
            Err(e) => {
                return Err(e);
            },
        };
        let ghost p1 = reader@.pos;
        assert(self.r0.collects(data, p0, endian, args, Ok((t0, p1))));
        let t1 = match self.r1.read(reader, endian, args) {
            Ok(v) => v,
            Err(e) => {
                let ghost o: Result<((Out0, Out1, Out2, Out3, Out4, Out5, Out6), u64), BinError> = Err(e);
                assert(o matches Err(x) && x == e);
                return Err(e);
            },
        };
        let ghost p2 = reader@.pos;
        assert(self.r1.collects(data, p1, endian, args, Ok((t1, p2))));
        let t2 = match self.r2.read(reader, endian, args) {
            Ok(v) => v,
            Err(e) => {
                let ghost o: Result<((Out0, Out1, Out2, Out3, Out4, Out5, Out6), u64), BinError> = Err(e);
                assert(o matches Err(x) && x == e);
                return Err(e);
            },
        };
        let ghost p3 = reader@.pos;
        assert(self.r2.collects(data, p2, endian, args, Ok((t2, p3))));
        let t3 = match self.r3.read(reader, endian, args) {
            Ok(v) => v,
            Err(e) => {
                let ghost o: Result<((Out0, Out1, Out2, Out3, Out4, Out5, Out6), u64), BinError> = Err(e);
                assert(o matches Err(x) && x == e);
                return Err(e);
            },
        };
        let ghost p4 = reader@.pos;
        assert(self.r3.collects(data, p3, endian, args, Ok((t3, p4))));
        let t4 = match self.r4.read(reader, endian, args) {
            Ok(v) => v,
            Err(e) => {
                let ghost o: Result<((Out0, Out1, Out2, Out3, Out4, Out5, Out6), u64), BinError> = Err(e);
                assert(o matches Err(x) && x == e);
                return Err(e);
            },
        };
        let ghost p5 = reader@.pos;
        assert(self.r4.collects(data, p4, endian, args, Ok((t4, p5))));
        let t5 = match self.r5.read(reader, endian, args) {
            Ok(v) => v,
            Err(e) => {
                let ghost o: Result<((Out0, Out1, Out2, Out3, Out4, Out5, Out6), u64), BinError> = Err(e);
                assert(o matches Err(x) && x == e);
                return Err(e);
            },
        };
        let ghost p6 = reader@.pos;
        assert(self.r5.collects(data, p5, endian, args, Ok((t5, p6))));
        let t6 = match self.r6.read(reader, endian, args) {
            Ok(v) => v,
            Err(e) => {
                let ghost o: Result<((Out0, Out1, Out2, Out3, Out4, Out5, Out6), u64), BinError> = Err(e);
                assert(o matches Err(x) && x == e);
                return Err(e);
            },
        };
        let ghost p7 = reader@.pos;
        assert(self.r6.collects(data, p6, endian, args, Ok((t6, p7))));
        let ghost t = (t0, t1, t2, t3, t4, t5, t6);
        assert(self.r0.collects(data, p0, endian, args, Ok((t.0, p1))));
        assert(self.r1.collects(data, p1, endian, args, Ok((t.1, p2))));
        assert(self.r2.collects(data, p2, endian, args, Ok((t.2, p3))));
        assert(self.r3.collects(data, p3, endian, args, Ok((t.3, p4))));
        assert(self.r4.collects(data, p4, endian, args, Ok((t.4, p5))));
        assert(self.r5.collects(data, p5, endian, args, Ok((t.5, p6))));
        assert(self.r6.collects(data, p6, endian, args, Ok((t.6, p7))));
        let ghost o: Result<((Out0, Out1, Out2, Out3, Out4, Out5, Out6), u64), BinError> = Ok((t, p7));
        assert(o matches Ok((x, y)) && x == t && y == p7);
        Ok((t0, t1, t2, t3, t4, t5, t6))
    }
}

impl<T0, T1, T2, T3, T4, T5, T6> BinReader for (T0, T1, T2, T3, T4, T5, T6) where
    T0: BinReader<Out = T0>,
    T1: BinReader<Args = T0::Args, Out = T1>,
    T2: BinReader<Args = T0::Args, Out = T2>,
    T3: BinReader<Args = T0::Args, Out = T3>,
    T4: BinReader<Args = T0::Args, Out = T4>,
    T5: BinReader<Args = T0::Args, Out = T5>,
    T6: BinReader<Args = T0::Args, Out = T6>,
    T0::Args: Copy,
 {
    type Args = T0::Args;
    type Out = (T0, T1, T2, T3, T4, T5, T6);
    type Reader = Tuple7Reader<T0::Reader, T1::Reader, T2::Reader, T3::Reader, T4::Reader, T5::Reader, T6::Reader>;

    open spec fn spec_reader() -> Tuple7Reader<T0::Reader, T1::Reader, T2::Reader, T3::Reader, T4::Reader, T5::Reader, T6::Reader> {
        Tuple7Reader { r0: T0::spec_reader(), r1: T1::spec_reader(), r2: T2::spec_reader(), r3: T3::spec_reader(), r4: T4::spec_reader(), r5: T5::spec_reader(), r6: T6::spec_reader() }
    }

    fn reader() -> (r: Tuple7Reader<T0::Reader, T1::Reader, T2::Reader, T3::Reader, T4::Reader, T5::Reader, T6::Reader>) {
        Tuple7Reader { r0: T0::reader(), r1: T1::reader(), r2: T2::reader(), r3: T3::reader(), r4: T4::reader(), r5: T5::reader(), r6: T6::reader() }
    }
}

/// Reads 8 values one after another, with the same arguments.
pub struct Tuple8Reader<R0, R1, R2, R3, R4, R5, R6, R7> {
    pub r0: R0,
    pub r1: R1,
    pub r2: R2,
    pub r3: R3,
    pub r4: R4,
    pub r5: R5,
    pub r6: R6,
    pub r7: R7,
}

impl<R0, R1, R2, R3, R4, R5, R6, R7, Args, Out0, Out1, Out2, Out3, Out4, Out5, Out6, Out7> BinReadCollect<Args, (Out0, Out1, Out2, Out3, Out4, Out5, Out6, Out7)> for Tuple8Reader<R0, R1, R2, R3, R4, R5, R6, R7> where
    R0: BinReadCollect<Args, Out0>,
    R1: BinReadCollect<Args, Out1>,
    R2: BinReadCollect<Args, Out2>,
    R3: BinReadCollect<Args, Out3>,
    R4: BinReadCollect<Args, Out4>,
    R5: BinReadCollect<Args, Out5>,
    R6: BinReadCollect<Args, Out6>,
    R7: BinReadCollect<Args, Out7>,
    Args: Copy,
 {
    open spec fn collect_wf(&self) -> bool {
        self.r0.collect_wf() && self.r1.collect_wf() && self.r2.collect_wf() && self.r3.collect_wf() && self.r4.collect_wf() && self.r5.collect_wf() && self.r6.collect_wf() && self.r7.collect_wf()
    }

    /// The values are read in order, each right after the one before.
    open spec fn collects(
        &self,
        data: Seq<u8>,
        pos: u64,
        endian: Endian,
        args: Args,
        outcome: Result<((Out0, Out1, Out2, Out3, Out4, Out5, Out6, Out7), u64), BinError>,
    ) -> bool {
        match outcome {
            Ok((t, end)) => exists|m1: u64, m2: u64, m3: u64, m4: u64, m5: u64, m6: u64, m7: u64|
                #![trigger self.r0.collects(data, pos, endian, args, Ok((t.0, m1))), self.r1.collects(data, m1, endian, args, Ok((t.1, m2))), self.r2.collects(data, m2, endian, args, Ok((t.2, m3))), self.r3.collects(data, m3, endian, args, Ok((t.3, m4))), self.r4.collects(data, m4, endian, args, Ok((t.4, m5))), self.r5.collects(data, m5, endian, args, Ok((t.5, m6))), self.r6.collects(data, m6, endian, args, Ok((t.6, m7)))]
                self.r0.collects(data, pos, endian, args, Ok((t.0, m1)))
                    && self.r1.collects(data, m1, endian, args, Ok((t.1, m2)))
                    && self.r2.collects(data, m2, endian, args, Ok((t.2, m3)))
                    && self.r3.collects(data, m3, endian, args, Ok((t.3, m4)))
                    && self.r4.collects(data, m4, endian, args, Ok((t.4, m5)))
                    && self.r5.collects(data, m5, endian, args, Ok((t.5, m6)))
                    && self.r6.collects(data, m6, endian, args, Ok((t.6, m7)))
                    && self.r7.collects(data, m7, endian, args, Ok((t.7, end))),
            Err(e) => {
                ||| self.r0.collects(data, pos, endian, args, Err(e))
                ||| exists|v0: Out0, m1: u64|
                    #![trigger self.r0.collects(data, pos, endian, args, Ok((v0, m1)))]
                    self.r0.collects(data, pos, endian, args, Ok((v0, m1)))
                        && self.r1.collects(data, m1, endian, args, Err(e))
                ||| exists|v0: Out0, v1: Out1, m1: u64, m2: u64|
                    #![trigger self.r0.collects(data, pos, endian, args, Ok((v0, m1))), self.r1.collects(data, m1, endian, args, Ok((v1, m2)))]
                    self.r0.collects(data, pos, endian, args, Ok((v0, m1)))
                        && self.r1.collects(data, m1, endian, args, Ok((v1, m2)))
                        && self.r2.collects(data, m2, endian, args, Err(e))
                ||| exists|v0: Out0, v1: Out1, v2: Out2, m1: u64, m2: u64, m3: u64|
                    #![trigger self.r0.collects(data, pos, endian, args, Ok((v0, m1))), self.r1.collects(data, m1, endian, args, Ok((v1, m2))), self.r2.collects(data, m2, endian, args, Ok((v2, m3)))]
                    self.r0.collects(data, pos, endian, args, Ok((v0, m1)))
                        && self.r1.collects(data, m1, endian, args, Ok((v1, m2)))
                        && self.r2.collects(data, m2, endian, args, Ok((v2, m3)))
                        && self.r3.collects(data, m3, endian, args, Err(e))
                ||| exists|v0: Out0, v1: Out1, v2: Out2, v3: Out3, m1: u64, m2: u64, m3: u64, m4: u64|
                    #![trigger self.r0.collects(data, pos, endian, args, Ok((v0, m1))), self.r1.collects(data, m1, endian, args, Ok((v1, m2))), self.r2.collects(data, m2, endian, args, Ok((v2, m3))), self.r3.collects(data, m3, endian, args, Ok((v3, m4)))]
                    self.r0.collects(data, pos, endian, args, Ok((v0, m1)))
                        && self.r1.collects(data, m1, endian, args, Ok((v1, m2)))
                        && self.r2.collects(data, m2, endian, args, Ok((v2, m3)))
                        && self.r3.collects(data, m3, endian, args, Ok((v3, m4)))
                        && self.r4.collects(data, m4, endian, args, Err(e))
                ||| exists|v0: Out0, v1: Out1, v2: Out2, v3: Out3, v4: Out4, m1: u64, m2: u64, m3: u64, m4: u64, m5: u64|
                    #![trigger self.r0.collects(data, pos, endian, args, Ok((v0, m1))), self.r1.collects(data, m1, endian, args, Ok((v1, m2))), self.r2.collects(data, m2, endian, args, Ok((v2, m3))), self.r3.collects(data, m3, endian, args, Ok((v3, m4))), self.r4.collects(data, m4, endian, args, Ok((v4, m5)))]
                    self.r0.collects(data, pos, endian, args, Ok((v0, m1)))
                        && self.r1.collects(data, m1, endian, args, Ok((v1, m2)))
                        && self.r2.collects(data, m2, endian, args, Ok((v2, m3)))
                        && self.r3.collects(data, m3, endian, args, Ok((v3, m4)))
                        && self.r4.collects(data, m4, endian, args, Ok((v4, m5)))
                        && self.r5.collects(data, m5, endian, args, Err(e))
                ||| exists|v0: Out0, v1: Out1, v2: Out2, v3: Out3, v4: Out4, v5: Out5, m1: u64, m2: u64, m3: u64, m4: u64, m5: u64, m6: u64|
                    #![trigger self.r0.collects(data, pos, endian, args, Ok((v0, m1))), self.r1.collects(data, m1, endian, args, Ok((v1, m2))), self.r2.collects(data, m2, endian, args, Ok((v2, m3))), self.r3.collects(data, m3, endian, args, Ok((v3, m4))), self.r4.collects(data, m4, endian, args, Ok((v4, m5))), self.r5.collects(data, m5, endian, args, Ok((v5, m6)))]
                    self.r0.collects(data, pos, endian, args, Ok((v0, m1)))
                        && self.r1.collects(data, m1, endian, args, Ok((v1, m2)))
                        && self.r2.collects(data, m2, endian, args, Ok((v2, m3)))
                        && self.r3.collects(data, m3, endian, args, Ok((v3, m4)))
                        && self.r4.collects(data, m4, endian, args, Ok((v4, m5)))
                        && self.r5.collects(data, m5, endian, args, Ok((v5, m6)))
                        && self.r6.collects(data, m6, endian, args, Err(e))
                ||| exists|v0: Out0, v1: Out1, v2: Out2, v3: Out3, v4: Out4, v5: Out5, v6: Out6, m1: u64, m2: u64, m3: u64, m4: u64, m5: u64, m6: u64, m7: u64|
                    #![trigger self.r0.collects(data, pos, endian, args, Ok((v0, m1))), self.r1.collects(data, m1, endian, args, Ok((v1, m2))), self.r2.collects(data, m2, endian, args, Ok((v2, m3))), self.r3.collects(data, m3, endian, args, Ok((v3, m4))), self.r4.collects(data, m4, endian, args, Ok((v4, m5))), self.r5.collects(data, m5, endian, args, Ok((v5, m6))), self.r6.collects(data, m6, endian, args, Ok((v6, m7)))]
                    self.r0.collects(data, pos, endian, args, Ok((v0, m1)))
                        && self.r1.collects(data, m1, endian, args, Ok((v1, m2)))
                        && self.r2.collects(data, m2, endian, args, Ok((v2, m3)))
                        && self.r3.collects(data, m3, endian, args, Ok((v3, m4)))
                        && self.r4.collects(data, m4, endian, args, Ok((v4, m5)))
                        && self.r5.collects(data, m5, endian, args, Ok((v5, m6)))
                        && self.r6.collects(data, m6, endian, args, Ok((v6, m7)))
                        && self.r7.collects(data, m7, endian, args, Err(e))
            },
        }
    }

    fn collect_non_backtracking(
        &self,
        reader: &mut Cursor,
        endian: Endian,
        args: Args,
        token: BinReadCollectToken,
    ) -> (r: BinResult<(Out0, Out1, Out2, Out3, Out4, Out5, Out6, Out7)>) {
        let ghost data = reader@.data;
        let ghost p0 = reader@.pos;
        let t0 = match self.r0.read(reader, endian, args) {
            Ok(v) => v,
            Err(e) => {
                return Err(e);
            },
        };
        let ghost p1 = reader@.pos;
        assert(self.r0.collects(data, p0, endian, args, Ok((t0, p1))));
        let t1 = match self.r1.read(reader, endian, args) {
            Ok(v) => v,
            Err(e) => {
                let ghost o: Result<((Out0, Out1, Out2, Out3, Out4, Out5, Out6, Out7), u64), BinError> = Err(e);
                assert(o matches Err(x) && x == e);
                return Err(e);
            },
        };
        let ghost p2 = reader@.pos;
        assert(self.r1.collects(data, p1, endian, args, Ok((t1, p2))));
        let t2 = match self.r2.read(reader, endian, args) {
            Ok(v) => v,
            Err(e) => {
                let ghost o: Result<((Out0, Out1, Out2, Out3, Out4, Out5, Out6, Out7), u64), BinError> = Err(e);
                assert(o matches Err(x) && x == e);
                return Err(e);
            },
        };
        let ghost p3 = reader@.pos;
        assert(self.r2.collects(data, p2, endian, args, Ok((t2, p3))));
        let t3 = match self.r3.read(reader, endian, args) {
            Ok(v) => v,
            Err(e) => {
                let ghost o: Result<((Out0, Out1, Out2, Out3, Out4, Out5, Out6, Out7), u64), BinError> = Err(e);
                assert(o matches Err(x) && x == e);
                return Err(e);
            },
        };
        let ghost p4 = reader@.pos;
        assert(self.r3.collects(data, p3, endian, args, Ok((t3, p4))));
        let t4 = match self.r4.read(reader, endian, args) {
            Ok(v) => v,
            Err(e) => {
                let ghost o: Result<((Out0, Out1, Out2, Out3, Out4, Out5, Out6, Out7), u64), BinError> = Err(e);
                assert(o matches Err(x) && x == e);
                return Err(e);
            },
        };
        let ghost p5 = reader@.pos;
        assert(self.r4.collects(data, p4, endian, args, Ok((t4, p5))));
        let t5 = match self.r5.read(reader, endian, args) {
            Ok(v) => v,
            Err(e) => {
                let ghost o: Result<((Out0, Out1, Out2, Out3, Out4, Out5, Out6, Out7), u64), BinError> = Err(e);
                assert(o matches Err(x) && x == e);
                return Err(e);
            },
        };
        let ghost p6 = reader@.pos;
        assert(self.r5.collects(data, p5, endian, args, Ok((t5, p6))));
        let t6 = match self.r6.read(reader, endian, args) {
            Ok(v) => v,
            Err(e) => {
                let ghost o: Result<((Out0, Out1, Out2, Out3, Out4, Out5, Out6, Out7), u64), BinError> = Err(e);
                assert(o matches Err(x) && x == e);
                return Err(e);
            },
        };
        let ghost p7 = reader@.pos;
        assert(self.r6.collects(data, p6, endian, args, Ok((t6, p7))));
        let t7 = match self.r7.read(reader, endian, args) {
            Ok(v) => v,
            Err(e) => {
                let ghost o: Result<((Out0, Out1, Out2, Out3, Out4, Out5, Out6, Out7), u64), BinError> = Err(e);
                assert(o matches Err(x) && x == e);
                return Err(e);
            },
        };
        let ghost p8 = reader@.pos;
        assert(self.r7.collects(data, p7, endian, args, Ok((t7, p8))));
        let ghost t = (t0, t1, t2, t3, t4, t5, t6, t7);
        assert(self.r0.collects(data, p0, endian, args, Ok((t.0, p1))));
        assert(self.r1.collects(data, p1, endian, args, Ok((t.1, p2))));
        assert(self.r2.collects(data, p2, endian, args, Ok((t.2, p3))));
        assert(self.r3.collects(data, p3, endian, args, Ok((t.3, p4))));
        assert(self.r4.collects(data, p4, endian, args, Ok((t.4, p5))));
        assert(self.r5.collects(data, p5, endian, args, Ok((t.5, p6))));
        assert(self.r6.collects(data, p6, endian, args, Ok((t.6, p7))));
        assert(self.r7.collects(data, p7, endian, args, Ok((t.7, p8))));
        let ghost o: Result<((Out0, Out1, Out2, Out3, Out4, Out5, Out6, Out7), u64), BinError> = Ok((t, p8));
        assert(o matches Ok((x, y)) && x == t && y == p8);
        Ok((t0, t1, t2, t3, t4, t5, t6, t7))
    }
}

impl<T0, T1, T2, T3, T4, T5, T6, T7> BinReader for (T0, T1, T2, T3, T4, T5, T6, T7) where
    T0: BinReader<Out = T0>,
    T1: BinReader<Args = T0::Args, Out = T1>,
    T2: BinReader<Args = T0::Args, Out = T2>,
    T3: BinReader<Args = T0::Args, Out = T3>,
    T4: BinReader<Args = T0::Args, Out = T4>,
    T5: BinReader<Args = T0::Args, Out = T5>,
    T6: BinReader<Args = T0::Args, Out = T6>,
    T7: BinReader<Args = T0::Args, Out = T7>,
    T0::Args: Copy,
 {
    type Args = T0::Args;
    type Out = (T0, T1, T2, T3, T4, T5, T6, T7);
    type Reader = Tuple8Reader<T0::Reader, T1::Reader, T2::Reader, T3::Reader, T4::Reader, T5::Reader, T6::Reader, T7::Reader>;

    open spec fn spec_reader() -> Tuple8Reader<T0::Reader, T1::Reader, T2::Reader, T3::Reader, T4::Reader, T5::Reader, T6::Reader, T7::Reader> {
        Tuple8Reader { r0: T0::spec_reader(), r1: T1::spec_reader(), r2: T2::spec_reader(), r3: T3::spec_reader(), r4: T4::spec_reader(), r5: T5::spec_reader(), r6: T6::spec_reader(), r7: T7::spec_reader() }
    }

    fn reader() -> (r: Tuple8Reader<T0::Reader, T1::Reader, T2::Reader, T3::Reader, T4::Reader, T5::Reader, T6::Reader, T7::Reader>) {
        Tuple8Reader { r0: T0::reader(), r1: T1::reader(), r2: T2::reader(), r3: T3::reader(), r4: T4::reader(), r5: T5::reader(), r6: T6::reader(), r7: T7::reader() }
    }
}

/// Reads 9 values one after another, with the same arguments.
pub struct Tuple9Reader<R0, R1, R2, R3, R4, R5, R6, R7, R8> {
    pub r0: R0,
    pub r1: R1,
    pub r2: R2,
    pub r3: R3,
    pub r4: R4,
    pub r5: R5,
    pub r6: R6,
    pub r7: R7,
    pub r8: R8,
}

impl<R0, R1, R2, R3, R4, R5, R6, R7, R8, Args, Out0, Out1, Out2, Out3, Out4, Out5, Out6, Out7, Out8> BinReadCollect<Args, (Out0, Out1, Out2, Out3, Out4, Out5, Out6, Out7, Out8)> for Tuple9Reader<R0, R1, R2, R3, R4, R5, R6, R7, R8> where
    R0: BinReadCollect<Args, Out0>,
    R1: BinReadCollect<Args, Out1>,
    R2: BinReadCollect<Args, Out2>,
    R3: BinReadCollect<Args, Out3>,
    R4: BinReadCollect<Args, Out4>,
    R5: BinReadCollect<Args, Out5>,
    R6: BinReadCollect<Args, Out6>,
    R7: BinReadCollect<Args, Out7>,
    R8: BinReadCollect<Args, Out8>,
    Args: Copy,
 {
    open spec fn collect_wf(&self) -> bool {
        self.r0.collect_wf() && self.r1.collect_wf() && self.r2.collect_wf() && self.r3.collect_wf() && self.r4.collect_wf() && self.r5.collect_wf() && self.r6.collect_wf() && self.r7.collect_wf() && self.r8.collect_wf()
    }

    /// The values are read in order, each right after the one before.
    open spec fn collects(
        &self,
        data: Seq<u8>,
        pos: u64,
        endian: Endian,
        args: Args,
        outcome: Result<((Out0, Out1, Out2, Out3, Out4, Out5, Out6, Out7, Out8), u64), BinError>,
    ) -> bool {
        match outcome {
            Ok((t, end)) => exists|m1: u64, m2: u64, m3: u64, m4: u64, m5: u64, m6: u64, m7: u64, m8: u64|
                #![trigger self.r0.collects(data, pos, endian, args, Ok((t.0, m1))), self.r1.collects(data, m1, endian, args, Ok((t.1, m2))), self.r2.collects(data, m2, endian, args, Ok((t.2, m3))), self.r3.collects(data, m3, endian, args, Ok((t.3, m4))), self.r4.collects(data, m4, endian, args, Ok((t.4, m5))), self.r5.collects(data, m5, endian, args, Ok((t.5, m6))), self.r6.collects(data, m6, endian, args, Ok((t.6, m7))), self.r7.collects(data, m7, endian, args, Ok((t.7, m8)))]
                self.r0.collects(data, pos, endian, args, Ok((t.0, m1)))
                    && self.r1.collects(data, m1, endian, args, Ok((t.1, m2)))
                    && self.r2.collects(data, m2, endian, args, Ok((t.2, m3)))
                    && self.r3.collects(data, m3, endian, args, Ok((t.3, m4)))
                    && self.r4.collects(data, m4, endian, args, Ok((t.4, m5)))
                    && self.r5.collects(data, m5, endian, args, Ok((t.5, m6)))
                    && self.r6.collects(data, m6, endian, args, Ok((t.6, m7)))
                    && self.r7.collects(data, m7, endian, args, Ok((t.7, m8)))
                    && self.r8.collects(data, m8, endian, args, Ok((t.8, end))),
            Err(e) => {
                ||| self.r0.collects(data, pos, endian, args, Err(e))
                ||| exists|v0: Out0, m1: u64|
                    #![trigger self.r0.collects(data, pos, endian, args, Ok((v0, m1)))]
                    self.r0.collects(data, pos, endian, args, Ok((v0, m1)))
                        && self.r1.collects(data, m1, endian, args, Err(e))
                ||| exists|v0: Out0, v1: Out1, m1: u64, m2: u64|
                    #![trigger self.r0.collects(data, pos, endian, args, Ok((v0, m1))), self.r1.collects(data, m1, endian, args, Ok((v1, m2)))]
                    self.r0.collects(data, pos, endian, args, Ok((v0, m1)))
                        && self.r1.collects(data, m1, endian, args, Ok((v1, m2)))
                        && self.r2.collects(data, m2, endian, args, Err(e))
                ||| exists|v0: Out0, v1: Out1, v2: Out2, m1: u64, m2: u64, m3: u64|
                    #![trigger self.r0.collects(data, pos, endian, args, Ok((v0, m1))), self.r1.collects(data, m1, endian, args, Ok((v1, m2))), self.r2.collects(data, m2, endian, args, Ok((v2, m3)))]
                    self.r0.collects(data, pos, endian, args, Ok((v0, m1)))
                        && self.r1.collects(data, m1, endian, args, Ok((v1, m2)))
                        && self.r2.collects(data, m2, endian, args, Ok((v2, m3)))
                        && self.r3.collects(data, m3, endian, args, Err(e))
                ||| exists|v0: Out0, v1: Out1, v2: Out2, v3: Out3, m1: u64, m2: u64, m3: u64, m4: u64|
                    #![trigger self.r0.collects(data, pos, endian, args, Ok((v0, m1))), self.r1.collects(data, m1, endian, args, Ok((v1, m2))), self.r2.collects(data, m2, endian, args, Ok((v2, m3))), self.r3.collects(data, m3, endian, args, Ok((v3, m4)))]
                    self.r0.collects(data, pos, endian, args, Ok((v0, m1)))
                        && self.r1.collects(data, m1, endian, args, Ok((v1, m2)))
                        && self.r2.collects(data, m2, endian, args, Ok((v2, m3)))
                        && self.r3.collects(data, m3, endian, args, Ok((v3, m4)))
                        && self.r4.collects(data, m4, endian, args, Err(e))
                ||| exists|v0: Out0, v1: Out1, v2: Out2, v3: Out3, v4: Out4, m1: u64, m2: u64, m3: u64, m4: u64, m5: u64|
                    #![trigger self.r0.collects(data, pos, endian, args, Ok((v0, m1))), self.r1.collects(data, m1, endian, args, Ok((v1, m2))), self.r2.collects(data, m2, endian, args, Ok((v2, m3))), self.r3.collects(data, m3, endian, args, Ok((v3, m4))), self.r4.collects(data, m4, endian, args, Ok((v4, m5)))]
                    self.r0.collects(data, pos, endian, args, Ok((v0, m1)))
                        && self.r1.collects(data, m1, endian, args, Ok((v1, m2)))
                        && self.r2.collects(data, m2, endian, args, Ok((v2, m3)))
                        && self.r3.collects(data, m3, endian, args, Ok((v3, m4)))
                        && self.r4.collects(data, m4, endian, args, Ok((v4, m5)))
                        && self.r5.collects(data, m5, endian, args, Err(e))
                ||| exists|v0: Out0, v1: Out1, v2: Out2, v3: Out3, v4: Out4, v5: Out5, m1: u64, m2: u64, m3: u64, m4: u64, m5: u64, m6: u64|
                    #![trigger self.r0.collects(data, pos, endian, args, Ok((v0, m1))), self.r1.collects(data, m1, endian, args, Ok((v1, m2))), self.r2.collects(data, m2, endian, args, Ok((v2, m3))), self.r3.collects(data, m3, endian, args, Ok((v3, m4))), self.r4.collects(data, m4, endian, args, Ok((v4, m5))), self.r5.collects(data, m5, endian, args, Ok((v5, m6)))]
                    self.r0.collects(data, pos, endian, args, Ok((v0, m1)))
                        && self.r1.collects(data, m1, endian, args, Ok((v1, m2)))
                        && self.r2.collects(data, m2, endian, args, Ok((v2, m3)))
                        && self.r3.collects(data, m3, endian, args, Ok((v3, m4)))
                        && self.r4.collects(data, m4, endian, args, Ok((v4, m5)))
                        && self.r5.collects(data, m5, endian, args, Ok((v5, m6)))
                        && self.r6.collects(data, m6, endian, args, Err(e))
                ||| exists|v0: Out0, v1: Out1, v2: Out2, v3: Out3, v4: Out4, v5: Out5, v6: Out6, m1: u64, m2: u64, m3: u64, m4: u64, m5: u64, m6: u64, m7: u64|
                    #![trigger self.r0.collects(data, pos, endian, args, Ok((v0, m1))), self.r1.collects(data, m1, endian, args, Ok((v1, m2))), self.r2.collects(data, m2, endian, args, Ok((v2, m3))), self.r3.collects(data, m3, endian, args, Ok((v3, m4))), self.r4.collects(data, m4, endian, args, Ok((v4, m5))), self.r5.collects(data, m5, endian, args, Ok((v5, m6))), self.r6.collects(data, m6, endian, args, Ok((v6, m7)))]
                    self.r0.collects(data, pos, endian, args, Ok((v0, m1)))
                        && self.r1.collects(data, m1, endian, args, Ok((v1, m2)))
                        && self.r2.collects(data, m2, endian, args, Ok((v2, m3)))
                        && self.r3.collects(data, m3, endian, args, Ok((v3, m4)))
                        && self.r4.collects(data, m4, endian, args, Ok((v4, m5)))
                        && self.r5.collects(data, m5, endian, args, Ok((v5, m6)))
                        && self.r6.collects(data, m6, endian, args, Ok((v6, m7)))
                        && self.r7.collects(data, m7, endian, args, Err(e))
                ||| exists|v0: Out0, v1: Out1, v2: Out2, v3: Out3, v4: Out4, v5: Out5, v6: Out6, v7: Out7, m1: u64, m2: u64, m3: u64, m4: u64, m5: u64, m6: u64, m7: u64, m8: u64|
                    #![trigger self.r0.collects(data, pos, endian, args, Ok((v0, m1))), self.r1.collects(data, m1, endian, args, Ok((v1, m2))), self.r2.collects(data, m2, endian, args, Ok((v2, m3))), self.r3.collects(data, m3, endian, args, Ok((v3, m4))), self.r4.collects(data, m4, endian, args, Ok((v4, m5))), self.r5.collects(data, m5, endian, args, Ok((v5, m6))), self.r6.collects(data, m6, endian, args, Ok((v6, m7))), self.r7.collects(data, m7, endian, args, Ok((v7, m8)))]
                    self.r0.collects(data, pos, endian, args, Ok((v0, m1)))
                        && self.r1.collects(data, m1, endian, args, Ok((v1, m2)))
                        && self.r2.collects(data, m2, endian, args, Ok((v2, m3)))
                        && self.r3.collects(data, m3, endian, args, Ok((v3, m4)))
                        && self.r4.collects(data, m4, endian, args, Ok((v4, m5)))
                        && self.r5.collects(data, m5, endian, args, Ok((v5, m6)))
                        && self.r6.collects(data, m6, endian, args, Ok((v6, m7)))
                        && self.r7.collects(data, m7, endian, args, Ok((v7, m8)))
                        && self.r8.collects(data, m8, endian, args, Err(e))
            },
        }
    }

    fn collect_non_backtracking(
        &self,
        reader: &mut Cursor,
        endian: Endian,
        args: Args,
        token: BinReadCollectToken,
    ) -> (r: BinResult<(Out0, Out1, Out2, Out3, Out4, Out5, Out6, Out7, Out8)>) {
        let ghost data = reader@.data;
        let ghost p0 = reader@.pos;
        let t0 = match self.r0.read(reader, endian, args) {
            Ok(v) => v,
            Err(e) => {
                return Err(e);
            },
        };
        let ghost p1 = reader@.pos;
        assert(self.r0.collects(data, p0, endian, args, Ok((t0, p1))));
        let t1 = match self.r1.read(reader, endian, args) {
            Ok(v) => v,
            Err(e) => {
                let ghost o: Result<((Out0, Out1, Out2, Out3, Out4, Out5, Out6, Out7, Out8), u64), BinError> = Err(e);
                assert(o matches Err(x) && x == e);
                return Err(e);
            },
        };
        let ghost p2 = reader@.pos;
        assert(self.r1.collects(data, p1, endian, args, Ok((t1, p2))));
        let t2 = match self.r2.read(reader, endian, args) {
            Ok(v) => v,
            Err(e) => {
                let ghost o: Result<((Out0, Out1, Out2, Out3, Out4, Out5, Out6, Out7, Out8), u64), BinError> = Err(e);
                assert(o matches Err(x) && x == e);
                return Err(e);
            },
        };
        let ghost p3 = reader@.pos;
        assert(self.r2.collects(data, p2, endian, args, Ok((t2, p3))));
        let t3 = match self.r3.read(reader, endian, args) {
            Ok(v) => v,
            Err(e) => {
                let ghost o: Result<((Out0, Out1, Out2, Out3, Out4, Out5, Out6, Out7, Out8), u64), BinError> = Err(e);
                assert(o matches Err(x) && x == e);
                return Err(e);
            },
        };
        let ghost p4 = reader@.pos;
        assert(self.r3.collects(data, p3, endian, args, Ok((t3, p4))));
        let t4 = match self.r4.read(reader, endian, args) {
            Ok(v) => v,
            Err(e) => {
                let ghost o: Result<((Out0, Out1, Out2, Out3, Out4, Out5, Out6, Out7, Out8), u64), BinError> = Err(e);
                assert(o matches Err(x) && x == e);
                return Err(e);
            },
        };
        let ghost p5 = reader@.pos;
        assert(self.r4.collects(data, p4, endian, args, Ok((t4, p5))));
        let t5 = match self.r5.read(reader, endian, args) {
            Ok(v) => v,
            Err(e) => {
                let ghost o: Result<((Out0, Out1, Out2, Out3, Out4, Out5, Out6, Out7, Out8), u64), BinError> = Err(e);
                assert(o matches Err(x) && x == e);
                return Err(e);
            },
        };
        let ghost p6 = reader@.pos;
        assert(self.r5.collects(data, p5, endian, args, Ok((t5, p6))));
        let t6 = match self.r6.read(reader, endian, args) {
            Ok(v) => v,
            Err(e) => {
                let ghost o: Result<((Out0, Out1, Out2, Out3, Out4, Out5, Out6, Out7, Out8), u64), BinError> = Err(e);
                assert(o matches Err(x) && x == e);
                return Err(e);
            },
        };
        let ghost p7 = reader@.pos;
        assert(self.r6.collects(data, p6, endian, args, Ok((t6, p7))));
        let t7 = match self.r7.read(reader, endian, args) {
            Ok(v) => v,
            Err(e) => {
                let ghost o: Result<((Out0, Out1, Out2, Out3, Out4, Out5, Out6, Out7, Out8), u64), BinError> = Err(e);
                assert(o matches Err(x) && x == e);
                return Err(e);
            },
        };
        let ghost p8 = reader@.pos;
        assert(self.r7.collects(data, p7, endian, args, Ok((t7, p8))));
        let t8 = match self.r8.read(reader, endian, args) {
            Ok(v) => v,
            Err(e) => {
                let ghost o: Result<((Out0, Out1, Out2, Out3, Out4, Out5, Out6, Out7, Out8), u64), BinError> = Err(e);
                assert(o matches Err(x) && x == e);
                return Err(e);
            },
        };
        let ghost p9 = reader@.pos;
        assert(self.r8.collects(data, p8, endian, args, Ok((t8, p9))));
        let ghost t = (t0, t1, t2, t3, t4, t5, t6, t7, t8);
        assert(self.r0.collects(data, p0, endian, args, Ok((t.0, p1))));
        assert(self.r1.collects(data, p1, endian, args, Ok((t.1, p2))));
        assert(self.r2.collects(data, p2, endian, args, Ok((t.2, p3))));
        assert(self.r3.collects(data, p3, endian, args, Ok((t.3, p4))));
        assert(self.r4.collects(data, p4, endian, args, Ok((t.4, p5))));
        assert(self.r5.collects(data, p5, endian, args, Ok((t.5, p6))));
        assert(self.r6.collects(data, p6, endian, args, Ok((t.6, p7))));
        assert(self.r7.collects(data, p7, endian, args, Ok((t.7, p8))));
        assert(self.r8.collects(data, p8, endian, args, Ok((t.8, p9))));
        let ghost o: Result<((Out0, Out1, Out2, Out3, Out4, Out5, Out6, Out7, Out8), u64), BinError> = Ok((t, p9));
        assert(o matches Ok((x, y)) && x == t && y == p9);
        Ok((t0, t1, t2, t3, t4, t5, t6, t7, t8))
    }
}

impl<T0, T1, T2, T3, T4, T5, T6, T7, T8> BinReader for (T0, T1, T2, T3, T4, T5, T6, T7, T8) where
    T0: BinReader<Out = T0>,
    T1: BinReader<Args = T0::Args, Out = T1>,
    T2: BinReader<Args = T0::Args, Out = T2>,
    T3: BinReader<Args = T0::Args, Out = T3>,
    T4: BinReader<Args = T0::Args, Out = T4>,
    T5: BinReader<Args = T0::Args, Out = T5>,
    T6: BinReader<Args = T0::Args, Out = T6>,
    T7: BinReader<Args = T0::Args, Out = T7>,
    T8: BinReader<Args = T0::Args, Out = T8>,
    T0::Args: Copy,
 {
    type Args = T0::Args;
    type Out = (T0, T1, T2, T3, T4, T5, T6, T7, T8);
    type Reader = Tuple9Reader<T0::Reader, T1::Reader, T2::Reader, T3::Reader, T4::Reader, T5::Reader, T6::Reader, T7::Reader, T8::Reader>;

    open spec fn spec_reader() -> Tuple9Reader<T0::Reader, T1::Reader, T2::Reader, T3::Reader, T4::Reader, T5::Reader, T6::Reader, T7::Reader, T8::Reader> {
        Tuple9Reader { r0: T0::spec_reader(), r1: T1::spec_reader(), r2: T2::spec_reader(), r3: T3::spec_reader(), r4: T4::spec_reader(), r5: T5::spec_reader(), r6: T6::spec_reader(), r7: T7::spec_reader(), r8: T8::spec_reader() }
    }

    fn reader() -> (r: Tuple9Reader<T0::Reader, T1::Reader, T2::Reader, T3::Reader, T4::Reader, T5::Reader, T6::Reader, T7::Reader, T8::Reader>) {
        Tuple9Reader { r0: T0::reader(), r1: T1::reader(), r2: T2::reader(), r3: T3::reader(), r4: T4::reader(), r5: T5::reader(), r6: T6::reader(), r7: T7::reader(), r8: T8::reader() }
    }
}

/// Reads 10 values one after another, with the same arguments.
pub struct Tuple10Reader<R0, R1, R2, R3, R4, R5, R6, R7, R8, R9> {
    pub r0: R0,
    pub r1: R1,
    pub r2: R2,
    pub r3: R3,
    pub r4: R4,
    pub r5: R5,
    pub r6: R6,
    pub r7: R7,
    pub r8: R8,
    pub r9: R9,
}

impl<R0, R1, R2, R3, R4, R5, R6, R7, R8, R9, Args, Out0, Out1, Out2, Out3, Out4, Out5, Out6, Out7, Out8, Out9> BinReadCollect<Args, (Out0, Out1, Out2, Out3, Out4, Out5, Out6, Out7, Out8, Out9)> for Tuple10Reader<R0, R1, R2, R3, R4, R5, R6, R7, R8, R9> where
    R0: BinReadCollect<Args, Out0>,
    R1: BinReadCollect<Args, Out1>,
    R2: BinReadCollect<Args, Out2>,
    R3: BinReadCollect<Args, Out3>,
    R4: BinReadCollect<Args, Out4>,
    R5: BinReadCollect<Args, Out5>,
    R6: BinReadCollect<Args, Out6>,
    R7: BinReadCollect<Args, Out7>,
    R8: BinReadCollect<Args, Out8>,
    R9: BinReadCollect<Args, Out9>,
    Args: Copy,
 {
    open spec fn collect_wf(&self) -> bool {
        self.r0.collect_wf() && self.r1.collect_wf() && self.r2.collect_wf() && self.r3.collect_wf() && self.r4.collect_wf() && self.r5.collect_wf() && self.r6.collect_wf() && self.r7.collect_wf() && self.r8.collect_wf() && self.r9.collect_wf()
    }

    /// The values are read in order, each right after the one before.
    open spec fn collects(
        &self,
        data: Seq<u8>,
        pos: u64,
        endian: Endian,
        args: Args,
        outcome: Result<((Out0, Out1, Out2, Out3, Out4, Out5, Out6, Out7, Out8, Out9), u64), BinError>,
    ) -> bool {
        match outcome {
            Ok((t, end)) => exists|m1: u64, m2: u64, m3: u64, m4: u64, m5: u64, m6: u64, m7: u64, m8: u64, m9: u64|
                #![trigger self.r0.collects(data, pos, endian, args, Ok((t.0, m1))), self.r1.collects(data, m1, endian, args, Ok((t.1, m2))), self.r2.collects(data, m2, endian, args, Ok((t.2, m3))), self.r3.collects(data, m3, endian, args, Ok((t.3, m4))), self.r4.collects(data, m4, endian, args, Ok((t.4, m5))), self.r5.collects(data, m5, endian, args, Ok((t.5, m6))), self.r6.collects(data, m6, endian, args, Ok((t.6, m7))), self.r7.collects(data, m7, endian, args, Ok((t.7, m8))), self.r8.collects(data, m8, endian, args, Ok((t.8, m9)))]
                self.r0.collects(data, pos, endian, args, Ok((t.0, m1)))
                    && self.r1.collects(data, m1, endian, args, Ok((t.1, m2)))
                    && self.r2.collects(data, m2, endian, args, Ok((t.2, m3)))
                    && self.r3.collects(data, m3, endian, args, Ok((t.3, m4)))
                    && self.r4.collects(data, m4, endian, args, Ok((t.4, m5)))
                    && self.r5.collects(data, m5, endian, args, Ok((t.5, m6)))
                    && self.r6.collects(data, m6, endian, args, Ok((t.6, m7)))
                    && self.r7.collects(data, m7, endian, args, Ok((t.7, m8)))
                    && self.r8.collects(data, m8, endian, args, Ok((t.8, m9)))
                    && self.r9.collects(data, m9, endian, args, Ok((t.9, end))),
            Err(e) => {
                ||| self.r0.collects(data, pos, endian, args, Err(e))
                ||| exists|v0: Out0, m1: u64|
                    #![trigger self.r0.collects(data, pos, endian, args, Ok((v0, m1)))]
                    self.r0.collects(data, pos, endian, args, Ok((v0, m1)))
                        && self.r1.collects(data, m1, endian, args, Err(e))
                ||| exists|v0: Out0, v1: Out1, m1: u64, m2: u64|
                    #![trigger self.r0.collects(data, pos, endian, args, Ok((v0, m1))), self.r1.collects(data, m1, endian, args, Ok((v1, m2)))]
                    self.r0.collects(data, pos, endian, args, Ok((v0, m1)))
                        && self.r1.collects(data, m1, endian, args, Ok((v1, m2)))
                        && self.r2.collects(data, m2, endian, args, Err(e))
                ||| exists|v0: Out0, v1: Out1, v2: Out2, m1: u64, m2: u64, m3: u64|
                    #![trigger self.r0.collects(data, pos, endian, args, Ok((v0, m1))), self.r1.collects(data, m1, endian, args, Ok((v1, m2))), self.r2.collects(data, m2, endian, args, Ok((v2, m3)))]
                    self.r0.collects(data, pos, endian, args, Ok((v0, m1)))
                        && self.r1.collects(data, m1, endian, args, Ok((v1, m2)))
                        && self.r2.collects(data, m2, endian, args, Ok((v2, m3)))
                        && self.r3.collects(data, m3, endian, args, Err(e))
                ||| exists|v0: Out0, v1: Out1, v2: Out2, v3: Out3, m1: u64, m2: u64, m3: u64, m4: u64|
                    #![trigger self.r0.collects(data, pos, endian, args, Ok((v0, m1))), self.r1.collects(data, m1, endian, args, Ok((v1, m2))), self.r2.collects(data, m2, endian, args, Ok((v2, m3))), self.r3.collects(data, m3, endian, args, Ok((v3, m4)))]
                    self.r0.collects(data, pos, endian, args, Ok((v0, m1)))
                        && self.r1.collects(data, m1, endian, args, Ok((v1, m2)))
                        && self.r2.collects(data, m2, endian, args, Ok((v2, m3)))
                        && self.r3.collects(data, m3, endian, args, Ok((v3, m4)))
                        && self.r4.collects(data, m4, endian, args, Err(e))
                ||| exists|v0: Out0, v1: Out1, v2: Out2, v3: Out3, v4: Out4, m1: u64, m2: u64, m3: u64, m4: u64, m5: u64|
                    #![trigger self.r0.collects(data, pos, endian, args, Ok((v0, m1))), self.r1.collects(data, m1, endian, args, Ok((v1, m2))), self.r2.collects(data, m2, endian, args, Ok((v2, m3))), self.r3.collects(data, m3, endian, args, Ok((v3, m4))), self.r4.collects(data, m4, endian, args, Ok((v4, m5)))]
                    self.r0.collects(data, pos, endian, args, Ok((v0, m1)))
                        && self.r1.collects(data, m1, endian, args, Ok((v1, m2)))
                        && self.r2.collects(data, m2, endian, args, Ok((v2, m3)))
                        && self.r3.collects(data, m3, endian, args, Ok((v3, m4)))
                        && self.r4.collects(data, m4, endian, args, Ok((v4, m5)))
                        && self.r5.collects(data, m5, endian, args, Err(e))
                ||| exists|v0: Out0, v1: Out1, v2: Out2, v3: Out3, v4: Out4, v5: Out5, m1: u64, m2: u64, m3: u64, m4: u64, m5: u64, m6: u64|
                    #![trigger self.r0.collects(data, pos, endian, args, Ok((v0, m1))), self.r1.collects(data, m1, endian, args, Ok((v1, m2))), self.r2.collects(data, m2, endian, args, Ok((v2, m3))), self.r3.collects(data, m3, endian, args, Ok((v3, m4))), self.r4.collects(data, m4, endian, args, Ok((v4, m5))), self.r5.collects(data, m5, endian, args, Ok((v5, m6)))]
                    self.r0.collects(data, pos, endian, args, Ok((v0, m1)))
                        && self.r1.collects(data, m1, endian, args, Ok((v1, m2)))
                        && self.r2.collects(data, m2, endian, args, Ok((v2, m3)))
                        && self.r3.collects(data, m3, endian, args, Ok((v3, m4)))
                        && self.r4.collects(data, m4, endian, args, Ok((v4, m5)))
                        && self.r5.collects(data, m5, endian, args, Ok((v5, m6)))
                        && self.r6.collects(data, m6, endian, args, Err(e))
                ||| exists|v0: Out0, v1: Out1, v2: Out2, v3: Out3, v4: Out4, v5: Out5, v6: Out6, m1: u64, m2: u64, m3: u64, m4: u64, m5: u64, m6: u64, m7: u64|
                    #![trigger self.r0.collects(data, pos, endian, args, Ok((v0, m1))), self.r1.collects(data, m1, endian, args, Ok((v1, m2))), self.r2.collects(data, m2, endian, args, Ok((v2, m3))), self.r3.collects(data, m3, endian, args, Ok((v3, m4))), self.r4.collects(data, m4, endian, args, Ok((v4, m5))), self.r5.collects(data, m5, endian, args, Ok((v5, m6))), self.r6.collects(data, m6, endian, args, Ok((v6, m7)))]
                    self.r0.collects(data, pos, endian, args, Ok((v0, m1)))
                        && self.r1.collects(data, m1, endian, args, Ok((v1, m2)))
                        && self.r2.collects(data, m2, endian, args, Ok((v2, m3)))
                        && self.r3.collects(data, m3, endian, args, Ok((v3, m4)))
                        && self.r4.collects(data, m4, endian, args, Ok((v4, m5)))
                        && self.r5.collects(data, m5, endian, args, Ok((v5, m6)))
                        && self.r6.collects(data, m6, endian, args, Ok((v6, m7)))
                        && self.r7.collects(data, m7, endian, args, Err(e))
                ||| exists|v0: Out0, v1: Out1, v2: Out2, v3: Out3, v4: Out4, v5: Out5, v6: Out6, v7: Out7, m1: u64, m2: u64, m3: u64, m4: u64, m5: u64, m6: u64, m7: u64, m8: u64|
                    #![trigger self.r0.collects(data, pos, endian, args, Ok((v0, m1))), self.r1.collects(data, m1, endian, args, Ok((v1, m2))), self.r2.collects(data, m2, endian, args, Ok((v2, m3))), self.r3.collects(data, m3, endian, args, Ok((v3, m4))), self.r4.collects(data, m4, endian, args, Ok((v4, m5))), self.r5.collects(data, m5, endian, args, Ok((v5, m6))), self.r6.collects(data, m6, endian, args, Ok((v6, m7))), self.r7.collects(data, m7, endian, args, Ok((v7, m8)))]
                    self.r0.collects(data, pos, endian, args, Ok((v0, m1)))
                        && self.r1.collects(data, m1, endian, args, Ok((v1, m2)))
                        && self.r2.collects(data, m2, endian, args, Ok((v2, m3)))
                        && self.r3.collects(data, m3, endian, args, Ok((v3, m4)))
                        && self.r4.collects(data, m4, endian, args, Ok((v4, m5)))
                        && self.r5.collects(data, m5, endian, args, Ok((v5, m6)))
                        && self.r6.collects(data, m6, endian, args, Ok((v6, m7)))
                        && self.r7.collects(data, m7, endian, args, Ok((v7, m8)))
                        && self.r8.collects(data, m8, endian, args, Err(e))
                ||| exists|v0: Out0, v1: Out1, v2: Out2, v3: Out3, v4: Out4, v5: Out5, v6: Out6, v7: Out7, v8: Out8, m1: u64, m2: u64, m3: u64, m4: u64, m5: u64, m6: u64, m7: u64, m8: u64, m9: u64|
                    #![trigger self.r0.collects(data, pos, endian, args, Ok((v0, m1))), self.r1.collects(data, m1, endian, args, Ok((v1, m2))), self.r2.collects(data, m2, endian, args, Ok((v2, m3))), self.r3.collects(data, m3, endian, args, Ok((v3, m4))), self.r4.collects(data, m4, endian, args, Ok((v4, m5))), self.r5.collects(data, m5, endian, args, Ok((v5, m6))), self.r6.collects(data, m6, endian, args, Ok((v6, m7))), self.r7.collects(data, m7, endian, args, Ok((v7, m8))), self.r8.collects(data, m8, endian, args, Ok((v8, m9)))]
                    self.r0.collects(data, pos, endian, args, Ok((v0, m1)))
                        && self.r1.collects(data, m1, endian, args, Ok((v1, m2)))
                        && self.r2.collects(data, m2, endian, args, Ok((v2, m3)))
                        && self.r3.collects(data, m3, endian, args, Ok((v3, m4)))
                        && self.r4.collects(data, m4, endian, args, Ok((v4, m5)))
                        && self.r5.collects(data, m5, endian, args, Ok((v5, m6)))
                        && self.r6.collects(data, m6, endian, args, Ok((v6, m7)))
                        && self.r7.collects(data, m7, endian, args, Ok((v7, m8)))
                        && self.r8.collects(data, m8, endian, args, Ok((v8, m9)))
                        && self.r9.collects(data, m9, endian, args, Err(e))
            },
        }
    }

    fn collect_non_backtracking(
        &self,
        reader: &mut Cursor,
        endian: Endian,
        args: Args,
        token: BinReadCollectToken,
    ) -> (r: BinResult<(Out0, Out1, Out2, Out3, Out4, Out5, Out6, Out7, Out8, Out9)>) {
        let ghost data = reader@.data;
        let ghost p0 = reader@.pos;
        let t0 = match self.r0.read(reader, endian, args) {
            Ok(v) => v,
            Err(e) => {
                return Err(e);
            },
        };
        let ghost p1 = reader@.pos;
        assert(self.r0.collects(data, p0, endian, args, Ok((t0, p1))));
        let t1 = match self.r1.read(reader, endian, args) {
            Ok(v) => v,
            Err(e) => {
                let ghost o: Result<((Out0, Out1, Out2, Out3, Out4, Out5, Out6, Out7, Out8, Out9), u64), BinError> = Err(e);
                assert(o matches Err(x) && x == e);
                return Err(e);
            },
        };
        let ghost p2 = reader@.pos;
        assert(self.r1.collects(data, p1, endian, args, Ok((t1, p2))));
        let t2 = match self.r2.read(reader, endian, args) {
            Ok(v) => v,
            Err(e) => {
                let ghost o: Result<((Out0, Out1, Out2, Out3, Out4, Out5, Out6, Out7, Out8, Out9), u64), BinError> = Err(e);
                assert(o matches Err(x) && x == e);
                return Err(e);
            },
        };
        let ghost p3 = reader@.pos;
        assert(self.r2.collects(data, p2, endian, args, Ok((t2, p3))));
        let t3 = match self.r3.read(reader, endian, args) {
            Ok(v) => v,
            Err(e) => {
                let ghost o: Result<((Out0, Out1, Out2, Out3, Out4, Out5, Out6, Out7, Out8, Out9), u64), BinError> = Err(e);
                assert(o matches Err(x) && x == e);
                return Err(e);
            },
        };
        let ghost p4 = reader@.pos;
        assert(self.r3.collects(data, p3, endian, args, Ok((t3, p4))));
        let t4 = match self.r4.read(reader, endian, args) {
            Ok(v) => v,
            Err(e) => {
                let ghost o: Result<((Out0, Out1, Out2, Out3, Out4, Out5, Out6, Out7, Out8, Out9), u64), BinError> = Err(e);
                assert(o matches Err(x) && x == e);
                return Err(e);
            },
        };
        let ghost p5 = reader@.pos;
        assert(self.r4.collects(data, p4, endian, args, Ok((t4, p5))));
        let t5 = match self.r5.read(reader, endian, args) {
            Ok(v) => v,
            Err(e) => {
                let ghost o: Result<((Out0, Out1, Out2, Out3, Out4, Out5, Out6, Out7, Out8, Out9), u64), BinError> = Err(e);
                assert(o matches Err(x) && x == e);
                return Err(e);
            },
        };
        let ghost p6 = reader@.pos;
        assert(self.r5.collects(data, p5, endian, args, Ok((t5, p6))));
        let t6 = match self.r6.read(reader, endian, args) {
            Ok(v) => v,
            Err(e) => {
                let ghost o: Result<((Out0, Out1, Out2, Out3, Out4, Out5, Out6, Out7, Out8, Out9), u64), BinError> = Err(e);
                assert(o matches Err(x) && x == e);
                return Err(e);
            },
        };
        let ghost p7 = reader@.pos;
        assert(self.r6.collects(data, p6, endian, args, Ok((t6, p7))));
        let t7 = match self.r7.read(reader, endian, args) {
            Ok(v) => v,
            Err(e) => {
                let ghost o: Result<((Out0, Out1, Out2, Out3, Out4, Out5, Out6, Out7, Out8, Out9), u64), BinError> = Err(e);
                assert(o matches Err(x) && x == e);
                return Err(e);
            },
        };
        let ghost p8 = reader@.pos;
        assert(self.r7.collects(data, p7, endian, args, Ok((t7, p8))));
        let t8 = match self.r8.read(reader, endian, args) {
            Ok(v) => v,
            Err(e) => {
                let ghost o: Result<((Out0, Out1, Out2, Out3, Out4, Out5, Out6, Out7, Out8, Out9), u64), BinError> = Err(e);
                assert(o matches Err(x) && x == e);
                return Err(e);
            },
        };
        let ghost p9 = reader@.pos;
        assert(self.r8.collects(data, p8, endian, args, Ok((t8, p9))));
        let t9 = match self.r9.read(reader, endian, args) {
            Ok(v) => v,
            Err(e) => {
                let ghost o: Result<((Out0, Out1, Out2, Out3, Out4, Out5, Out6, Out7, Out8, Out9), u64), BinError> = Err(e);
                assert(o matches Err(x) && x == e);
                return Err(e);
            },
        };
        let ghost p10 = reader@.pos;
        assert(self.r9.collects(data, p9, endian, args, Ok((t9, p10))));
        let ghost t = (t0, t1, t2, t3, t4, t5, t6, t7, t8, t9);
        assert(self.r0.collects(data, p0, endian, args, Ok((t.0, p1))));
        assert(self.r1.collects(data, p1, endian, args, Ok((t.1, p2))));
        assert(self.r2.collects(data, p2, endian, args, Ok((t.2, p3))));
        assert(self.r3.collects(data, p3, endian, args, Ok((t.3, p4))));
        assert(self.r4.collects(data, p4, endian, args, Ok((t.4, p5))));
        assert(self.r5.collects(data, p5, endian, args, Ok((t.5, p6))));
        assert(self.r6.collects(data, p6, endian, args, Ok((t.6, p7))));
        assert(self.r7.collects(data, p7, endian, args, Ok((t.7, p8))));
        assert(self.r8.collects(data, p8, endian, args, Ok((t.8, p9))));
        assert(self.r9.collects(data, p9, endian, args, Ok((t.9, p10))));
        let ghost o: Result<((Out0, Out1, Out2, Out3, Out4, Out5, Out6, Out7, Out8, Out9), u64), BinError> = Ok((t, p10));
        assert(o matches Ok((x, y)) && x == t && y == p10);
        Ok((t0, t1, t2, t3, t4, t5, t6, t7, t8, t9))
    }
}

impl<T0, T1, T2, T3, T4, T5, T6, T7, T8, T9> BinReader for (T0, T1, T2, T3, T4, T5, T6, T7, T8, T9) where
    T0: BinReader<Out = T0>,
    T1: BinReader<Args = T0::Args, Out = T1>,
    T2: BinReader<Args = T0::Args, Out = T2>,
    T3: BinReader<Args = T0::Args, Out = T3>,
    T4: BinReader<Args = T0::Args, Out = T4>,
    T5: BinReader<Args = T0::Args, Out = T5>,
    T6: BinReader<Args = T0::Args, Out = T6>,
    T7: BinReader<Args = T0::Args, Out = T7>,
    T8: BinReader<Args = T0::Args, Out = T8>,
    T9: BinReader<Args = T0::Args, Out = T9>,
    T0::Args: Copy,
 {
    type Args = T0::Args;
    type Out = (T0, T1, T2, T3, T4, T5, T6, T7, T8, T9);
    type Reader = Tuple10Reader<T0::Reader, T1::Reader, T2::Reader, T3::Reader, T4::Reader, T5::Reader, T6::Reader, T7::Reader, T8::Reader, T9::Reader>;

    open spec fn spec_reader() -> Tuple10Reader<T0::Reader, T1::Reader, T2::Reader, T3::Reader, T4::Reader, T5::Reader, T6::Reader, T7::Reader, T8::Reader, T9::Reader> {
        Tuple10Reader { r0: T0::spec_reader(), r1: T1::spec_reader(), r2: T2::spec_reader(), r3: T3::spec_reader(), r4: T4::spec_reader(), r5: T5::spec_reader(), r6: T6::spec_reader(), r7: T7::spec_reader(), r8: T8::spec_reader(), r9: T9::spec_reader() }
    }

    fn reader() -> (r: Tuple10Reader<T0::Reader, T1::Reader, T2::Reader, T3::Reader, T4::Reader, T5::Reader, T6::Reader, T7::Reader, T8::Reader, T9::Reader>) {
        Tuple10Reader { r0: T0::reader(), r1: T1::reader(), r2: T2::reader(), r3: T3::reader(), r4: T4::reader(), r5: T5::reader(), r6: T6::reader(), r7: T7::reader(), r8: T8::reader(), r9: T9::reader() }
    }
}

/// Reads 11 values one after another, with the same arguments.
pub struct Tuple11Reader<R0, R1, R2, R3, R4, R5, R6, R7, R8, R9, R10> {
    pub r0: R0,
    pub r1: R1,
    pub r2: R2,
    pub r3: R3,
    pub r4: R4,
    pub r5: R5,
    pub r6: R6,
    pub r7: R7,
    pub r8: R8,
    pub r9: R9,
    pub r10: R10,
}

impl<R0, R1, R2, R3, R4, R5, R6, R7, R8, R9, R10, Args, Out0, Out1, Out2, Out3, Out4, Out5, Out6, Out7, Out8, Out9, Out10> BinReadCollect<Args, (Out0, Out1, Out2, Out3, Out4, Out5, Out6, Out7, Out8, Out9, Out10)> for Tuple11Reader<R0, R1, R2, R3, R4, R5, R6, R7, R8, R9, R10> where
    R0: BinReadCollect<Args, Out0>,
    R1: BinReadCollect<Args, Out1>,
    R2: BinReadCollect<Args, Out2>,
    R3: BinReadCollect<Args, Out3>,
    R4: BinReadCollect<Args, Out4>,
    R5: BinReadCollect<Args, Out5>,
    R6: BinReadCollect<Args, Out6>,
    R7: BinReadCollect<Args, Out7>,
    R8: BinReadCollect<Args, Out8>,
    R9: BinReadCollect<Args, Out9>,
    R10: BinReadCollect<Args, Out10>,
    Args: Copy,
 {
    open spec fn collect_wf(&self) -> bool {
        self.r0.collect_wf() && self.r1.collect_wf() && self.r2.collect_wf() && self.r3.collect_wf() && self.r4.collect_wf() && self.r5.collect_wf() && self.r6.collect_wf() && self.r7.collect_wf() && self.r8.collect_wf() && self.r9.collect_wf() && self.r10.collect_wf()
    }

    /// The values are read in order, each right after the one before.
    open spec fn collects(
        &self,
        data: Seq<u8>,
        pos: u64,
        endian: Endian,
        args: Args,
        outcome: Result<((Out0, Out1, Out2, Out3, Out4, Out5, Out6, Out7, Out8, Out9, Out10), u64), BinError>,
    ) -> bool {
        match outcome {
            Ok((t, end)) => exists|m1: u64, m2: u64, m3: u64, m4: u64, m5: u64, m6: u64, m7: u64, m8: u64, m9: u64, m10: u64|
                #![trigger self.r0.collects(data, pos, endian, args, Ok((t.0, m1))), self.r1.collects(data, m1, endian, args, Ok((t.1, m2))), self.r2.collects(data, m2, endian, args, Ok((t.2, m3))), self.r3.collects(data, m3, endian, args, Ok((t.3, m4))), self.r4.collects(data, m4, endian, args, Ok((t.4, m5))), self.r5.collects(data, m5, endian, args, Ok((t.5, m6))), self.r6.collects(data, m6, endian, args, Ok((t.6, m7))), self.r7.collects(data, m7, endian, args, Ok((t.7, m8))), self.r8.collects(data, m8, endian, args, Ok((t.8, m9))), self.r9.collects(data, m9, endian, args, Ok((t.9, m10)))]
                self.r0.collects(data, pos, endian, args, Ok((t.0, m1)))
                    && self.r1.collects(data, m1, endian, args, Ok((t.1, m2)))
                    && self.r2.collects(data, m2, endian, args, Ok((t.2, m3)))
                    && self.r3.collects(data, m3, endian, args, Ok((t.3, m4)))
                    && self.r4.collects(data, m4, endian, args, Ok((t.4, m5)))
                    && self.r5.collects(data, m5, endian, args, Ok((t.5, m6)))
                    && self.r6.collects(data, m6, endian, args, Ok((t.6, m7)))
                    && self.r7.collects(data, m7, endian, args, Ok((t.7, m8)))
                    && self.r8.collects(data, m8, endian, args, Ok((t.8, m9)))
                    && self.r9.collects(data, m9, endian, args, Ok((t.9, m10)))
                    && self.r10.collects(data, m10, endian, args, Ok((t.10, end))),
            Err(e) => {
                ||| self.r0.collects(data, pos, endian, args, Err(e))
                ||| exists|v0: Out0, m1: u64|
                    #![trigger self.r0.collects(data, pos, endian, args, Ok((v0, m1)))]
                    self.r0.collects(data, pos, endian, args, Ok((v0, m1)))
                        && self.r1.collects(data, m1, endian, args, Err(e))
                ||| exists|v0: Out0, v1: Out1, m1: u64, m2: u64|
                    #![trigger self.r0.collects(data, pos, endian, args, Ok((v0, m1))), self.r1.collects(data, m1, endian, args, Ok((v1, m2)))]
                    self.r0.collects(data, pos, endian, args, Ok((v0, m1)))
                        && self.r1.collects(data, m1, endian, args, Ok((v1, m2)))
                        && self.r2.collects(data, m2, endian, args, Err(e))
                ||| exists|v0: Out0, v1: Out1, v2: Out2, m1: u64, m2: u64, m3: u64|
                    #![trigger self.r0.collects(data, pos, endian, args, Ok((v0, m1))), self.r1.collects(data, m1, endian, args, Ok((v1, m2))), self.r2.collects(data, m2, endian, args, Ok((v2, m3)))]
                    self.r0.collects(data, pos, endian, args, Ok((v0, m1)))
                        && self.r1.collects(data, m1, endian, args, Ok((v1, m2)))
                        && self.r2.collects(data, m2, endian, args, Ok((v2, m3)))
                        && self.r3.collects(data, m3, endian, args, Err(e))
                ||| exists|v0: Out0, v1: Out1, v2: Out2, v3: Out3, m1: u64, m2: u64, m3: u64, m4: u64|
                    #![trigger self.r0.collects(data, pos, endian, args, Ok((v0, m1))), self.r1.collects(data, m1, endian, args, Ok((v1, m2))), self.r2.collects(data, m2, endian, args, Ok((v2, m3))), self.r3.collects(data, m3, endian, args, Ok((v3, m4)))]
                    self.r0.collects(data, pos, endian, args, Ok((v0, m1)))
                        && self.r1.collects(data, m1, endian, args, Ok((v1, m2)))
                        && self.r2.collects(data, m2, endian, args, Ok((v2, m3)))
                        && self.r3.collects(data, m3, endian, args, Ok((v3, m4)))
                        && self.r4.collects(data, m4, endian, args, Err(e))
                ||| exists|v0: Out0, v1: Out1, v2: Out2, v3: Out3, v4: Out4, m1: u64, m2: u64, m3: u64, m4: u64, m5: u64|
                    #![trigger self.r0.collects(data, pos, endian, args, Ok((v0, m1))), self.r1.collects(data, m1, endian, args, Ok((v1, m2))), self.r2.collects(data, m2, endian, args, Ok((v2, m3))), self.r3.collects(data, m3, endian, args, Ok((v3, m4))), self.r4.collects(data, m4, endian, args, Ok((v4, m5)))]
                    self.r0.collects(data, pos, endian, args, Ok((v0, m1)))
                        && self.r1.collects(data, m1, endian, args, Ok((v1, m2)))
                        && self.r2.collects(data, m2, endian, args, Ok((v2, m3)))
                        && self.r3.collects(data, m3, endian, args, Ok((v3, m4)))
                        && self.r4.collects(data, m4, endian, args, Ok((v4, m5)))
                        && self.r5.collects(data, m5, endian, args, Err(e))
                ||| exists|v0: Out0, v1: Out1, v2: Out2, v3: Out3, v4: Out4, v5: Out5, m1: u64, m2: u64, m3: u64, m4: u64, m5: u64, m6: u64|
                    #![trigger self.r0.collects(data, pos, endian, args, Ok((v0, m1))), self.r1.collects(data, m1, endian, args, Ok((v1, m2))), self.r2.collects(data, m2, endian, args, Ok((v2, m3))), self.r3.collects(data, m3, endian, args, Ok((v3, m4))), self.r4.collects(data, m4, endian, args, Ok((v4, m5))), self.r5.collects(data, m5, endian, args, Ok((v5, m6)))]
                    self.r0.collects(data, pos, endian, args, Ok((v0, m1)))
                        && self.r1.collects(data, m1, endian, args, Ok((v1, m2)))
                        && self.r2.collects(data, m2, endian, args, Ok((v2, m3)))
                        && self.r3.collects(data, m3, endian, args, Ok((v3, m4)))
                        && self.r4.collects(data, m4, endian, args, Ok((v4, m5)))
                        && self.r5.collects(data, m5, endian, args, Ok((v5, m6)))
                        && self.r6.collects(data, m6, endian, args, Err(e))
                ||| exists|v0: Out0, v1: Out1, v2: Out2, v3: Out3, v4: Out4, v5: Out5, v6: Out6, m1: u64, m2: u64, m3: u64, m4: u64, m5: u64, m6: u64, m7: u64|
                    #![trigger self.r0.collects(data, pos, endian, args, Ok((v0, m1))), self.r1.collects(data, m1, endian, args, Ok((v1, m2))), self.r2.collects(data, m2, endian, args, Ok((v2, m3))), self.r3.collects(data, m3, endian, args, Ok((v3, m4))), self.r4.collects(data, m4, endian, args, Ok((v4, m5))), self.r5.collects(data, m5, endian, args, Ok((v5, m6))), self.r6.collects(data, m6, endian, args, Ok((v6, m7)))]
                    self.r0.collects(data, pos, endian, args, Ok((v0, m1)))
                        && self.r1.collects(data, m1, endian, args, Ok((v1, m2)))
                        && self.r2.collects(data, m2, endian, args, Ok((v2, m3)))
                        && self.r3.collects(data, m3, endian, args, Ok((v3, m4)))
                        && self.r4.collects(data, m4, endian, args, Ok((v4, m5)))
                        && self.r5.collects(data, m5, endian, args, Ok((v5, m6)))
                        && self.r6.collects(data, m6, endian, args, Ok((v6, m7)))
                        && self.r7.collects(data, m7, endian, args, Err(e))
                ||| exists|v0: Out0, v1: Out1, v2: Out2, v3: Out3, v4: Out4, v5: Out5, v6: Out6, v7: Out7, m1: u64, m2: u64, m3: u64, m4: u64, m5: u64, m6: u64, m7: u64, m8: u64|
                    #![trigger self.r0.collects(data, pos, endian, args, Ok((v0, m1))), self.r1.collects(data, m1, endian, args, Ok((v1, m2))), self.r2.collects(data, m2, endian, args, Ok((v2, m3))), self.r3.collects(data, m3, endian, args, Ok((v3, m4))), self.r4.collects(data, m4, endian, args, Ok((v4, m5))), self.r5.collects(data, m5, endian, args, Ok((v5, m6))), self.r6.collects(data, m6, endian, args, Ok((v6, m7))), self.r7.collects(data, m7, endian, args, Ok((v7, m8)))]
                    self.r0.collects(data, pos, endian, args, Ok((v0, m1)))
                        && self.r1.collects(data, m1, endian, args, Ok((v1, m2)))
                        && self.r2.collects(data, m2, endian, args, Ok((v2, m3)))
                        && self.r3.collects(data, m3, endian, args, Ok((v3, m4)))
                        && self.r4.collects(data, m4, endian, args, Ok((v4, m5)))
                        && self.r5.collects(data, m5, endian, args, Ok((v5, m6)))
                        && self.r6.collects(data, m6, endian, args, Ok((v6, m7)))
                        && self.r7.collects(data, m7, endian, args, Ok((v7, m8)))
                        && self.r8.collects(data, m8, endian, args, Err(e))
                ||| exists|v0: Out0, v1: Out1, v2: Out2, v3: Out3, v4: Out4, v5: Out5, v6: Out6, v7: Out7, v8: Out8, m1: u64, m2: u64, m3: u64, m4: u64, m5: u64, m6: u64, m7: u64, m8: u64, m9: u64|
                    #![trigger self.r0.collects(data, pos, endian, args, Ok((v0, m1))), self.r1.collects(data, m1, endian, args, Ok((v1, m2))), self.r2.collects(data, m2, endian, args, Ok((v2, m3))), self.r3.collects(data, m3, endian, args, Ok((v3, m4))), self.r4.collects(data, m4, endian, args, Ok((v4, m5))), self.r5.collects(data, m5, endian, args, Ok((v5, m6))), self.r6.collects(data, m6, endian, args, Ok((v6, m7))), self.r7.collects(data, m7, endian, args, Ok((v7, m8))), self.r8.collects(data, m8, endian, args, Ok((v8, m9)))]
                    self.r0.collects(data, pos, endian, args, Ok((v0, m1)))
                        && self.r1.collects(data, m1, endian, args, Ok((v1, m2)))
                        && self.r2.collects(data, m2, endian, args, Ok((v2, m3)))
                        && self.r3.collects(data, m3, endian, args, Ok((v3, m4)))
                        && self.r4.collects(data, m4, endian, args, Ok((v4, m5)))
                        && self.r5.collects(data, m5, endian, args, Ok((v5, m6)))
                        && self.r6.collects(data, m6, endian, args, Ok((v6, m7)))
                        && self.r7.collects(data, m7, endian, args, Ok((v7, m8)))
                        && self.r8.collects(data, m8, endian, args, Ok((v8, m9)))
                        && self.r9.collects(data, m9, endian, args, Err(e))
                ||| exists|v0: Out0, v1: Out1, v2: Out2, v3: Out3, v4: Out4, v5: Out5, v6: Out6, v7: Out7, v8: Out8, v9: Out9, m1: u64, m2: u64, m3: u64, m4: u64, m5: u64, m6: u64, m7: u64, m8: u64, m9: u64, m10: u64|
                    #![trigger self.r0.collects(data, pos, endian, args, Ok((v0, m1))), self.r1.collects(data, m1, endian, args, Ok((v1, m2))), self.r2.collects(data, m2, endian, args, Ok((v2, m3))), self.r3.collects(data, m3, endian, args, Ok((v3, m4))), self.r4.collects(data, m4, endian, args, Ok((v4, m5))), self.r5.collects(data, m5, endian, args, Ok((v5, m6))), self.r6.collects(data, m6, endian, args, Ok((v6, m7))), self.r7.collects(data, m7, endian, args, Ok((v7, m8))), self.r8.collects(data, m8, endian, args, Ok((v8, m9))), self.r9.collects(data, m9, endian, args, Ok((v9, m10)))]
                    self.r0.collects(data, pos, endian, args, Ok((v0, m1)))
                        && self.r1.collects(data, m1, endian, args, Ok((v1, m2)))
                        && self.r2.collects(data, m2, endian, args, Ok((v2, m3)))
                        && self.r3.collects(data, m3, endian, args, Ok((v3, m4)))
                        && self.r4.collects(data, m4, endian, args, Ok((v4, m5)))
                        && self.r5.collects(data, m5, endian, args, Ok((v5, m6)))
                        && self.r6.collects(data, m6, endian, args, Ok((v6, m7)))
                        && self.r7.collects(data, m7, endian, args, Ok((v7, m8)))
                        && self.r8.collects(data, m8, endian, args, Ok((v8, m9)))
                        && self.r9.collects(data, m9, endian, args, Ok((v9, m10)))
                        && self.r10.collects(data, m10, endian, args, Err(e))
            },
        }
    }

    fn collect_non_backtracking(
        &self,
        reader: &mut Cursor,
        endian: Endian,
        args: Args,
        token: BinReadCollectToken,
    ) -> (r: BinResult<(Out0, Out1, Out2, Out3, Out4, Out5, Out6, Out7, Out8, Out9, Out10)>) {
        let ghost data = reader@.data;
        let ghost p0 = reader@.pos;
        let t0 = match self.r0.read(reader, endian, args) {
            Ok(v) => v,
            Err(e) => {
                return Err(e);
            },
        };
        let ghost p1 = reader@.pos;
        assert(self.r0.collects(data, p0, endian, args, Ok((t0, p1))));
        let t1 = match self.r1.read(reader, endian, args) {
            Ok(v) => v,
            Err(e) => {
                let ghost o: Result<((Out0, Out1, Out2, Out3, Out4, Out5, Out6, Out7, Out8, Out9, Out10), u64), BinError> = Err(e);
                assert(o matches Err(x) && x == e);
                return Err(e);
            },
        };
        let ghost p2 = reader@.pos;
        assert(self.r1.collects(data, p1, endian, args, Ok((t1, p2))));
        let t2 = match self.r2.read(reader, endian, args) {
            Ok(v) => v,
            Err(e) => {
                let ghost o: Result<((Out0, Out1, Out2, Out3, Out4, Out5, Out6, Out7, Out8, Out9, Out10), u64), BinError> = Err(e);
                assert(o matches Err(x) && x == e);
                return Err(e);
            },
        };
        let ghost p3 = reader@.pos;
        assert(self.r2.collects(data, p2, endian, args, Ok((t2, p3))));
        let t3 = match self.r3.read(reader, endian, args) {
            Ok(v) => v,
            Err(e) => {
                let ghost o: Result<((Out0, Out1, Out2, Out3, Out4, Out5, Out6, Out7, Out8, Out9, Out10), u64), BinError> = Err(e);
                assert(o matches Err(x) && x == e);
                return Err(e);
            },
        };
        let ghost p4 = reader@.pos;
        assert(self.r3.collects(data, p3, endian, args, Ok((t3, p4))));
        let t4 = match self.r4.read(reader, endian, args) {
            Ok(v) => v,
            Err(e) => {
                let ghost o: Result<((Out0, Out1, Out2, Out3, Out4, Out5, Out6, Out7, Out8, Out9, Out10), u64), BinError> = Err(e);
                assert(o matches Err(x) && x == e);
                return Err(e);
            },
        };
        let ghost p5 = reader@.pos;
        assert(self.r4.collects(data, p4, endian, args, Ok((t4, p5))));
        let t5 = match self.r5.read(reader, endian, args) {
            Ok(v) => v,
            Err(e) => {
                let ghost o: Result<((Out0, Out1, Out2, Out3, Out4, Out5, Out6, Out7, Out8, Out9, Out10), u64), BinError> = Err(e);
                assert(o matches Err(x) && x == e);
                return Err(e);
            },
        };
        let ghost p6 = reader@.pos;
        assert(self.r5.collects(data, p5, endian, args, Ok((t5, p6))));
        let t6 = match self.r6.read(reader, endian, args) {
            Ok(v) => v,
            Err(e) => {
                let ghost o: Result<((Out0, Out1, Out2, Out3, Out4, Out5, Out6, Out7, Out8, Out9, Out10), u64), BinError> = Err(e);
                assert(o matches Err(x) && x == e);
                return Err(e);
            },
        };
        let ghost p7 = reader@.pos;
        assert(self.r6.collects(data, p6, endian, args, Ok((t6, p7))));
        let t7 = match self.r7.read(reader, endian, args) {
            Ok(v) => v,
            Err(e) => {
                let ghost o: Result<((Out0, Out1, Out2, Out3, Out4, Out5, Out6, Out7, Out8, Out9, Out10), u64), BinError> = Err(e);
                assert(o matches Err(x) && x == e);
                return Err(e);
            },
        };
        let ghost p8 = reader@.pos;
        assert(self.r7.collects(data, p7, endian, args, Ok((t7, p8))));
        let t8 = match self.r8.read(reader, endian, args) {
            Ok(v) => v,
            Err(e) => {
                let ghost o: Result<((Out0, Out1, Out2, Out3, Out4, Out5, Out6, Out7, Out8, Out9, Out10), u64), BinError> = Err(e);
                assert(o matches Err(x) && x == e);
                return Err(e);
            },
        };
        let ghost p9 = reader@.pos;
        assert(self.r8.collects(data, p8, endian, args, Ok((t8, p9))));
        let t9 = match self.r9.read(reader, endian, args) {
            Ok(v) => v,
            Err(e) => {
                let ghost o: Result<((Out0, Out1, Out2, Out3, Out4, Out5, Out6, Out7, Out8, Out9, Out10), u64), BinError> = Err(e);
                assert(o matches Err(x) && x == e);
                return Err(e);
            },
        };
        let ghost p10 = reader@.pos;
        assert(self.r9.collects(data, p9, endian, args, Ok((t9, p10))));
        let t10 = match self.r10.read(reader, endian, args) {
            Ok(v) => v,
            Err(e) => {
                let ghost o: Result<((Out0, Out1, Out2, Out3, Out4, Out5, Out6, Out7, Out8, Out9, Out10), u64), BinError> = Err(e);
                assert(o matches Err(x) && x == e);
                return Err(e);
            },
        };
        let ghost p11 = reader@.pos;
        assert(self.r10.collects(data, p10, endian, args, Ok((t10, p11))));
        let ghost t = (t0, t1, t2, t3, t4, t5, t6, t7, t8, t9, t10);
        assert(self.r0.collects(data, p0, endian, args, Ok((t.0, p1))));
        assert(self.r1.collects(data, p1, endian, args, Ok((t.1, p2))));
        assert(self.r2.collects(data, p2, endian, args, Ok((t.2, p3))));
        assert(self.r3.collects(data, p3, endian, args, Ok((t.3, p4))));
        assert(self.r4.collects(data, p4, endian, args, Ok((t.4, p5))));
        assert(self.r5.collects(data, p5, endian, args, Ok((t.5, p6))));
        assert(self.r6.collects(data, p6, endian, args, Ok((t.6, p7))));
        assert(self.r7.collects(data, p7, endian, args, Ok((t.7, p8))));
        assert(self.r8.collects(data, p8, endian, args, Ok((t.8, p9))));
        assert(self.r9.collects(data, p9, endian, args, Ok((t.9, p10))));
        assert(self.r10.collects(data, p10, endian, args, Ok((t.10, p11))));
        let ghost o: Result<((Out0, Out1, Out2, Out3, Out4, Out5, Out6, Out7, Out8, Out9, Out10), u64), BinError> = Ok((t, p11));
        assert(o matches Ok((x, y)) && x == t && y == p11);
        Ok((t0, t1, t2, t3, t4, t5, t6, t7, t8, t9, t10))
    }
}

impl<T0, T1, T2, T3, T4, T5, T6, T7, T8, T9, T10> BinReader for (T0, T1, T2, T3, T4, T5, T6, T7, T8, T9, T10) where
    T0: BinReader<Out = T0>,
    T1: BinReader<Args = T0::Args, Out = T1>,
    T2: BinReader<Args = T0::Args, Out = T2>,
    T3: BinReader<Args = T0::Args, Out = T3>,
    T4: BinReader<Args = T0::Args, Out = T4>,
    T5: BinReader<Args = T0::Args, Out = T5>,
    T6: BinReader<Args = T0::Args, Out = T6>,
    T7: BinReader<Args = T0::Args, Out = T7>,
    T8: BinReader<Args = T0::Args, Out = T8>,
    T9: BinReader<Args = T0::Args, Out = T9>,
    T10: BinReader<Args = T0::Args, Out = T10>,
    T0::Args: Copy,
 {
    type Args = T0::Args;
    type Out = (T0, T1, T2, T3, T4, T5, T6, T7, T8, T9, T10);
    type Reader = Tuple11Reader<T0::Reader, T1::Reader, T2::Reader, T3::Reader, T4::Reader, T5::Reader, T6::Reader, T7::Reader, T8::Reader, T9::Reader, T10::Reader>;

    open spec fn spec_reader() -> Tuple11Reader<T0::Reader, T1::Reader, T2::Reader, T3::Reader, T4::Reader, T5::Reader, T6::Reader, T7::Reader, T8::Reader, T9::Reader, T10::Reader> {
        Tuple11Reader { r0: T0::spec_reader(), r1: T1::spec_reader(), r2: T2::spec_reader(), r3: T3::spec_reader(), r4: T4::spec_reader(), r5: T5::spec_reader(), r6: T6::spec_reader(), r7: T7::spec_reader(), r8: T8::spec_reader(), r9: T9::spec_reader(), r10: T10::spec_reader() }
    }

    fn reader() -> (r: Tuple11Reader<T0::Reader, T1::Reader, T2::Reader, T3::Reader, T4::Reader, T5::Reader, T6::Reader, T7::Reader, T8::Reader, T9::Reader, T10::Reader>) {
        Tuple11Reader { r0: T0::reader(), r1: T1::reader(), r2: T2::reader(), r3: T3::reader(), r4: T4::reader(), r5: T5::reader(), r6: T6::reader(), r7: T7::reader(), r8: T8::reader(), r9: T9::reader(), r10: T10::reader() }
    }
}

/// Reads 12 values one after another, with the same arguments.
pub struct Tuple12Reader<R0, R1, R2, R3, R4, R5, R6, R7, R8, R9, R10, R11> {
    pub r0: R0,
    pub r1: R1,
    pub r2: R2,
    pub r3: R3,
    pub r4: R4,
    pub r5: R5,
    pub r6: R6,
    pub r7: R7,
    pub r8: R8,
    pub r9: R9,
    pub r10: R10,
    pub r11: R11,
}

impl<R0, R1, R2, R3, R4, R5, R6, R7, R8, R9, R10, R11, Args, Out0, Out1, Out2, Out3, Out4, Out5, Out6, Out7, Out8, Out9, Out10, Out11> BinReadCollect<Args, (Out0, Out1, Out2, Out3, Out4, Out5, Out6, Out7, Out8, Out9, Out10, Out11)> for Tuple12Reader<R0, R1, R2, R3, R4, R5, R6, R7, R8, R9, R10, R11> where
    R0: BinReadCollect<Args, Out0>,
    R1: BinReadCollect<Args, Out1>,
    R2: BinReadCollect<Args, Out2>,
    R3: BinReadCollect<Args, Out3>,
    R4: BinReadCollect<Args, Out4>,
    R5: BinReadCollect<Args, Out5>,
    R6: BinReadCollect<Args, Out6>,
    R7: BinReadCollect<Args, Out7>,
    R8: BinReadCollect<Args, Out8>,
    R9: BinReadCollect<Args, Out9>,
    R10: BinReadCollect<Args, Out10>,
    R11: BinReadCollect<Args, Out11>,
    Args: Copy,
 {
    open spec fn collect_wf(&self) -> bool {
        self.r0.collect_wf() && self.r1.collect_wf() && self.r2.collect_wf() && self.r3.collect_wf() && self.r4.collect_wf() && self.r5.collect_wf() && self.r6.collect_wf() && self.r7.collect_wf() && self.r8.collect_wf() && self.r9.collect_wf() && self.r10.collect_wf() && self.r11.collect_wf()
    }

    /// The values are read in order, each right after the one before.
    open spec fn collects(
        &self,
        data: Seq<u8>,
        pos: u64,
        endian: Endian,
        args: Args,
        outcome: Result<((Out0, Out1, Out2, Out3, Out4, Out5, Out6, Out7, Out8, Out9, Out10, Out11), u64), BinError>,
    ) -> bool {
        match outcome {
            Ok((t, end)) => exists|m1: u64, m2: u64, m3: u64, m4: u64, m5: u64, m6: u64, m7: u64, m8: u64, m9: u64, m10: u64, m11: u64|
                #![trigger self.r0.collects(data, pos, endian, args, Ok((t.0, m1))), self.r1.collects(data, m1, endian, args, Ok((t.1, m2))), self.r2.collects(data, m2, endian, args, Ok((t.2, m3))), self.r3.collects(data, m3, endian, args, Ok((t.3, m4))), self.r4.collects(data, m4, endian, args, Ok((t.4, m5))), self.r5.collects(data, m5, endian, args, Ok((t.5, m6))), self.r6.collects(data, m6, endian, args, Ok((t.6, m7))), self.r7.collects(data, m7, endian, args, Ok((t.7, m8))), self.r8.collects(data, m8, endian, args, Ok((t.8, m9))), self.r9.collects(data, m9, endian, args, Ok((t.9, m10))), self.r10.collects(data, m10, endian, args, Ok((t.10, m11)))]
                self.r0.collects(data, pos, endian, args, Ok((t.0, m1)))
                    && self.r1.collects(data, m1, endian, args, Ok((t.1, m2)))
                    && self.r2.collects(data, m2, endian, args, Ok((t.2, m3)))
                    && self.r3.collects(data, m3, endian, args, Ok((t.3, m4)))
                    && self.r4.collects(data, m4, endian, args, Ok((t.4, m5)))
                    && self.r5.collects(data, m5, endian, args, Ok((t.5, m6)))
                    && self.r6.collects(data, m6, endian, args, Ok((t.6, m7)))
                    && self.r7.collects(data, m7, endian, args, Ok((t.7, m8)))
                    && self.r8.collects(data, m8, endian, args, Ok((t.8, m9)))
                    && self.r9.collects(data, m9, endian, args, Ok((t.9, m10)))
                    && self.r10.collects(data, m10, endian, args, Ok((t.10, m11)))
                    && self.r11.collects(data, m11, endian, args, Ok((t.11, end))),
            Err(e) => {
                ||| self.r0.collects(data, pos, endian, args, Err(e))
                ||| exists|v0: Out0, m1: u64|
                    #![trigger self.r0.collects(data, pos, endian, args, Ok((v0, m1)))]
                    self.r0.collects(data, pos, endian, args, Ok((v0, m1)))
                        && self.r1.collects(data, m1, endian, args, Err(e))
                ||| exists|v0: Out0, v1: Out1, m1: u64, m2: u64|
                    #![trigger self.r0.collects(data, pos, endian, args, Ok((v0, m1))), self.r1.collects(data, m1, endian, args, Ok((v1, m2)))]
                    self.r0.collects(data, pos, endian, args, Ok((v0, m1)))
                        && self.r1.collects(data, m1, endian, args, Ok((v1, m2)))
                        && self.r2.collects(data, m2, endian, args, Err(e))
                ||| exists|v0: Out0, v1: Out1, v2: Out2, m1: u64, m2: u64, m3: u64|
                    #![trigger self.r0.collects(data, pos, endian, args, Ok((v0, m1))), self.r1.collects(data, m1, endian, args, Ok((v1, m2))), self.r2.collects(data, m2, endian, args, Ok((v2, m3)))]
                    self.r0.collects(data, pos, endian, args, Ok((v0, m1)))
                        && self.r1.collects(data, m1, endian, args, Ok((v1, m2)))
                        && self.r2.collects(data, m2, endian, args, Ok((v2, m3)))
                        && self.r3.collects(data, m3, endian, args, Err(e))
                ||| exists|v0: Out0, v1: Out1, v2: Out2, v3: Out3, m1: u64, m2: u64, m3: u64, m4: u64|
                    #![trigger self.r0.collects(data, pos, endian, args, Ok((v0, m1))), self.r1.collects(data, m1, endian, args, Ok((v1, m2))), self.r2.collects(data, m2, endian, args, Ok((v2, m3))), self.r3.collects(data, m3, endian, args, Ok((v3, m4)))]
                    self.r0.collects(data, pos, endian, args, Ok((v0, m1)))
                        && self.r1.collects(data, m1, endian, args, Ok((v1, m2)))
                        && self.r2.collects(data, m2, endian, args, Ok((v2, m3)))
                        && self.r3.collects(data, m3, endian, args, Ok((v3, m4)))
                        && self.r4.collects(data, m4, endian, args, Err(e))
                ||| exists|v0: Out0, v1: Out1, v2: Out2, v3: Out3, v4: Out4, m1: u64, m2: u64, m3: u64, m4: u64, m5: u64|
                    #![trigger self.r0.collects(data, pos, endian, args, Ok((v0, m1))), self.r1.collects(data, m1, endian, args, Ok((v1, m2))), self.r2.collects(data, m2, endian, args, Ok((v2, m3))), self.r3.collects(data, m3, endian, args, Ok((v3, m4))), self.r4.collects(data, m4, endian, args, Ok((v4, m5)))]
                    self.r0.collects(data, pos, endian, args, Ok((v0, m1)))
                        && self.r1.collects(data, m1, endian, args, Ok((v1, m2)))
                        && self.r2.collects(data, m2, endian, args, Ok((v2, m3)))
                        && self.r3.collects(data, m3, endian, args, Ok((v3, m4)))
                        && self.r4.collects(data, m4, endian, args, Ok((v4, m5)))
                        && self.r5.collects(data, m5, endian, args, Err(e))
                ||| exists|v0: Out0, v1: Out1, v2: Out2, v3: Out3, v4: Out4, v5: Out5, m1: u64, m2: u64, m3: u64, m4: u64, m5: u64, m6: u64|
                    #![trigger self.r0.collects(data, pos, endian, args, Ok((v0, m1))), self.r1.collects(data, m1, endian, args, Ok((v1, m2))), self.r2.collects(data, m2, endian, args, Ok((v2, m3))), self.r3.collects(data, m3, endian, args, Ok((v3, m4))), self.r4.collects(data, m4, endian, args, Ok((v4, m5))), self.r5.collects(data, m5, endian, args, Ok((v5, m6)))]
                    self.r0.collects(data, pos, endian, args, Ok((v0, m1)))
                        && self.r1.collects(data, m1, endian, args, Ok((v1, m2)))
                        && self.r2.collects(data, m2, endian, args, Ok((v2, m3)))
                        && self.r3.collects(data, m3, endian, args, Ok((v3, m4)))
                        && self.r4.collects(data, m4, endian, args, Ok((v4, m5)))
                        && self.r5.collects(data, m5, endian, args, Ok((v5, m6)))
                        && self.r6.collects(data, m6, endian, args, Err(e))
                ||| exists|v0: Out0, v1: Out1, v2: Out2, v3: Out3, v4: Out4, v5: Out5, v6: Out6, m1: u64, m2: u64, m3: u64, m4: u64, m5: u64, m6: u64, m7: u64|
                    #![trigger self.r0.collects(data, pos, endian, args, Ok((v0, m1))), self.r1.collects(data, m1, endian, args, Ok((v1, m2))), self.r2.collects(data, m2, endian, args, Ok((v2, m3))), self.r3.collects(data, m3, endian, args, Ok((v3, m4))), self.r4.collects(data, m4, endian, args, Ok((v4, m5))), self.r5.collects(data, m5, endian, args, Ok((v5, m6))), self.r6.collects(data, m6, endian, args, Ok((v6, m7)))]
                    self.r0.collects(data, pos, endian, args, Ok((v0, m1)))
                        && self.r1.collects(data, m1, endian, args, Ok((v1, m2)))
                        && self.r2.collects(data, m2, endian, args, Ok((v2, m3)))
                        && self.r3.collects(data, m3, endian, args, Ok((v3, m4)))
                        && self.r4.collects(data, m4, endian, args, Ok((v4, m5)))
                        && self.r5.collects(data, m5, endian, args, Ok((v5, m6)))
                        && self.r6.collects(data, m6, endian, args, Ok((v6, m7)))
                        && self.r7.collects(data, m7, endian, args, Err(e))
                ||| exists|v0: Out0, v1: Out1, v2: Out2, v3: Out3, v4: Out4, v5: Out5, v6: Out6, v7: Out7, m1: u64, m2: u64, m3: u64, m4: u64, m5: u64, m6: u64, m7: u64, m8: u64|
                    #![trigger self.r0.collects(data, pos, endian, args, Ok((v0, m1))), self.r1.collects(data, m1, endian, args, Ok((v1, m2))), self.r2.collects(data, m2, endian, args, Ok((v2, m3))), self.r3.collects(data, m3, endian, args, Ok((v3, m4))), self.r4.collects(data, m4, endian, args, Ok((v4, m5))), self.r5.collects(data, m5, endian, args, Ok((v5, m6))), self.r6.collects(data, m6, endian, args, Ok((v6, m7))), self.r7.collects(data, m7, endian, args, Ok((v7, m8)))]
                    self.r0.collects(data, pos, endian, args, Ok((v0, m1)))
                        && self.r1.collects(data, m1, endian, args, Ok((v1, m2)))
                        && self.r2.collects(data, m2, endian, args, Ok((v2, m3)))
                        && self.r3.collects(data, m3, endian, args, Ok((v3, m4)))
                        && self.r4.collects(data, m4, endian, args, Ok((v4, m5)))
                        && self.r5.collects(data, m5, endian, args, Ok((v5, m6)))
                        && self.r6.collects(data, m6, endian, args, Ok((v6, m7)))
                        && self.r7.collects(data, m7, endian, args, Ok((v7, m8)))
                        && self.r8.collects(data, m8, endian, args, Err(e))
                ||| exists|v0: Out0, v1: Out1, v2: Out2, v3: Out3, v4: Out4, v5: Out5, v6: Out6, v7: Out7, v8: Out8, m1: u64, m2: u64, m3: u64, m4: u64, m5: u64, m6: u64, m7: u64, m8: u64, m9: u64|
                    #![trigger self.r0.collects(data, pos, endian, args, Ok((v0, m1))), self.r1.collects(data, m1, endian, args, Ok((v1, m2))), self.r2.collects(data, m2, endian, args, Ok((v2, m3))), self.r3.collects(data, m3, endian, args, Ok((v3, m4))), self.r4.collects(data, m4, endian, args, Ok((v4, m5))), self.r5.collects(data, m5, endian, args, Ok((v5, m6))), self.r6.collects(data, m6, endian, args, Ok((v6, m7))), self.r7.collects(data, m7, endian, args, Ok((v7, m8))), self.r8.collects(data, m8, endian, args, Ok((v8, m9)))]
                    self.r0.collects(data, pos, endian, args, Ok((v0, m1)))
                        && self.r1.collects(data, m1, endian, args, Ok((v1, m2)))
                        && self.r2.collects(data, m2, endian, args, Ok((v2, m3)))
                        && self.r3.collects(data, m3, endian, args, Ok((v3, m4)))
                        && self.r4.collects(data, m4, endian, args, Ok((v4, m5)))
                        && self.r5.collects(data, m5, endian, args, Ok((v5, m6)))
                        && self.r6.collects(data, m6, endian, args, Ok((v6, m7)))
                        && self.r7.collects(data, m7, endian, args, Ok((v7, m8)))
                        && self.r8.collects(data, m8, endian, args, Ok((v8, m9)))
                        && self.r9.collects(data, m9, endian, args, Err(e))
                ||| exists|v0: Out0, v1: Out1, v2: Out2, v3: Out3, v4: Out4, v5: Out5, v6: Out6, v7: Out7, v8: Out8, v9: Out9, m1: u64, m2: u64, m3: u64, m4: u64, m5: u64, m6: u64, m7: u64, m8: u64, m9: u64, m10: u64|
                    #![trigger self.r0.collects(data, pos, endian, args, Ok((v0, m1))), self.r1.collects(data, m1, endian, args, Ok((v1, m2))), self.r2.collects(data, m2, endian, args, Ok((v2, m3))), self.r3.collects(data, m3, endian, args, Ok((v3, m4))), self.r4.collects(data, m4, endian, args, Ok((v4, m5))), self.r5.collects(data, m5, endian, args, Ok((v5, m6))), self.r6.collects(data, m6, endian, args, Ok((v6, m7))), self.r7.collects(data, m7, endian, args, Ok((v7, m8))), self.r8.collects(data, m8, endian, args, Ok((v8, m9))), self.r9.collects(data, m9, endian, args, Ok((v9, m10)))]
                    self.r0.collects(data, pos, endian, args, Ok((v0, m1)))
                        && self.r1.collects(data, m1, endian, args, Ok((v1, m2)))
                        && self.r2.collects(data, m2, endian, args, Ok((v2, m3)))
                        && self.r3.collects(data, m3, endian, args, Ok((v3, m4)))
                        && self.r4.collects(data, m4, endian, args, Ok((v4, m5)))
                        && self.r5.collects(data, m5, endian, args, Ok((v5, m6)))
                        && self.r6.collects(data, m6, endian, args, Ok((v6, m7)))
                        && self.r7.collects(data, m7, endian, args, Ok((v7, m8)))
                        && self.r8.collects(data, m8, endian, args, Ok((v8, m9)))
                        && self.r9.collects(data, m9, endian, args, Ok((v9, m10)))
                        && self.r10.collects(data, m10, endian, args, Err(e))
                ||| exists|v0: Out0, v1: Out1, v2: Out2, v3: Out3, v4: Out4, v5: Out5, v6: Out6, v7: Out7, v8: Out8, v9: Out9, v10: Out10, m1: u64, m2: u64, m3: u64, m4: u64, m5: u64, m6: u64, m7: u64, m8: u64, m9: u64, m10: u64, m11: u64|
                    #![trigger self.r0.collects(data, pos, endian, args, Ok((v0, m1))), self.r1.collects(data, m1, endian, args, Ok((v1, m2))), self.r2.collects(data, m2, endian, args, Ok((v2, m3))), self.r3.collects(data, m3, endian, args, Ok((v3, m4))), self.r4.collects(data, m4, endian, args, Ok((v4, m5))), self.r5.collects(data, m5, endian, args, Ok((v5, m6))), self.r6.collects(data, m6, endian, args, Ok((v6, m7))), self.r7.collects(data, m7, endian, args, Ok((v7, m8))), self.r8.collects(data, m8, endian, args, Ok((v8, m9))), self.r9.collects(data, m9, endian, args, Ok((v9, m10))), self.r10.collects(data, m10, endian, args, Ok((v10, m11)))]
                    self.r0.collects(data, pos, endian, args, Ok((v0, m1)))
                        && self.r1.collects(data, m1, endian, args, Ok((v1, m2)))
                        && self.r2.collects(data, m2, endian, args, Ok((v2, m3)))
                        && self.r3.collects(data, m3, endian, args, Ok((v3, m4)))
                        && self.r4.collects(data, m4, endian, args, Ok((v4, m5)))
                        && self.r5.collects(data, m5, endian, args, Ok((v5, m6)))
                        && self.r6.collects(data, m6, endian, args, Ok((v6, m7)))
                        && self.r7.collects(data, m7, endian, args, Ok((v7, m8)))
                        && self.r8.collects(data, m8, endian, args, Ok((v8, m9)))
                        && self.r9.collects(data, m9, endian, args, Ok((v9, m10)))
                        && self.r10.collects(data, m10, endian, args, Ok((v10, m11)))
                        && self.r11.collects(data, m11, endian, args, Err(e))
            },
        }
    }

    fn collect_non_backtracking(
        &self,
        reader: &mut Cursor,
        endian: Endian,
        args: Args,
        token: BinReadCollectToken,
    ) -> (r: BinResult<(Out0, Out1, Out2, Out3, Out4, Out5, Out6, Out7, Out8, Out9, Out10, Out11)>) {
        let ghost data = reader@.data;
        let ghost p0 = reader@.pos;
        let t0 = match self.r0.read(reader, endian, args) {
            Ok(v) => v,
            Err(e) => {
                return Err(e);
            },
        };
        let ghost p1 = reader@.pos;
        assert(self.r0.collects(data, p0, endian, args, Ok((t0, p1))));
        let t1 = match self.r1.read(reader, endian, args) {
            Ok(v) => v,
            Err(e) => {
                let ghost o: Result<((Out0, Out1, Out2, Out3, Out4, Out5, Out6, Out7, Out8, Out9, Out10, Out11), u64), BinError> = Err(e);
                assert(o matches Err(x) && x == e);
                return Err(e);
            },
        };
        let ghost p2 = reader@.pos;
        assert(self.r1.collects(data, p1, endian, args, Ok((t1, p2))));
        let t2 = match self.r2.read(reader, endian, args) {
            Ok(v) => v,
            Err(e) => {
                let ghost o: Result<((Out0, Out1, Out2, Out3, Out4, Out5, Out6, Out7, Out8, Out9, Out10, Out11), u64), BinError> = Err(e);
                assert(o matches Err(x) && x == e);
                return Err(e);
            },
        };
        let ghost p3 = reader@.pos;
        assert(self.r2.collects(data, p2, endian, args, Ok((t2, p3))));
        let t3 = match self.r3.read(reader, endian, args) {
            Ok(v) => v,
            Err(e) => {
                let ghost o: Result<((Out0, Out1, Out2, Out3, Out4, Out5, Out6, Out7, Out8, Out9, Out10, Out11), u64), BinError> = Err(e);
                assert(o matches Err(x) && x == e);
                return Err(e);
            },
        };
        let ghost p4 = reader@.pos;
        assert(self.r3.collects(data, p3, endian, args, Ok((t3, p4))));
        let t4 = match self.r4.read(reader, endian, args) {
            Ok(v) => v,
            Err(e) => {
                let ghost o: Result<((Out0, Out1, Out2, Out3, Out4, Out5, Out6, Out7, Out8, Out9, Out10, Out11), u64), BinError> = Err(e);
                assert(o matches Err(x) && x == e);
                return Err(e);
            },
        };
        let ghost p5 = reader@.pos;
        assert(self.r4.collects(data, p4, endian, args, Ok((t4, p5))));
        let t5 = match self.r5.read(reader, endian, args) {
            Ok(v) => v,
            Err(e) => {
                let ghost o: Result<((Out0, Out1, Out2, Out3, Out4, Out5, Out6, Out7, Out8, Out9, Out10, Out11), u64), BinError> = Err(e);
                assert(o matches Err(x) && x == e);
                return Err(e);
            },
        };
        let ghost p6 = reader@.pos;
        assert(self.r5.collects(data, p5, endian, args, Ok((t5, p6))));
        let t6 = match self.r6.read(reader, endian, args) {
            Ok(v) => v,
            Err(e) => {
                let ghost o: Result<((Out0, Out1, Out2, Out3, Out4, Out5, Out6, Out7, Out8, Out9, Out10, Out11), u64), BinError> = Err(e);
                assert(o matches Err(x) && x == e);
                return Err(e);
            },
        };
        let ghost p7 = reader@.pos;
        assert(self.r6.collects(data, p6, endian, args, Ok((t6, p7))));
        let t7 = match self.r7.read(reader, endian, args) {
            Ok(v) => v,
            Err(e) => {
                let ghost o: Result<((Out0, Out1, Out2, Out3, Out4, Out5, Out6, Out7, Out8, Out9, Out10, Out11), u64), BinError> = Err(e);
                assert(o matches Err(x) && x == e);
                return Err(e);
            },
        };
        let ghost p8 = reader@.pos;
        assert(self.r7.collects(data, p7, endian, args, Ok((t7, p8))));
        let t8 = match self.r8.read(reader, endian, args) {
            Ok(v) => v,
            Err(e) => {
                let ghost o: Result<((Out0, Out1, Out2, Out3, Out4, Out5, Out6, Out7, Out8, Out9, Out10, Out11), u64), BinError> = Err(e);
                assert(o matches Err(x) && x == e);
                return Err(e);
            },
        };
        let ghost p9 = reader@.pos;
        assert(self.r8.collects(data, p8, endian, args, Ok((t8, p9))));
        let t9 = match self.r9.read(reader, endian, args) {
            Ok(v) => v,
            Err(e) => {
                let ghost o: Result<((Out0, Out1, Out2, Out3, Out4, Out5, Out6, Out7, Out8, Out9, Out10, Out11), u64), BinError> = Err(e);
                assert(o matches Err(x) && x == e);
                return Err(e);
            },
        };
        let ghost p10 = reader@.pos;
        assert(self.r9.collects(data, p9, endian, args, Ok((t9, p10))));
        let t10 = match self.r10.read(reader, endian, args) {
            Ok(v) => v,
            Err(e) => {
                let ghost o: Result<((Out0, Out1, Out2, Out3, Out4, Out5, Out6, Out7, Out8, Out9, Out10, Out11), u64), BinError> = Err(e);
                assert(o matches Err(x) && x == e);
                return Err(e);
            },
        };
        let ghost p11 = reader@.pos;
        assert(self.r10.collects(data, p10, endian, args, Ok((t10, p11))));
        let t11 = match self.r11.read(reader, endian, args) {
            Ok(v) => v,
            Err(e) => {
                let ghost o: Result<((Out0, Out1, Out2, Out3, Out4, Out5, Out6, Out7, Out8, Out9, Out10, Out11), u64), BinError> = Err(e);
                assert(o matches Err(x) && x == e);
                return Err(e);
            },
        };
        let ghost p12 = reader@.pos;
        assert(self.r11.collects(data, p11, endian, args, Ok((t11, p12))));
        let ghost t = (t0, t1, t2, t3, t4, t5, t6, t7, t8, t9, t10, t11);
        assert(self.r0.collects(data, p0, endian, args, Ok((t.0, p1))));
        assert(self.r1.collects(data, p1, endian, args, Ok((t.1, p2))));
        assert(self.r2.collects(data, p2, endian, args, Ok((t.2, p3))));
        assert(self.r3.collects(data, p3, endian, args, Ok((t.3, p4))));
        assert(self.r4.collects(data, p4, endian, args, Ok((t.4, p5))));
        assert(self.r5.collects(data, p5, endian, args, Ok((t.5, p6))));
        assert(self.r6.collects(data, p6, endian, args, Ok((t.6, p7))));
        assert(self.r7.collects(data, p7, endian, args, Ok((t.7, p8))));
        assert(self.r8.collects(data, p8, endian, args, Ok((t.8, p9))));
        assert(self.r9.collects(data, p9, endian, args, Ok((t.9, p10))));
        assert(self.r10.collects(data, p10, endian, args, Ok((t.10, p11))));
        assert(self.r11.collects(data, p11, endian, args, Ok((t.11, p12))));
        let ghost o: Result<((Out0, Out1, Out2, Out3, Out4, Out5, Out6, Out7, Out8, Out9, Out10, Out11), u64), BinError> = Ok((t, p12));
        assert(o matches Ok((x, y)) && x == t && y == p12);
        Ok((t0, t1, t2, t3, t4, t5, t6, t7, t8, t9, t10, t11))
    }
}

impl<T0, T1, T2, T3, T4, T5, T6, T7, T8, T9, T10, T11> BinReader for (T0, T1, T2, T3, T4, T5, T6, T7, T8, T9, T10, T11) where
    T0: BinReader<Out = T0>,
    T1: BinReader<Args = T0::Args, Out = T1>,
    T2: BinReader<Args = T0::Args, Out = T2>,
    T3: BinReader<Args = T0::Args, Out = T3>,
    T4: BinReader<Args = T0::Args, Out = T4>,
    T5: BinReader<Args = T0::Args, Out = T5>,
    T6: BinReader<Args = T0::Args, Out = T6>,
    T7: BinReader<Args = T0::Args, Out = T7>,
    T8: BinReader<Args = T0::Args, Out = T8>,
    T9: BinReader<Args = T0::Args, Out = T9>,
    T10: BinReader<Args = T0::Args, Out = T10>,
    T11: BinReader<Args = T0::Args, Out = T11>,
    T0::Args: Copy,
 {
    type Args = T0::Args;
    type Out = (T0, T1, T2, T3, T4, T5, T6, T7, T8, T9, T10, T11);
    type Reader = Tuple12Reader<T0::Reader, T1::Reader, T2::Reader, T3::Reader, T4::Reader, T5::Reader, T6::Reader, T7::Reader, T8::Reader, T9::Reader, T10::Reader, T11::Reader>;

    open spec fn spec_reader() -> Tuple12Reader<T0::Reader, T1::Reader, T2::Reader, T3::Reader, T4::Reader, T5::Reader, T6::Reader, T7::Reader, T8::Reader, T9::Reader, T10::Reader, T11::Reader> {
        Tuple12Reader { r0: T0::spec_reader(), r1: T1::spec_reader(), r2: T2::spec_reader(), r3: T3::spec_reader(), r4: T4::spec_reader(), r5: T5::spec_reader(), r6: T6::spec_reader(), r7: T7::spec_reader(), r8: T8::spec_reader(), r9: T9::spec_reader(), r10: T10::spec_reader(), r11: T11::spec_reader() }
    }

    fn reader() -> (r: Tuple12Reader<T0::Reader, T1::Reader, T2::Reader, T3::Reader, T4::Reader, T5::Reader, T6::Reader, T7::Reader, T8::Reader, T9::Reader, T10::Reader, T11::Reader>) {
        Tuple12Reader { r0: T0::reader(), r1: T1::reader(), r2: T2::reader(), r3: T3::reader(), r4: T4::reader(), r5: T5::reader(), r6: T6::reader(), r7: T7::reader(), r8: T8::reader(), r9: T9::reader(), r10: T10::reader(), r11: T11::reader() }
    }
}

} // verus!
