//! Writers of tuples of three to twelve values.

use vstd::prelude::*;

use crate::cursor::Cursor;
use crate::endian::Endian;
use crate::error::{BinError, BinResult};
use crate::write::{BinWrite, BinWriteExt, BinWriteToken, BinWriter};

verus! {

/// Writes the 3 values of a tuple one after another, with the same arguments.
pub struct Tuple3Writer<'a, T0, T1, T2> {
    pub value: &'a (T0, T1, T2),
}

impl<'a, T0, T1, T2> BinWrite<T0::Args, (T0, T1, T2)> for Tuple3Writer<'a, T0, T1, T2> where
    T0: BinWriter<'a, In = T0>,
    T1: BinWriter<'a, Args = T0::Args, In = T1>,
    T2: BinWriter<'a, Args = T0::Args, In = T2>,
    T0::Args: Copy,
 {
    open spec fn write_wf(&self) -> bool {
        true
    }

    open spec fn spec_inner(&self) -> (T0, T1, T2) {
        *self.value
    }

    /// The values are written in order, each right after the one before.
    open spec fn writes(
        &self,
        data: Seq<u8>,
        pos: u64,
        endian: Endian,
        args: T0::Args,
        outcome: Result<(Seq<u8>, u64), (BinError, Seq<u8>)>,
    ) -> bool {
        let w0 = T0::spec_writer_mapped(&self.value.0);
        let w1 = T1::spec_writer_mapped(&self.value.1);
        let w2 = T2::spec_writer_mapped(&self.value.2);
        match outcome {
            Ok((dk, end)) => exists|d1: Seq<u8>, p1: u64, d2: Seq<u8>, p2: u64|
                #![trigger w0.writes(data, pos, endian, args, Ok((d1, p1))), w1.writes(d1, p1, endian, args, Ok((d2, p2)))]
                w0.writes(data, pos, endian, args, Ok((d1, p1)))
                    && w1.writes(d1, p1, endian, args, Ok((d2, p2)))
                    && w2.writes(d2, p2, endian, args, Ok((dk, end))),
            Err((e, dk)) => {
                ||| w0.writes(data, pos, endian, args, Err((e, dk)))
                ||| exists|d1: Seq<u8>, p1: u64|
                    #![trigger w0.writes(data, pos, endian, args, Ok((d1, p1)))]
                    w0.writes(data, pos, endian, args, Ok((d1, p1)))
                        && w1.writes(d1, p1, endian, args, Err((e, dk)))
                ||| exists|d1: Seq<u8>, p1: u64, d2: Seq<u8>, p2: u64|
                    #![trigger w0.writes(data, pos, endian, args, Ok((d1, p1))), w1.writes(d1, p1, endian, args, Ok((d2, p2)))]
                    w0.writes(data, pos, endian, args, Ok((d1, p1)))
                        && w1.writes(d1, p1, endian, args, Ok((d2, p2)))
                        && w2.writes(d2, p2, endian, args, Err((e, dk)))
            },
        }
    }

    fn write_non_backtracking(
        &self,
        writer: &mut Cursor,
        endian: Endian,
        args: T0::Args,
        token: BinWriteToken,
    ) -> (r: BinResult<()>) {
        let ghost gd0 = writer@.data;
        let ghost gp0 = writer@.pos;
        let w0 = T0::writer_mapped(&self.value.0);
        match w0.write(writer, endian, args) {
            Ok(()) => {},
            Err(e) => {
                let ghost o: Result<(Seq<u8>, u64), (BinError, Seq<u8>)> = Err((e, writer@.data));
                assert(o matches Err((x, y)) && x == e && y == writer@.data);
                return Err(e);
            },
        }
        let ghost gd1 = writer@.data;
        let ghost gp1 = writer@.pos;
        assert(w0.writes(gd0, gp0, endian, args, Ok((gd1, gp1))));
        let w1 = T1::writer_mapped(&self.value.1);
        match w1.write(writer, endian, args) {
            Ok(()) => {},
            Err(e) => {
                let ghost o: Result<(Seq<u8>, u64), (BinError, Seq<u8>)> = Err((e, writer@.data));
                assert(o matches Err((x, y)) && x == e && y == writer@.data);
                return Err(e);
            },
        }
        let ghost gd2 = writer@.data;
        let ghost gp2 = writer@.pos;
        assert(w1.writes(gd1, gp1, endian, args, Ok((gd2, gp2))));
        let w2 = T2::writer_mapped(&self.value.2);
        match w2.write(writer, endian, args) {
            Ok(()) => {},
            Err(e) => {
                let ghost o: Result<(Seq<u8>, u64), (BinError, Seq<u8>)> = Err((e, writer@.data));
                assert(o matches Err((x, y)) && x == e && y == writer@.data);
                return Err(e);
            },
        }
        let ghost gd3 = writer@.data;
        let ghost gp3 = writer@.pos;
        assert(w2.writes(gd2, gp2, endian, args, Ok((gd3, gp3))));
        let ghost o: Result<(Seq<u8>, u64), (BinError, Seq<u8>)> = Ok((gd3, gp3));
        assert(o matches Ok((x, y)) && x == gd3 && y == gp3);
        Ok(())
    }

    fn inner(&self) -> (v: &(T0, T1, T2)) {
        self.value
    }
}

impl<'a, T0, T1, T2> BinWriter<'a> for (T0, T1, T2) where
    T0: BinWriter<'a, In = T0> + 'a,
    T1: BinWriter<'a, Args = T0::Args, In = T1> + 'a,
    T2: BinWriter<'a, Args = T0::Args, In = T2> + 'a,
    T0::Args: Copy,
 {
    type Args = T0::Args;
    type In = (T0, T1, T2);
    type Writer = Tuple3Writer<'a, T0, T1, T2>;

    open spec fn spec_writer_mapped(this: &'a (T0, T1, T2)) -> Tuple3Writer<'a, T0, T1, T2> {
        Tuple3Writer { value: this }
    }

    fn writer_mapped(this: &'a (T0, T1, T2)) -> (w: Tuple3Writer<'a, T0, T1, T2>) {
        Tuple3Writer { value: this }
    }
}

/// Writes the 4 values of a tuple one after another, with the same arguments.
pub struct Tuple4Writer<'a, T0, T1, T2, T3> {
    pub value: &'a (T0, T1, T2, T3),
}

impl<'a, T0, T1, T2, T3> BinWrite<T0::Args, (T0, T1, T2, T3)> for Tuple4Writer<'a, T0, T1, T2, T3> where
    T0: BinWriter<'a, In = T0>,
    T1: BinWriter<'a, Args = T0::Args, In = T1>,
    T2: BinWriter<'a, Args = T0::Args, In = T2>,
    T3: BinWriter<'a, Args = T0::Args, In = T3>,
    T0::Args: Copy,
 {
    open spec fn write_wf(&self) -> bool {
        true
    }

    open spec fn spec_inner(&self) -> (T0, T1, T2, T3) {
        *self.value
    }

    /// The values are written in order, each right after the one before.
    open spec fn writes(
        &self,
        data: Seq<u8>,
        pos: u64,
        endian: Endian,
        args: T0::Args,
        outcome: Result<(Seq<u8>, u64), (BinError, Seq<u8>)>,
    ) -> bool {
        let w0 = T0::spec_writer_mapped(&self.value.0);
        let w1 = T1::spec_writer_mapped(&self.value.1);
        let w2 = T2::spec_writer_mapped(&self.value.2);
        let w3 = T3::spec_writer_mapped(&self.value.3);
        match outcome {
            Ok((dk, end)) => exists|d1: Seq<u8>, p1: u64, d2: Seq<u8>, p2: u64, d3: Seq<u8>, p3: u64|
                #![trigger w0.writes(data, pos, endian, args, Ok((d1, p1))), w1.writes(d1, p1, endian, args, Ok((d2, p2))), w2.writes(d2, p2, endian, args, Ok((d3, p3)))]
                w0.writes(data, pos, endian, args, Ok((d1, p1)))
                    && w1.writes(d1, p1, endian, args, Ok((d2, p2)))
                    && w2.writes(d2, p2, endian, args, Ok((d3, p3)))
                    && w3.writes(d3, p3, endian, args, Ok((dk, end))),
            Err((e, dk)) => {
                ||| w0.writes(data, pos, endian, args, Err((e, dk)))
                ||| exists|d1: Seq<u8>, p1: u64|
                    #![trigger w0.writes(data, pos, endian, args, Ok((d1, p1)))]
                    w0.writes(data, pos, endian, args, Ok((d1, p1)))
                        && w1.writes(d1, p1, endian, args, Err((e, dk)))
                ||| exists|d1: Seq<u8>, p1: u64, d2: Seq<u8>, p2: u64|
                    #![trigger w0.writes(data, pos, endian, args, Ok((d1, p1))), w1.writes(d1, p1, endian, args, Ok((d2, p2)))]
                    w0.writes(data, pos, endian, args, Ok((d1, p1)))
                        && w1.writes(d1, p1, endian, args, Ok((d2, p2)))
                        && w2.writes(d2, p2, endian, args, Err((e, dk)))
                ||| exists|d1: Seq<u8>, p1: u64, d2: Seq<u8>, p2: u64, d3: Seq<u8>, p3: u64|
                    #![trigger w0.writes(data, pos, endian, args, Ok((d1, p1))), w1.writes(d1, p1, endian, args, Ok((d2, p2))), w2.writes(d2, p2, endian, args, Ok((d3, p3)))]
                    w0.writes(data, pos, endian, args, Ok((d1, p1)))
                        && w1.writes(d1, p1, endian, args, Ok((d2, p2)))
                        && w2.writes(d2, p2, endian, args, Ok((d3, p3)))
                        && w3.writes(d3, p3, endian, args, Err((e, dk)))
            },
        }
    }

    fn write_non_backtracking(
        &self,
        writer: &mut Cursor,
        endian: Endian,
        args: T0::Args,
        token: BinWriteToken,
    ) -> (r: BinResult<()>) {
        let ghost gd0 = writer@.data;
        let ghost gp0 = writer@.pos;
        let w0 = T0::writer_mapped(&self.value.0);
        match w0.write(writer, endian, args) {
            Ok(()) => {},
            Err(e) => {
                let ghost o: Result<(Seq<u8>, u64), (BinError, Seq<u8>)> = Err((e, writer@.data));
                assert(o matches Err((x, y)) && x == e && y == writer@.data);
                return Err(e);
            },
        }
        let ghost gd1 = writer@.data;
        let ghost gp1 = writer@.pos;
        assert(w0.writes(gd0, gp0, endian, args, Ok((gd1, gp1))));
        let w1 = T1::writer_mapped(&self.value.1);
        match w1.write(writer, endian, args) {
            Ok(()) => {},
            Err(e) => {
                let ghost o: Result<(Seq<u8>, u64), (BinError, Seq<u8>)> = Err((e, writer@.data));
                assert(o matches Err((x, y)) && x == e && y == writer@.data);
                return Err(e);
            },
        }
        let ghost gd2 = writer@.data;
        let ghost gp2 = writer@.pos;
        assert(w1.writes(gd1, gp1, endian, args, Ok((gd2, gp2))));
        let w2 = T2::writer_mapped(&self.value.2);
        match w2.write(writer, endian, args) {
            Ok(()) => {},
            Err(e) => {
                let ghost o: Result<(Seq<u8>, u64), (BinError, Seq<u8>)> = Err((e, writer@.data));
                assert(o matches Err((x, y)) && x == e && y == writer@.data);
                return Err(e);
            },
        }
        let ghost gd3 = writer@.data;
        let ghost gp3 = writer@.pos;
        assert(w2.writes(gd2, gp2, endian, args, Ok((gd3, gp3))));
        let w3 = T3::writer_mapped(&self.value.3);
        match w3.write(writer, endian, args) {
            Ok(()) => {},
            Err(e) => {
                let ghost o: Result<(Seq<u8>, u64), (BinError, Seq<u8>)> = Err((e, writer@.data));
                assert(o matches Err((x, y)) && x == e && y == writer@.data);
                return Err(e);
            },
        }
        let ghost gd4 = writer@.data;
        let ghost gp4 = writer@.pos;
        assert(w3.writes(gd3, gp3, endian, args, Ok((gd4, gp4))));
        let ghost o: Result<(Seq<u8>, u64), (BinError, Seq<u8>)> = Ok((gd4, gp4));
        assert(o matches Ok((x, y)) && x == gd4 && y == gp4);
        Ok(())
    }

    fn inner(&self) -> (v: &(T0, T1, T2, T3)) {
        self.value
    }
}

impl<'a, T0, T1, T2, T3> BinWriter<'a> for (T0, T1, T2, T3) where
    T0: BinWriter<'a, In = T0> + 'a,
    T1: BinWriter<'a, Args = T0::Args, In = T1> + 'a,
    T2: BinWriter<'a, Args = T0::Args, In = T2> + 'a,
    T3: BinWriter<'a, Args = T0::Args, In = T3> + 'a,
    T0::Args: Copy,
 {
    type Args = T0::Args;
    type In = (T0, T1, T2, T3);
    type Writer = Tuple4Writer<'a, T0, T1, T2, T3>;

    open spec fn spec_writer_mapped(this: &'a (T0, T1, T2, T3)) -> Tuple4Writer<'a, T0, T1, T2, T3> {
        Tuple4Writer { value: this }
    }

    fn writer_mapped(this: &'a (T0, T1, T2, T3)) -> (w: Tuple4Writer<'a, T0, T1, T2, T3>) {
        Tuple4Writer { value: this }
    }
}

/// Writes the 5 values of a tuple one after another, with the same arguments.
pub struct Tuple5Writer<'a, T0, T1, T2, T3, T4> {
    pub value: &'a (T0, T1, T2, T3, T4),
}

impl<'a, T0, T1, T2, T3, T4> BinWrite<T0::Args, (T0, T1, T2, T3, T4)> for Tuple5Writer<'a, T0, T1, T2, T3, T4> where
    T0: BinWriter<'a, In = T0>,
    T1: BinWriter<'a, Args = T0::Args, In = T1>,
    T2: BinWriter<'a, Args = T0::Args, In = T2>,
    T3: BinWriter<'a, Args = T0::Args, In = T3>,
    T4: BinWriter<'a, Args = T0::Args, In = T4>,
    T0::Args: Copy,
 {
    open spec fn write_wf(&self) -> bool {
        true
    }

    open spec fn spec_inner(&self) -> (T0, T1, T2, T3, T4) {
        *self.value
    }

    /// The values are written in order, each right after the one before.
    open spec fn writes(
        &self,
        data: Seq<u8>,
        pos: u64,
        endian: Endian,
        args: T0::Args,
        outcome: Result<(Seq<u8>, u64), (BinError, Seq<u8>)>,
    ) -> bool {
        let w0 = T0::spec_writer_mapped(&self.value.0);
        let w1 = T1::spec_writer_mapped(&self.value.1);
        let w2 = T2::spec_writer_mapped(&self.value.2);
        let w3 = T3::spec_writer_mapped(&self.value.3);
        let w4 = T4::spec_writer_mapped(&self.value.4);
        match outcome {
            Ok((dk, end)) => exists|d1: Seq<u8>, p1: u64, d2: Seq<u8>, p2: u64, d3: Seq<u8>, p3: u64, d4: Seq<u8>, p4: u64|
                #![trigger w0.writes(data, pos, endian, args, Ok((d1, p1))), w1.writes(d1, p1, endian, args, Ok((d2, p2))), w2.writes(d2, p2, endian, args, Ok((d3, p3))), w3.writes(d3, p3, endian, args, Ok((d4, p4)))]
                w0.writes(data, pos, endian, args, Ok((d1, p1)))
                    && w1.writes(d1, p1, endian, args, Ok((d2, p2)))
                    && w2.writes(d2, p2, endian, args, Ok((d3, p3)))
                    && w3.writes(d3, p3, endian, args, Ok((d4, p4)))
                    && w4.writes(d4, p4, endian, args, Ok((dk, end))),
            Err((e, dk)) => {
                ||| w0.writes(data, pos, endian, args, Err((e, dk)))
                ||| exists|d1: Seq<u8>, p1: u64|
                    #![trigger w0.writes(data, pos, endian, args, Ok((d1, p1)))]
                    w0.writes(data, pos, endian, args, Ok((d1, p1)))
                        && w1.writes(d1, p1, endian, args, Err((e, dk)))
                ||| exists|d1: Seq<u8>, p1: u64, d2: Seq<u8>, p2: u64|
                    #![trigger w0.writes(data, pos, endian, args, Ok((d1, p1))), w1.writes(d1, p1, endian, args, Ok((d2, p2)))]
                    w0.writes(data, pos, endian, args, Ok((d1, p1)))
                        && w1.writes(d1, p1, endian, args, Ok((d2, p2)))
                        && w2.writes(d2, p2, endian, args, Err((e, dk)))
                ||| exists|d1: Seq<u8>, p1: u64, d2: Seq<u8>, p2: u64, d3: Seq<u8>, p3: u64|
                    #![trigger w0.writes(data, pos, endian, args, Ok((d1, p1))), w1.writes(d1, p1, endian, args, Ok((d2, p2))), w2.writes(d2, p2, endian, args, Ok((d3, p3)))]
                    w0.writes(data, pos, endian, args, Ok((d1, p1)))
                        && w1.writes(d1, p1, endian, args, Ok((d2, p2)))
                        && w2.writes(d2, p2, endian, args, Ok((d3, p3)))
                        && w3.writes(d3, p3, endian, args, Err((e, dk)))
                ||| exists|d1: Seq<u8>, p1: u64, d2: Seq<u8>, p2: u64, d3: Seq<u8>, p3: u64, d4: Seq<u8>, p4: u64|
                    #![trigger w0.writes(data, pos, endian, args, Ok((d1, p1))), w1.writes(d1, p1, endian, args, Ok((d2, p2))), w2.writes(d2, p2, endian, args, Ok((d3, p3))), w3.writes(d3, p3, endian, args, Ok((d4, p4)))]
                    w0.writes(data, pos, endian, args, Ok((d1, p1)))
                        && w1.writes(d1, p1, endian, args, Ok((d2, p2)))
                        && w2.writes(d2, p2, endian, args, Ok((d3, p3)))
                        && w3.writes(d3, p3, endian, args, Ok((d4, p4)))
                        && w4.writes(d4, p4, endian, args, Err((e, dk)))
            },
        }
    }

    fn write_non_backtracking(
        &self,
        writer: &mut Cursor,
        endian: Endian,
        args: T0::Args,
        token: BinWriteToken,
    ) -> (r: BinResult<()>) {
        let ghost gd0 = writer@.data;
        let ghost gp0 = writer@.pos;
        let w0 = T0::writer_mapped(&self.value.0);
        match w0.write(writer, endian, args) {
            Ok(()) => {},
            Err(e) => {
                let ghost o: Result<(Seq<u8>, u64), (BinError, Seq<u8>)> = Err((e, writer@.data));
                assert(o matches Err((x, y)) && x == e && y == writer@.data);
                return Err(e);
            },
        }
        let ghost gd1 = writer@.data;
        let ghost gp1 = writer@.pos;
        assert(w0.writes(gd0, gp0, endian, args, Ok((gd1, gp1))));
        let w1 = T1::writer_mapped(&self.value.1);
        match w1.write(writer, endian, args) {
            Ok(()) => {},
            Err(e) => {
                let ghost o: Result<(Seq<u8>, u64), (BinError, Seq<u8>)> = Err((e, writer@.data));
                assert(o matches Err((x, y)) && x == e && y == writer@.data);
                return Err(e);
            },
        }
        let ghost gd2 = writer@.data;
        let ghost gp2 = writer@.pos;
        assert(w1.writes(gd1, gp1, endian, args, Ok((gd2, gp2))));
        let w2 = T2::writer_mapped(&self.value.2);
        match w2.write(writer, endian, args) {
            Ok(()) => {},
            Err(e) => {
                let ghost o: Result<(Seq<u8>, u64), (BinError, Seq<u8>)> = Err((e, writer@.data));
                assert(o matches Err((x, y)) && x == e && y == writer@.data);
                return Err(e);
            },
        }
        let ghost gd3 = writer@.data;
        let ghost gp3 = writer@.pos;
        assert(w2.writes(gd2, gp2, endian, args, Ok((gd3, gp3))));
        let w3 = T3::writer_mapped(&self.value.3);
        match w3.write(writer, endian, args) {
            Ok(()) => {},
            Err(e) => {
                let ghost o: Result<(Seq<u8>, u64), (BinError, Seq<u8>)> = Err((e, writer@.data));
                assert(o matches Err((x, y)) && x == e && y == writer@.data);
                return Err(e);
            },
        }
        let ghost gd4 = writer@.data;
        let ghost gp4 = writer@.pos;
        assert(w3.writes(gd3, gp3, endian, args, Ok((gd4, gp4))));
        let w4 = T4::writer_mapped(&self.value.4);
        match w4.write(writer, endian, args) {
            Ok(()) => {},
            Err(e) => {
                let ghost o: Result<(Seq<u8>, u64), (BinError, Seq<u8>)> = Err((e, writer@.data));
                assert(o matches Err((x, y)) && x == e && y == writer@.data);
                return Err(e);
            },
        }
        let ghost gd5 = writer@.data;
        let ghost gp5 = writer@.pos;
        assert(w4.writes(gd4, gp4, endian, args, Ok((gd5, gp5))));
        let ghost o: Result<(Seq<u8>, u64), (BinError, Seq<u8>)> = Ok((gd5, gp5));
        assert(o matches Ok((x, y)) && x == gd5 && y == gp5);
        Ok(())
    }

    fn inner(&self) -> (v: &(T0, T1, T2, T3, T4)) {
        self.value
    }
}

impl<'a, T0, T1, T2, T3, T4> BinWriter<'a> for (T0, T1, T2, T3, T4) where
    T0: BinWriter<'a, In = T0> + 'a,
    T1: BinWriter<'a, Args = T0::Args, In = T1> + 'a,
    T2: BinWriter<'a, Args = T0::Args, In = T2> + 'a,
    T3: BinWriter<'a, Args = T0::Args, In = T3> + 'a,
    T4: BinWriter<'a, Args = T0::Args, In = T4> + 'a,
    T0::Args: Copy,
 {
    type Args = T0::Args;
    type In = (T0, T1, T2, T3, T4);
    type Writer = Tuple5Writer<'a, T0, T1, T2, T3, T4>;

    open spec fn spec_writer_mapped(this: &'a (T0, T1, T2, T3, T4)) -> Tuple5Writer<'a, T0, T1, T2, T3, T4> {
        Tuple5Writer { value: this }
    }

    fn writer_mapped(this: &'a (T0, T1, T2, T3, T4)) -> (w: Tuple5Writer<'a, T0, T1, T2, T3, T4>) {
        Tuple5Writer { value: this }
    }
}

/// Writes the 6 values of a tuple one after another, with the same arguments.
pub struct Tuple6Writer<'a, T0, T1, T2, T3, T4, T5> {
    pub value: &'a (T0, T1, T2, T3, T4, T5),
}

impl<'a, T0, T1, T2, T3, T4, T5> BinWrite<T0::Args, (T0, T1, T2, T3, T4, T5)> for Tuple6Writer<'a, T0, T1, T2, T3, T4, T5> where
    T0: BinWriter<'a, In = T0>,
    T1: BinWriter<'a, Args = T0::Args, In = T1>,
    T2: BinWriter<'a, Args = T0::Args, In = T2>,
    T3: BinWriter<'a, Args = T0::Args, In = T3>,
    T4: BinWriter<'a, Args = T0::Args, In = T4>,
    T5: BinWriter<'a, Args = T0::Args, In = T5>,
    T0::Args: Copy,
 {
    open spec fn write_wf(&self) -> bool {
        true
    }

    open spec fn spec_inner(&self) -> (T0, T1, T2, T3, T4, T5) {
        *self.value
    }

    /// The values are written in order, each right after the one before.
    open spec fn writes(
        &self,
        data: Seq<u8>,
        pos: u64,
        endian: Endian,
        args: T0::Args,
        outcome: Result<(Seq<u8>, u64), (BinError, Seq<u8>)>,
    ) -> bool {
        let w0 = T0::spec_writer_mapped(&self.value.0);
        let w1 = T1::spec_writer_mapped(&self.value.1);
        let w2 = T2::spec_writer_mapped(&self.value.2);
        let w3 = T3::spec_writer_mapped(&self.value.3);
        let w4 = T4::spec_writer_mapped(&self.value.4);
        let w5 = T5::spec_writer_mapped(&self.value.5);
        match outcome {
            Ok((dk, end)) => exists|d1: Seq<u8>, p1: u64, d2: Seq<u8>, p2: u64, d3: Seq<u8>, p3: u64, d4: Seq<u8>, p4: u64, d5: Seq<u8>, p5: u64|
                #![trigger w0.writes(data, pos, endian, args, Ok((d1, p1))), w1.writes(d1, p1, endian, args, Ok((d2, p2))), w2.writes(d2, p2, endian, args, Ok((d3, p3))), w3.writes(d3, p3, endian, args, Ok((d4, p4))), w4.writes(d4, p4, endian, args, Ok((d5, p5)))]
                w0.writes(data, pos, endian, args, Ok((d1, p1)))
                    && w1.writes(d1, p1, endian, args, Ok((d2, p2)))
                    && w2.writes(d2, p2, endian, args, Ok((d3, p3)))
                    && w3.writes(d3, p3, endian, args, Ok((d4, p4)))
                    && w4.writes(d4, p4, endian, args, Ok((d5, p5)))
                    && w5.writes(d5, p5, endian, args, Ok((dk, end))),
            Err((e, dk)) => {
                ||| w0.writes(data, pos, endian, args, Err((e, dk)))
                ||| exists|d1: Seq<u8>, p1: u64|
                    #![trigger w0.writes(data, pos, endian, args, Ok((d1, p1)))]
                    w0.writes(data, pos, endian, args, Ok((d1, p1)))
                        && w1.writes(d1, p1, endian, args, Err((e, dk)))
                ||| exists|d1: Seq<u8>, p1: u64, d2: Seq<u8>, p2: u64|
                    #![trigger w0.writes(data, pos, endian, args, Ok((d1, p1))), w1.writes(d1, p1, endian, args, Ok((d2, p2)))]
                    w0.writes(data, pos, endian, args, Ok((d1, p1)))
                        && w1.writes(d1, p1, endian, args, Ok((d2, p2)))
                        && w2.writes(d2, p2, endian, args, Err((e, dk)))
                ||| exists|d1: Seq<u8>, p1: u64, d2: Seq<u8>, p2: u64, d3: Seq<u8>, p3: u64|
                    #![trigger w0.writes(data, pos, endian, args, Ok((d1, p1))), w1.writes(d1, p1, endian, args, Ok((d2, p2))), w2.writes(d2, p2, endian, args, Ok((d3, p3)))]
                    w0.writes(data, pos, endian, args, Ok((d1, p1)))
                        && w1.writes(d1, p1, endian, args, Ok((d2, p2)))
                        && w2.writes(d2, p2, endian, args, Ok((d3, p3)))
                        && w3.writes(d3, p3, endian, args, Err((e, dk)))
                ||| exists|d1: Seq<u8>, p1: u64, d2: Seq<u8>, p2: u64, d3: Seq<u8>, p3: u64, d4: Seq<u8>, p4: u64|
                    #![trigger w0.writes(data, pos, endian, args, Ok((d1, p1))), w1.writes(d1, p1, endian, args, Ok((d2, p2))), w2.writes(d2, p2, endian, args, Ok((d3, p3))), w3.writes(d3, p3, endian, args, Ok((d4, p4)))]
                    w0.writes(data, pos, endian, args, Ok((d1, p1)))
                        && w1.writes(d1, p1, endian, args, Ok((d2, p2)))
                        && w2.writes(d2, p2, endian, args, Ok((d3, p3)))
                        && w3.writes(d3, p3, endian, args, Ok((d4, p4)))
                        && w4.writes(d4, p4, endian, args, Err((e, dk)))
                ||| exists|d1: Seq<u8>, p1: u64, d2: Seq<u8>, p2: u64, d3: Seq<u8>, p3: u64, d4: Seq<u8>, p4: u64, d5: Seq<u8>, p5: u64|
                    #![trigger w0.writes(data, pos, endian, args, Ok((d1, p1))), w1.writes(d1, p1, endian, args, Ok((d2, p2))), w2.writes(d2, p2, endian, args, Ok((d3, p3))), w3.writes(d3, p3, endian, args, Ok((d4, p4))), w4.writes(d4, p4, endian, args, Ok((d5, p5)))]
                    w0.writes(data, pos, endian, args, Ok((d1, p1)))
                        && w1.writes(d1, p1, endian, args, Ok((d2, p2)))
                        && w2.writes(d2, p2, endian, args, Ok((d3, p3)))
                        && w3.writes(d3, p3, endian, args, Ok((d4, p4)))
                        && w4.writes(d4, p4, endian, args, Ok((d5, p5)))
                        && w5.writes(d5, p5, endian, args, Err((e, dk)))
            },
        }
    }

    fn write_non_backtracking(
        &self,
        writer: &mut Cursor,
        endian: Endian,
        args: T0::Args,
        token: BinWriteToken,
    ) -> (r: BinResult<()>) {
        let ghost gd0 = writer@.data;
        let ghost gp0 = writer@.pos;
        let w0 = T0::writer_mapped(&self.value.0);
        match w0.write(writer, endian, args) {
            Ok(()) => {},
            Err(e) => {
                let ghost o: Result<(Seq<u8>, u64), (BinError, Seq<u8>)> = Err((e, writer@.data));
                assert(o matches Err((x, y)) && x == e && y == writer@.data);
                return Err(e);
            },
        }
        let ghost gd1 = writer@.data;
        let ghost gp1 = writer@.pos;
        assert(w0.writes(gd0, gp0, endian, args, Ok((gd1, gp1))));
        let w1 = T1::writer_mapped(&self.value.1);
        match w1.write(writer, endian, args) {
            Ok(()) => {},
            Err(e) => {
                let ghost o: Result<(Seq<u8>, u64), (BinError, Seq<u8>)> = Err((e, writer@.data));
                assert(o matches Err((x, y)) && x == e && y == writer@.data);
                return Err(e);
            },
        }
        let ghost gd2 = writer@.data;
        let ghost gp2 = writer@.pos;
        assert(w1.writes(gd1, gp1, endian, args, Ok((gd2, gp2))));
        let w2 = T2::writer_mapped(&self.value.2);
        match w2.write(writer, endian, args) {
            Ok(()) => {},
            Err(e) => {
                let ghost o: Result<(Seq<u8>, u64), (BinError, Seq<u8>)> = Err((e, writer@.data));
                assert(o matches Err((x, y)) && x == e && y == writer@.data);
                return Err(e);
            },
        }
        let ghost gd3 = writer@.data;
        let ghost gp3 = writer@.pos;
        assert(w2.writes(gd2, gp2, endian, args, Ok((gd3, gp3))));
        let w3 = T3::writer_mapped(&self.value.3);
        match w3.write(writer, endian, args) {
            Ok(()) => {},
            Err(e) => {
                let ghost o: Result<(Seq<u8>, u64), (BinError, Seq<u8>)> = Err((e, writer@.data));
                assert(o matches Err((x, y)) && x == e && y == writer@.data);
                return Err(e);
            },
        }
        let ghost gd4 = writer@.data;
        let ghost gp4 = writer@.pos;
        assert(w3.writes(gd3, gp3, endian, args, Ok((gd4, gp4))));
        let w4 = T4::writer_mapped(&self.value.4);
        match w4.write(writer, endian, args) {
            Ok(()) => {},
            Err(e) => {
                let ghost o: Result<(Seq<u8>, u64), (BinError, Seq<u8>)> = Err((e, writer@.data));
                assert(o matches Err((x, y)) && x == e && y == writer@.data);
                return Err(e);
            },
        }
        let ghost gd5 = writer@.data;
        let ghost gp5 = writer@.pos;
        assert(w4.writes(gd4, gp4, endian, args, Ok((gd5, gp5))));
        let w5 = T5::writer_mapped(&self.value.5);
        match w5.write(writer, endian, args) {
            Ok(()) => {},
            Err(e) => {
                let ghost o: Result<(Seq<u8>, u64), (BinError, Seq<u8>)> = Err((e, writer@.data));
                assert(o matches Err((x, y)) && x == e && y == writer@.data);
                return Err(e);
            },
        }
        let ghost gd6 = writer@.data;
        let ghost gp6 = writer@.pos;
        assert(w5.writes(gd5, gp5, endian, args, Ok((gd6, gp6))));
        let ghost o: Result<(Seq<u8>, u64), (BinError, Seq<u8>)> = Ok((gd6, gp6));
        assert(o matches Ok((x, y)) && x == gd6 && y == gp6);
        Ok(())
    }

    fn inner(&self) -> (v: &(T0, T1, T2, T3, T4, T5)) {
        self.value
    }
}

impl<'a, T0, T1, T2, T3, T4, T5> BinWriter<'a> for (T0, T1, T2, T3, T4, T5) where
    T0: BinWriter<'a, In = T0> + 'a,
    T1: BinWriter<'a, Args = T0::Args, In = T1> + 'a,
    T2: BinWriter<'a, Args = T0::Args, In = T2> + 'a,
    T3: BinWriter<'a, Args = T0::Args, In = T3> + 'a,
    T4: BinWriter<'a, Args = T0::Args, In = T4> + 'a,
    T5: BinWriter<'a, Args = T0::Args, In = T5> + 'a,
    T0::Args: Copy,
 {
    type Args = T0::Args;
    type In = (T0, T1, T2, T3, T4, T5);
    type Writer = Tuple6Writer<'a, T0, T1, T2, T3, T4, T5>;

    open spec fn spec_writer_mapped(this: &'a (T0, T1, T2, T3, T4, T5)) -> Tuple6Writer<'a, T0, T1, T2, T3, T4, T5> {
        Tuple6Writer { value: this }
    }

    fn writer_mapped(this: &'a (T0, T1, T2, T3, T4, T5)) -> (w: Tuple6Writer<'a, T0, T1, T2, T3, T4, T5>) {
        Tuple6Writer { value: this }
    }
}

/// Writes the 7 values of a tuple one after another, with the same arguments.
pub struct Tuple7Writer<'a, T0, T1, T2, T3, T4, T5, T6> {
    pub value: &'a (T0, T1, T2, T3, T4, T5, T6),
}

impl<'a, T0, T1, T2, T3, T4, T5, T6> BinWrite<T0::Args, (T0, T1, T2, T3, T4, T5, T6)> for Tuple7Writer<'a, T0, T1, T2, T3, T4, T5, T6> where
    T0: BinWriter<'a, In = T0>,
    T1: BinWriter<'a, Args = T0::Args, In = T1>,
    T2: BinWriter<'a, Args = T0::Args, In = T2>,
    T3: BinWriter<'a, Args = T0::Args, In = T3>,
    T4: BinWriter<'a, Args = T0::Args, In = T4>,
    T5: BinWriter<'a, Args = T0::Args, In = T5>,
    T6: BinWriter<'a, Args = T0::Args, In = T6>,
    T0::Args: Copy,
 {
    open spec fn write_wf(&self) -> bool {
        true
    }

    open spec fn spec_inner(&self) -> (T0, T1, T2, T3, T4, T5, T6) {
        *self.value
    }

    /// The values are written in order, each right after the one before.
    open spec fn writes(
        &self,
        data: Seq<u8>,
        pos: u64,
        endian: Endian,
        args: T0::Args,
        outcome: Result<(Seq<u8>, u64), (BinError, Seq<u8>)>,
    ) -> bool {
        let w0 = T0::spec_writer_mapped(&self.value.0);
        let w1 = T1::spec_writer_mapped(&self.value.1);
        let w2 = T2::spec_writer_mapped(&self.value.2);
        let w3 = T3::spec_writer_mapped(&self.value.3);
        let w4 = T4::spec_writer_mapped(&self.value.4);
        let w5 = T5::spec_writer_mapped(&self.value.5);
        let w6 = T6::spec_writer_mapped(&self.value.6);
        match outcome {
            Ok((dk, end)) => exists|d1: Seq<u8>, p1: u64, d2: Seq<u8>, p2: u64, d3: Seq<u8>, p3: u64, d4: Seq<u8>, p4: u64, d5: Seq<u8>, p5: u64, d6: Seq<u8>, p6: u64|
                #![trigger w0.writes(data, pos, endian, args, Ok((d1, p1))), w1.writes(d1, p1, endian, args, Ok((d2, p2))), w2.writes(d2, p2, endian, args, Ok((d3, p3))), w3.writes(d3, p3, endian, args, Ok((d4, p4))), w4.writes(d4, p4, endian, args, Ok((d5, p5))), w5.writes(d5, p5, endian, args, Ok((d6, p6)))]
                w0.writes(data, pos, endian, args, Ok((d1, p1)))
                    && w1.writes(d1, p1, endian, args, Ok((d2, p2)))
                    && w2.writes(d2, p2, endian, args, Ok((d3, p3)))
                    && w3.writes(d3, p3, endian, args, Ok((d4, p4)))
                    && w4.writes(d4, p4, endian, args, Ok((d5, p5)))
                    && w5.writes(d5, p5, endian, args, Ok((d6, p6)))
                    && w6.writes(d6, p6, endian, args, Ok((dk, end))),
            Err((e, dk)) => {
                ||| w0.writes(data, pos, endian, args, Err((e, dk)))
                ||| exists|d1: Seq<u8>, p1: u64|
                    #![trigger w0.writes(data, pos, endian, args, Ok((d1, p1)))]
                    w0.writes(data, pos, endian, args, Ok((d1, p1)))
                        && w1.writes(d1, p1, endian, args, Err((e, dk)))
                ||| exists|d1: Seq<u8>, p1: u64, d2: Seq<u8>, p2: u64|
                    #![trigger w0.writes(data, pos, endian, args, Ok((d1, p1))), w1.writes(d1, p1, endian, args, Ok((d2, p2)))]
                    w0.writes(data, pos, endian, args, Ok((d1, p1)))
                        && w1.writes(d1, p1, endian, args, Ok((d2, p2)))
                        && w2.writes(d2, p2, endian, args, Err((e, dk)))
                ||| exists|d1: Seq<u8>, p1: u64, d2: Seq<u8>, p2: u64, d3: Seq<u8>, p3: u64|
                    #![trigger w0.writes(data, pos, endian, args, Ok((d1, p1))), w1.writes(d1, p1, endian, args, Ok((d2, p2))), w2.writes(d2, p2, endian, args, Ok((d3, p3)))]
                    w0.writes(data, pos, endian, args, Ok((d1, p1)))
                        && w1.writes(d1, p1, endian, args, Ok((d2, p2)))
                        && w2.writes(d2, p2, endian, args, Ok((d3, p3)))
                        && w3.writes(d3, p3, endian, args, Err((e, dk)))
                ||| exists|d1: Seq<u8>, p1: u64, d2: Seq<u8>, p2: u64, d3: Seq<u8>, p3: u64, d4: Seq<u8>, p4: u64|
                    #![trigger w0.writes(data, pos, endian, args, Ok((d1, p1))), w1.writes(d1, p1, endian, args, Ok((d2, p2))), w2.writes(d2, p2, endian, args, Ok((d3, p3))), w3.writes(d3, p3, endian, args, Ok((d4, p4)))]
                    w0.writes(data, pos, endian, args, Ok((d1, p1)))
                        && w1.writes(d1, p1, endian, args, Ok((d2, p2)))
                        && w2.writes(d2, p2, endian, args, Ok((d3, p3)))
                        && w3.writes(d3, p3, endian, args, Ok((d4, p4)))
                        && w4.writes(d4, p4, endian, args, Err((e, dk)))
                ||| exists|d1: Seq<u8>, p1: u64, d2: Seq<u8>, p2: u64, d3: Seq<u8>, p3: u64, d4: Seq<u8>, p4: u64, d5: Seq<u8>, p5: u64|
                    #![trigger w0.writes(data, pos, endian, args, Ok((d1, p1))), w1.writes(d1, p1, endian, args, Ok((d2, p2))), w2.writes(d2, p2, endian, args, Ok((d3, p3))), w3.writes(d3, p3, endian, args, Ok((d4, p4))), w4.writes(d4, p4, endian, args, Ok((d5, p5)))]
                    w0.writes(data, pos, endian, args, Ok((d1, p1)))
                        && w1.writes(d1, p1, endian, args, Ok((d2, p2)))
                        && w2.writes(d2, p2, endian, args, Ok((d3, p3)))
                        && w3.writes(d3, p3, endian, args, Ok((d4, p4)))
                        && w4.writes(d4, p4, endian, args, Ok((d5, p5)))
                        && w5.writes(d5, p5, endian, args, Err((e, dk)))
                ||| exists|d1: Seq<u8>, p1: u64, d2: Seq<u8>, p2: u64, d3: Seq<u8>, p3: u64, d4: Seq<u8>, p4: u64, d5: Seq<u8>, p5: u64, d6: Seq<u8>, p6: u64|
                    #![trigger w0.writes(data, pos, endian, args, Ok((d1, p1))), w1.writes(d1, p1, endian, args, Ok((d2, p2))), w2.writes(d2, p2, endian, args, Ok((d3, p3))), w3.writes(d3, p3, endian, args, Ok((d4, p4))), w4.writes(d4, p4, endian, args, Ok((d5, p5))), w5.writes(d5, p5, endian, args, Ok((d6, p6)))]
                    w0.writes(data, pos, endian, args, Ok((d1, p1)))
                        && w1.writes(d1, p1, endian, args, Ok((d2, p2)))
                        && w2.writes(d2, p2, endian, args, Ok((d3, p3)))
                        && w3.writes(d3, p3, endian, args, Ok((d4, p4)))
                        && w4.writes(d4, p4, endian, args, Ok((d5, p5)))
                        && w5.writes(d5, p5, endian, args, Ok((d6, p6)))
                        && w6.writes(d6, p6, endian, args, Err((e, dk)))
            },
        }
    }

    fn write_non_backtracking(
        &self,
        writer: &mut Cursor,
        endian: Endian,
        args: T0::Args,
        token: BinWriteToken,
    ) -> (r: BinResult<()>) {
        let ghost gd0 = writer@.data;
        let ghost gp0 = writer@.pos;
        let w0 = T0::writer_mapped(&self.value.0);
        match w0.write(writer, endian, args) {
            Ok(()) => {},
            Err(e) => {
                let ghost o: Result<(Seq<u8>, u64), (BinError, Seq<u8>)> = Err((e, writer@.data));
                assert(o matches Err((x, y)) && x == e && y == writer@.data);
                return Err(e);
            },
        }
        let ghost gd1 = writer@.data;
        let ghost gp1 = writer@.pos;
        assert(w0.writes(gd0, gp0, endian, args, Ok((gd1, gp1))));
        let w1 = T1::writer_mapped(&self.value.1);
        match w1.write(writer, endian, args) {
            Ok(()) => {},
            Err(e) => {
                let ghost o: Result<(Seq<u8>, u64), (BinError, Seq<u8>)> = Err((e, writer@.data));
                assert(o matches Err((x, y)) && x == e && y == writer@.data);
                return Err(e);
            },
        }
        let ghost gd2 = writer@.data;
        let ghost gp2 = writer@.pos;
        assert(w1.writes(gd1, gp1, endian, args, Ok((gd2, gp2))));
        let w2 = T2::writer_mapped(&self.value.2);
        match w2.write(writer, endian, args) {
            Ok(()) => {},
            Err(e) => {
                let ghost o: Result<(Seq<u8>, u64), (BinError, Seq<u8>)> = Err((e, writer@.data));
                assert(o matches Err((x, y)) && x == e && y == writer@.data);
                return Err(e);
            },
        }
        let ghost gd3 = writer@.data;
        let ghost gp3 = writer@.pos;
        assert(w2.writes(gd2, gp2, endian, args, Ok((gd3, gp3))));
        let w3 = T3::writer_mapped(&self.value.3);
        match w3.write(writer, endian, args) {
            Ok(()) => {},
            Err(e) => {
                let ghost o: Result<(Seq<u8>, u64), (BinError, Seq<u8>)> = Err((e, writer@.data));
                assert(o matches Err((x, y)) && x == e && y == writer@.data);
                return Err(e);
            },
        }
        let ghost gd4 = writer@.data;
        let ghost gp4 = writer@.pos;
        assert(w3.writes(gd3, gp3, endian, args, Ok((gd4, gp4))));
        let w4 = T4::writer_mapped(&self.value.4);
        match w4.write(writer, endian, args) {
            Ok(()) => {},
            Err(e) => {
                let ghost o: Result<(Seq<u8>, u64), (BinError, Seq<u8>)> = Err((e, writer@.data));
                assert(o matches Err((x, y)) && x == e && y == writer@.data);
                return Err(e);
            },
        }
        let ghost gd5 = writer@.data;
        let ghost gp5 = writer@.pos;
        assert(w4.writes(gd4, gp4, endian, args, Ok((gd5, gp5))));
        let w5 = T5::writer_mapped(&self.value.5);
        match w5.write(writer, endian, args) {
            Ok(()) => {},
            Err(e) => {
                let ghost o: Result<(Seq<u8>, u64), (BinError, Seq<u8>)> = Err((e, writer@.data));
                assert(o matches Err((x, y)) && x == e && y == writer@.data);
                return Err(e);
            },
        }
        let ghost gd6 = writer@.data;
        let ghost gp6 = writer@.pos;
        assert(w5.writes(gd5, gp5, endian, args, Ok((gd6, gp6))));
        let w6 = T6::writer_mapped(&self.value.6);
        match w6.write(writer, endian, args) {
            Ok(()) => {},
            Err(e) => {
                let ghost o: Result<(Seq<u8>, u64), (BinError, Seq<u8>)> = Err((e, writer@.data));
                assert(o matches Err((x, y)) && x == e && y == writer@.data);
                return Err(e);
            },
        }
        let ghost gd7 = writer@.data;
        let ghost gp7 = writer@.pos;
        assert(w6.writes(gd6, gp6, endian, args, Ok((gd7, gp7))));
        let ghost o: Result<(Seq<u8>, u64), (BinError, Seq<u8>)> = Ok((gd7, gp7));
        assert(o matches Ok((x, y)) && x == gd7 && y == gp7);
        Ok(())
    }

    fn inner(&self) -> (v: &(T0, T1, T2, T3, T4, T5, T6)) {
        self.value
    }
}

impl<'a, T0, T1, T2, T3, T4, T5, T6> BinWriter<'a> for (T0, T1, T2, T3, T4, T5, T6) where
    T0: BinWriter<'a, In = T0> + 'a,
    T1: BinWriter<'a, Args = T0::Args, In = T1> + 'a,
    T2: BinWriter<'a, Args = T0::Args, In = T2> + 'a,
    T3: BinWriter<'a, Args = T0::Args, In = T3> + 'a,
    T4: BinWriter<'a, Args = T0::Args, In = T4> + 'a,
    T5: BinWriter<'a, Args = T0::Args, In = T5> + 'a,
    T6: BinWriter<'a, Args = T0::Args, In = T6> + 'a,
    T0::Args: Copy,
 {
    type Args = T0::Args;
    type In = (T0, T1, T2, T3, T4, T5, T6);
    type Writer = Tuple7Writer<'a, T0, T1, T2, T3, T4, T5, T6>;

    open spec fn spec_writer_mapped(this: &'a (T0, T1, T2, T3, T4, T5, T6)) -> Tuple7Writer<'a, T0, T1, T2, T3, T4, T5, T6> {
        Tuple7Writer { value: this }
    }

    fn writer_mapped(this: &'a (T0, T1, T2, T3, T4, T5, T6)) -> (w: Tuple7Writer<'a, T0, T1, T2, T3, T4, T5, T6>) {
        Tuple7Writer { value: this }
    }
}

/// Writes the 8 values of a tuple one after another, with the same arguments.
pub struct Tuple8Writer<'a, T0, T1, T2, T3, T4, T5, T6, T7> {
    pub value: &'a (T0, T1, T2, T3, T4, T5, T6, T7),
}

impl<'a, T0, T1, T2, T3, T4, T5, T6, T7> BinWrite<T0::Args, (T0, T1, T2, T3, T4, T5, T6, T7)> for Tuple8Writer<'a, T0, T1, T2, T3, T4, T5, T6, T7> where
    T0: BinWriter<'a, In = T0>,
    T1: BinWriter<'a, Args = T0::Args, In = T1>,
    T2: BinWriter<'a, Args = T0::Args, In = T2>,
    T3: BinWriter<'a, Args = T0::Args, In = T3>,
    T4: BinWriter<'a, Args = T0::Args, In = T4>,
    T5: BinWriter<'a, Args = T0::Args, In = T5>,
    T6: BinWriter<'a, Args = T0::Args, In = T6>,
    T7: BinWriter<'a, Args = T0::Args, In = T7>,
    T0::Args: Copy,
 {
    open spec fn write_wf(&self) -> bool {
        true
    }

    open spec fn spec_inner(&self) -> (T0, T1, T2, T3, T4, T5, T6, T7) {
        *self.value
    }

    /// The values are written in order, each right after the one before.
    open spec fn writes(
        &self,
        data: Seq<u8>,
        pos: u64,
        endian: Endian,
        args: T0::Args,
        outcome: Result<(Seq<u8>, u64), (BinError, Seq<u8>)>,
    ) -> bool {
        let w0 = T0::spec_writer_mapped(&self.value.0);
        let w1 = T1::spec_writer_mapped(&self.value.1);
        let w2 = T2::spec_writer_mapped(&self.value.2);
        let w3 = T3::spec_writer_mapped(&self.value.3);
        let w4 = T4::spec_writer_mapped(&self.value.4);
        let w5 = T5::spec_writer_mapped(&self.value.5);
        let w6 = T6::spec_writer_mapped(&self.value.6);
        let w7 = T7::spec_writer_mapped(&self.value.7);
        match outcome {
            Ok((dk, end)) => exists|d1: Seq<u8>, p1: u64, d2: Seq<u8>, p2: u64, d3: Seq<u8>, p3: u64, d4: Seq<u8>, p4: u64, d5: Seq<u8>, p5: u64, d6: Seq<u8>, p6: u64, d7: Seq<u8>, p7: u64|
                #![trigger w0.writes(data, pos, endian, args, Ok((d1, p1))), w1.writes(d1, p1, endian, args, Ok((d2, p2))), w2.writes(d2, p2, endian, args, Ok((d3, p3))), w3.writes(d3, p3, endian, args, Ok((d4, p4))), w4.writes(d4, p4, endian, args, Ok((d5, p5))), w5.writes(d5, p5, endian, args, Ok((d6, p6))), w6.writes(d6, p6, endian, args, Ok((d7, p7)))]
                w0.writes(data, pos, endian, args, Ok((d1, p1)))
                    && w1.writes(d1, p1, endian, args, Ok((d2, p2)))
                    && w2.writes(d2, p2, endian, args, Ok((d3, p3)))
                    && w3.writes(d3, p3, endian, args, Ok((d4, p4)))
                    && w4.writes(d4, p4, endian, args, Ok((d5, p5)))
                    && w5.writes(d5, p5, endian, args, Ok((d6, p6)))
                    && w6.writes(d6, p6, endian, args, Ok((d7, p7)))
                    && w7.writes(d7, p7, endian, args, Ok((dk, end))),
            Err((e, dk)) => {
                ||| w0.writes(data, pos, endian, args, Err((e, dk)))
                ||| exists|d1: Seq<u8>, p1: u64|
                    #![trigger w0.writes(data, pos, endian, args, Ok((d1, p1)))]
                    w0.writes(data, pos, endian, args, Ok((d1, p1)))
                        && w1.writes(d1, p1, endian, args, Err((e, dk)))
                ||| exists|d1: Seq<u8>, p1: u64, d2: Seq<u8>, p2: u64|
                    #![trigger w0.writes(data, pos, endian, args, Ok((d1, p1))), w1.writes(d1, p1, endian, args, Ok((d2, p2)))]
                    w0.writes(data, pos, endian, args, Ok((d1, p1)))
                        && w1.writes(d1, p1, endian, args, Ok((d2, p2)))
                        && w2.writes(d2, p2, endian, args, Err((e, dk)))
                ||| exists|d1: Seq<u8>, p1: u64, d2: Seq<u8>, p2: u64, d3: Seq<u8>, p3: u64|
                    #![trigger w0.writes(data, pos, endian, args, Ok((d1, p1))), w1.writes(d1, p1, endian, args, Ok((d2, p2))), w2.writes(d2, p2, endian, args, Ok((d3, p3)))]
                    w0.writes(data, pos, endian, args, Ok((d1, p1)))
                        && w1.writes(d1, p1, endian, args, Ok((d2, p2)))
                        && w2.writes(d2, p2, endian, args, Ok((d3, p3)))
                        && w3.writes(d3, p3, endian, args, Err((e, dk)))
                ||| exists|d1: Seq<u8>, p1: u64, d2: Seq<u8>, p2: u64, d3: Seq<u8>, p3: u64, d4: Seq<u8>, p4: u64|
                    #![trigger w0.writes(data, pos, endian, args, Ok((d1, p1))), w1.writes(d1, p1, endian, args, Ok((d2, p2))), w2.writes(d2, p2, endian, args, Ok((d3, p3))), w3.writes(d3, p3, endian, args, Ok((d4, p4)))]
                    w0.writes(data, pos, endian, args, Ok((d1, p1)))
                        && w1.writes(d1, p1, endian, args, Ok((d2, p2)))
                        && w2.writes(d2, p2, endian, args, Ok((d3, p3)))
                        && w3.writes(d3, p3, endian, args, Ok((d4, p4)))
                        && w4.writes(d4, p4, endian, args, Err((e, dk)))
                ||| exists|d1: Seq<u8>, p1: u64, d2: Seq<u8>, p2: u64, d3: Seq<u8>, p3: u64, d4: Seq<u8>, p4: u64, d5: Seq<u8>, p5: u64|
                    #![trigger w0.writes(data, pos, endian, args, Ok((d1, p1))), w1.writes(d1, p1, endian, args, Ok((d2, p2))), w2.writes(d2, p2, endian, args, Ok((d3, p3))), w3.writes(d3, p3, endian, args, Ok((d4, p4))), w4.writes(d4, p4, endian, args, Ok((d5, p5)))]
                    w0.writes(data, pos, endian, args, Ok((d1, p1)))
                        && w1.writes(d1, p1, endian, args, Ok((d2, p2)))
                        && w2.writes(d2, p2, endian, args, Ok((d3, p3)))
                        && w3.writes(d3, p3, endian, args, Ok((d4, p4)))
                        && w4.writes(d4, p4, endian, args, Ok((d5, p5)))
                        && w5.writes(d5, p5, endian, args, Err((e, dk)))
                ||| exists|d1: Seq<u8>, p1: u64, d2: Seq<u8>, p2: u64, d3: Seq<u8>, p3: u64, d4: Seq<u8>, p4: u64, d5: Seq<u8>, p5: u64, d6: Seq<u8>, p6: u64|
                    #![trigger w0.writes(data, pos, endian, args, Ok((d1, p1))), w1.writes(d1, p1, endian, args, Ok((d2, p2))), w2.writes(d2, p2, endian, args, Ok((d3, p3))), w3.writes(d3, p3, endian, args, Ok((d4, p4))), w4.writes(d4, p4, endian, args, Ok((d5, p5))), w5.writes(d5, p5, endian, args, Ok((d6, p6)))]
                    w0.writes(data, pos, endian, args, Ok((d1, p1)))
                        && w1.writes(d1, p1, endian, args, Ok((d2, p2)))
                        && w2.writes(d2, p2, endian, args, Ok((d3, p3)))
                        && w3.writes(d3, p3, endian, args, Ok((d4, p4)))
                        && w4.writes(d4, p4, endian, args, Ok((d5, p5)))
                        && w5.writes(d5, p5, endian, args, Ok((d6, p6)))
                        && w6.writes(d6, p6, endian, args, Err((e, dk)))
                ||| exists|d1: Seq<u8>, p1: u64, d2: Seq<u8>, p2: u64, d3: Seq<u8>, p3: u64, d4: Seq<u8>, p4: u64, d5: Seq<u8>, p5: u64, d6: Seq<u8>, p6: u64, d7: Seq<u8>, p7: u64|
                    #![trigger w0.writes(data, pos, endian, args, Ok((d1, p1))), w1.writes(d1, p1, endian, args, Ok((d2, p2))), w2.writes(d2, p2, endian, args, Ok((d3, p3))), w3.writes(d3, p3, endian, args, Ok((d4, p4))), w4.writes(d4, p4, endian, args, Ok((d5, p5))), w5.writes(d5, p5, endian, args, Ok((d6, p6))), w6.writes(d6, p6, endian, args, Ok((d7, p7)))]
                    w0.writes(data, pos, endian, args, Ok((d1, p1)))
                        && w1.writes(d1, p1, endian, args, Ok((d2, p2)))
                        && w2.writes(d2, p2, endian, args, Ok((d3, p3)))
                        && w3.writes(d3, p3, endian, args, Ok((d4, p4)))
                        && w4.writes(d4, p4, endian, args, Ok((d5, p5)))
                        && w5.writes(d5, p5, endian, args, Ok((d6, p6)))
                        && w6.writes(d6, p6, endian, args, Ok((d7, p7)))
                        && w7.writes(d7, p7, endian, args, Err((e, dk)))
            },
        }
    }

    fn write_non_backtracking(
        &self,
        writer: &mut Cursor,
        endian: Endian,
        args: T0::Args,
        token: BinWriteToken,
    ) -> (r: BinResult<()>) {
        let ghost gd0 = writer@.data;
        let ghost gp0 = writer@.pos;
        let w0 = T0::writer_mapped(&self.value.0);
        match w0.write(writer, endian, args) {
            Ok(()) => {},
            Err(e) => {
                let ghost o: Result<(Seq<u8>, u64), (BinError, Seq<u8>)> = Err((e, writer@.data));
                assert(o matches Err((x, y)) && x == e && y == writer@.data);
                return Err(e);
            },
        }
        let ghost gd1 = writer@.data;
        let ghost gp1 = writer@.pos;
        assert(w0.writes(gd0, gp0, endian, args, Ok((gd1, gp1))));
        let w1 = T1::writer_mapped(&self.value.1);
        match w1.write(writer, endian, args) {
            Ok(()) => {},
            Err(e) => {
                let ghost o: Result<(Seq<u8>, u64), (BinError, Seq<u8>)> = Err((e, writer@.data));
                assert(o matches Err((x, y)) && x == e && y == writer@.data);
                return Err(e);
            },
        }
        let ghost gd2 = writer@.data;
        let ghost gp2 = writer@.pos;
        assert(w1.writes(gd1, gp1, endian, args, Ok((gd2, gp2))));
        let w2 = T2::writer_mapped(&self.value.2);
        match w2.write(writer, endian, args) {
            Ok(()) => {},
            Err(e) => {
                let ghost o: Result<(Seq<u8>, u64), (BinError, Seq<u8>)> = Err((e, writer@.data));
                assert(o matches Err((x, y)) && x == e && y == writer@.data);
                return Err(e);
            },
        }
        let ghost gd3 = writer@.data;
        let ghost gp3 = writer@.pos;
        assert(w2.writes(gd2, gp2, endian, args, Ok((gd3, gp3))));
        let w3 = T3::writer_mapped(&self.value.3);
        match w3.write(writer, endian, args) {
            Ok(()) => {},
            Err(e) => {
                let ghost o: Result<(Seq<u8>, u64), (BinError, Seq<u8>)> = Err((e, writer@.data));
                assert(o matches Err((x, y)) && x == e && y == writer@.data);
                return Err(e);
            },
        }
        let ghost gd4 = writer@.data;
        let ghost gp4 = writer@.pos;
        assert(w3.writes(gd3, gp3, endian, args, Ok((gd4, gp4))));
        let w4 = T4::writer_mapped(&self.value.4);
        match w4.write(writer, endian, args) {
            Ok(()) => {},
            Err(e) => {
                let ghost o: Result<(Seq<u8>, u64), (BinError, Seq<u8>)> = Err((e, writer@.data));
                assert(o matches Err((x, y)) && x == e && y == writer@.data);
                return Err(e);
            },
        }
        let ghost gd5 = writer@.data;
        let ghost gp5 = writer@.pos;
        assert(w4.writes(gd4, gp4, endian, args, Ok((gd5, gp5))));
        let w5 = T5::writer_mapped(&self.value.5);
        match w5.write(writer, endian, args) {
            Ok(()) => {},
            Err(e) => {
                let ghost o: Result<(Seq<u8>, u64), (BinError, Seq<u8>)> = Err((e, writer@.data));
                assert(o matches Err((x, y)) && x == e && y == writer@.data);
                return Err(e);
            },
        }
        let ghost gd6 = writer@.data;
        let ghost gp6 = writer@.pos;
        assert(w5.writes(gd5, gp5, endian, args, Ok((gd6, gp6))));
        let w6 = T6::writer_mapped(&self.value.6);
        match w6.write(writer, endian, args) {
            Ok(()) => {},
            Err(e) => {
                let ghost o: Result<(Seq<u8>, u64), (BinError, Seq<u8>)> = Err((e, writer@.data));
                assert(o matches Err((x, y)) && x == e && y == writer@.data);
                return Err(e);
            },
        }
        let ghost gd7 = writer@.data;
        let ghost gp7 = writer@.pos;
        assert(w6.writes(gd6, gp6, endian, args, Ok((gd7, gp7))));
        let w7 = T7::writer_mapped(&self.value.7);
        match w7.write(writer, endian, args) {
            Ok(()) => {},
            Err(e) => {
                let ghost o: Result<(Seq<u8>, u64), (BinError, Seq<u8>)> = Err((e, writer@.data));
                assert(o matches Err((x, y)) && x == e && y == writer@.data);
                return Err(e);
            },
        }
        let ghost gd8 = writer@.data;
        let ghost gp8 = writer@.pos;
        assert(w7.writes(gd7, gp7, endian, args, Ok((gd8, gp8))));
        let ghost o: Result<(Seq<u8>, u64), (BinError, Seq<u8>)> = Ok((gd8, gp8));
        assert(o matches Ok((x, y)) && x == gd8 && y == gp8);
        Ok(())
    }

    fn inner(&self) -> (v: &(T0, T1, T2, T3, T4, T5, T6, T7)) {
        self.value
    }
}

impl<'a, T0, T1, T2, T3, T4, T5, T6, T7> BinWriter<'a> for (T0, T1, T2, T3, T4, T5, T6, T7) where
    T0: BinWriter<'a, In = T0> + 'a,
    T1: BinWriter<'a, Args = T0::Args, In = T1> + 'a,
    T2: BinWriter<'a, Args = T0::Args, In = T2> + 'a,
    T3: BinWriter<'a, Args = T0::Args, In = T3> + 'a,
    T4: BinWriter<'a, Args = T0::Args, In = T4> + 'a,
    T5: BinWriter<'a, Args = T0::Args, In = T5> + 'a,
    T6: BinWriter<'a, Args = T0::Args, In = T6> + 'a,
    T7: BinWriter<'a, Args = T0::Args, In = T7> + 'a,
    T0::Args: Copy,
 {
    type Args = T0::Args;
    type In = (T0, T1, T2, T3, T4, T5, T6, T7);
    type Writer = Tuple8Writer<'a, T0, T1, T2, T3, T4, T5, T6, T7>;

    open spec fn spec_writer_mapped(this: &'a (T0, T1, T2, T3, T4, T5, T6, T7)) -> Tuple8Writer<'a, T0, T1, T2, T3, T4, T5, T6, T7> {
        Tuple8Writer { value: this }
    }

    fn writer_mapped(this: &'a (T0, T1, T2, T3, T4, T5, T6, T7)) -> (w: Tuple8Writer<'a, T0, T1, T2, T3, T4, T5, T6, T7>) {
        Tuple8Writer { value: this }
    }
}

/// Writes the 9 values of a tuple one after another, with the same arguments.
pub struct Tuple9Writer<'a, T0, T1, T2, T3, T4, T5, T6, T7, T8> {
    pub value: &'a (T0, T1, T2, T3, T4, T5, T6, T7, T8),
}

impl<'a, T0, T1, T2, T3, T4, T5, T6, T7, T8> BinWrite<T0::Args, (T0, T1, T2, T3, T4, T5, T6, T7, T8)> for Tuple9Writer<'a, T0, T1, T2, T3, T4, T5, T6, T7, T8> where
    T0: BinWriter<'a, In = T0>,
    T1: BinWriter<'a, Args = T0::Args, In = T1>,
    T2: BinWriter<'a, Args = T0::Args, In = T2>,
    T3: BinWriter<'a, Args = T0::Args, In = T3>,
    T4: BinWriter<'a, Args = T0::Args, In = T4>,
    T5: BinWriter<'a, Args = T0::Args, In = T5>,
    T6: BinWriter<'a, Args = T0::Args, In = T6>,
    T7: BinWriter<'a, Args = T0::Args, In = T7>,
    T8: BinWriter<'a, Args = T0::Args, In = T8>,
    T0::Args: Copy,
 {
    open spec fn write_wf(&self) -> bool {
        true
    }

    open spec fn spec_inner(&self) -> (T0, T1, T2, T3, T4, T5, T6, T7, T8) {
        *self.value
    }

    /// The values are written in order, each right after the one before.
    open spec fn writes(
        &self,
        data: Seq<u8>,
        pos: u64,
        endian: Endian,
        args: T0::Args,
        outcome: Result<(Seq<u8>, u64), (BinError, Seq<u8>)>,
    ) -> bool {
        let w0 = T0::spec_writer_mapped(&self.value.0);
        let w1 = T1::spec_writer_mapped(&self.value.1);
        let w2 = T2::spec_writer_mapped(&self.value.2);
        let w3 = T3::spec_writer_mapped(&self.value.3);
        let w4 = T4::spec_writer_mapped(&self.value.4);
        let w5 = T5::spec_writer_mapped(&self.value.5);
        let w6 = T6::spec_writer_mapped(&self.value.6);
        let w7 = T7::spec_writer_mapped(&self.value.7);
        let w8 = T8::spec_writer_mapped(&self.value.8);
        match outcome {
            Ok((dk, end)) => exists|d1: Seq<u8>, p1: u64, d2: Seq<u8>, p2: u64, d3: Seq<u8>, p3: u64, d4: Seq<u8>, p4: u64, d5: Seq<u8>, p5: u64, d6: Seq<u8>, p6: u64, d7: Seq<u8>, p7: u64, d8: Seq<u8>, p8: u64|
                #![trigger w0.writes(data, pos, endian, args, Ok((d1, p1))), w1.writes(d1, p1, endian, args, Ok((d2, p2))), w2.writes(d2, p2, endian, args, Ok((d3, p3))), w3.writes(d3, p3, endian, args, Ok((d4, p4))), w4.writes(d4, p4, endian, args, Ok((d5, p5))), w5.writes(d5, p5, endian, args, Ok((d6, p6))), w6.writes(d6, p6, endian, args, Ok((d7, p7))), w7.writes(d7, p7, endian, args, Ok((d8, p8)))]
                w0.writes(data, pos, endian, args, Ok((d1, p1)))
                    && w1.writes(d1, p1, endian, args, Ok((d2, p2)))
                    && w2.writes(d2, p2, endian, args, Ok((d3, p3)))
                    && w3.writes(d3, p3, endian, args, Ok((d4, p4)))
                    && w4.writes(d4, p4, endian, args, Ok((d5, p5)))
                    && w5.writes(d5, p5, endian, args, Ok((d6, p6)))
                    && w6.writes(d6, p6, endian, args, Ok((d7, p7)))
                    && w7.writes(d7, p7, endian, args, Ok((d8, p8)))
                    && w8.writes(d8, p8, endian, args, Ok((dk, end))),
            Err((e, dk)) => {
                ||| w0.writes(data, pos, endian, args, Err((e, dk)))
                ||| exists|d1: Seq<u8>, p1: u64|
                    #![trigger w0.writes(data, pos, endian, args, Ok((d1, p1)))]
                    w0.writes(data, pos, endian, args, Ok((d1, p1)))
                        && w1.writes(d1, p1, endian, args, Err((e, dk)))
                ||| exists|d1: Seq<u8>, p1: u64, d2: Seq<u8>, p2: u64|
                    #![trigger w0.writes(data, pos, endian, args, Ok((d1, p1))), w1.writes(d1, p1, endian, args, Ok((d2, p2)))]
                    w0.writes(data, pos, endian, args, Ok((d1, p1)))
                        && w1.writes(d1, p1, endian, args, Ok((d2, p2)))
                        && w2.writes(d2, p2, endian, args, Err((e, dk)))
                ||| exists|d1: Seq<u8>, p1: u64, d2: Seq<u8>, p2: u64, d3: Seq<u8>, p3: u64|
                    #![trigger w0.writes(data, pos, endian, args, Ok((d1, p1))), w1.writes(d1, p1, endian, args, Ok((d2, p2))), w2.writes(d2, p2, endian, args, Ok((d3, p3)))]
                    w0.writes(data, pos, endian, args, Ok((d1, p1)))
                        && w1.writes(d1, p1, endian, args, Ok((d2, p2)))
                        && w2.writes(d2, p2, endian, args, Ok((d3, p3)))
                        && w3.writes(d3, p3, endian, args, Err((e, dk)))
                ||| exists|d1: Seq<u8>, p1: u64, d2: Seq<u8>, p2: u64, d3: Seq<u8>, p3: u64, d4: Seq<u8>, p4: u64|
                    #![trigger w0.writes(data, pos, endian, args, Ok((d1, p1))), w1.writes(d1, p1, endian, args, Ok((d2, p2))), w2.writes(d2, p2, endian, args, Ok((d3, p3))), w3.writes(d3, p3, endian, args, Ok((d4, p4)))]
                    w0.writes(data, pos, endian, args, Ok((d1, p1)))
                        && w1.writes(d1, p1, endian, args, Ok((d2, p2)))
                        && w2.writes(d2, p2, endian, args, Ok((d3, p3)))
                        && w3.writes(d3, p3, endian, args, Ok((d4, p4)))
                        && w4.writes(d4, p4, endian, args, Err((e, dk)))
                ||| exists|d1: Seq<u8>, p1: u64, d2: Seq<u8>, p2: u64, d3: Seq<u8>, p3: u64, d4: Seq<u8>, p4: u64, d5: Seq<u8>, p5: u64|
                    #![trigger w0.writes(data, pos, endian, args, Ok((d1, p1))), w1.writes(d1, p1, endian, args, Ok((d2, p2))), w2.writes(d2, p2, endian, args, Ok((d3, p3))), w3.writes(d3, p3, endian, args, Ok((d4, p4))), w4.writes(d4, p4, endian, args, Ok((d5, p5)))]
                    w0.writes(data, pos, endian, args, Ok((d1, p1)))
                        && w1.writes(d1, p1, endian, args, Ok((d2, p2)))
                        && w2.writes(d2, p2, endian, args, Ok((d3, p3)))
                        && w3.writes(d3, p3, endian, args, Ok((d4, p4)))
                        && w4.writes(d4, p4, endian, args, Ok((d5, p5)))
                        && w5.writes(d5, p5, endian, args, Err((e, dk)))
                ||| exists|d1: Seq<u8>, p1: u64, d2: Seq<u8>, p2: u64, d3: Seq<u8>, p3: u64, d4: Seq<u8>, p4: u64, d5: Seq<u8>, p5: u64, d6: Seq<u8>, p6: u64|
                    #![trigger w0.writes(data, pos, endian, args, Ok((d1, p1))), w1.writes(d1, p1, endian, args, Ok((d2, p2))), w2.writes(d2, p2, endian, args, Ok((d3, p3))), w3.writes(d3, p3, endian, args, Ok((d4, p4))), w4.writes(d4, p4, endian, args, Ok((d5, p5))), w5.writes(d5, p5, endian, args, Ok((d6, p6)))]
                    w0.writes(data, pos, endian, args, Ok((d1, p1)))
                        && w1.writes(d1, p1, endian, args, Ok((d2, p2)))
                        && w2.writes(d2, p2, endian, args, Ok((d3, p3)))
                        && w3.writes(d3, p3, endian, args, Ok((d4, p4)))
                        && w4.writes(d4, p4, endian, args, Ok((d5, p5)))
                        && w5.writes(d5, p5, endian, args, Ok((d6, p6)))
                        && w6.writes(d6, p6, endian, args, Err((e, dk)))
                ||| exists|d1: Seq<u8>, p1: u64, d2: Seq<u8>, p2: u64, d3: Seq<u8>, p3: u64, d4: Seq<u8>, p4: u64, d5: Seq<u8>, p5: u64, d6: Seq<u8>, p6: u64, d7: Seq<u8>, p7: u64|
                    #![trigger w0.writes(data, pos, endian, args, Ok((d1, p1))), w1.writes(d1, p1, endian, args, Ok((d2, p2))), w2.writes(d2, p2, endian, args, Ok((d3, p3))), w3.writes(d3, p3, endian, args, Ok((d4, p4))), w4.writes(d4, p4, endian, args, Ok((d5, p5))), w5.writes(d5, p5, endian, args, Ok((d6, p6))), w6.writes(d6, p6, endian, args, Ok((d7, p7)))]
                    w0.writes(data, pos, endian, args, Ok((d1, p1)))
                        && w1.writes(d1, p1, endian, args, Ok((d2, p2)))
                        && w2.writes(d2, p2, endian, args, Ok((d3, p3)))
                        && w3.writes(d3, p3, endian, args, Ok((d4, p4)))
                        && w4.writes(d4, p4, endian, args, Ok((d5, p5)))
                        && w5.writes(d5, p5, endian, args, Ok((d6, p6)))
                        && w6.writes(d6, p6, endian, args, Ok((d7, p7)))
                        && w7.writes(d7, p7, endian, args, Err((e, dk)))
                ||| exists|d1: Seq<u8>, p1: u64, d2: Seq<u8>, p2: u64, d3: Seq<u8>, p3: u64, d4: Seq<u8>, p4: u64, d5: Seq<u8>, p5: u64, d6: Seq<u8>, p6: u64, d7: Seq<u8>, p7: u64, d8: Seq<u8>, p8: u64|
                    #![trigger w0.writes(data, pos, endian, args, Ok((d1, p1))), w1.writes(d1, p1, endian, args, Ok((d2, p2))), w2.writes(d2, p2, endian, args, Ok((d3, p3))), w3.writes(d3, p3, endian, args, Ok((d4, p4))), w4.writes(d4, p4, endian, args, Ok((d5, p5))), w5.writes(d5, p5, endian, args, Ok((d6, p6))), w6.writes(d6, p6, endian, args, Ok((d7, p7))), w7.writes(d7, p7, endian, args, Ok((d8, p8)))]
                    w0.writes(data, pos, endian, args, Ok((d1, p1)))
                        && w1.writes(d1, p1, endian, args, Ok((d2, p2)))
                        && w2.writes(d2, p2, endian, args, Ok((d3, p3)))
                        && w3.writes(d3, p3, endian, args, Ok((d4, p4)))
                        && w4.writes(d4, p4, endian, args, Ok((d5, p5)))
                        && w5.writes(d5, p5, endian, args, Ok((d6, p6)))
                        && w6.writes(d6, p6, endian, args, Ok((d7, p7)))
                        && w7.writes(d7, p7, endian, args, Ok((d8, p8)))
                        && w8.writes(d8, p8, endian, args, Err((e, dk)))
            },
        }
    }

    fn write_non_backtracking(
        &self,
        writer: &mut Cursor,
        endian: Endian,
        args: T0::Args,
        token: BinWriteToken,
    ) -> (r: BinResult<()>) {
        let ghost gd0 = writer@.data;
        let ghost gp0 = writer@.pos;
        let w0 = T0::writer_mapped(&self.value.0);
        match w0.write(writer, endian, args) {
            Ok(()) => {},
            Err(e) => {
                let ghost o: Result<(Seq<u8>, u64), (BinError, Seq<u8>)> = Err((e, writer@.data));
                assert(o matches Err((x, y)) && x == e && y == writer@.data);
                return Err(e);
            },
        }
        let ghost gd1 = writer@.data;
        let ghost gp1 = writer@.pos;
        assert(w0.writes(gd0, gp0, endian, args, Ok((gd1, gp1))));
        let w1 = T1::writer_mapped(&self.value.1);
        match w1.write(writer, endian, args) {
            Ok(()) => {},
            Err(e) => {
                let ghost o: Result<(Seq<u8>, u64), (BinError, Seq<u8>)> = Err((e, writer@.data));
                assert(o matches Err((x, y)) && x == e && y == writer@.data);
                return Err(e);
            },
        }
        let ghost gd2 = writer@.data;
        let ghost gp2 = writer@.pos;
        assert(w1.writes(gd1, gp1, endian, args, Ok((gd2, gp2))));
        let w2 = T2::writer_mapped(&self.value.2);
        match w2.write(writer, endian, args) {
            Ok(()) => {},
            Err(e) => {
                let ghost o: Result<(Seq<u8>, u64), (BinError, Seq<u8>)> = Err((e, writer@.data));
                assert(o matches Err((x, y)) && x == e && y == writer@.data);
                return Err(e);
            },
        }
        let ghost gd3 = writer@.data;
        let ghost gp3 = writer@.pos;
        assert(w2.writes(gd2, gp2, endian, args, Ok((gd3, gp3))));
        let w3 = T3::writer_mapped(&self.value.3);
        match w3.write(writer, endian, args) {
            Ok(()) => {},
            Err(e) => {
                let ghost o: Result<(Seq<u8>, u64), (BinError, Seq<u8>)> = Err((e, writer@.data));
                assert(o matches Err((x, y)) && x == e && y == writer@.data);
                return Err(e);
            },
        }
        let ghost gd4 = writer@.data;
        let ghost gp4 = writer@.pos;
        assert(w3.writes(gd3, gp3, endian, args, Ok((gd4, gp4))));
        let w4 = T4::writer_mapped(&self.value.4);
        match w4.write(writer, endian, args) {
            Ok(()) => {},
            Err(e) => {
                let ghost o: Result<(Seq<u8>, u64), (BinError, Seq<u8>)> = Err((e, writer@.data));
                assert(o matches Err((x, y)) && x == e && y == writer@.data);
                return Err(e);
            },
        }
        let ghost gd5 = writer@.data;
        let ghost gp5 = writer@.pos;
        assert(w4.writes(gd4, gp4, endian, args, Ok((gd5, gp5))));
        let w5 = T5::writer_mapped(&self.value.5);
        match w5.write(writer, endian, args) {
            Ok(()) => {},
            Err(e) => {
                let ghost o: Result<(Seq<u8>, u64), (BinError, Seq<u8>)> = Err((e, writer@.data));
                assert(o matches Err((x, y)) && x == e && y == writer@.data);
                return Err(e);
            },
        }
        let ghost gd6 = writer@.data;
        let ghost gp6 = writer@.pos;
        assert(w5.writes(gd5, gp5, endian, args, Ok((gd6, gp6))));
        let w6 = T6::writer_mapped(&self.value.6);
        match w6.write(writer, endian, args) {
            Ok(()) => {},
            Err(e) => {
                let ghost o: Result<(Seq<u8>, u64), (BinError, Seq<u8>)> = Err((e, writer@.data));
                assert(o matches Err((x, y)) && x == e && y == writer@.data);
                return Err(e);
            },
        }
        let ghost gd7 = writer@.data;
        let ghost gp7 = writer@.pos;
        assert(w6.writes(gd6, gp6, endian, args, Ok((gd7, gp7))));
        let w7 = T7::writer_mapped(&self.value.7);
        match w7.write(writer, endian, args) {
            Ok(()) => {},
            Err(e) => {
                let ghost o: Result<(Seq<u8>, u64), (BinError, Seq<u8>)> = Err((e, writer@.data));
                assert(o matches Err((x, y)) && x == e && y == writer@.data);
                return Err(e);
            },
        }
        let ghost gd8 = writer@.data;
        let ghost gp8 = writer@.pos;
        assert(w7.writes(gd7, gp7, endian, args, Ok((gd8, gp8))));
        let w8 = T8::writer_mapped(&self.value.8);
        match w8.write(writer, endian, args) {
            Ok(()) => {},
            Err(e) => {
                let ghost o: Result<(Seq<u8>, u64), (BinError, Seq<u8>)> = Err((e, writer@.data));
                assert(o matches Err((x, y)) && x == e && y == writer@.data);
                return Err(e);
            },
        }
        let ghost gd9 = writer@.data;
        let ghost gp9 = writer@.pos;
        assert(w8.writes(gd8, gp8, endian, args, Ok((gd9, gp9))));
        let ghost o: Result<(Seq<u8>, u64), (BinError, Seq<u8>)> = Ok((gd9, gp9));
        assert(o matches Ok((x, y)) && x == gd9 && y == gp9);
        Ok(())
    }

    fn inner(&self) -> (v: &(T0, T1, T2, T3, T4, T5, T6, T7, T8)) {
        self.value
    }
}

impl<'a, T0, T1, T2, T3, T4, T5, T6, T7, T8> BinWriter<'a> for (T0, T1, T2, T3, T4, T5, T6, T7, T8) where
    T0: BinWriter<'a, In = T0> + 'a,
    T1: BinWriter<'a, Args = T0::Args, In = T1> + 'a,
    T2: BinWriter<'a, Args = T0::Args, In = T2> + 'a,
    T3: BinWriter<'a, Args = T0::Args, In = T3> + 'a,
    T4: BinWriter<'a, Args = T0::Args, In = T4> + 'a,
    T5: BinWriter<'a, Args = T0::Args, In = T5> + 'a,
    T6: BinWriter<'a, Args = T0::Args, In = T6> + 'a,
    T7: BinWriter<'a, Args = T0::Args, In = T7> + 'a,
    T8: BinWriter<'a, Args = T0::Args, In = T8> + 'a,
    T0::Args: Copy,
 {
    type Args = T0::Args;
    type In = (T0, T1, T2, T3, T4, T5, T6, T7, T8);
    type Writer = Tuple9Writer<'a, T0, T1, T2, T3, T4, T5, T6, T7, T8>;

    open spec fn spec_writer_mapped(this: &'a (T0, T1, T2, T3, T4, T5, T6, T7, T8)) -> Tuple9Writer<'a, T0, T1, T2, T3, T4, T5, T6, T7, T8> {
        Tuple9Writer { value: this }
    }

    fn writer_mapped(this: &'a (T0, T1, T2, T3, T4, T5, T6, T7, T8)) -> (w: Tuple9Writer<'a, T0, T1, T2, T3, T4, T5, T6, T7, T8>) {
        Tuple9Writer { value: this }
    }
}

/// Writes the 10 values of a tuple one after another, with the same arguments.
pub struct Tuple10Writer<'a, T0, T1, T2, T3, T4, T5, T6, T7, T8, T9> {
    pub value: &'a (T0, T1, T2, T3, T4, T5, T6, T7, T8, T9),
}

impl<'a, T0, T1, T2, T3, T4, T5, T6, T7, T8, T9> BinWrite<T0::Args, (T0, T1, T2, T3, T4, T5, T6, T7, T8, T9)> for Tuple10Writer<'a, T0, T1, T2, T3, T4, T5, T6, T7, T8, T9> where
    T0: BinWriter<'a, In = T0>,
    T1: BinWriter<'a, Args = T0::Args, In = T1>,
    T2: BinWriter<'a, Args = T0::Args, In = T2>,
    T3: BinWriter<'a, Args = T0::Args, In = T3>,
    T4: BinWriter<'a, Args = T0::Args, In = T4>,
    T5: BinWriter<'a, Args = T0::Args, In = T5>,
    T6: BinWriter<'a, Args = T0::Args, In = T6>,
    T7: BinWriter<'a, Args = T0::Args, In = T7>,
    T8: BinWriter<'a, Args = T0::Args, In = T8>,
    T9: BinWriter<'a, Args = T0::Args, In = T9>,
    T0::Args: Copy,
 {
    open spec fn write_wf(&self) -> bool {
        true
    }

    open spec fn spec_inner(&self) -> (T0, T1, T2, T3, T4, T5, T6, T7, T8, T9) {
        *self.value
    }

    /// The values are written in order, each right after the one before.
    open spec fn writes(
        &self,
        data: Seq<u8>,
        pos: u64,
        endian: Endian,
        args: T0::Args,
        outcome: Result<(Seq<u8>, u64), (BinError, Seq<u8>)>,
    ) -> bool {
        let w0 = T0::spec_writer_mapped(&self.value.0);
        let w1 = T1::spec_writer_mapped(&self.value.1);
        let w2 = T2::spec_writer_mapped(&self.value.2);
        let w3 = T3::spec_writer_mapped(&self.value.3);
        let w4 = T4::spec_writer_mapped(&self.value.4);
        let w5 = T5::spec_writer_mapped(&self.value.5);
        let w6 = T6::spec_writer_mapped(&self.value.6);
        let w7 = T7::spec_writer_mapped(&self.value.7);
        let w8 = T8::spec_writer_mapped(&self.value.8);
        let w9 = T9::spec_writer_mapped(&self.value.9);
        match outcome {
            Ok((dk, end)) => exists|d1: Seq<u8>, p1: u64, d2: Seq<u8>, p2: u64, d3: Seq<u8>, p3: u64, d4: Seq<u8>, p4: u64, d5: Seq<u8>, p5: u64, d6: Seq<u8>, p6: u64, d7: Seq<u8>, p7: u64, d8: Seq<u8>, p8: u64, d9: Seq<u8>, p9: u64|
                #![trigger w0.writes(data, pos, endian, args, Ok((d1, p1))), w1.writes(d1, p1, endian, args, Ok((d2, p2))), w2.writes(d2, p2, endian, args, Ok((d3, p3))), w3.writes(d3, p3, endian, args, Ok((d4, p4))), w4.writes(d4, p4, endian, args, Ok((d5, p5))), w5.writes(d5, p5, endian, args, Ok((d6, p6))), w6.writes(d6, p6, endian, args, Ok((d7, p7))), w7.writes(d7, p7, endian, args, Ok((d8, p8))), w8.writes(d8, p8, endian, args, Ok((d9, p9)))]
                w0.writes(data, pos, endian, args, Ok((d1, p1)))
                    && w1.writes(d1, p1, endian, args, Ok((d2, p2)))
                    && w2.writes(d2, p2, endian, args, Ok((d3, p3)))
                    && w3.writes(d3, p3, endian, args, Ok((d4, p4)))
                    && w4.writes(d4, p4, endian, args, Ok((d5, p5)))
                    && w5.writes(d5, p5, endian, args, Ok((d6, p6)))
                    && w6.writes(d6, p6, endian, args, Ok((d7, p7)))
                    && w7.writes(d7, p7, endian, args, Ok((d8, p8)))
                    && w8.writes(d8, p8, endian, args, Ok((d9, p9)))
                    && w9.writes(d9, p9, endian, args, Ok((dk, end))),
            Err((e, dk)) => {
                ||| w0.writes(data, pos, endian, args, Err((e, dk)))
                ||| exists|d1: Seq<u8>, p1: u64|
                    #![trigger w0.writes(data, pos, endian, args, Ok((d1, p1)))]
                    w0.writes(data, pos, endian, args, Ok((d1, p1)))
                        && w1.writes(d1, p1, endian, args, Err((e, dk)))
                ||| exists|d1: Seq<u8>, p1: u64, d2: Seq<u8>, p2: u64|
                    #![trigger w0.writes(data, pos, endian, args, Ok((d1, p1))), w1.writes(d1, p1, endian, args, Ok((d2, p2)))]
                    w0.writes(data, pos, endian, args, Ok((d1, p1)))
                        && w1.writes(d1, p1, endian, args, Ok((d2, p2)))
                        && w2.writes(d2, p2, endian, args, Err((e, dk)))
                ||| exists|d1: Seq<u8>, p1: u64, d2: Seq<u8>, p2: u64, d3: Seq<u8>, p3: u64|
                    #![trigger w0.writes(data, pos, endian, args, Ok((d1, p1))), w1.writes(d1, p1, endian, args, Ok((d2, p2))), w2.writes(d2, p2, endian, args, Ok((d3, p3)))]
                    w0.writes(data, pos, endian, args, Ok((d1, p1)))
                        && w1.writes(d1, p1, endian, args, Ok((d2, p2)))
                        && w2.writes(d2, p2, endian, args, Ok((d3, p3)))
                        && w3.writes(d3, p3, endian, args, Err((e, dk)))
                ||| exists|d1: Seq<u8>, p1: u64, d2: Seq<u8>, p2: u64, d3: Seq<u8>, p3: u64, d4: Seq<u8>, p4: u64|
                    #![trigger w0.writes(data, pos, endian, args, Ok((d1, p1))), w1.writes(d1, p1, endian, args, Ok((d2, p2))), w2.writes(d2, p2, endian, args, Ok((d3, p3))), w3.writes(d3, p3, endian, args, Ok((d4, p4)))]
                    w0.writes(data, pos, endian, args, Ok((d1, p1)))
                        && w1.writes(d1, p1, endian, args, Ok((d2, p2)))
                        && w2.writes(d2, p2, endian, args, Ok((d3, p3)))
                        && w3.writes(d3, p3, endian, args, Ok((d4, p4)))
                        && w4.writes(d4, p4, endian, args, Err((e, dk)))
                ||| exists|d1: Seq<u8>, p1: u64, d2: Seq<u8>, p2: u64, d3: Seq<u8>, p3: u64, d4: Seq<u8>, p4: u64, d5: Seq<u8>, p5: u64|
                    #![trigger w0.writes(data, pos, endian, args, Ok((d1, p1))), w1.writes(d1, p1, endian, args, Ok((d2, p2))), w2.writes(d2, p2, endian, args, Ok((d3, p3))), w3.writes(d3, p3, endian, args, Ok((d4, p4))), w4.writes(d4, p4, endian, args, Ok((d5, p5)))]
                    w0.writes(data, pos, endian, args, Ok((d1, p1)))
                        && w1.writes(d1, p1, endian, args, Ok((d2, p2)))
                        && w2.writes(d2, p2, endian, args, Ok((d3, p3)))
                        && w3.writes(d3, p3, endian, args, Ok((d4, p4)))
                        && w4.writes(d4, p4, endian, args, Ok((d5, p5)))
                        && w5.writes(d5, p5, endian, args, Err((e, dk)))
                ||| exists|d1: Seq<u8>, p1: u64, d2: Seq<u8>, p2: u64, d3: Seq<u8>, p3: u64, d4: Seq<u8>, p4: u64, d5: Seq<u8>, p5: u64, d6: Seq<u8>, p6: u64|
                    #![trigger w0.writes(data, pos, endian, args, Ok((d1, p1))), w1.writes(d1, p1, endian, args, Ok((d2, p2))), w2.writes(d2, p2, endian, args, Ok((d3, p3))), w3.writes(d3, p3, endian, args, Ok((d4, p4))), w4.writes(d4, p4, endian, args, Ok((d5, p5))), w5.writes(d5, p5, endian, args, Ok((d6, p6)))]
                    w0.writes(data, pos, endian, args, Ok((d1, p1)))
                        && w1.writes(d1, p1, endian, args, Ok((d2, p2)))
                        && w2.writes(d2, p2, endian, args, Ok((d3, p3)))
                        && w3.writes(d3, p3, endian, args, Ok((d4, p4)))
                        && w4.writes(d4, p4, endian, args, Ok((d5, p5)))
                        && w5.writes(d5, p5, endian, args, Ok((d6, p6)))
                        && w6.writes(d6, p6, endian, args, Err((e, dk)))
                ||| exists|d1: Seq<u8>, p1: u64, d2: Seq<u8>, p2: u64, d3: Seq<u8>, p3: u64, d4: Seq<u8>, p4: u64, d5: Seq<u8>, p5: u64, d6: Seq<u8>, p6: u64, d7: Seq<u8>, p7: u64|
                    #![trigger w0.writes(data, pos, endian, args, Ok((d1, p1))), w1.writes(d1, p1, endian, args, Ok((d2, p2))), w2.writes(d2, p2, endian, args, Ok((d3, p3))), w3.writes(d3, p3, endian, args, Ok((d4, p4))), w4.writes(d4, p4, endian, args, Ok((d5, p5))), w5.writes(d5, p5, endian, args, Ok((d6, p6))), w6.writes(d6, p6, endian, args, Ok((d7, p7)))]
                    w0.writes(data, pos, endian, args, Ok((d1, p1)))
                        && w1.writes(d1, p1, endian, args, Ok((d2, p2)))
                        && w2.writes(d2, p2, endian, args, Ok((d3, p3)))
                        && w3.writes(d3, p3, endian, args, Ok((d4, p4)))
                        && w4.writes(d4, p4, endian, args, Ok((d5, p5)))
                        && w5.writes(d5, p5, endian, args, Ok((d6, p6)))
                        && w6.writes(d6, p6, endian, args, Ok((d7, p7)))
                        && w7.writes(d7, p7, endian, args, Err((e, dk)))
                ||| exists|d1: Seq<u8>, p1: u64, d2: Seq<u8>, p2: u64, d3: Seq<u8>, p3: u64, d4: Seq<u8>, p4: u64, d5: Seq<u8>, p5: u64, d6: Seq<u8>, p6: u64, d7: Seq<u8>, p7: u64, d8: Seq<u8>, p8: u64|
                    #![trigger w0.writes(data, pos, endian, args, Ok((d1, p1))), w1.writes(d1, p1, endian, args, Ok((d2, p2))), w2.writes(d2, p2, endian, args, Ok((d3, p3))), w3.writes(d3, p3, endian, args, Ok((d4, p4))), w4.writes(d4, p4, endian, args, Ok((d5, p5))), w5.writes(d5, p5, endian, args, Ok((d6, p6))), w6.writes(d6, p6, endian, args, Ok((d7, p7))), w7.writes(d7, p7, endian, args, Ok((d8, p8)))]
                    w0.writes(data, pos, endian, args, Ok((d1, p1)))
                        && w1.writes(d1, p1, endian, args, Ok((d2, p2)))
                        && w2.writes(d2, p2, endian, args, Ok((d3, p3)))
                        && w3.writes(d3, p3, endian, args, Ok((d4, p4)))
                        && w4.writes(d4, p4, endian, args, Ok((d5, p5)))
                        && w5.writes(d5, p5, endian, args, Ok((d6, p6)))
                        && w6.writes(d6, p6, endian, args, Ok((d7, p7)))
                        && w7.writes(d7, p7, endian, args, Ok((d8, p8)))
                        && w8.writes(d8, p8, endian, args, Err((e, dk)))
                ||| exists|d1: Seq<u8>, p1: u64, d2: Seq<u8>, p2: u64, d3: Seq<u8>, p3: u64, d4: Seq<u8>, p4: u64, d5: Seq<u8>, p5: u64, d6: Seq<u8>, p6: u64, d7: Seq<u8>, p7: u64, d8: Seq<u8>, p8: u64, d9: Seq<u8>, p9: u64|
                    #![trigger w0.writes(data, pos, endian, args, Ok((d1, p1))), w1.writes(d1, p1, endian, args, Ok((d2, p2))), w2.writes(d2, p2, endian, args, Ok((d3, p3))), w3.writes(d3, p3, endian, args, Ok((d4, p4))), w4.writes(d4, p4, endian, args, Ok((d5, p5))), w5.writes(d5, p5, endian, args, Ok((d6, p6))), w6.writes(d6, p6, endian, args, Ok((d7, p7))), w7.writes(d7, p7, endian, args, Ok((d8, p8))), w8.writes(d8, p8, endian, args, Ok((d9, p9)))]
                    w0.writes(data, pos, endian, args, Ok((d1, p1)))
                        && w1.writes(d1, p1, endian, args, Ok((d2, p2)))
                        && w2.writes(d2, p2, endian, args, Ok((d3, p3)))
                        && w3.writes(d3, p3, endian, args, Ok((d4, p4)))
                        && w4.writes(d4, p4, endian, args, Ok((d5, p5)))
                        && w5.writes(d5, p5, endian, args, Ok((d6, p6)))
                        && w6.writes(d6, p6, endian, args, Ok((d7, p7)))
                        && w7.writes(d7, p7, endian, args, Ok((d8, p8)))
                        && w8.writes(d8, p8, endian, args, Ok((d9, p9)))
                        && w9.writes(d9, p9, endian, args, Err((e, dk)))
            },
        }
    }

    fn write_non_backtracking(
        &self,
        writer: &mut Cursor,
        endian: Endian,
        args: T0::Args,
        token: BinWriteToken,
    ) -> (r: BinResult<()>) {
        let ghost gd0 = writer@.data;
        let ghost gp0 = writer@.pos;
        let w0 = T0::writer_mapped(&self.value.0);
        match w0.write(writer, endian, args) {
            Ok(()) => {},
            Err(e) => {
                let ghost o: Result<(Seq<u8>, u64), (BinError, Seq<u8>)> = Err((e, writer@.data));
                assert(o matches Err((x, y)) && x == e && y == writer@.data);
                return Err(e);
            },
        }
        let ghost gd1 = writer@.data;
        let ghost gp1 = writer@.pos;
        assert(w0.writes(gd0, gp0, endian, args, Ok((gd1, gp1))));
        let w1 = T1::writer_mapped(&self.value.1);
        match w1.write(writer, endian, args) {
            Ok(()) => {},
            Err(e) => {
                let ghost o: Result<(Seq<u8>, u64), (BinError, Seq<u8>)> = Err((e, writer@.data));
                assert(o matches Err((x, y)) && x == e && y == writer@.data);
                return Err(e);
            },
        }
        let ghost gd2 = writer@.data;
        let ghost gp2 = writer@.pos;
        assert(w1.writes(gd1, gp1, endian, args, Ok((gd2, gp2))));
        let w2 = T2::writer_mapped(&self.value.2);
        match w2.write(writer, endian, args) {
            Ok(()) => {},
            Err(e) => {
                let ghost o: Result<(Seq<u8>, u64), (BinError, Seq<u8>)> = Err((e, writer@.data));
                assert(o matches Err((x, y)) && x == e && y == writer@.data);
                return Err(e);
            },
        }
        let ghost gd3 = writer@.data;
        let ghost gp3 = writer@.pos;
        assert(w2.writes(gd2, gp2, endian, args, Ok((gd3, gp3))));
        let w3 = T3::writer_mapped(&self.value.3);
        match w3.write(writer, endian, args) {
            Ok(()) => {},
            Err(e) => {
                let ghost o: Result<(Seq<u8>, u64), (BinError, Seq<u8>)> = Err((e, writer@.data));
                assert(o matches Err((x, y)) && x == e && y == writer@.data);
                return Err(e);
            },
        }
        let ghost gd4 = writer@.data;
        let ghost gp4 = writer@.pos;
        assert(w3.writes(gd3, gp3, endian, args, Ok((gd4, gp4))));
        let w4 = T4::writer_mapped(&self.value.4);
        match w4.write(writer, endian, args) {
            Ok(()) => {},
            Err(e) => {
                let ghost o: Result<(Seq<u8>, u64), (BinError, Seq<u8>)> = Err((e, writer@.data));
                assert(o matches Err((x, y)) && x == e && y == writer@.data);
                return Err(e);
            },
        }
        let ghost gd5 = writer@.data;
        let ghost gp5 = writer@.pos;
        assert(w4.writes(gd4, gp4, endian, args, Ok((gd5, gp5))));
        let w5 = T5::writer_mapped(&self.value.5);
        match w5.write(writer, endian, args) {
            Ok(()) => {},
            Err(e) => {
                let ghost o: Result<(Seq<u8>, u64), (BinError, Seq<u8>)> = Err((e, writer@.data));
                assert(o matches Err((x, y)) && x == e && y == writer@.data);
                return Err(e);
            },
        }
        let ghost gd6 = writer@.data;
        let ghost gp6 = writer@.pos;
        assert(w5.writes(gd5, gp5, endian, args, Ok((gd6, gp6))));
        let w6 = T6::writer_mapped(&self.value.6);
        match w6.write(writer, endian, args) {
            Ok(()) => {},
            Err(e) => {
                let ghost o: Result<(Seq<u8>, u64), (BinError, Seq<u8>)> = Err((e, writer@.data));
                assert(o matches Err((x, y)) && x == e && y == writer@.data);
                return Err(e);
            },
        }
        let ghost gd7 = writer@.data;
        let ghost gp7 = writer@.pos;
        assert(w6.writes(gd6, gp6, endian, args, Ok((gd7, gp7))));
        let w7 = T7::writer_mapped(&self.value.7);
        match w7.write(writer, endian, args) {
            Ok(()) => {},
            Err(e) => {
                let ghost o: Result<(Seq<u8>, u64), (BinError, Seq<u8>)> = Err((e, writer@.data));
                assert(o matches Err((x, y)) && x == e && y == writer@.data);
                return Err(e);
            },
        }
        let ghost gd8 = writer@.data;
        let ghost gp8 = writer@.pos;
        assert(w7.writes(gd7, gp7, endian, args, Ok((gd8, gp8))));
        let w8 = T8::writer_mapped(&self.value.8);
        match w8.write(writer, endian, args) {
            Ok(()) => {},
            Err(e) => {
                let ghost o: Result<(Seq<u8>, u64), (BinError, Seq<u8>)> = Err((e, writer@.data));
                assert(o matches Err((x, y)) && x == e && y == writer@.data);
                return Err(e);
            },
        }
        let ghost gd9 = writer@.data;
        let ghost gp9 = writer@.pos;
        assert(w8.writes(gd8, gp8, endian, args, Ok((gd9, gp9))));
        let w9 = T9::writer_mapped(&self.value.9);
        match w9.write(writer, endian, args) {
            Ok(()) => {},
            Err(e) => {
                let ghost o: Result<(Seq<u8>, u64), (BinError, Seq<u8>)> = Err((e, writer@.data));
                assert(o matches Err((x, y)) && x == e && y == writer@.data);
                return Err(e);
            },
        }
        let ghost gd10 = writer@.data;
        let ghost gp10 = writer@.pos;
        assert(w9.writes(gd9, gp9, endian, args, Ok((gd10, gp10))));
        let ghost o: Result<(Seq<u8>, u64), (BinError, Seq<u8>)> = Ok((gd10, gp10));
        assert(o matches Ok((x, y)) && x == gd10 && y == gp10);
        Ok(())
    }

    fn inner(&self) -> (v: &(T0, T1, T2, T3, T4, T5, T6, T7, T8, T9)) {
        self.value
    }
}

impl<'a, T0, T1, T2, T3, T4, T5, T6, T7, T8, T9> BinWriter<'a> for (T0, T1, T2, T3, T4, T5, T6, T7, T8, T9) where
    T0: BinWriter<'a, In = T0> + 'a,
    T1: BinWriter<'a, Args = T0::Args, In = T1> + 'a,
    T2: BinWriter<'a, Args = T0::Args, In = T2> + 'a,
    T3: BinWriter<'a, Args = T0::Args, In = T3> + 'a,
    T4: BinWriter<'a, Args = T0::Args, In = T4> + 'a,
    T5: BinWriter<'a, Args = T0::Args, In = T5> + 'a,
    T6: BinWriter<'a, Args = T0::Args, In = T6> + 'a,
    T7: BinWriter<'a, Args = T0::Args, In = T7> + 'a,
    T8: BinWriter<'a, Args = T0::Args, In = T8> + 'a,
    T9: BinWriter<'a, Args = T0::Args, In = T9> + 'a,
    T0::Args: Copy,
 {
    type Args = T0::Args;
    type In = (T0, T1, T2, T3, T4, T5, T6, T7, T8, T9);
    type Writer = Tuple10Writer<'a, T0, T1, T2, T3, T4, T5, T6, T7, T8, T9>;

    open spec fn spec_writer_mapped(this: &'a (T0, T1, T2, T3, T4, T5, T6, T7, T8, T9)) -> Tuple10Writer<'a, T0, T1, T2, T3, T4, T5, T6, T7, T8, T9> {
        Tuple10Writer { value: this }
    }

    fn writer_mapped(this: &'a (T0, T1, T2, T3, T4, T5, T6, T7, T8, T9)) -> (w: Tuple10Writer<'a, T0, T1, T2, T3, T4, T5, T6, T7, T8, T9>) {
        Tuple10Writer { value: this }
    }
}

/// Writes the 11 values of a tuple one after another, with the same arguments.
pub struct Tuple11Writer<'a, T0, T1, T2, T3, T4, T5, T6, T7, T8, T9, T10> {
    pub value: &'a (T0, T1, T2, T3, T4, T5, T6, T7, T8, T9, T10),
}

impl<'a, T0, T1, T2, T3, T4, T5, T6, T7, T8, T9, T10> BinWrite<T0::Args, (T0, T1, T2, T3, T4, T5, T6, T7, T8, T9, T10)> for Tuple11Writer<'a, T0, T1, T2, T3, T4, T5, T6, T7, T8, T9, T10> where
    T0: BinWriter<'a, In = T0>,
    T1: BinWriter<'a, Args = T0::Args, In = T1>,
    T2: BinWriter<'a, Args = T0::Args, In = T2>,
    T3: BinWriter<'a, Args = T0::Args, In = T3>,
    T4: BinWriter<'a, Args = T0::Args, In = T4>,
    T5: BinWriter<'a, Args = T0::Args, In = T5>,
    T6: BinWriter<'a, Args = T0::Args, In = T6>,
    T7: BinWriter<'a, Args = T0::Args, In = T7>,
    T8: BinWriter<'a, Args = T0::Args, In = T8>,
    T9: BinWriter<'a, Args = T0::Args, In = T9>,
    T10: BinWriter<'a, Args = T0::Args, In = T10>,
    T0::Args: Copy,
 {
    open spec fn write_wf(&self) -> bool {
        true
    }

    open spec fn spec_inner(&self) -> (T0, T1, T2, T3, T4, T5, T6, T7, T8, T9, T10) {
        *self.value
    }

    /// The values are written in order, each right after the one before.
    open spec fn writes(
        &self,
        data: Seq<u8>,
        pos: u64,
        endian: Endian,
        args: T0::Args,
        outcome: Result<(Seq<u8>, u64), (BinError, Seq<u8>)>,
    ) -> bool {
        let w0 = T0::spec_writer_mapped(&self.value.0);
        let w1 = T1::spec_writer_mapped(&self.value.1);
        let w2 = T2::spec_writer_mapped(&self.value.2);
        let w3 = T3::spec_writer_mapped(&self.value.3);
        let w4 = T4::spec_writer_mapped(&self.value.4);
        let w5 = T5::spec_writer_mapped(&self.value.5);
        let w6 = T6::spec_writer_mapped(&self.value.6);
        let w7 = T7::spec_writer_mapped(&self.value.7);
        let w8 = T8::spec_writer_mapped(&self.value.8);
        let w9 = T9::spec_writer_mapped(&self.value.9);
        let w10 = T10::spec_writer_mapped(&self.value.10);
        match outcome {
            Ok((dk, end)) => exists|d1: Seq<u8>, p1: u64, d2: Seq<u8>, p2: u64, d3: Seq<u8>, p3: u64, d4: Seq<u8>, p4: u64, d5: Seq<u8>, p5: u64, d6: Seq<u8>, p6: u64, d7: Seq<u8>, p7: u64, d8: Seq<u8>, p8: u64, d9: Seq<u8>, p9: u64, d10: Seq<u8>, p10: u64|
                #![trigger w0.writes(data, pos, endian, args, Ok((d1, p1))), w1.writes(d1, p1, endian, args, Ok((d2, p2))), w2.writes(d2, p2, endian, args, Ok((d3, p3))), w3.writes(d3, p3, endian, args, Ok((d4, p4))), w4.writes(d4, p4, endian, args, Ok((d5, p5))), w5.writes(d5, p5, endian, args, Ok((d6, p6))), w6.writes(d6, p6, endian, args, Ok((d7, p7))), w7.writes(d7, p7, endian, args, Ok((d8, p8))), w8.writes(d8, p8, endian, args, Ok((d9, p9))), w9.writes(d9, p9, endian, args, Ok((d10, p10)))]
                w0.writes(data, pos, endian, args, Ok((d1, p1)))
                    && w1.writes(d1, p1, endian, args, Ok((d2, p2)))
                    && w2.writes(d2, p2, endian, args, Ok((d3, p3)))
                    && w3.writes(d3, p3, endian, args, Ok((d4, p4)))
                    && w4.writes(d4, p4, endian, args, Ok((d5, p5)))
                    && w5.writes(d5, p5, endian, args, Ok((d6, p6)))
                    && w6.writes(d6, p6, endian, args, Ok((d7, p7)))
                    && w7.writes(d7, p7, endian, args, Ok((d8, p8)))
                    && w8.writes(d8, p8, endian, args, Ok((d9, p9)))
                    && w9.writes(d9, p9, endian, args, Ok((d10, p10)))
                    && w10.writes(d10, p10, endian, args, Ok((dk, end))),
            Err((e, dk)) => {
                ||| w0.writes(data, pos, endian, args, Err((e, dk)))
                ||| exists|d1: Seq<u8>, p1: u64|
                    #![trigger w0.writes(data, pos, endian, args, Ok((d1, p1)))]
                    w0.writes(data, pos, endian, args, Ok((d1, p1)))
                        && w1.writes(d1, p1, endian, args, Err((e, dk)))
                ||| exists|d1: Seq<u8>, p1: u64, d2: Seq<u8>, p2: u64|
                    #![trigger w0.writes(data, pos, endian, args, Ok((d1, p1))), w1.writes(d1, p1, endian, args, Ok((d2, p2)))]
                    w0.writes(data, pos, endian, args, Ok((d1, p1)))
                        && w1.writes(d1, p1, endian, args, Ok((d2, p2)))
                        && w2.writes(d2, p2, endian, args, Err((e, dk)))
                ||| exists|d1: Seq<u8>, p1: u64, d2: Seq<u8>, p2: u64, d3: Seq<u8>, p3: u64|
                    #![trigger w0.writes(data, pos, endian, args, Ok((d1, p1))), w1.writes(d1, p1, endian, args, Ok((d2, p2))), w2.writes(d2, p2, endian, args, Ok((d3, p3)))]
                    w0.writes(data, pos, endian, args, Ok((d1, p1)))
                        && w1.writes(d1, p1, endian, args, Ok((d2, p2)))
                        && w2.writes(d2, p2, endian, args, Ok((d3, p3)))
                        && w3.writes(d3, p3, endian, args, Err((e, dk)))
                ||| exists|d1: Seq<u8>, p1: u64, d2: Seq<u8>, p2: u64, d3: Seq<u8>, p3: u64, d4: Seq<u8>, p4: u64|
                    #![trigger w0.writes(data, pos, endian, args, Ok((d1, p1))), w1.writes(d1, p1, endian, args, Ok((d2, p2))), w2.writes(d2, p2, endian, args, Ok((d3, p3))), w3.writes(d3, p3, endian, args, Ok((d4, p4)))]
                    w0.writes(data, pos, endian, args, Ok((d1, p1)))
                        && w1.writes(d1, p1, endian, args, Ok((d2, p2)))
                        && w2.writes(d2, p2, endian, args, Ok((d3, p3)))
                        && w3.writes(d3, p3, endian, args, Ok((d4, p4)))
                        && w4.writes(d4, p4, endian, args, Err((e, dk)))
                ||| exists|d1: Seq<u8>, p1: u64, d2: Seq<u8>, p2: u64, d3: Seq<u8>, p3: u64, d4: Seq<u8>, p4: u64, d5: Seq<u8>, p5: u64|
                    #![trigger w0.writes(data, pos, endian, args, Ok((d1, p1))), w1.writes(d1, p1, endian, args, Ok((d2, p2))), w2.writes(d2, p2, endian, args, Ok((d3, p3))), w3.writes(d3, p3, endian, args, Ok((d4, p4))), w4.writes(d4, p4, endian, args, Ok((d5, p5)))]
                    w0.writes(data, pos, endian, args, Ok((d1, p1)))
                        && w1.writes(d1, p1, endian, args, Ok((d2, p2)))
                        && w2.writes(d2, p2, endian, args, Ok((d3, p3)))
                        && w3.writes(d3, p3, endian, args, Ok((d4, p4)))
                        && w4.writes(d4, p4, endian, args, Ok((d5, p5)))
                        && w5.writes(d5, p5, endian, args, Err((e, dk)))
                ||| exists|d1: Seq<u8>, p1: u64, d2: Seq<u8>, p2: u64, d3: Seq<u8>, p3: u64, d4: Seq<u8>, p4: u64, d5: Seq<u8>, p5: u64, d6: Seq<u8>, p6: u64|
                    #![trigger w0.writes(data, pos, endian, args, Ok((d1, p1))), w1.writes(d1, p1, endian, args, Ok((d2, p2))), w2.writes(d2, p2, endian, args, Ok((d3, p3))), w3.writes(d3, p3, endian, args, Ok((d4, p4))), w4.writes(d4, p4, endian, args, Ok((d5, p5))), w5.writes(d5, p5, endian, args, Ok((d6, p6)))]
                    w0.writes(data, pos, endian, args, Ok((d1, p1)))
                        && w1.writes(d1, p1, endian, args, Ok((d2, p2)))
                        && w2.writes(d2, p2, endian, args, Ok((d3, p3)))
                        && w3.writes(d3, p3, endian, args, Ok((d4, p4)))
                        && w4.writes(d4, p4, endian, args, Ok((d5, p5)))
                        && w5.writes(d5, p5, endian, args, Ok((d6, p6)))
                        && w6.writes(d6, p6, endian, args, Err((e, dk)))
                ||| exists|d1: Seq<u8>, p1: u64, d2: Seq<u8>, p2: u64, d3: Seq<u8>, p3: u64, d4: Seq<u8>, p4: u64, d5: Seq<u8>, p5: u64, d6: Seq<u8>, p6: u64, d7: Seq<u8>, p7: u64|
                    #![trigger w0.writes(data, pos, endian, args, Ok((d1, p1))), w1.writes(d1, p1, endian, args, Ok((d2, p2))), w2.writes(d2, p2, endian, args, Ok((d3, p3))), w3.writes(d3, p3, endian, args, Ok((d4, p4))), w4.writes(d4, p4, endian, args, Ok((d5, p5))), w5.writes(d5, p5, endian, args, Ok((d6, p6))), w6.writes(d6, p6, endian, args, Ok((d7, p7)))]
                    w0.writes(data, pos, endian, args, Ok((d1, p1)))
                        && w1.writes(d1, p1, endian, args, Ok((d2, p2)))
                        && w2.writes(d2, p2, endian, args, Ok((d3, p3)))
                        && w3.writes(d3, p3, endian, args, Ok((d4, p4)))
                        && w4.writes(d4, p4, endian, args, Ok((d5, p5)))
                        && w5.writes(d5, p5, endian, args, Ok((d6, p6)))
                        && w6.writes(d6, p6, endian, args, Ok((d7, p7)))
                        && w7.writes(d7, p7, endian, args, Err((e, dk)))
                ||| exists|d1: Seq<u8>, p1: u64, d2: Seq<u8>, p2: u64, d3: Seq<u8>, p3: u64, d4: Seq<u8>, p4: u64, d5: Seq<u8>, p5: u64, d6: Seq<u8>, p6: u64, d7: Seq<u8>, p7: u64, d8: Seq<u8>, p8: u64|
                    #![trigger w0.writes(data, pos, endian, args, Ok((d1, p1))), w1.writes(d1, p1, endian, args, Ok((d2, p2))), w2.writes(d2, p2, endian, args, Ok((d3, p3))), w3.writes(d3, p3, endian, args, Ok((d4, p4))), w4.writes(d4, p4, endian, args, Ok((d5, p5))), w5.writes(d5, p5, endian, args, Ok((d6, p6))), w6.writes(d6, p6, endian, args, Ok((d7, p7))), w7.writes(d7, p7, endian, args, Ok((d8, p8)))]
                    w0.writes(data, pos, endian, args, Ok((d1, p1)))
                        && w1.writes(d1, p1, endian, args, Ok((d2, p2)))
                        && w2.writes(d2, p2, endian, args, Ok((d3, p3)))
                        && w3.writes(d3, p3, endian, args, Ok((d4, p4)))
                        && w4.writes(d4, p4, endian, args, Ok((d5, p5)))
                        && w5.writes(d5, p5, endian, args, Ok((d6, p6)))
                        && w6.writes(d6, p6, endian, args, Ok((d7, p7)))
                        && w7.writes(d7, p7, endian, args, Ok((d8, p8)))
                        && w8.writes(d8, p8, endian, args, Err((e, dk)))
                ||| exists|d1: Seq<u8>, p1: u64, d2: Seq<u8>, p2: u64, d3: Seq<u8>, p3: u64, d4: Seq<u8>, p4: u64, d5: Seq<u8>, p5: u64, d6: Seq<u8>, p6: u64, d7: Seq<u8>, p7: u64, d8: Seq<u8>, p8: u64, d9: Seq<u8>, p9: u64|
                    #![trigger w0.writes(data, pos, endian, args, Ok((d1, p1))), w1.writes(d1, p1, endian, args, Ok((d2, p2))), w2.writes(d2, p2, endian, args, Ok((d3, p3))), w3.writes(d3, p3, endian, args, Ok((d4, p4))), w4.writes(d4, p4, endian, args, Ok((d5, p5))), w5.writes(d5, p5, endian, args, Ok((d6, p6))), w6.writes(d6, p6, endian, args, Ok((d7, p7))), w7.writes(d7, p7, endian, args, Ok((d8, p8))), w8.writes(d8, p8, endian, args, Ok((d9, p9)))]
                    w0.writes(data, pos, endian, args, Ok((d1, p1)))
                        && w1.writes(d1, p1, endian, args, Ok((d2, p2)))
                        && w2.writes(d2, p2, endian, args, Ok((d3, p3)))
                        && w3.writes(d3, p3, endian, args, Ok((d4, p4)))
                        && w4.writes(d4, p4, endian, args, Ok((d5, p5)))
                        && w5.writes(d5, p5, endian, args, Ok((d6, p6)))
                        && w6.writes(d6, p6, endian, args, Ok((d7, p7)))
                        && w7.writes(d7, p7, endian, args, Ok((d8, p8)))
                        && w8.writes(d8, p8, endian, args, Ok((d9, p9)))
                        && w9.writes(d9, p9, endian, args, Err((e, dk)))
                ||| exists|d1: Seq<u8>, p1: u64, d2: Seq<u8>, p2: u64, d3: Seq<u8>, p3: u64, d4: Seq<u8>, p4: u64, d5: Seq<u8>, p5: u64, d6: Seq<u8>, p6: u64, d7: Seq<u8>, p7: u64, d8: Seq<u8>, p8: u64, d9: Seq<u8>, p9: u64, d10: Seq<u8>, p10: u64|
                    #![trigger w0.writes(data, pos, endian, args, Ok((d1, p1))), w1.writes(d1, p1, endian, args, Ok((d2, p2))), w2.writes(d2, p2, endian, args, Ok((d3, p3))), w3.writes(d3, p3, endian, args, Ok((d4, p4))), w4.writes(d4, p4, endian, args, Ok((d5, p5))), w5.writes(d5, p5, endian, args, Ok((d6, p6))), w6.writes(d6, p6, endian, args, Ok((d7, p7))), w7.writes(d7, p7, endian, args, Ok((d8, p8))), w8.writes(d8, p8, endian, args, Ok((d9, p9))), w9.writes(d9, p9, endian, args, Ok((d10, p10)))]
                    w0.writes(data, pos, endian, args, Ok((d1, p1)))
                        && w1.writes(d1, p1, endian, args, Ok((d2, p2)))
                        && w2.writes(d2, p2, endian, args, Ok((d3, p3)))
                        && w3.writes(d3, p3, endian, args, Ok((d4, p4)))
                        && w4.writes(d4, p4, endian, args, Ok((d5, p5)))
                        && w5.writes(d5, p5, endian, args, Ok((d6, p6)))
                        && w6.writes(d6, p6, endian, args, Ok((d7, p7)))
                        && w7.writes(d7, p7, endian, args, Ok((d8, p8)))
                        && w8.writes(d8, p8, endian, args, Ok((d9, p9)))
                        && w9.writes(d9, p9, endian, args, Ok((d10, p10)))
                        && w10.writes(d10, p10, endian, args, Err((e, dk)))
            },
        }
    }

    fn write_non_backtracking(
        &self,
        writer: &mut Cursor,
        endian: Endian,
        args: T0::Args,
        token: BinWriteToken,
    ) -> (r: BinResult<()>) {
        let ghost gd0 = writer@.data;
        let ghost gp0 = writer@.pos;
        let w0 = T0::writer_mapped(&self.value.0);
        match w0.write(writer, endian, args) {
            Ok(()) => {},
            Err(e) => {
                let ghost o: Result<(Seq<u8>, u64), (BinError, Seq<u8>)> = Err((e, writer@.data));
                assert(o matches Err((x, y)) && x == e && y == writer@.data);
                return Err(e);
            },
        }
        let ghost gd1 = writer@.data;
        let ghost gp1 = writer@.pos;
        assert(w0.writes(gd0, gp0, endian, args, Ok((gd1, gp1))));
        let w1 = T1::writer_mapped(&self.value.1);
        match w1.write(writer, endian, args) {
            Ok(()) => {},
            Err(e) => {
                let ghost o: Result<(Seq<u8>, u64), (BinError, Seq<u8>)> = Err((e, writer@.data));
                assert(o matches Err((x, y)) && x == e && y == writer@.data);
                return Err(e);
            },
        }
        let ghost gd2 = writer@.data;
        let ghost gp2 = writer@.pos;
        assert(w1.writes(gd1, gp1, endian, args, Ok((gd2, gp2))));
        let w2 = T2::writer_mapped(&self.value.2);
        match w2.write(writer, endian, args) {
            Ok(()) => {},
            Err(e) => {
                let ghost o: Result<(Seq<u8>, u64), (BinError, Seq<u8>)> = Err((e, writer@.data));
                assert(o matches Err((x, y)) && x == e && y == writer@.data);
                return Err(e);
            },
        }
        let ghost gd3 = writer@.data;
        let ghost gp3 = writer@.pos;
        assert(w2.writes(gd2, gp2, endian, args, Ok((gd3, gp3))));
        let w3 = T3::writer_mapped(&self.value.3);
        match w3.write(writer, endian, args) {
            Ok(()) => {},
            Err(e) => {
                let ghost o: Result<(Seq<u8>, u64), (BinError, Seq<u8>)> = Err((e, writer@.data));
                assert(o matches Err((x, y)) && x == e && y == writer@.data);
                return Err(e);
            },
        }
        let ghost gd4 = writer@.data;
        let ghost gp4 = writer@.pos;
        assert(w3.writes(gd3, gp3, endian, args, Ok((gd4, gp4))));
        let w4 = T4::writer_mapped(&self.value.4);
        match w4.write(writer, endian, args) {
            Ok(()) => {},
            Err(e) => {
                let ghost o: Result<(Seq<u8>, u64), (BinError, Seq<u8>)> = Err((e, writer@.data));
                assert(o matches Err((x, y)) && x == e && y == writer@.data);
                return Err(e);
            },
        }
        let ghost gd5 = writer@.data;
        let ghost gp5 = writer@.pos;
        assert(w4.writes(gd4, gp4, endian, args, Ok((gd5, gp5))));
        let w5 = T5::writer_mapped(&self.value.5);
        match w5.write(writer, endian, args) {
            Ok(()) => {},
            Err(e) => {
                let ghost o: Result<(Seq<u8>, u64), (BinError, Seq<u8>)> = Err((e, writer@.data));
                assert(o matches Err((x, y)) && x == e && y == writer@.data);
                return Err(e);
            },
        }
        let ghost gd6 = writer@.data;
        let ghost gp6 = writer@.pos;
        assert(w5.writes(gd5, gp5, endian, args, Ok((gd6, gp6))));
        let w6 = T6::writer_mapped(&self.value.6);
        match w6.write(writer, endian, args) {
            Ok(()) => {},
            Err(e) => {
                let ghost o: Result<(Seq<u8>, u64), (BinError, Seq<u8>)> = Err((e, writer@.data));
                assert(o matches Err((x, y)) && x == e && y == writer@.data);
                return Err(e);
            },
        }
        let ghost gd7 = writer@.data;
        let ghost gp7 = writer@.pos;
        assert(w6.writes(gd6, gp6, endian, args, Ok((gd7, gp7))));
        let w7 = T7::writer_mapped(&self.value.7);
        match w7.write(writer, endian, args) {
            Ok(()) => {},
            Err(e) => {
                let ghost o: Result<(Seq<u8>, u64), (BinError, Seq<u8>)> = Err((e, writer@.data));
                assert(o matches Err((x, y)) && x == e && y == writer@.data);
                return Err(e);
            },
        }
        let ghost gd8 = writer@.data;
        let ghost gp8 = writer@.pos;
        assert(w7.writes(gd7, gp7, endian, args, Ok((gd8, gp8))));
        let w8 = T8::writer_mapped(&self.value.8);
        match w8.write(writer, endian, args) {
            Ok(()) => {},
            Err(e) => {
                let ghost o: Result<(Seq<u8>, u64), (BinError, Seq<u8>)> = Err((e, writer@.data));
                assert(o matches Err((x, y)) && x == e && y == writer@.data);
                return Err(e);
            },
        }
        let ghost gd9 = writer@.data;
        let ghost gp9 = writer@.pos;
        assert(w8.writes(gd8, gp8, endian, args, Ok((gd9, gp9))));
        let w9 = T9::writer_mapped(&self.value.9);
        match w9.write(writer, endian, args) {
            Ok(()) => {},
            Err(e) => {
                let ghost o: Result<(Seq<u8>, u64), (BinError, Seq<u8>)> = Err((e, writer@.data));
                assert(o matches Err((x, y)) && x == e && y == writer@.data);
                return Err(e);
            },
        }
        let ghost gd10 = writer@.data;
        let ghost gp10 = writer@.pos;
        assert(w9.writes(gd9, gp9, endian, args, Ok((gd10, gp10))));
        let w10 = T10::writer_mapped(&self.value.10);
        match w10.write(writer, endian, args) {
            Ok(()) => {},
            Err(e) => {
                let ghost o: Result<(Seq<u8>, u64), (BinError, Seq<u8>)> = Err((e, writer@.data));
                assert(o matches Err((x, y)) && x == e && y == writer@.data);
                return Err(e);
            },
        }
        let ghost gd11 = writer@.data;
        let ghost gp11 = writer@.pos;
        assert(w10.writes(gd10, gp10, endian, args, Ok((gd11, gp11))));
        let ghost o: Result<(Seq<u8>, u64), (BinError, Seq<u8>)> = Ok((gd11, gp11));
        assert(o matches Ok((x, y)) && x == gd11 && y == gp11);
        Ok(())
    }

    fn inner(&self) -> (v: &(T0, T1, T2, T3, T4, T5, T6, T7, T8, T9, T10)) {
        self.value
    }
}

impl<'a, T0, T1, T2, T3, T4, T5, T6, T7, T8, T9, T10> BinWriter<'a> for (T0, T1, T2, T3, T4, T5, T6, T7, T8, T9, T10) where
    T0: BinWriter<'a, In = T0> + 'a,
    T1: BinWriter<'a, Args = T0::Args, In = T1> + 'a,
    T2: BinWriter<'a, Args = T0::Args, In = T2> + 'a,
    T3: BinWriter<'a, Args = T0::Args, In = T3> + 'a,
    T4: BinWriter<'a, Args = T0::Args, In = T4> + 'a,
    T5: BinWriter<'a, Args = T0::Args, In = T5> + 'a,
    T6: BinWriter<'a, Args = T0::Args, In = T6> + 'a,
    T7: BinWriter<'a, Args = T0::Args, In = T7> + 'a,
    T8: BinWriter<'a, Args = T0::Args, In = T8> + 'a,
    T9: BinWriter<'a, Args = T0::Args, In = T9> + 'a,
    T10: BinWriter<'a, Args = T0::Args, In = T10> + 'a,
    T0::Args: Copy,
 {
    type Args = T0::Args;
    type In = (T0, T1, T2, T3, T4, T5, T6, T7, T8, T9, T10);
    type Writer = Tuple11Writer<'a, T0, T1, T2, T3, T4, T5, T6, T7, T8, T9, T10>;

    open spec fn spec_writer_mapped(this: &'a (T0, T1, T2, T3, T4, T5, T6, T7, T8, T9, T10)) -> Tuple11Writer<'a, T0, T1, T2, T3, T4, T5, T6, T7, T8, T9, T10> {
        Tuple11Writer { value: this }
    }

    fn writer_mapped(this: &'a (T0, T1, T2, T3, T4, T5, T6, T7, T8, T9, T10)) -> (w: Tuple11Writer<'a, T0, T1, T2, T3, T4, T5, T6, T7, T8, T9, T10>) {
        Tuple11Writer { value: this }
    }
}

/// Writes the 12 values of a tuple one after another, with the same arguments.
pub struct Tuple12Writer<'a, T0, T1, T2, T3, T4, T5, T6, T7, T8, T9, T10, T11> {
    pub value: &'a (T0, T1, T2, T3, T4, T5, T6, T7, T8, T9, T10, T11),
}

impl<'a, T0, T1, T2, T3, T4, T5, T6, T7, T8, T9, T10, T11> BinWrite<T0::Args, (T0, T1, T2, T3, T4, T5, T6, T7, T8, T9, T10, T11)> for Tuple12Writer<'a, T0, T1, T2, T3, T4, T5, T6, T7, T8, T9, T10, T11> where
    T0: BinWriter<'a, In = T0>,
    T1: BinWriter<'a, Args = T0::Args, In = T1>,
    T2: BinWriter<'a, Args = T0::Args, In = T2>,
    T3: BinWriter<'a, Args = T0::Args, In = T3>,
    T4: BinWriter<'a, Args = T0::Args, In = T4>,
    T5: BinWriter<'a, Args = T0::Args, In = T5>,
    T6: BinWriter<'a, Args = T0::Args, In = T6>,
    T7: BinWriter<'a, Args = T0::Args, In = T7>,
    T8: BinWriter<'a, Args = T0::Args, In = T8>,
    T9: BinWriter<'a, Args = T0::Args, In = T9>,
    T10: BinWriter<'a, Args = T0::Args, In = T10>,
    T11: BinWriter<'a, Args = T0::Args, In = T11>,
    T0::Args: Copy,
 {
    open spec fn write_wf(&self) -> bool {
        true
    }

    open spec fn spec_inner(&self) -> (T0, T1, T2, T3, T4, T5, T6, T7, T8, T9, T10, T11) {
        *self.value
    }

    /// The values are written in order, each right after the one before.
    open spec fn writes(
        &self,
        data: Seq<u8>,
        pos: u64,
        endian: Endian,
        args: T0::Args,
        outcome: Result<(Seq<u8>, u64), (BinError, Seq<u8>)>,
    ) -> bool {
        let w0 = T0::spec_writer_mapped(&self.value.0);
        let w1 = T1::spec_writer_mapped(&self.value.1);
        let w2 = T2::spec_writer_mapped(&self.value.2);
        let w3 = T3::spec_writer_mapped(&self.value.3);
        let w4 = T4::spec_writer_mapped(&self.value.4);
        let w5 = T5::spec_writer_mapped(&self.value.5);
        let w6 = T6::spec_writer_mapped(&self.value.6);
        let w7 = T7::spec_writer_mapped(&self.value.7);
        let w8 = T8::spec_writer_mapped(&self.value.8);
        let w9 = T9::spec_writer_mapped(&self.value.9);
        let w10 = T10::spec_writer_mapped(&self.value.10);
        let w11 = T11::spec_writer_mapped(&self.value.11);
        match outcome {
            Ok((dk, end)) => exists|d1: Seq<u8>, p1: u64, d2: Seq<u8>, p2: u64, d3: Seq<u8>, p3: u64, d4: Seq<u8>, p4: u64, d5: Seq<u8>, p5: u64, d6: Seq<u8>, p6: u64, d7: Seq<u8>, p7: u64, d8: Seq<u8>, p8: u64, d9: Seq<u8>, p9: u64, d10: Seq<u8>, p10: u64, d11: Seq<u8>, p11: u64|
                #![trigger w0.writes(data, pos, endian, args, Ok((d1, p1))), w1.writes(d1, p1, endian, args, Ok((d2, p2))), w2.writes(d2, p2, endian, args, Ok((d3, p3))), w3.writes(d3, p3, endian, args, Ok((d4, p4))), w4.writes(d4, p4, endian, args, Ok((d5, p5))), w5.writes(d5, p5, endian, args, Ok((d6, p6))), w6.writes(d6, p6, endian, args, Ok((d7, p7))), w7.writes(d7, p7, endian, args, Ok((d8, p8))), w8.writes(d8, p8, endian, args, Ok((d9, p9))), w9.writes(d9, p9, endian, args, Ok((d10, p10))), w10.writes(d10, p10, endian, args, Ok((d11, p11)))]
                w0.writes(data, pos, endian, args, Ok((d1, p1)))
                    && w1.writes(d1, p1, endian, args, Ok((d2, p2)))
                    && w2.writes(d2, p2, endian, args, Ok((d3, p3)))
                    && w3.writes(d3, p3, endian, args, Ok((d4, p4)))
                    && w4.writes(d4, p4, endian, args, Ok((d5, p5)))
                    && w5.writes(d5, p5, endian, args, Ok((d6, p6)))
                    && w6.writes(d6, p6, endian, args, Ok((d7, p7)))
                    && w7.writes(d7, p7, endian, args, Ok((d8, p8)))
                    && w8.writes(d8, p8, endian, args, Ok((d9, p9)))
                    && w9.writes(d9, p9, endian, args, Ok((d10, p10)))
                    && w10.writes(d10, p10, endian, args, Ok((d11, p11)))
                    && w11.writes(d11, p11, endian, args, Ok((dk, end))),
            Err((e, dk)) => {
                ||| w0.writes(data, pos, endian, args, Err((e, dk)))
                ||| exists|d1: Seq<u8>, p1: u64|
                    #![trigger w0.writes(data, pos, endian, args, Ok((d1, p1)))]
                    w0.writes(data, pos, endian, args, Ok((d1, p1)))
                        && w1.writes(d1, p1, endian, args, Err((e, dk)))
                ||| exists|d1: Seq<u8>, p1: u64, d2: Seq<u8>, p2: u64|
                    #![trigger w0.writes(data, pos, endian, args, Ok((d1, p1))), w1.writes(d1, p1, endian, args, Ok((d2, p2)))]
                    w0.writes(data, pos, endian, args, Ok((d1, p1)))
                        && w1.writes(d1, p1, endian, args, Ok((d2, p2)))
                        && w2.writes(d2, p2, endian, args, Err((e, dk)))
                ||| exists|d1: Seq<u8>, p1: u64, d2: Seq<u8>, p2: u64, d3: Seq<u8>, p3: u64|
                    #![trigger w0.writes(data, pos, endian, args, Ok((d1, p1))), w1.writes(d1, p1, endian, args, Ok((d2, p2))), w2.writes(d2, p2, endian, args, Ok((d3, p3)))]
                    w0.writes(data, pos, endian, args, Ok((d1, p1)))
                        && w1.writes(d1, p1, endian, args, Ok((d2, p2)))
                        && w2.writes(d2, p2, endian, args, Ok((d3, p3)))
                        && w3.writes(d3, p3, endian, args, Err((e, dk)))
                ||| exists|d1: Seq<u8>, p1: u64, d2: Seq<u8>, p2: u64, d3: Seq<u8>, p3: u64, d4: Seq<u8>, p4: u64|
                    #![trigger w0.writes(data, pos, endian, args, Ok((d1, p1))), w1.writes(d1, p1, endian, args, Ok((d2, p2))), w2.writes(d2, p2, endian, args, Ok((d3, p3))), w3.writes(d3, p3, endian, args, Ok((d4, p4)))]
                    w0.writes(data, pos, endian, args, Ok((d1, p1)))
                        && w1.writes(d1, p1, endian, args, Ok((d2, p2)))
                        && w2.writes(d2, p2, endian, args, Ok((d3, p3)))
                        && w3.writes(d3, p3, endian, args, Ok((d4, p4)))
                        && w4.writes(d4, p4, endian, args, Err((e, dk)))
                ||| exists|d1: Seq<u8>, p1: u64, d2: Seq<u8>, p2: u64, d3: Seq<u8>, p3: u64, d4: Seq<u8>, p4: u64, d5: Seq<u8>, p5: u64|
                    #![trigger w0.writes(data, pos, endian, args, Ok((d1, p1))), w1.writes(d1, p1, endian, args, Ok((d2, p2))), w2.writes(d2, p2, endian, args, Ok((d3, p3))), w3.writes(d3, p3, endian, args, Ok((d4, p4))), w4.writes(d4, p4, endian, args, Ok((d5, p5)))]
                    w0.writes(data, pos, endian, args, Ok((d1, p1)))
                        && w1.writes(d1, p1, endian, args, Ok((d2, p2)))
                        && w2.writes(d2, p2, endian, args, Ok((d3, p3)))
                        && w3.writes(d3, p3, endian, args, Ok((d4, p4)))
                        && w4.writes(d4, p4, endian, args, Ok((d5, p5)))
                        && w5.writes(d5, p5, endian, args, Err((e, dk)))
                ||| exists|d1: Seq<u8>, p1: u64, d2: Seq<u8>, p2: u64, d3: Seq<u8>, p3: u64, d4: Seq<u8>, p4: u64, d5: Seq<u8>, p5: u64, d6: Seq<u8>, p6: u64|
                    #![trigger w0.writes(data, pos, endian, args, Ok((d1, p1))), w1.writes(d1, p1, endian, args, Ok((d2, p2))), w2.writes(d2, p2, endian, args, Ok((d3, p3))), w3.writes(d3, p3, endian, args, Ok((d4, p4))), w4.writes(d4, p4, endian, args, Ok((d5, p5))), w5.writes(d5, p5, endian, args, Ok((d6, p6)))]
                    w0.writes(data, pos, endian, args, Ok((d1, p1)))
                        && w1.writes(d1, p1, endian, args, Ok((d2, p2)))
                        && w2.writes(d2, p2, endian, args, Ok((d3, p3)))
                        && w3.writes(d3, p3, endian, args, Ok((d4, p4)))
                        && w4.writes(d4, p4, endian, args, Ok((d5, p5)))
                        && w5.writes(d5, p5, endian, args, Ok((d6, p6)))
                        && w6.writes(d6, p6, endian, args, Err((e, dk)))
                ||| exists|d1: Seq<u8>, p1: u64, d2: Seq<u8>, p2: u64, d3: Seq<u8>, p3: u64, d4: Seq<u8>, p4: u64, d5: Seq<u8>, p5: u64, d6: Seq<u8>, p6: u64, d7: Seq<u8>, p7: u64|
                    #![trigger w0.writes(data, pos, endian, args, Ok((d1, p1))), w1.writes(d1, p1, endian, args, Ok((d2, p2))), w2.writes(d2, p2, endian, args, Ok((d3, p3))), w3.writes(d3, p3, endian, args, Ok((d4, p4))), w4.writes(d4, p4, endian, args, Ok((d5, p5))), w5.writes(d5, p5, endian, args, Ok((d6, p6))), w6.writes(d6, p6, endian, args, Ok((d7, p7)))]
                    w0.writes(data, pos, endian, args, Ok((d1, p1)))
                        && w1.writes(d1, p1, endian, args, Ok((d2, p2)))
                        && w2.writes(d2, p2, endian, args, Ok((d3, p3)))
                        && w3.writes(d3, p3, endian, args, Ok((d4, p4)))
                        && w4.writes(d4, p4, endian, args, Ok((d5, p5)))
                        && w5.writes(d5, p5, endian, args, Ok((d6, p6)))
                        && w6.writes(d6, p6, endian, args, Ok((d7, p7)))
                        && w7.writes(d7, p7, endian, args, Err((e, dk)))
                ||| exists|d1: Seq<u8>, p1: u64, d2: Seq<u8>, p2: u64, d3: Seq<u8>, p3: u64, d4: Seq<u8>, p4: u64, d5: Seq<u8>, p5: u64, d6: Seq<u8>, p6: u64, d7: Seq<u8>, p7: u64, d8: Seq<u8>, p8: u64|
                    #![trigger w0.writes(data, pos, endian, args, Ok((d1, p1))), w1.writes(d1, p1, endian, args, Ok((d2, p2))), w2.writes(d2, p2, endian, args, Ok((d3, p3))), w3.writes(d3, p3, endian, args, Ok((d4, p4))), w4.writes(d4, p4, endian, args, Ok((d5, p5))), w5.writes(d5, p5, endian, args, Ok((d6, p6))), w6.writes(d6, p6, endian, args, Ok((d7, p7))), w7.writes(d7, p7, endian, args, Ok((d8, p8)))]
                    w0.writes(data, pos, endian, args, Ok((d1, p1)))
                        && w1.writes(d1, p1, endian, args, Ok((d2, p2)))
                        && w2.writes(d2, p2, endian, args, Ok((d3, p3)))
                        && w3.writes(d3, p3, endian, args, Ok((d4, p4)))
                        && w4.writes(d4, p4, endian, args, Ok((d5, p5)))
                        && w5.writes(d5, p5, endian, args, Ok((d6, p6)))
                        && w6.writes(d6, p6, endian, args, Ok((d7, p7)))
                        && w7.writes(d7, p7, endian, args, Ok((d8, p8)))
                        && w8.writes(d8, p8, endian, args, Err((e, dk)))
                ||| exists|d1: Seq<u8>, p1: u64, d2: Seq<u8>, p2: u64, d3: Seq<u8>, p3: u64, d4: Seq<u8>, p4: u64, d5: Seq<u8>, p5: u64, d6: Seq<u8>, p6: u64, d7: Seq<u8>, p7: u64, d8: Seq<u8>, p8: u64, d9: Seq<u8>, p9: u64|
                    #![trigger w0.writes(data, pos, endian, args, Ok((d1, p1))), w1.writes(d1, p1, endian, args, Ok((d2, p2))), w2.writes(d2, p2, endian, args, Ok((d3, p3))), w3.writes(d3, p3, endian, args, Ok((d4, p4))), w4.writes(d4, p4, endian, args, Ok((d5, p5))), w5.writes(d5, p5, endian, args, Ok((d6, p6))), w6.writes(d6, p6, endian, args, Ok((d7, p7))), w7.writes(d7, p7, endian, args, Ok((d8, p8))), w8.writes(d8, p8, endian, args, Ok((d9, p9)))]
                    w0.writes(data, pos, endian, args, Ok((d1, p1)))
                        && w1.writes(d1, p1, endian, args, Ok((d2, p2)))
                        && w2.writes(d2, p2, endian, args, Ok((d3, p3)))
                        && w3.writes(d3, p3, endian, args, Ok((d4, p4)))
                        && w4.writes(d4, p4, endian, args, Ok((d5, p5)))
                        && w5.writes(d5, p5, endian, args, Ok((d6, p6)))
                        && w6.writes(d6, p6, endian, args, Ok((d7, p7)))
                        && w7.writes(d7, p7, endian, args, Ok((d8, p8)))
                        && w8.writes(d8, p8, endian, args, Ok((d9, p9)))
                        && w9.writes(d9, p9, endian, args, Err((e, dk)))
                ||| exists|d1: Seq<u8>, p1: u64, d2: Seq<u8>, p2: u64, d3: Seq<u8>, p3: u64, d4: Seq<u8>, p4: u64, d5: Seq<u8>, p5: u64, d6: Seq<u8>, p6: u64, d7: Seq<u8>, p7: u64, d8: Seq<u8>, p8: u64, d9: Seq<u8>, p9: u64, d10: Seq<u8>, p10: u64|
                    #![trigger w0.writes(data, pos, endian, args, Ok((d1, p1))), w1.writes(d1, p1, endian, args, Ok((d2, p2))), w2.writes(d2, p2, endian, args, Ok((d3, p3))), w3.writes(d3, p3, endian, args, Ok((d4, p4))), w4.writes(d4, p4, endian, args, Ok((d5, p5))), w5.writes(d5, p5, endian, args, Ok((d6, p6))), w6.writes(d6, p6, endian, args, Ok((d7, p7))), w7.writes(d7, p7, endian, args, Ok((d8, p8))), w8.writes(d8, p8, endian, args, Ok((d9, p9))), w9.writes(d9, p9, endian, args, Ok((d10, p10)))]
                    w0.writes(data, pos, endian, args, Ok((d1, p1)))
                        && w1.writes(d1, p1, endian, args, Ok((d2, p2)))
                        && w2.writes(d2, p2, endian, args, Ok((d3, p3)))
                        && w3.writes(d3, p3, endian, args, Ok((d4, p4)))
                        && w4.writes(d4, p4, endian, args, Ok((d5, p5)))
                        && w5.writes(d5, p5, endian, args, Ok((d6, p6)))
                        && w6.writes(d6, p6, endian, args, Ok((d7, p7)))
                        && w7.writes(d7, p7, endian, args, Ok((d8, p8)))
                        && w8.writes(d8, p8, endian, args, Ok((d9, p9)))
                        && w9.writes(d9, p9, endian, args, Ok((d10, p10)))
                        && w10.writes(d10, p10, endian, args, Err((e, dk)))
                ||| exists|d1: Seq<u8>, p1: u64, d2: Seq<u8>, p2: u64, d3: Seq<u8>, p3: u64, d4: Seq<u8>, p4: u64, d5: Seq<u8>, p5: u64, d6: Seq<u8>, p6: u64, d7: Seq<u8>, p7: u64, d8: Seq<u8>, p8: u64, d9: Seq<u8>, p9: u64, d10: Seq<u8>, p10: u64, d11: Seq<u8>, p11: u64|
                    #![trigger w0.writes(data, pos, endian, args, Ok((d1, p1))), w1.writes(d1, p1, endian, args, Ok((d2, p2))), w2.writes(d2, p2, endian, args, Ok((d3, p3))), w3.writes(d3, p3, endian, args, Ok((d4, p4))), w4.writes(d4, p4, endian, args, Ok((d5, p5))), w5.writes(d5, p5, endian, args, Ok((d6, p6))), w6.writes(d6, p6, endian, args, Ok((d7, p7))), w7.writes(d7, p7, endian, args, Ok((d8, p8))), w8.writes(d8, p8, endian, args, Ok((d9, p9))), w9.writes(d9, p9, endian, args, Ok((d10, p10))), w10.writes(d10, p10, endian, args, Ok((d11, p11)))]
                    w0.writes(data, pos, endian, args, Ok((d1, p1)))
                        && w1.writes(d1, p1, endian, args, Ok((d2, p2)))
                        && w2.writes(d2, p2, endian, args, Ok((d3, p3)))
                        && w3.writes(d3, p3, endian, args, Ok((d4, p4)))
                        && w4.writes(d4, p4, endian, args, Ok((d5, p5)))
                        && w5.writes(d5, p5, endian, args, Ok((d6, p6)))
                        && w6.writes(d6, p6, endian, args, Ok((d7, p7)))
                        && w7.writes(d7, p7, endian, args, Ok((d8, p8)))
                        && w8.writes(d8, p8, endian, args, Ok((d9, p9)))
                        && w9.writes(d9, p9, endian, args, Ok((d10, p10)))
                        && w10.writes(d10, p10, endian, args, Ok((d11, p11)))
                        && w11.writes(d11, p11, endian, args, Err((e, dk)))
            },
        }
    }

    fn write_non_backtracking(
        &self,
        writer: &mut Cursor,
        endian: Endian,
        args: T0::Args,
        token: BinWriteToken,
    ) -> (r: BinResult<()>) {
        let ghost gd0 = writer@.data;
        let ghost gp0 = writer@.pos;
        let w0 = T0::writer_mapped(&self.value.0);
        match w0.write(writer, endian, args) {
            Ok(()) => {},
            Err(e) => {
                let ghost o: Result<(Seq<u8>, u64), (BinError, Seq<u8>)> = Err((e, writer@.data));
                assert(o matches Err((x, y)) && x == e && y == writer@.data);
                return Err(e);
            },
        }
        let ghost gd1 = writer@.data;
        let ghost gp1 = writer@.pos;
        assert(w0.writes(gd0, gp0, endian, args, Ok((gd1, gp1))));
        let w1 = T1::writer_mapped(&self.value.1);
        match w1.write(writer, endian, args) {
            Ok(()) => {},
            Err(e) => {
                let ghost o: Result<(Seq<u8>, u64), (BinError, Seq<u8>)> = Err((e, writer@.data));
                assert(o matches Err((x, y)) && x == e && y == writer@.data);
                return Err(e);
            },
        }
        let ghost gd2 = writer@.data;
        let ghost gp2 = writer@.pos;
        assert(w1.writes(gd1, gp1, endian, args, Ok((gd2, gp2))));
        let w2 = T2::writer_mapped(&self.value.2);
        match w2.write(writer, endian, args) {
            Ok(()) => {},
            Err(e) => {
                let ghost o: Result<(Seq<u8>, u64), (BinError, Seq<u8>)> = Err((e, writer@.data));
                assert(o matches Err((x, y)) && x == e && y == writer@.data);
                return Err(e);
            },
        }
        let ghost gd3 = writer@.data;
        let ghost gp3 = writer@.pos;
        assert(w2.writes(gd2, gp2, endian, args, Ok((gd3, gp3))));
        let w3 = T3::writer_mapped(&self.value.3);
        match w3.write(writer, endian, args) {
            Ok(()) => {},
            Err(e) => {
                let ghost o: Result<(Seq<u8>, u64), (BinError, Seq<u8>)> = Err((e, writer@.data));
                assert(o matches Err((x, y)) && x == e && y == writer@.data);
                return Err(e);
            },
        }
        let ghost gd4 = writer@.data;
        let ghost gp4 = writer@.pos;
        assert(w3.writes(gd3, gp3, endian, args, Ok((gd4, gp4))));
        let w4 = T4::writer_mapped(&self.value.4);
        match w4.write(writer, endian, args) {
            Ok(()) => {},
            Err(e) => {
                let ghost o: Result<(Seq<u8>, u64), (BinError, Seq<u8>)> = Err((e, writer@.data));
                assert(o matches Err((x, y)) && x == e && y == writer@.data);
                return Err(e);
            },
        }
        let ghost gd5 = writer@.data;
        let ghost gp5 = writer@.pos;
        assert(w4.writes(gd4, gp4, endian, args, Ok((gd5, gp5))));
        let w5 = T5::writer_mapped(&self.value.5);
        match w5.write(writer, endian, args) {
            Ok(()) => {},
            Err(e) => {
                let ghost o: Result<(Seq<u8>, u64), (BinError, Seq<u8>)> = Err((e, writer@.data));
                assert(o matches Err((x, y)) && x == e && y == writer@.data);
                return Err(e);
            },
        }
        let ghost gd6 = writer@.data;
        let ghost gp6 = writer@.pos;
        assert(w5.writes(gd5, gp5, endian, args, Ok((gd6, gp6))));
        let w6 = T6::writer_mapped(&self.value.6);
        match w6.write(writer, endian, args) {
            Ok(()) => {},
            Err(e) => {
                let ghost o: Result<(Seq<u8>, u64), (BinError, Seq<u8>)> = Err((e, writer@.data));
                assert(o matches Err((x, y)) && x == e && y == writer@.data);
                return Err(e);
            },
        }
        let ghost gd7 = writer@.data;
        let ghost gp7 = writer@.pos;
        assert(w6.writes(gd6, gp6, endian, args, Ok((gd7, gp7))));
        let w7 = T7::writer_mapped(&self.value.7);
        match w7.write(writer, endian, args) {
            Ok(()) => {},
            Err(e) => {
                let ghost o: Result<(Seq<u8>, u64), (BinError, Seq<u8>)> = Err((e, writer@.data));
                assert(o matches Err((x, y)) && x == e && y == writer@.data);
                return Err(e);
            },
        }
        let ghost gd8 = writer@.data;
        let ghost gp8 = writer@.pos;
        assert(w7.writes(gd7, gp7, endian, args, Ok((gd8, gp8))));
        let w8 = T8::writer_mapped(&self.value.8);
        match w8.write(writer, endian, args) {
            Ok(()) => {},
            Err(e) => {
                let ghost o: Result<(Seq<u8>, u64), (BinError, Seq<u8>)> = Err((e, writer@.data));
                assert(o matches Err((x, y)) && x == e && y == writer@.data);
                return Err(e);
            },
        }
        let ghost gd9 = writer@.data;
        let ghost gp9 = writer@.pos;
        assert(w8.writes(gd8, gp8, endian, args, Ok((gd9, gp9))));
        let w9 = T9::writer_mapped(&self.value.9);
        match w9.write(writer, endian, args) {
            Ok(()) => {},
            Err(e) => {
                let ghost o: Result<(Seq<u8>, u64), (BinError, Seq<u8>)> = Err((e, writer@.data));
                assert(o matches Err((x, y)) && x == e && y == writer@.data);
                return Err(e);
            },
        }
        let ghost gd10 = writer@.data;
        let ghost gp10 = writer@.pos;
        assert(w9.writes(gd9, gp9, endian, args, Ok((gd10, gp10))));
        let w10 = T10::writer_mapped(&self.value.10);
        match w10.write(writer, endian, args) {
            Ok(()) => {},
            Err(e) => {
                let ghost o: Result<(Seq<u8>, u64), (BinError, Seq<u8>)> = Err((e, writer@.data));
                assert(o matches Err((x, y)) && x == e && y == writer@.data);
                return Err(e);
            },
        }
        let ghost gd11 = writer@.data;
        let ghost gp11 = writer@.pos;
        assert(w10.writes(gd10, gp10, endian, args, Ok((gd11, gp11))));
        let w11 = T11::writer_mapped(&self.value.11);
        match w11.write(writer, endian, args) {
            Ok(()) => {},
            Err(e) => {
                let ghost o: Result<(Seq<u8>, u64), (BinError, Seq<u8>)> = Err((e, writer@.data));
                assert(o matches Err((x, y)) && x == e && y == writer@.data);
                return Err(e);
            },
        }
        let ghost gd12 = writer@.data;
        let ghost gp12 = writer@.pos;
        assert(w11.writes(gd11, gp11, endian, args, Ok((gd12, gp12))));
        let ghost o: Result<(Seq<u8>, u64), (BinError, Seq<u8>)> = Ok((gd12, gp12));
        assert(o matches Ok((x, y)) && x == gd12 && y == gp12);
        Ok(())
    }

    fn inner(&self) -> (v: &(T0, T1, T2, T3, T4, T5, T6, T7, T8, T9, T10, T11)) {
        self.value
    }
}

impl<'a, T0, T1, T2, T3, T4, T5, T6, T7, T8, T9, T10, T11> BinWriter<'a> for (T0, T1, T2, T3, T4, T5, T6, T7, T8, T9, T10, T11) where
    T0: BinWriter<'a, In = T0> + 'a,
    T1: BinWriter<'a, Args = T0::Args, In = T1> + 'a,
    T2: BinWriter<'a, Args = T0::Args, In = T2> + 'a,
    T3: BinWriter<'a, Args = T0::Args, In = T3> + 'a,
    T4: BinWriter<'a, Args = T0::Args, In = T4> + 'a,
    T5: BinWriter<'a, Args = T0::Args, In = T5> + 'a,
    T6: BinWriter<'a, Args = T0::Args, In = T6> + 'a,
    T7: BinWriter<'a, Args = T0::Args, In = T7> + 'a,
    T8: BinWriter<'a, Args = T0::Args, In = T8> + 'a,
    T9: BinWriter<'a, Args = T0::Args, In = T9> + 'a,
    T10: BinWriter<'a, Args = T0::Args, In = T10> + 'a,
    T11: BinWriter<'a, Args = T0::Args, In = T11> + 'a,
    T0::Args: Copy,
 {
    type Args = T0::Args;
    type In = (T0, T1, T2, T3, T4, T5, T6, T7, T8, T9, T10, T11);
    type Writer = Tuple12Writer<'a, T0, T1, T2, T3, T4, T5, T6, T7, T8, T9, T10, T11>;

    open spec fn spec_writer_mapped(this: &'a (T0, T1, T2, T3, T4, T5, T6, T7, T8, T9, T10, T11)) -> Tuple12Writer<'a, T0, T1, T2, T3, T4, T5, T6, T7, T8, T9, T10, T11> {
        Tuple12Writer { value: this }
    }

    fn writer_mapped(this: &'a (T0, T1, T2, T3, T4, T5, T6, T7, T8, T9, T10, T11)) -> (w: Tuple12Writer<'a, T0, T1, T2, T3, T4, T5, T6, T7, T8, T9, T10, T11>) {
        Tuple12Writer { value: this }
    }
}

} // verus!
