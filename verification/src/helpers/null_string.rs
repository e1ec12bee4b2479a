use vstd::prelude::*;

use crate::bytes::{be_value, ordered, uint_value};
use crate::cursor::Cursor;
use crate::endian::Endian;
use crate::error::{eof_at, BinError, BinErrorKind, BinResult};
use crate::number::BinNumber;
use crate::read::impls::number_outcome;
use crate::read::{BinReadCollect, BinReadCollectToken, BinReadExt, BinReader};
use crate::text::{decode_utf16, latin1, string_from_chars, string_from_utf16, string_from_utf8};

verus! {

/// Whether the first zero byte at or after `pos` stands at `z`.
pub open spec fn null_terminated_at(data: Seq<u8>, pos: u64, z: int) -> bool {
    &&& pos <= z < data.len()
    &&& data[z] == 0
    &&& forall|i: int| pos <= i < z ==> data[i] != 0
}

/// Whether no zero byte stands at or after `pos`.
pub open spec fn no_null_from(data: Seq<u8>, pos: u64) -> bool {
    forall|i: int| pos <= i < data.len() ==> data[i] != 0
}

/// Where reading bytes one by one from `pos` fails when no zero comes: the
/// end of the data, or `pos` itself if it is already past the end.
pub open spec fn end_of_data(data: Seq<u8>, pos: u64) -> u64 {
    if pos <= data.len() {
        data.len() as u64
    } else {
        pos
    }
}

/// The code unit that a `u16` read at `pos` gives.
pub open spec fn unit_at(data: Seq<u8>, pos: int, endian: Endian) -> u16 {
    u16::spec_from_raw(uint_value(data.subrange(pos, pos + 2), endian))
}

/// The `i`-th code unit from `pos`.
pub open spec fn nth_unit(data: Seq<u8>, pos: u64, endian: Endian, i: int) -> u16 {
    unit_at(data, pos + 2 * i, endian)
}

/// The first `k` code units from `pos`.
pub open spec fn units_from(data: Seq<u8>, pos: u64, endian: Endian, k: nat) -> Seq<u16> {
    Seq::new(k, |i: int| nth_unit(data, pos, endian, i))
}

/// Whether the first zero code unit from `pos` is the `k`-th one.
pub open spec fn null_unit_at(data: Seq<u8>, pos: u64, endian: Endian, k: nat) -> bool {
    &&& pos + 2 * k + 2 <= data.len()
    &&& nth_unit(data, pos, endian, k as int) == 0
    &&& forall|i: int| 0 <= i < k ==> #[trigger] nth_unit(data, pos, endian, i) != 0
}

/// Whether `k` non-zero code units are read from `pos` and then the data
/// ends before the next one.
pub open spec fn units_run_out_at(data: Seq<u8>, pos: u64, endian: Endian, k: nat) -> bool {
    &&& pos + 2 * k + 2 > data.len()
    &&& forall|i: int|
        0 <= i < k ==> pos + 2 * i + 2 <= data.len() && #[trigger] nth_unit(data, pos, endian, i) != 0
}

/// Whether `e` reports, at `pos`, the bytes of a string that is not valid UTF-8.
pub open spec fn is_utf8_error(e: BinError, pos: u64, bytes: Seq<u8>) -> bool {
    &&& e.pos == Some(pos)
    &&& e.kind matches BinErrorKind::FromUtf8(b) && b@ == bytes
}

/// Whether `e` reports, at `pos`, the code units of a string that is not valid UTF-16.
pub open spec fn is_utf16_error(e: BinError, pos: u64, units: Seq<u16>) -> bool {
    &&& e.pos == Some(pos)
    &&& e.kind matches BinErrorKind::FromUtf16(u) && u@ == units
}

/// A `u8` read gives the byte at the position.
pub proof fn lemma_byte_outcome(data: Seq<u8>, pos: u64, endian: Endian)
    ensures
        number_outcome::<u8>(data, pos, endian) == if pos + 1 <= data.len() {
            Ok::<(u8, u64), BinError>((data[pos as int], (pos + 1) as u64))
        } else {
            Err(eof_at(pos))
        },
{
    if pos + 1 <= data.len() {
        let s = data.subrange(pos as int, pos + 1);
        assert(ordered(s, endian) =~= s);
        assert(s.drop_last() =~= Seq::<u8>::empty());
        reveal_with_fuel(be_value, 2);
        assert(be_value(s) == s[0]);
    }
}

/// A dummy struct that parses null-terminated ASCII strings and converts them to [`String`].
///
/// Each byte is taken as the character of that code point (Latin-1).
pub struct NullStringAscii;

/// A dummy struct that parses null-terminated UTF-8 strings and converts them to [`String`].
pub struct NullStringUtf8;

/// A dummy struct that parses null-terminated UTF-16 strings and converts them to [`String`].
pub struct NullStringUtf16;

/// Reads bytes up to the first zero byte, and gives them with the position
/// after the zero; or the end-of-data error if no zero byte comes.
fn read_until_null(reader: &mut Cursor, endian: Endian) -> (r: BinResult<Vec<u8>>)
    ensures
        final(reader)@.data == old(reader)@.data,
        match r {
            Ok(bytes) => null_terminated_at(
                old(reader)@.data,
                old(reader)@.pos,
                old(reader)@.pos + bytes@.len(),
            ) && bytes@ == old(reader)@.data.subrange(
                old(reader)@.pos as int,
                old(reader)@.pos + bytes@.len(),
            ) && final(reader)@.pos == old(reader)@.pos + bytes@.len() + 1,
            Err(e) => no_null_from(old(reader)@.data, old(reader)@.pos) && e == eof_at(
                end_of_data(old(reader)@.data, old(reader)@.pos),
            ),
        },
{
    let ghost data = reader@.data;
    let pos: u64 = reader.position();
    proof {
        reader.lemma_data_len();
    }
    let byte_reader = u8::reader();
    let mut bytes: Vec<u8> = Vec::new();
    loop
        invariant
            reader@.data == data,
            data.len() <= usize::MAX,
            data == old(reader)@.data,
            pos == old(reader)@.pos,
            reader@.pos == pos + bytes@.len(),
            bytes@.len() == 0 || pos + bytes@.len() <= data.len(),
            forall|i: int|
                0 <= i < bytes@.len() ==> #[trigger] bytes@[i] == data[pos + i] && data[pos + i] != 0,
        decreases data.len() - reader@.pos,
    {
        let ghost q = reader@.pos;
        proof {
            lemma_byte_outcome(data, q, endian);
        }
        match byte_reader.read(reader, endian, ()) {
            Ok(b) => {
                assert(byte_reader.collects(data, q, endian, (), Ok((b, reader@.pos))));
                assert(number_outcome::<u8>(data, q, endian) == Ok::<(u8, u64), BinError>((b, reader@.pos)));
                if b == 0 {
                    assert(bytes@ =~= data.subrange(pos as int, pos + bytes@.len()));
                    assert forall|i: int| pos <= i < pos + bytes@.len() implies data[i] != 0 by {
                        assert(bytes@[i - pos] == data[i]);
                    }
                    return Ok(bytes);
                }
                let ghost before = bytes@;
                bytes.push(b);
                assert forall|i: int| 0 <= i < bytes@.len() implies #[trigger] bytes@[i] == data[pos + i]
                    && data[pos + i] != 0 by {
                    if i < before.len() {
                        assert(before[i] == bytes@[i]);
                    }
                }
            },
            Err(e) => {
                assert forall|i: int| pos <= i < data.len() implies data[i] != 0 by {
                    assert(bytes@[i - pos] == data[i]);
                }
                return Err(e);
            },
        }
    }
}

/// Reads 16-bit code units up to the first zero unit, and gives them with
/// the position after the zero; or the error of the unit read that fails.
fn read_units_until_null(reader: &mut Cursor, endian: Endian) -> (r: BinResult<Vec<u16>>)
    ensures
        final(reader)@.data == old(reader)@.data,
        match r {
            Ok(units) => null_unit_at(
                old(reader)@.data,
                old(reader)@.pos,
                endian,
                units@.len(),
            ) && units@ == units_from(old(reader)@.data, old(reader)@.pos, endian, units@.len())
                && final(reader)@.pos == old(reader)@.pos + 2 * units@.len() + 2,
            Err(e) => exists|k: nat|
                units_run_out_at(old(reader)@.data, old(reader)@.pos, endian, k) && e == eof_at(
                    (old(reader)@.pos + 2 * k) as u64,
                ),
        },
{
    let ghost data = reader@.data;
    let pos: u64 = reader.position();
    proof {
        reader.lemma_data_len();
    }
    let unit_reader = u16::reader();
    let mut units: Vec<u16> = Vec::new();
    loop
        invariant
            reader@.data == data,
            data.len() <= usize::MAX,
            data == old(reader)@.data,
            pos == old(reader)@.pos,
            reader@.pos == pos + 2 * units@.len(),
            units@.len() == 0 || pos + 2 * units@.len() <= data.len(),
            units@ == units_from(data, pos, endian, units@.len()),
            forall|i: int|
                0 <= i < units@.len() ==> pos + 2 * i + 2 <= data.len() && #[trigger] nth_unit(
                    data,
                    pos,
                    endian,
                    i,
                ) != 0,
        decreases data.len() - reader@.pos,
    {
        let ghost q = reader@.pos;
        let ghost k = units@.len();
        match unit_reader.read(reader, endian, ()) {
            Ok(u) => {
                assert(u == nth_unit(data, pos, endian, k as int));
                if u == 0 {
                    return Ok(units);
                }
                units.push(u);
                assert(units@ =~= units_from(data, pos, endian, units@.len()));
            },
            Err(e) => {
                assert(units_run_out_at(data, pos, endian, k));
                return Err(e);
            },
        }
    }
}

/// Reads a null-terminated string of single-byte characters.
pub struct NullStringAsciiReader;

impl BinReadCollect<(), String> for NullStringAsciiReader {
    open spec fn collect_wf(&self) -> bool {
        true
    }

    /// The bytes up to the first zero byte, each taken as the character of
    /// that code point; the stream ends after the zero.
    open spec fn collects(
        &self,
        data: Seq<u8>,
        pos: u64,
        endian: Endian,
        args: (),
        outcome: Result<(String, u64), BinError>,
    ) -> bool {
        match outcome {
            Ok((s, end)) => exists|z: int|
                #[trigger] null_terminated_at(data, pos, z) && end == z + 1 && s@ == latin1(
                    data.subrange(pos as int, z),
                ),
            Err(e) => no_null_from(data, pos) && e == eof_at(end_of_data(data, pos)),
        }
    }

    fn collect_non_backtracking(
        &self,
        reader: &mut Cursor,
        endian: Endian,
        args: (),
        token: BinReadCollectToken,
    ) -> (r: BinResult<String>) {
        let ghost data = reader@.data;
        let ghost pos = reader@.pos;
        let bytes = match read_until_null(reader, endian) {
            Ok(b) => b,
            Err(e) => return Err(e),
        };
        let mut chars: Vec<char> = Vec::new();
        let mut i: usize = 0;
        while i < bytes.len()
            invariant
                i <= bytes@.len(),
                chars@ == latin1(bytes@.subrange(0, i as int)),
            decreases bytes@.len() - i,
        {
            chars.push(bytes[i] as char);
            i = i + 1;
            assert(chars@ =~= latin1(bytes@.subrange(0, i as int)));
        }
        assert(bytes@.subrange(0, bytes@.len() as int) =~= bytes@);
        let s = string_from_chars(chars);
        let ghost z = pos + bytes@.len();
        assert(null_terminated_at(data, pos, z));
        let ghost o: Result<(String, u64), BinError> = Ok((s, reader@.pos));
        assert(o matches Ok((x, y)) && x == s && y == reader@.pos);
        Ok(s)
    }
}

impl BinReader for NullStringAscii {
    type Args = ();
    type Out = String;
    type Reader = NullStringAsciiReader;

    open spec fn spec_reader() -> NullStringAsciiReader {
        NullStringAsciiReader
    }

    fn reader() -> (r: NullStringAsciiReader) {
        NullStringAsciiReader
    }
}

/// Reads a null-terminated UTF-8 string.
pub struct NullStringUtf8Reader;

impl BinReadCollect<(), String> for NullStringUtf8Reader {
    open spec fn collect_wf(&self) -> bool {
        true
    }

    /// The bytes up to the first zero byte, decoded as UTF-8; the stream ends
    /// after the zero. Bytes that are not valid UTF-8 give a `FromUtf8` error
    /// at the start of the string, holding those bytes.
    open spec fn collects(
        &self,
        data: Seq<u8>,
        pos: u64,
        endian: Endian,
        args: (),
        outcome: Result<(String, u64), BinError>,
    ) -> bool {
        match outcome {
            Ok((s, end)) => exists|z: int|
                #[trigger] null_terminated_at(data, pos, z) && end == z + 1
                    && vstd::utf8::valid_utf8(data.subrange(pos as int, z)) && s@
                    == vstd::utf8::decode_utf8(data.subrange(pos as int, z)),
            Err(e) => {
                ||| no_null_from(data, pos) && e == eof_at(end_of_data(data, pos))
                ||| exists|z: int|
                    #[trigger] null_terminated_at(data, pos, z) && !vstd::utf8::valid_utf8(
                        data.subrange(pos as int, z),
                    ) && is_utf8_error(e, pos, data.subrange(pos as int, z))
            },
        }
    }

    fn collect_non_backtracking(
        &self,
        reader: &mut Cursor,
        endian: Endian,
        args: (),
        token: BinReadCollectToken,
    ) -> (r: BinResult<String>) {
        let ghost data = reader@.data;
        let pos: u64 = reader.position();
        let bytes = match read_until_null(reader, endian) {
            Ok(b) => b,
            Err(e) => return Err(e),
        };
        let ghost z = pos + bytes@.len();
        let ghost raw = bytes@;
        assert(null_terminated_at(data, pos, z));
        match string_from_utf8(bytes) {
            Ok(s) => {
                let ghost o: Result<(String, u64), BinError> = Ok((s, reader@.pos));
                assert(o matches Ok((x, y)) && x == s && y == reader@.pos);
                Ok(s)
            },
            Err(b) => {
                let e = BinError::new(Some(pos), BinErrorKind::FromUtf8(b));
                assert(e.kind matches BinErrorKind::FromUtf8(c) && c@ == raw);
                Err(e)
            },
        }
    }
}

impl BinReader for NullStringUtf8 {
    type Args = ();
    type Out = String;
    type Reader = NullStringUtf8Reader;

    open spec fn spec_reader() -> NullStringUtf8Reader {
        NullStringUtf8Reader
    }

    fn reader() -> (r: NullStringUtf8Reader) {
        NullStringUtf8Reader
    }
}

/// Reads a null-terminated UTF-16 string.
pub struct NullStringUtf16Reader;

impl BinReadCollect<(), String> for NullStringUtf16Reader {
    open spec fn collect_wf(&self) -> bool {
        true
    }

    /// The 16-bit code units, in the requested byte order, up to the first
    /// zero unit, decoded as UTF-16; the stream ends after the zero. Units
    /// with an unpaired surrogate give a `FromUtf16` error at the start of the
    /// string, holding those units.
    open spec fn collects(
        &self,
        data: Seq<u8>,
        pos: u64,
        endian: Endian,
        args: (),
        outcome: Result<(String, u64), BinError>,
    ) -> bool {
        match outcome {
            Ok((s, end)) => exists|k: nat|
                #[trigger] null_unit_at(data, pos, endian, k) && end == pos + 2 * k + 2
                    && decode_utf16(units_from(data, pos, endian, k)) == Some(s@),
            Err(e) => {
                ||| exists|k: nat|
                    #[trigger] units_run_out_at(data, pos, endian, k) && e == eof_at(
                        (pos + 2 * k) as u64,
                    )
                ||| exists|k: nat|
                    #[trigger] null_unit_at(data, pos, endian, k) && decode_utf16(
                        units_from(data, pos, endian, k),
                    ) is None && is_utf16_error(e, pos, units_from(data, pos, endian, k))
            },
        }
    }

    fn collect_non_backtracking(
        &self,
        reader: &mut Cursor,
        endian: Endian,
        args: (),
        token: BinReadCollectToken,
    ) -> (r: BinResult<String>) {
        let ghost data = reader@.data;
        let pos: u64 = reader.position();
        let units = match read_units_until_null(reader, endian) {
            Ok(u) => u,
            Err(e) => return Err(e),
        };
        let ghost k = units@.len();
        assert(null_unit_at(data, pos, endian, k));
        match string_from_utf16(units.as_slice()) {
            Some(s) => {
                let ghost o: Result<(String, u64), BinError> = Ok((s, reader@.pos));
                assert(o matches Ok((x, y)) && x == s && y == reader@.pos);
                Ok(s)
            },
            None => {
                let ghost raw = units@;
                let e = BinError::new(Some(pos), BinErrorKind::FromUtf16(units));
                assert(e.kind matches BinErrorKind::FromUtf16(c) && c@ == raw);
                Err(e)
            },
        }
    }
}

impl BinReader for NullStringUtf16 {
    type Args = ();
    type Out = String;
    type Reader = NullStringUtf16Reader;

    open spec fn spec_reader() -> NullStringUtf16Reader {
        NullStringUtf16Reader
    }

    fn reader() -> (r: NullStringUtf16Reader) {
        NullStringUtf16Reader
    }
}

} // verus!
