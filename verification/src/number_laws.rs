//! What reading and writing each fixed-width integer does with its bytes,
//! stated over the unsigned and two's complement values of those bytes.

use vstd::prelude::*;

use crate::bytes::{int_bytes, int_value, lemma_pow256_values, lemma_uint_bytes_roundtrip, uint_bytes, uint_value};
use crate::cursor::splice_bytes;
use crate::endian::Endian;
use crate::error::{eof_at, invalid_at, BinError};
use crate::read::impls::NumberReader;
use crate::read::BinReadCollect;
use crate::write::impls::NumberWriter;
use crate::write::BinWrite;

verus! {

/// Reading a `u8` takes the next byte and gives the unsigned value that it holds
/// in the requested byte order, ending one byte further on; with no byte left
/// it fails with an end-of-data error at the start position.
pub proof fn law_u8_read(reader: NumberReader<u8>, data: Seq<u8>, pos: u64, endian: Endian, outcome: Result<(u8, u64), BinError>)
    requires
        data.len() <= usize::MAX,
        reader.collects(data, pos, endian, (), outcome),
    ensures
        match outcome {
            Ok((v, end)) => pos + 1 <= data.len() && end == pos + 1 && v as int == uint_value(
                data.subrange(pos as int, pos + 1),
                endian,
            ),
            Err(e) => pos + 1 > data.len() && e == eof_at(pos),
        },
{
    lemma_pow256_values();
    if pos + 1 <= data.len() {
        let bytes = data.subrange(pos as int, pos + 1);
        lemma_uint_bytes_roundtrip(bytes, endian);
    }
}

/// Writing a `u8` puts the byte of its value at the position, in the requested
/// byte order, and ends one byte further on; where that end would pass the
/// largest position it fails with an invalid-data error and leaves the data as it was.
pub proof fn law_u8_write(
    writer: NumberWriter<'_, u8>,
    data: Seq<u8>,
    pos: u64,
    endian: Endian,
    outcome: Result<(Seq<u8>, u64), (BinError, Seq<u8>)>,
)
    requires
        writer.writes(data, pos, endian, (), outcome),
    ensures
        outcome == if pos + 1 <= usize::MAX {
            Ok::<(Seq<u8>, u64), (BinError, Seq<u8>)>((
                splice_bytes(data, pos as int, uint_bytes(*writer.value as nat, 1, endian)),
                (pos + 1) as u64,
            ))
        } else {
            Err::<(Seq<u8>, u64), (BinError, Seq<u8>)>((invalid_at(pos), data))
        },
{
}

/// Reading a `u16` takes the next 2 bytes and gives the unsigned value that they hold
/// in the requested byte order, ending 2 bytes further on; with fewer than 2 bytes left
/// it fails with an end-of-data error at the start position.
pub proof fn law_u16_read(reader: NumberReader<u16>, data: Seq<u8>, pos: u64, endian: Endian, outcome: Result<(u16, u64), BinError>)
    requires
        data.len() <= usize::MAX,
        reader.collects(data, pos, endian, (), outcome),
    ensures
        match outcome {
            Ok((v, end)) => pos + 2 <= data.len() && end == pos + 2 && v as int == uint_value(
                data.subrange(pos as int, pos + 2),
                endian,
            ),
            Err(e) => pos + 2 > data.len() && e == eof_at(pos),
        },
{
    lemma_pow256_values();
    if pos + 2 <= data.len() {
        let bytes = data.subrange(pos as int, pos + 2);
        lemma_uint_bytes_roundtrip(bytes, endian);
    }
}

/// Writing a `u16` puts the 2 bytes of its value at the position, in the requested
/// byte order, and ends 2 bytes further on; where that end would pass the
/// largest position it fails with an invalid-data error and leaves the data as it was.
pub proof fn law_u16_write(
    writer: NumberWriter<'_, u16>,
    data: Seq<u8>,
    pos: u64,
    endian: Endian,
    outcome: Result<(Seq<u8>, u64), (BinError, Seq<u8>)>,
)
    requires
        writer.writes(data, pos, endian, (), outcome),
    ensures
        outcome == if pos + 2 <= usize::MAX {
            Ok::<(Seq<u8>, u64), (BinError, Seq<u8>)>((
                splice_bytes(data, pos as int, uint_bytes(*writer.value as nat, 2, endian)),
                (pos + 2) as u64,
            ))
        } else {
            Err::<(Seq<u8>, u64), (BinError, Seq<u8>)>((invalid_at(pos), data))
        },
{
}

/// Reading a `u32` takes the next 4 bytes and gives the unsigned value that they hold
/// in the requested byte order, ending 4 bytes further on; with fewer than 4 bytes left
/// it fails with an end-of-data error at the start position.
pub proof fn law_u32_read(reader: NumberReader<u32>, data: Seq<u8>, pos: u64, endian: Endian, outcome: Result<(u32, u64), BinError>)
    requires
        data.len() <= usize::MAX,
        reader.collects(data, pos, endian, (), outcome),
    ensures
        match outcome {
            Ok((v, end)) => pos + 4 <= data.len() && end == pos + 4 && v as int == uint_value(
                data.subrange(pos as int, pos + 4),
                endian,
            ),
            Err(e) => pos + 4 > data.len() && e == eof_at(pos),
        },
{
    lemma_pow256_values();
    if pos + 4 <= data.len() {
        let bytes = data.subrange(pos as int, pos + 4);
        lemma_uint_bytes_roundtrip(bytes, endian);
    }
}

/// Writing a `u32` puts the 4 bytes of its value at the position, in the requested
/// byte order, and ends 4 bytes further on; where that end would pass the
/// largest position it fails with an invalid-data error and leaves the data as it was.
pub proof fn law_u32_write(
    writer: NumberWriter<'_, u32>,
    data: Seq<u8>,
    pos: u64,
    endian: Endian,
    outcome: Result<(Seq<u8>, u64), (BinError, Seq<u8>)>,
)
    requires
        writer.writes(data, pos, endian, (), outcome),
    ensures
        outcome == if pos + 4 <= usize::MAX {
            Ok::<(Seq<u8>, u64), (BinError, Seq<u8>)>((
                splice_bytes(data, pos as int, uint_bytes(*writer.value as nat, 4, endian)),
                (pos + 4) as u64,
            ))
        } else {
            Err::<(Seq<u8>, u64), (BinError, Seq<u8>)>((invalid_at(pos), data))
        },
{
}

/// Reading a `u64` takes the next 8 bytes and gives the unsigned value that they hold
/// in the requested byte order, ending 8 bytes further on; with fewer than 8 bytes left
/// it fails with an end-of-data error at the start position.
pub proof fn law_u64_read(reader: NumberReader<u64>, data: Seq<u8>, pos: u64, endian: Endian, outcome: Result<(u64, u64), BinError>)
    requires
        data.len() <= usize::MAX,
        reader.collects(data, pos, endian, (), outcome),
    ensures
        match outcome {
            Ok((v, end)) => pos + 8 <= data.len() && end == pos + 8 && v as int == uint_value(
                data.subrange(pos as int, pos + 8),
                endian,
            ),
            Err(e) => pos + 8 > data.len() && e == eof_at(pos),
        },
{
    lemma_pow256_values();
    if pos + 8 <= data.len() {
        let bytes = data.subrange(pos as int, pos + 8);
        lemma_uint_bytes_roundtrip(bytes, endian);
    }
}

/// Writing a `u64` puts the 8 bytes of its value at the position, in the requested
/// byte order, and ends 8 bytes further on; where that end would pass the
/// largest position it fails with an invalid-data error and leaves the data as it was.
pub proof fn law_u64_write(
    writer: NumberWriter<'_, u64>,
    data: Seq<u8>,
    pos: u64,
    endian: Endian,
    outcome: Result<(Seq<u8>, u64), (BinError, Seq<u8>)>,
)
    requires
        writer.writes(data, pos, endian, (), outcome),
    ensures
        outcome == if pos + 8 <= usize::MAX {
            Ok::<(Seq<u8>, u64), (BinError, Seq<u8>)>((
                splice_bytes(data, pos as int, uint_bytes(*writer.value as nat, 8, endian)),
                (pos + 8) as u64,
            ))
        } else {
            Err::<(Seq<u8>, u64), (BinError, Seq<u8>)>((invalid_at(pos), data))
        },
{
}

/// Reading a `u128` takes the next 16 bytes and gives the unsigned value that they hold
/// in the requested byte order, ending 16 bytes further on; with fewer than 16 bytes left
/// it fails with an end-of-data error at the start position.
pub proof fn law_u128_read(reader: NumberReader<u128>, data: Seq<u8>, pos: u64, endian: Endian, outcome: Result<(u128, u64), BinError>)
    requires
        data.len() <= usize::MAX,
        reader.collects(data, pos, endian, (), outcome),
    ensures
        match outcome {
            Ok((v, end)) => pos + 16 <= data.len() && end == pos + 16 && v as int == uint_value(
                data.subrange(pos as int, pos + 16),
                endian,
            ),
            Err(e) => pos + 16 > data.len() && e == eof_at(pos),
        },
{
    lemma_pow256_values();
    if pos + 16 <= data.len() {
        let bytes = data.subrange(pos as int, pos + 16);
        lemma_uint_bytes_roundtrip(bytes, endian);
    }
}

/// Writing a `u128` puts the 16 bytes of its value at the position, in the requested
/// byte order, and ends 16 bytes further on; where that end would pass the
/// largest position it fails with an invalid-data error and leaves the data as it was.
pub proof fn law_u128_write(
    writer: NumberWriter<'_, u128>,
    data: Seq<u8>,
    pos: u64,
    endian: Endian,
    outcome: Result<(Seq<u8>, u64), (BinError, Seq<u8>)>,
)
    requires
        writer.writes(data, pos, endian, (), outcome),
    ensures
        outcome == if pos + 16 <= usize::MAX {
            Ok::<(Seq<u8>, u64), (BinError, Seq<u8>)>((
                splice_bytes(data, pos as int, uint_bytes(*writer.value as nat, 16, endian)),
                (pos + 16) as u64,
            ))
        } else {
            Err::<(Seq<u8>, u64), (BinError, Seq<u8>)>((invalid_at(pos), data))
        },
{
}

/// A `u8` taken as `i8` is its two's complement value, and an `i8` taken as
/// `u8` is the unsigned number with the same 8 bits.
proof fn lemma_i8_twos_complement(r: u8, v: i8)
    ensures
        (r as i8) as int == if r < 0x80u8 { r as int } else { r - 0x100int },
        (v as u8) as int == if v >= 0 { v as int } else { v + 0x100int },
{
    assert((r as i8) as int == if r < 0x80u8 { r as int } else { r - 0x100int }) by (bit_vector);
    assert((v as u8) as int == if v >= 0 { v as int } else { v + 0x100int }) by (bit_vector);
}

/// Reading an `i8` takes the next byte and gives the two's complement value that it holds
/// in the requested byte order, ending one byte further on; with no byte left
/// it fails with an end-of-data error at the start position.
pub proof fn law_i8_read(reader: NumberReader<i8>, data: Seq<u8>, pos: u64, endian: Endian, outcome: Result<(i8, u64), BinError>)
    requires
        data.len() <= usize::MAX,
        reader.collects(data, pos, endian, (), outcome),
    ensures
        match outcome {
            Ok((v, end)) => pos + 1 <= data.len() && end == pos + 1 && v as int == int_value(
                data.subrange(pos as int, pos + 1),
                endian,
            ),
            Err(e) => pos + 1 > data.len() && e == eof_at(pos),
        },
{
    lemma_pow256_values();
    if pos + 1 <= data.len() {
        let bytes = data.subrange(pos as int, pos + 1);
        lemma_uint_bytes_roundtrip(bytes, endian);
        let r: u8 = uint_value(bytes, endian) as u8;
        lemma_i8_twos_complement(r, 0i8);
    }
}

/// Writing an `i8` puts the byte of its 8-bit two's complement at the position, in the requested
/// byte order, and ends one byte further on; where that end would pass the
/// largest position it fails with an invalid-data error and leaves the data as it was.
pub proof fn law_i8_write(
    writer: NumberWriter<'_, i8>,
    data: Seq<u8>,
    pos: u64,
    endian: Endian,
    outcome: Result<(Seq<u8>, u64), (BinError, Seq<u8>)>,
)
    requires
        writer.writes(data, pos, endian, (), outcome),
    ensures
        outcome == if pos + 1 <= usize::MAX {
            Ok::<(Seq<u8>, u64), (BinError, Seq<u8>)>((
                splice_bytes(data, pos as int, int_bytes(*writer.value as int, 1, endian)),
                (pos + 1) as u64,
            ))
        } else {
            Err::<(Seq<u8>, u64), (BinError, Seq<u8>)>((invalid_at(pos), data))
        },
{
    lemma_pow256_values();
    lemma_i8_twos_complement(0u8, *writer.value);
}

/// A `u16` taken as `i16` is its two's complement value, and an `i16` taken as
/// `u16` is the unsigned number with the same 16 bits.
proof fn lemma_i16_twos_complement(r: u16, v: i16)
    ensures
        (r as i16) as int == if r < 0x8000u16 { r as int } else { r - 0x1_0000int },
        (v as u16) as int == if v >= 0 { v as int } else { v + 0x1_0000int },
{
    assert((r as i16) as int == if r < 0x8000u16 { r as int } else { r - 0x1_0000int }) by (bit_vector);
    assert((v as u16) as int == if v >= 0 { v as int } else { v + 0x1_0000int }) by (bit_vector);
}

/// Reading an `i16` takes the next 2 bytes and gives the two's complement value that they hold
/// in the requested byte order, ending 2 bytes further on; with fewer than 2 bytes left
/// it fails with an end-of-data error at the start position.
pub proof fn law_i16_read(reader: NumberReader<i16>, data: Seq<u8>, pos: u64, endian: Endian, outcome: Result<(i16, u64), BinError>)
    requires
        data.len() <= usize::MAX,
        reader.collects(data, pos, endian, (), outcome),
    ensures
        match outcome {
            Ok((v, end)) => pos + 2 <= data.len() && end == pos + 2 && v as int == int_value(
                data.subrange(pos as int, pos + 2),
                endian,
            ),
            Err(e) => pos + 2 > data.len() && e == eof_at(pos),
        },
{
    lemma_pow256_values();
    if pos + 2 <= data.len() {
        let bytes = data.subrange(pos as int, pos + 2);
        lemma_uint_bytes_roundtrip(bytes, endian);
        let r: u16 = uint_value(bytes, endian) as u16;
        lemma_i16_twos_complement(r, 0i16);
    }
}

/// Writing an `i16` puts the 2 bytes of its 16-bit two's complement at the position, in the requested
/// byte order, and ends 2 bytes further on; where that end would pass the
/// largest position it fails with an invalid-data error and leaves the data as it was.
pub proof fn law_i16_write(
    writer: NumberWriter<'_, i16>,
    data: Seq<u8>,
    pos: u64,
    endian: Endian,
    outcome: Result<(Seq<u8>, u64), (BinError, Seq<u8>)>,
)
    requires
        writer.writes(data, pos, endian, (), outcome),
    ensures
        outcome == if pos + 2 <= usize::MAX {
            Ok::<(Seq<u8>, u64), (BinError, Seq<u8>)>((
                splice_bytes(data, pos as int, int_bytes(*writer.value as int, 2, endian)),
                (pos + 2) as u64,
            ))
        } else {
            Err::<(Seq<u8>, u64), (BinError, Seq<u8>)>((invalid_at(pos), data))
        },
{
    lemma_pow256_values();
    lemma_i16_twos_complement(0u16, *writer.value);
}

/// A `u32` taken as `i32` is its two's complement value, and an `i32` taken as
/// `u32` is the unsigned number with the same 32 bits.
proof fn lemma_i32_twos_complement(r: u32, v: i32)
    ensures
        (r as i32) as int == if r < 0x8000_0000u32 { r as int } else { r - 0x1_0000_0000int },
        (v as u32) as int == if v >= 0 { v as int } else { v + 0x1_0000_0000int },
{
    assert((r as i32) as int == if r < 0x8000_0000u32 { r as int } else { r - 0x1_0000_0000int }) by (bit_vector);
    assert((v as u32) as int == if v >= 0 { v as int } else { v + 0x1_0000_0000int }) by (bit_vector);
}

/// Reading an `i32` takes the next 4 bytes and gives the two's complement value that they hold
/// in the requested byte order, ending 4 bytes further on; with fewer than 4 bytes left
/// it fails with an end-of-data error at the start position.
pub proof fn law_i32_read(reader: NumberReader<i32>, data: Seq<u8>, pos: u64, endian: Endian, outcome: Result<(i32, u64), BinError>)
    requires
        data.len() <= usize::MAX,
        reader.collects(data, pos, endian, (), outcome),
    ensures
        match outcome {
            Ok((v, end)) => pos + 4 <= data.len() && end == pos + 4 && v as int == int_value(
                data.subrange(pos as int, pos + 4),
                endian,
            ),
            Err(e) => pos + 4 > data.len() && e == eof_at(pos),
        },
{
    lemma_pow256_values();
    if pos + 4 <= data.len() {
        let bytes = data.subrange(pos as int, pos + 4);
        lemma_uint_bytes_roundtrip(bytes, endian);
        let r: u32 = uint_value(bytes, endian) as u32;
        lemma_i32_twos_complement(r, 0i32);
    }
}

/// Writing an `i32` puts the 4 bytes of its 32-bit two's complement at the position, in the requested
/// byte order, and ends 4 bytes further on; where that end would pass the
/// largest position it fails with an invalid-data error and leaves the data as it was.
pub proof fn law_i32_write(
    writer: NumberWriter<'_, i32>,
    data: Seq<u8>,
    pos: u64,
    endian: Endian,
    outcome: Result<(Seq<u8>, u64), (BinError, Seq<u8>)>,
)
    requires
        writer.writes(data, pos, endian, (), outcome),
    ensures
        outcome == if pos + 4 <= usize::MAX {
            Ok::<(Seq<u8>, u64), (BinError, Seq<u8>)>((
                splice_bytes(data, pos as int, int_bytes(*writer.value as int, 4, endian)),
                (pos + 4) as u64,
            ))
        } else {
            Err::<(Seq<u8>, u64), (BinError, Seq<u8>)>((invalid_at(pos), data))
        },
{
    lemma_pow256_values();
    lemma_i32_twos_complement(0u32, *writer.value);
}

/// A `u64` taken as `i64` is its two's complement value, and an `i64` taken as
/// `u64` is the unsigned number with the same 64 bits.
proof fn lemma_i64_twos_complement(r: u64, v: i64)
    ensures
        (r as i64) as int == if r < 0x8000_0000_0000_0000u64 { r as int } else { r - 0x1_0000_0000_0000_0000int },
        (v as u64) as int == if v >= 0 { v as int } else { v + 0x1_0000_0000_0000_0000int },
{
    assert((r as i64) as int == if r < 0x8000_0000_0000_0000u64 { r as int } else { r - 0x1_0000_0000_0000_0000int }) by (bit_vector);
    assert((v as u64) as int == if v >= 0 { v as int } else { v + 0x1_0000_0000_0000_0000int }) by (bit_vector);
}

/// Reading an `i64` takes the next 8 bytes and gives the two's complement value that they hold
/// in the requested byte order, ending 8 bytes further on; with fewer than 8 bytes left
/// it fails with an end-of-data error at the start position.
pub proof fn law_i64_read(reader: NumberReader<i64>, data: Seq<u8>, pos: u64, endian: Endian, outcome: Result<(i64, u64), BinError>)
    requires
        data.len() <= usize::MAX,
        reader.collects(data, pos, endian, (), outcome),
    ensures
        match outcome {
            Ok((v, end)) => pos + 8 <= data.len() && end == pos + 8 && v as int == int_value(
                data.subrange(pos as int, pos + 8),
                endian,
            ),
            Err(e) => pos + 8 > data.len() && e == eof_at(pos),
        },
{
    lemma_pow256_values();
    if pos + 8 <= data.len() {
        let bytes = data.subrange(pos as int, pos + 8);
        lemma_uint_bytes_roundtrip(bytes, endian);
        let r: u64 = uint_value(bytes, endian) as u64;
        lemma_i64_twos_complement(r, 0i64);
    }
}

/// Writing an `i64` puts the 8 bytes of its 64-bit two's complement at the position, in the requested
/// byte order, and ends 8 bytes further on; where that end would pass the
/// largest position it fails with an invalid-data error and leaves the data as it was.
pub proof fn law_i64_write(
    writer: NumberWriter<'_, i64>,
    data: Seq<u8>,
    pos: u64,
    endian: Endian,
    outcome: Result<(Seq<u8>, u64), (BinError, Seq<u8>)>,
)
    requires
        writer.writes(data, pos, endian, (), outcome),
    ensures
        outcome == if pos + 8 <= usize::MAX {
            Ok::<(Seq<u8>, u64), (BinError, Seq<u8>)>((
                splice_bytes(data, pos as int, int_bytes(*writer.value as int, 8, endian)),
                (pos + 8) as u64,
            ))
        } else {
            Err::<(Seq<u8>, u64), (BinError, Seq<u8>)>((invalid_at(pos), data))
        },
{
    lemma_pow256_values();
    lemma_i64_twos_complement(0u64, *writer.value);
}

/// A `u128` taken as `i128` is its two's complement value, and an `i128` taken as
/// `u128` is the unsigned number with the same 128 bits.
proof fn lemma_i128_twos_complement(r: u128, v: i128)
    ensures
        (r as i128) as int == if r < 0x8000_0000_0000_0000_0000_0000_0000_0000u128 { r as int } else { r - 0x1_0000_0000_0000_0000_0000_0000_0000_0000int },
        (v as u128) as int == if v >= 0 { v as int } else { v + 0x1_0000_0000_0000_0000_0000_0000_0000_0000int },
{
    assert((r as i128) as int == if r < 0x8000_0000_0000_0000_0000_0000_0000_0000u128 { r as int } else { r - 0x1_0000_0000_0000_0000_0000_0000_0000_0000int }) by (bit_vector);
    assert((v as u128) as int == if v >= 0 { v as int } else { v + 0x1_0000_0000_0000_0000_0000_0000_0000_0000int }) by (bit_vector);
}

/// Reading an `i128` takes the next 16 bytes and gives the two's complement value that they hold
/// in the requested byte order, ending 16 bytes further on; with fewer than 16 bytes left
/// it fails with an end-of-data error at the start position.
pub proof fn law_i128_read(reader: NumberReader<i128>, data: Seq<u8>, pos: u64, endian: Endian, outcome: Result<(i128, u64), BinError>)
    requires
        data.len() <= usize::MAX,
        reader.collects(data, pos, endian, (), outcome),
    ensures
        match outcome {
            Ok((v, end)) => pos + 16 <= data.len() && end == pos + 16 && v as int == int_value(
                data.subrange(pos as int, pos + 16),
                endian,
            ),
            Err(e) => pos + 16 > data.len() && e == eof_at(pos),
        },
{
    lemma_pow256_values();
    if pos + 16 <= data.len() {
        let bytes = data.subrange(pos as int, pos + 16);
        lemma_uint_bytes_roundtrip(bytes, endian);
        let r: u128 = uint_value(bytes, endian) as u128;
        lemma_i128_twos_complement(r, 0i128);
    }
}

/// Writing an `i128` puts the 16 bytes of its 128-bit two's complement at the position, in the requested
/// byte order, and ends 16 bytes further on; where that end would pass the
/// largest position it fails with an invalid-data error and leaves the data as it was.
pub proof fn law_i128_write(
    writer: NumberWriter<'_, i128>,
    data: Seq<u8>,
    pos: u64,
    endian: Endian,
    outcome: Result<(Seq<u8>, u64), (BinError, Seq<u8>)>,
)
    requires
        writer.writes(data, pos, endian, (), outcome),
    ensures
        outcome == if pos + 16 <= usize::MAX {
            Ok::<(Seq<u8>, u64), (BinError, Seq<u8>)>((
                splice_bytes(data, pos as int, int_bytes(*writer.value as int, 16, endian)),
                (pos + 16) as u64,
            ))
        } else {
            Err::<(Seq<u8>, u64), (BinError, Seq<u8>)>((invalid_at(pos), data))
        },
{
    lemma_pow256_values();
    lemma_i128_twos_complement(0u128, *writer.value);
}

} // verus!
