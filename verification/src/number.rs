//! The fixed-width integers that can be read and written, as raw unsigned
//! values of their bytes.

use vstd::prelude::*;

use crate::bytes::{pow256, lemma_pow256_values};

verus! {

/// An integer of a fixed number of bytes, which the bytes hold as an
/// unsigned raw value (two's complement for the signed ones).
pub trait BinNumber: Copy + Sized {
    /// Number of bytes.
    spec fn spec_width() -> nat;

    /// The value whose bytes hold `raw`.
    spec fn spec_from_raw(raw: nat) -> Self;

    /// The raw unsigned value of the bytes of `v`.
    spec fn spec_to_raw(v: Self) -> nat;

    fn width() -> (w: usize)
        ensures
            w == Self::spec_width(),
            1 <= w <= 16,
    ;

    fn from_raw(raw: u128) -> (v: Self)
        requires
            raw < pow256(Self::spec_width()),
        ensures
            v == Self::spec_from_raw(raw as nat),
    ;

    fn to_raw(self) -> (raw: u128)
        ensures
            raw == Self::spec_to_raw(self),
    ;

    /// The raw value of a number fits in its bytes, and gives the number back.
    proof fn lemma_raw_roundtrip(v: Self)
        ensures
            1 <= Self::spec_width() <= 16,
            Self::spec_to_raw(v) < pow256(Self::spec_width()),
            Self::spec_from_raw(Self::spec_to_raw(v)) == v,
    ;
}

impl BinNumber for u8 {
    open spec fn spec_width() -> nat {
        1
    }

    open spec fn spec_from_raw(raw: nat) -> u8 {
        raw as u8
    }

    open spec fn spec_to_raw(v: u8) -> nat {
        v as nat
    }

    fn width() -> (w: usize) {
        1
    }

    fn from_raw(raw: u128) -> (v: u8) {
        raw as u8
    }

    fn to_raw(self) -> (raw: u128) {
        self as u128
    }

    proof fn lemma_raw_roundtrip(v: u8) {
        lemma_pow256_values();
    }
}

impl BinNumber for u16 {
    open spec fn spec_width() -> nat {
        2
    }

    open spec fn spec_from_raw(raw: nat) -> u16 {
        raw as u16
    }

    open spec fn spec_to_raw(v: u16) -> nat {
        v as nat
    }

    fn width() -> (w: usize) {
        2
    }

    fn from_raw(raw: u128) -> (v: u16) {
        raw as u16
    }

    fn to_raw(self) -> (raw: u128) {
        self as u128
    }

    proof fn lemma_raw_roundtrip(v: u16) {
        lemma_pow256_values();
    }
}

impl BinNumber for u32 {
    open spec fn spec_width() -> nat {
        4
    }

    open spec fn spec_from_raw(raw: nat) -> u32 {
        raw as u32
    }

    open spec fn spec_to_raw(v: u32) -> nat {
        v as nat
    }

    fn width() -> (w: usize) {
        4
    }

    fn from_raw(raw: u128) -> (v: u32) {
        raw as u32
    }

    fn to_raw(self) -> (raw: u128) {
        self as u128
    }

    proof fn lemma_raw_roundtrip(v: u32) {
        lemma_pow256_values();
    }
}

impl BinNumber for u64 {
    open spec fn spec_width() -> nat {
        8
    }

    open spec fn spec_from_raw(raw: nat) -> u64 {
        raw as u64
    }

    open spec fn spec_to_raw(v: u64) -> nat {
        v as nat
    }

    fn width() -> (w: usize) {
        8
    }

    fn from_raw(raw: u128) -> (v: u64) {
        raw as u64
    }

    fn to_raw(self) -> (raw: u128) {
        self as u128
    }

    proof fn lemma_raw_roundtrip(v: u64) {
        lemma_pow256_values();
    }
}

impl BinNumber for u128 {
    open spec fn spec_width() -> nat {
        16
    }

    open spec fn spec_from_raw(raw: nat) -> u128 {
        raw as u128
    }

    open spec fn spec_to_raw(v: u128) -> nat {
        v as nat
    }

    fn width() -> (w: usize) {
        16
    }

    fn from_raw(raw: u128) -> (v: u128) {
        raw as u128
    }

    fn to_raw(self) -> (raw: u128) {
        self as u128
    }

    proof fn lemma_raw_roundtrip(v: u128) {
        lemma_pow256_values();
    }
}

impl BinNumber for i8 {
    open spec fn spec_width() -> nat {
        1
    }

    open spec fn spec_from_raw(raw: nat) -> i8 {
        (raw as u8) as i8
    }

    open spec fn spec_to_raw(v: i8) -> nat {
        (v as u8) as nat
    }

    fn width() -> (w: usize) {
        1
    }

    fn from_raw(raw: u128) -> (v: i8) {
        (raw as u8) as i8
    }

    fn to_raw(self) -> (raw: u128) {
        (self as u8) as u128
    }

    proof fn lemma_raw_roundtrip(v: i8) {
        lemma_pow256_values();
        assert(((v as u8) as i8) == v) by (bit_vector);
    }
}

impl BinNumber for i16 {
    open spec fn spec_width() -> nat {
        2
    }

    open spec fn spec_from_raw(raw: nat) -> i16 {
        (raw as u16) as i16
    }

    open spec fn spec_to_raw(v: i16) -> nat {
        (v as u16) as nat
    }

    fn width() -> (w: usize) {
        2
    }

    fn from_raw(raw: u128) -> (v: i16) {
        (raw as u16) as i16
    }

    fn to_raw(self) -> (raw: u128) {
        (self as u16) as u128
    }

    proof fn lemma_raw_roundtrip(v: i16) {
        lemma_pow256_values();
        assert(((v as u16) as i16) == v) by (bit_vector);
    }
}

impl BinNumber for i32 {
    open spec fn spec_width() -> nat {
        4
    }

    open spec fn spec_from_raw(raw: nat) -> i32 {
        (raw as u32) as i32
    }

    open spec fn spec_to_raw(v: i32) -> nat {
        (v as u32) as nat
    }

    fn width() -> (w: usize) {
        4
    }

    fn from_raw(raw: u128) -> (v: i32) {
        (raw as u32) as i32
    }

    fn to_raw(self) -> (raw: u128) {
        (self as u32) as u128
    }

    proof fn lemma_raw_roundtrip(v: i32) {
        lemma_pow256_values();
        assert(((v as u32) as i32) == v) by (bit_vector);
    }
}

impl BinNumber for i64 {
    open spec fn spec_width() -> nat {
        8
    }

    open spec fn spec_from_raw(raw: nat) -> i64 {
        (raw as u64) as i64
    }

    open spec fn spec_to_raw(v: i64) -> nat {
        (v as u64) as nat
    }

    fn width() -> (w: usize) {
        8
    }

    fn from_raw(raw: u128) -> (v: i64) {
        (raw as u64) as i64
    }

    fn to_raw(self) -> (raw: u128) {
        (self as u64) as u128
    }

    proof fn lemma_raw_roundtrip(v: i64) {
        lemma_pow256_values();
        assert(((v as u64) as i64) == v) by (bit_vector);
    }
}

impl BinNumber for i128 {
    open spec fn spec_width() -> nat {
        16
    }

    open spec fn spec_from_raw(raw: nat) -> i128 {
        (raw as u128) as i128
    }

    open spec fn spec_to_raw(v: i128) -> nat {
        (v as u128) as nat
    }

    fn width() -> (w: usize) {
        16
    }

    fn from_raw(raw: u128) -> (v: i128) {
        (raw as u128) as i128
    }

    fn to_raw(self) -> (raw: u128) {
        (self as u128) as u128
    }

    proof fn lemma_raw_roundtrip(v: i128) {
        lemma_pow256_values();
        assert(((v as u128) as i128) == v) by (bit_vector);
    }
}

} // verus!
