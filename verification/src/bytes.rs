//! Unsigned integers as sequences of bytes, in either byte order.

use vstd::prelude::*;

use crate::endian::Endian;

verus! {

/// `256` to the power `n`.
pub open spec fn pow256(n: nat) -> nat
    decreases n,
{
    if n == 0 {
        1
    } else {
        256 * pow256((n - 1) as nat)
    }
}

/// The unsigned value of `bytes`, most significant byte first.
pub open spec fn be_value(bytes: Seq<u8>) -> nat
    decreases bytes.len(),
{
    if bytes.len() == 0 {
        0
    } else {
        be_value(bytes.drop_last()) * 256 + bytes.last() as nat
    }
}

/// The `n` low bytes of `value`, most significant byte first.
pub open spec fn be_bytes(value: nat, n: nat) -> Seq<u8>
    decreases n,
{
    if n == 0 {
        Seq::empty()
    } else {
        be_bytes(value / 256, (n - 1) as nat).push((value % 256) as u8)
    }
}

/// `bytes` put in most-significant-first order, given the order they are in.
pub open spec fn ordered(bytes: Seq<u8>, endian: Endian) -> Seq<u8> {
    match endian {
        Endian::Big => bytes,
        Endian::Little => Seq::new(bytes.len(), |i: int| bytes[bytes.len() - 1 - i]),
    }
}

/// The unsigned value that `bytes` hold in the byte order `endian`.
pub open spec fn uint_value(bytes: Seq<u8>, endian: Endian) -> nat {
    be_value(ordered(bytes, endian))
}

/// The `n` low bytes of `value` in the byte order `endian`.
pub open spec fn uint_bytes(value: nat, n: nat, endian: Endian) -> Seq<u8> {
    ordered(be_bytes(value, n), endian)
}

/// The two's complement value that `bytes` hold in the byte order `endian`:
/// the unsigned value where it is below half of `256^len`, else that value
/// less `256^len`.
pub open spec fn int_value(bytes: Seq<u8>, endian: Endian) -> int {
    let u = uint_value(bytes, endian);
    if 2 * u < pow256(bytes.len()) {
        u as int
    } else {
        u - pow256(bytes.len())
    }
}

/// The `n` bytes of the two's complement of `value` in the byte order
/// `endian`: a negative value is stored as `value + 256^n`.
pub open spec fn int_bytes(value: int, n: nat, endian: Endian) -> Seq<u8> {
    let raw: int = if value >= 0 {
        value
    } else {
        value + pow256(n)
    };
    uint_bytes(raw as nat, n, endian)
}

pub proof fn lemma_pow256_positive(n: nat)
    ensures
        pow256(n) >= 1,
    decreases n,
{
    if n > 0 {
        lemma_pow256_positive((n - 1) as nat);
    }
}

/// The powers of 256 up to the width of the widest integer.
pub proof fn lemma_pow256_values()
    ensures
        pow256(1) == 0x100,
        pow256(2) == 0x1_0000,
        pow256(4) == 0x1_0000_0000,
        pow256(8) == 0x1_0000_0000_0000_0000,
        pow256(16) == 0x1_0000_0000_0000_0000_0000_0000_0000_0000,
{
    reveal_with_fuel(pow256, 17);
}

/// A value read from `n` bytes is below `256^n`.
pub proof fn lemma_be_value_bound(bytes: Seq<u8>)
    ensures
        be_value(bytes) < pow256(bytes.len()),
    decreases bytes.len(),
{
    if bytes.len() > 0 {
        let rest = bytes.drop_last();
        lemma_be_value_bound(rest);
        let a = be_value(rest);
        let p = pow256(rest.len());
        let b = bytes.last() as int;
        assert(a * 256 + b < p * 256) by (nonlinear_arith)
            requires
                a < p,
                0 <= b < 256,
        ;
    }
}

pub proof fn lemma_be_bytes_len(value: nat, n: nat)
    ensures
        be_bytes(value, n).len() == n,
    decreases n,
{
    if n > 0 {
        lemma_be_bytes_len(value / 256, (n - 1) as nat);
    }
}

/// Reading back the bytes of a value that fits gives the value.
pub proof fn lemma_be_value_of_bytes(value: nat, n: nat)
    requires
        value < pow256(n),
    ensures
        be_value(be_bytes(value, n)) == value,
    decreases n,
{
    if n > 0 {
        let q = value / 256;
        let r = value % 256;
        let p = pow256((n - 1) as nat);
        assert(value == q * 256 + r && 0 <= r < 256) by (nonlinear_arith)
            requires
                q == value / 256,
                r == value % 256,
        ;
        assert(q < p) by (nonlinear_arith)
            requires
                value < 256 * p,
                value == q * 256 + r,
                0 <= r,
                q >= 0,
        ;
        lemma_be_value_of_bytes(q, (n - 1) as nat);
        let s = be_bytes(value, n);
        assert(s.drop_last() =~= be_bytes(q, (n - 1) as nat));
    }
}

/// Writing the value that bytes hold gives back those bytes.
pub proof fn lemma_be_bytes_of_value(bytes: Seq<u8>)
    ensures
        be_bytes(be_value(bytes), bytes.len()) == bytes,
    decreases bytes.len(),
{
    if bytes.len() > 0 {
        let rest = bytes.drop_last();
        let a = be_value(rest) as int;
        let b = bytes.last() as int;
        vstd::arithmetic::div_mod::lemma_fundamental_div_mod_converse(a * 256 + b, 256, a, b);
        lemma_be_bytes_of_value(rest);
        assert(be_bytes(be_value(bytes), bytes.len()) =~= rest.push(bytes.last()));
        assert(rest.push(bytes.last()) =~= bytes);
    }
}

/// Putting bytes in order twice gives them back.
pub proof fn lemma_ordered_involutive(bytes: Seq<u8>, endian: Endian)
    ensures
        ordered(ordered(bytes, endian), endian) == bytes,
{
    assert(ordered(ordered(bytes, endian), endian) =~= bytes);
}

/// The value of the `n` bytes of a value that fits in them is that value, in
/// either byte order.
pub proof fn lemma_uint_roundtrip(value: nat, n: nat, endian: Endian)
    requires
        value < pow256(n),
    ensures
        uint_bytes(value, n, endian).len() == n,
        uint_value(uint_bytes(value, n, endian), endian) == value,
{
    lemma_be_bytes_len(value, n);
    lemma_ordered_involutive(be_bytes(value, n), endian);
    lemma_be_value_of_bytes(value, n);
}

/// The bytes of the value that `bytes` hold are those bytes, in either byte order.
pub proof fn lemma_uint_bytes_roundtrip(bytes: Seq<u8>, endian: Endian)
    ensures
        uint_bytes(uint_value(bytes, endian), bytes.len(), endian) == bytes,
        uint_value(bytes, endian) < pow256(bytes.len()),
{
    let o = ordered(bytes, endian);
    lemma_be_bytes_of_value(o);
    lemma_be_value_bound(o);
    lemma_ordered_involutive(bytes, endian);
}

/// The unsigned value of at most 16 bytes in the byte order `endian`.
pub fn decode_uint(bytes: &Vec<u8>, endian: Endian) -> (r: u128)
    requires
        bytes@.len() <= 16,
    ensures
        r == uint_value(bytes@, endian),
{
    let n: usize = bytes.len();
    let ghost o = ordered(bytes@, endian);
    let mut acc: u128 = 0;
    let mut i: usize = 0;
    proof {
        lemma_pow256_values();
        assert(o.take(0) =~= Seq::<u8>::empty());
    }
    while i < n
        invariant
            n == bytes@.len(),
            n <= 16,
            o == ordered(bytes@, endian),
            i <= n,
            acc == be_value(o.take(i as int)),
            pow256(16) == 0x1_0000_0000_0000_0000_0000_0000_0000_0000,
        decreases n - i,
    {
        let b: u8 = match endian {
            Endian::Big => bytes[i],
            Endian::Little => bytes[n - 1 - i],
        };
        proof {
            let t = o.take(i as int);
            lemma_be_value_bound(t);
            lemma_pow_mono(i as nat, 15);
            assert(o.take(i + 1).drop_last() =~= t);
            assert(o[i as int] == b);
            let p = pow256(i as nat);
            let a = acc as int;
            assert(a * 256 + b <= 0xffff_ffff_ffff_ffff_ffff_ffff_ffff_ffff) by (nonlinear_arith)
                requires
                    a < p,
                    p <= pow256(15),
                    pow256(16) == 256 * pow256(15),
                    pow256(16) == 0x1_0000_0000_0000_0000_0000_0000_0000_0000,
                    0 <= b < 256,
            ;
        }
        acc = acc * 256 + b as u128;
        i = i + 1;
    }
    assert(o.take(n as int) =~= o);
    acc
}

/// Powers of 256 grow with the exponent.
pub proof fn lemma_pow_mono(a: nat, b: nat)
    requires
        a <= b,
    ensures
        pow256(a) <= pow256(b),
    decreases b,
{
    if a < b {
        lemma_pow_mono(a, (b - 1) as nat);
        lemma_pow256_positive((b - 1) as nat);
    }
}

/// The `n` low bytes of `value` in the byte order `endian`.
pub fn encode_uint(value: u128, n: usize, endian: Endian) -> (r: Vec<u8>)
    requires
        n <= 16,
    ensures
        r@ == uint_bytes(value as nat, n as nat, endian),
        r@.len() == n,
{
    // Least significant byte first.
    let ghost full = be_bytes(value as nat, n as nat);
    let mut low_first: Vec<u8> = Vec::new();
    let mut cur: u128 = value;
    let mut i: usize = 0;
    proof {
        lemma_be_bytes_len(value as nat, n as nat);
    }
    while i < n
        invariant
            i <= n,
            full == be_bytes(value as nat, n as nat),
            full.len() == n,
            low_first@.len() == i,
            be_bytes(cur as nat, (n - i) as nat).len() == n - i,
            forall|k: int|
                0 <= k < i ==> #[trigger] low_first@[k] == full[n - 1 - k],
            forall|k: int|
                0 <= k < n - i ==> #[trigger] be_bytes(cur as nat, (n - i) as nat)[k] == full[k],
        decreases n - i,
    {
        let ghost rest = be_bytes(cur as nat, (n - i) as nat);
        let b: u8 = (cur % 256) as u8;
        low_first.push(b);
        proof {
            let m = (n - i) as nat;
            assert(rest == be_bytes((cur / 256) as nat, (m - 1) as nat).push(b));
            lemma_be_bytes_len((cur / 256) as nat, (m - 1) as nat);
            assert(full[n - 1 - i] == rest[m - 1]);
            assert forall|k: int| 0 <= k < m - 1 implies #[trigger] be_bytes(
                (cur / 256) as nat,
                (m - 1) as nat,
            )[k] == full[k] by {
                assert(rest[k] == full[k]);
            }
        }
        cur = cur / 256;
        i = i + 1;
    }
    let mut out: Vec<u8> = Vec::new();
    let mut j: usize = 0;
    while j < n
        invariant
            j <= n,
            low_first@.len() == n,
            full.len() == n,
            full == be_bytes(value as nat, n as nat),
            out@.len() == j,
            forall|k: int| 0 <= k < n ==> #[trigger] low_first@[k] == full[n - 1 - k],
            forall|k: int|
                0 <= k < j ==> #[trigger] out@[k] == ordered(full, endian)[k],
        decreases n - j,
    {
        let b: u8 = match endian {
            Endian::Big => low_first[n - 1 - j],
            Endian::Little => low_first[j],
        };
        out.push(b);
        j = j + 1;
    }
    assert(out@ =~= ordered(full, endian));
    out
}

} // verus!
