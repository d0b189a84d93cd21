//! Integer helpers shared by the guard and vault modules: the age check and the
//! reinterpreting cast the guards use, and little-endian decoding.

use vstd::prelude::*;

verus! {

/// A `u64` bit pattern read as a two's complement `i64`.
pub open spec fn wrap_i64(x: u64) -> int {
    if x < 0x8000_0000_0000_0000 {
        x as int
    } else {
        x - 0x1_0000_0000_0000_0000
    }
}

/// `x`, or 1 where `x` is 0: a divisor that is never zero.
pub open spec fn at_least_one(x: u64) -> int {
    if x == 0 {
        1
    } else {
        x as int
    }
}

/// The distance between two integers.
pub open spec fn distance(a: int, b: int) -> int {
    if a >= b {
        a - b
    } else {
        b - a
    }
}

/// The unsigned value of the eight bytes of `b` from `off` on, least
/// significant first.
pub open spec fn le_u64_at(b: Seq<u8>, off: int) -> int {
    b[off] + 0x100 * b[off + 1] + 0x1_0000 * b[off + 2] + 0x100_0000 * b[off + 3]
        + 0x1_0000_0000 * b[off + 4] + 0x100_0000_0000 * b[off + 5]
        + 0x1_0000_0000_0000 * b[off + 6] + 0x100_0000_0000_0000 * b[off + 7]
}

/// Whether a price published at `publish_time` is, at `now`, more than
/// `limit` seconds old (all three taken as integers).
pub fn older_than(now: i64, publish_time: i64, limit: u64) -> (r: bool)
    ensures
        r == (now - publish_time > limit),
{
    let age: i128 = now as i128 - publish_time as i128;
    age > limit as i128
}

/// The reinterpreting cast of a `u64` to `i64`.
pub fn reinterpret_as_i64(x: u64) -> (r: i64)
    ensures
        r == wrap_i64(x),
{
    if x < 0x8000_0000_0000_0000 {
        x as i64
    } else {
        let high: u64 = x - 0x8000_0000_0000_0000;
        high as i64 + i64::MIN
    }
}

/// `x`, or 1 where `x` is 0.
pub fn max_one(x: u64) -> (r: u64)
    ensures
        r == at_least_one(x),
{
    if x == 0 {
        1
    } else {
        x
    }
}

/// `|a - b|`.
pub fn abs_diff_u64(a: u64, b: u64) -> (r: u64)
    ensures
        r == distance(a as int, b as int),
{
    if a >= b {
        a - b
    } else {
        b - a
    }
}

/// Decodes the little-endian `u64` stored at `data[off..off + 8]`.
pub fn read_u64_le(data: &[u8], off: usize) -> (r: u64)
    requires
        off + 8 <= data@.len(),
    ensures
        r == le_u64_at(data@, off as int),
{
    let n = data.len();
    assert(off + 8 <= n);
    let mut acc: u64 = data[off + 7] as u64;
    acc = acc * 0x100 + data[off + 6] as u64;
    acc = acc * 0x100 + data[off + 5] as u64;
    acc = acc * 0x100 + data[off + 4] as u64;
    acc = acc * 0x100 + data[off + 3] as u64;
    acc = acc * 0x100 + data[off + 2] as u64;
    acc = acc * 0x100 + data[off + 1] as u64;
    acc = acc * 0x100 + data[off] as u64;
    acc
}

/// Division rounded down: `x / d` is `q` exactly when
/// `q * d <= x < (q + 1) * d`, and it is at most `m` exactly when
/// `x < (m + 1) * d`.
pub proof fn lemma_quotient_bounds(x: int, d: int, q: int)
    requires
        d > 0,
        x >= 0,
    ensures
        (x / d == q) <==> (q * d <= x && x < (q + 1) * d),
        (x / d <= q) <==> x < (q + 1) * d,
{
    assert((x / d == q) <==> (q * d <= x && x < (q + 1) * d)) by (nonlinear_arith)
        requires
            d > 0,
            x >= 0,
    ;
    assert((x / d <= q) <==> x < (q + 1) * d) by (nonlinear_arith)
        requires
            d > 0,
            x >= 0,
    ;
}

/// Little-endian decoding: the eight bytes are the base-256 digits of the
/// value, least significant first, so the value is below 2^64 and its `k`-th
/// digit is `b[off + k]`.
pub proof fn lemma_le_u64_digits(b: Seq<u8>, off: int)
    requires
        0 <= off,
        off + 8 <= b.len(),
    ensures
        0 <= le_u64_at(b, off) < 0x1_0000_0000_0000_0000,
        le_u64_at(b, off) % 0x100 == b[off],
        le_u64_at(b, off) / 0x100 % 0x100 == b[off + 1],
        le_u64_at(b, off) / 0x1_0000 % 0x100 == b[off + 2],
        le_u64_at(b, off) / 0x100_0000 % 0x100 == b[off + 3],
        le_u64_at(b, off) / 0x1_0000_0000 % 0x100 == b[off + 4],
        le_u64_at(b, off) / 0x100_0000_0000 % 0x100 == b[off + 5],
        le_u64_at(b, off) / 0x1_0000_0000_0000 % 0x100 == b[off + 6],
        le_u64_at(b, off) / 0x100_0000_0000_0000 == b[off + 7],
{
    let b0: int = b[off] as int;
    let b1: int = b[off + 1] as int;
    let b2: int = b[off + 2] as int;
    let b3: int = b[off + 3] as int;
    let b4: int = b[off + 4] as int;
    let b5: int = b[off + 5] as int;
    let b6: int = b[off + 6] as int;
    let b7: int = b[off + 7] as int;
    let v = le_u64_at(b, off);
    let t1 = b1 + 0x100 * (b2 + 0x100 * (b3 + 0x100 * (b4 + 0x100 * (b5 + 0x100 * (b6 + 0x100 * b7)))));
    let t2 = b2 + 0x100 * (b3 + 0x100 * (b4 + 0x100 * (b5 + 0x100 * (b6 + 0x100 * b7))));
    let t3 = b3 + 0x100 * (b4 + 0x100 * (b5 + 0x100 * (b6 + 0x100 * b7)));
    let t4 = b4 + 0x100 * (b5 + 0x100 * (b6 + 0x100 * b7));
    let t5 = b5 + 0x100 * (b6 + 0x100 * b7);
    let t6 = b6 + 0x100 * b7;
    assert(v == b0 + 0x100 * t1);
    assert(t1 == b1 + 0x100 * t2);
    assert(t2 == b2 + 0x100 * t3);
    assert(t3 == b3 + 0x100 * t4);
    assert(t4 == b4 + 0x100 * t5);
    assert(t5 == b5 + 0x100 * t6);
    assert(t6 == b6 + 0x100 * b7);
    assert(0 <= t6 < 0x1_0000);
    assert(0 <= t5 < 0x100_0000);
    assert(0 <= t4 < 0x1_0000_0000);
    assert(0 <= t3 < 0x100_0000_0000);
    assert(0 <= t2 < 0x1_0000_0000_0000);
    assert(0 <= t1 < 0x100_0000_0000_0000);
    assert(v / 0x100 == t1 && v % 0x100 == b0);
    assert(t1 / 0x100 == t2 && t1 % 0x100 == b1);
    assert(t2 / 0x100 == t3 && t2 % 0x100 == b2);
    assert(t3 / 0x100 == t4 && t3 % 0x100 == b3);
    assert(t4 / 0x100 == t5 && t4 % 0x100 == b4);
    assert(t5 / 0x100 == t6 && t5 % 0x100 == b5);
    assert(t6 / 0x100 == b7 && t6 % 0x100 == b6);
    assert(v / 0x1_0000 == t2);
    assert(v / 0x100_0000 == t3);
    assert(v / 0x1_0000_0000 == t4);
    assert(v / 0x100_0000_0000 == t5);
    assert(v / 0x1_0000_0000_0000 == t6);
    assert(v / 0x100_0000_0000_0000 == b7);
}

/// Reading a `u64` as two's complement gives the one `i64` value congruent
/// to it modulo 2^64.
pub proof fn lemma_wrap_i64_congruent(x: u64)
    ensures
        i64::MIN <= wrap_i64(x) <= i64::MAX,
        (x - wrap_i64(x)) % 0x1_0000_0000_0000_0000 == 0,
{
}

} // verus!
