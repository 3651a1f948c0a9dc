use vstd::prelude::*;
use vstd::utf8::{decode_utf8, valid_utf8};

use crate::error::EbmlError;

verus! {

/// Number of zero bits above the highest set bit of `b`; 8 for a zero byte.
pub open spec fn leading_zeros(b: u8) -> nat {
    if b >= 128 {
        0
    } else if b >= 64 {
        1
    } else if b >= 32 {
        2
    } else if b >= 16 {
        3
    } else if b >= 8 {
        4
    } else if b >= 4 {
        5
    } else if b >= 2 {
        6
    } else if b >= 1 {
        7
    } else {
        8
    }
}

/// Octet count announced by the first byte of a length-prefixed number.
/// A zero first byte announces the longest form, eight octets.
pub open spec fn vint_width(first: u8) -> nat {
    if first == 0 {
        8
    } else {
        leading_zeros(first) + 1
    }
}

/// Mask that clears the `w` marker bits at the top of a first byte.
pub open spec fn marker_mask(w: nat) -> u8 {
    if w >= 8 {
        0
    } else {
        (0xffu8 >> (w as u8)) as u8
    }
}

/// `256^n`, the number of values that `n` octets can hold.
pub open spec fn octet_range(n: nat) -> nat
    decreases n,
{
    if n == 0 {
        1
    } else {
        (256 * octet_range((n - 1) as nat)) as nat
    }
}

/// Big-endian value of a byte sequence.
pub open spec fn be_value(s: Seq<u8>) -> nat
    decreases s.len(),
{
    if s.len() == 0 {
        0
    } else {
        (be_value(s.drop_last()) * 256 + s.last()) as nat
    }
}

/// Value of a complete length-prefixed number: its bytes big-endian, with
/// the marker bits of the first byte cleared.
pub open spec fn vint_value(s: Seq<u8>) -> nat
    recommends
        s.len() > 0,
{
    be_value(s.update(0, s[0] & marker_mask(s.len())))
}

/// The length-prefixed number at `pos`, read from bytes before `limit`: its
/// value and the position after it.
pub open spec fn vint_at(data: Seq<u8>, pos: int, limit: int) -> Option<(nat, int)> {
    if pos < 0 || pos >= limit || limit > data.len() {
        None
    } else {
        let w = vint_width(data[pos]);
        if pos + w > limit {
            None
        } else {
            Some((vint_value(data.subrange(pos, pos + w)), pos + w))
        }
    }
}

/// The octets that an integer decoding reads: all of them, or the last eight
/// of a longer payload.
pub open spec fn low_octets(s: Seq<u8>) -> Seq<u8> {
    if s.len() > 8 {
        s.subrange(s.len() - 8, s.len() as int)
    } else {
        s
    }
}

/// Unsigned value of a payload.
pub open spec fn uint_value(s: Seq<u8>) -> nat {
    be_value(low_octets(s))
}

/// Two's-complement value of a payload, sign taken from the top bit of the
/// first octet read; an empty payload is zero.
pub open spec fn int_value(s: Seq<u8>) -> int {
    let t = low_octets(s);
    if t.len() == 0 {
        0
    } else if t[0] >= 128 {
        be_value(t) - octet_range(t.len())
    } else {
        be_value(t) as int
    }
}

/// The IEEE 754 bit pattern held by a float payload.
#[derive(Clone, Copy, Debug, PartialEq, Eq, Structural)]
pub enum FloatBits {
    /// A payload of at most four octets: single precision.
    Single(u32),
    /// A longer payload: double precision.
    Double(u64),
}

pub open spec fn float_bits_of(s: Seq<u8>) -> FloatBits {
    if s.len() > 4 {
        FloatBits::Double(uint_value(s) as u64)
    } else {
        FloatBits::Single(uint_value(s) as u32)
    }
}

pub proof fn lemma_octet_range_small(n: nat)
    requires
        n <= 8,
    ensures
        octet_range(n) <= 0x1_0000_0000_0000_0000,
        n < 8 ==> octet_range(n) <= 0x100_0000_0000_0000,
        n <= 4 ==> octet_range(n) <= 0x1_0000_0000,
        octet_range(n) >= 1,
{
    reveal_with_fuel(octet_range, 9);
}

pub proof fn lemma_be_value_bound(s: Seq<u8>)
    ensures
        be_value(s) < octet_range(s.len()),
    decreases s.len(),
{
    if s.len() > 0 {
        let p = s.drop_last();
        lemma_be_value_bound(p);
        let a = be_value(p);
        let r = octet_range(p.len());
        let b = s.last() as nat;
        assert(a * 256 + b < 256 * r) by (nonlinear_arith)
            requires
                a < r,
                b < 256,
        ;
    }
}

pub proof fn lemma_uint_value_bound(s: Seq<u8>)
    ensures
        uint_value(s) < 0x1_0000_0000_0000_0000,
        s.len() <= 4 ==> uint_value(s) < 0x1_0000_0000,
{
    lemma_be_value_bound(low_octets(s));
    lemma_octet_range_small(low_octets(s).len());
}

/// Counts the zero bits above the highest set bit; 8 for `0x00`.
pub fn count_leading_zeros(byte: u8) -> (r: u8)
    ensures
        r == leading_zeros(byte),
{
    if byte >= 128 {
        0
    } else if byte >= 64 {
        1
    } else if byte >= 32 {
        2
    } else if byte >= 16 {
        3
    } else if byte >= 8 {
        4
    } else if byte >= 4 {
        5
    } else if byte >= 2 {
        6
    } else if byte >= 1 {
        7
    } else {
        8
    }
}

/// Octet count of the length-prefixed number whose first byte is `first`.
pub fn vint_length(first: u8) -> (r: u8)
    ensures
        r == vint_width(first),
        1 <= r <= 8,
{
    if first == 0 {
        8
    } else {
        count_leading_zeros(first) + 1
    }
}

/// Big-endian value of `bytes[start..end]` with `mask` applied to the first
/// byte; at most eight bytes.
pub(crate) fn read_be(bytes: &[u8], start: usize, end: usize, mask: u8) -> (r: u64)
    requires
        start < end <= bytes@.len(),
        end - start <= 8,
    ensures
        r == be_value(
            bytes@.subrange(start as int, end as int).update(0, bytes@[start as int] & mask),
        ),
{
    let ghost s = bytes@.subrange(start as int, end as int).update(0, bytes@[start as int] & mask);
    let mut acc: u64 = (bytes[start] & mask) as u64;
    let mut i: usize = start + 1;
    proof {
        assert(s.subrange(0, 1).drop_last() =~= Seq::<u8>::empty());
        reveal_with_fuel(be_value, 2);
    }
    while i < end
        invariant
            start < i <= end <= bytes@.len(),
            end - start <= 8,
            s == bytes@.subrange(start as int, end as int).update(0, bytes@[start as int] & mask),
            acc == be_value(s.subrange(0, i - start)),
        decreases end - i,
    {
        proof {
            lemma_be_value_bound(s.subrange(0, i - start));
            lemma_octet_range_small((i - start) as nat);
            assert(s.subrange(0, i - start + 1).drop_last() =~= s.subrange(0, i - start));
        }
        acc = acc * 256 + bytes[i] as u64;
        i = i + 1;
    }
    assert(s.subrange(0, end - start) =~= s);
    acc
}

/// Reads the length-prefixed number at `pos`: its value, with the marker bits
/// cleared, and the position just after it.
pub fn read_vint(bytes: &[u8], pos: usize) -> (r: Result<(u64, usize), EbmlError>)
    ensures
        match r {
            Ok((v, next)) => vint_at(bytes@, pos as int, bytes@.len() as int) == Some(
                (v as nat, next as int),
            ),
            Err(e) => vint_at(bytes@, pos as int, bytes@.len() as int) is None && e == (
            EbmlError::TruncatedInput { offset: pos as u64 }),
        },
{
    match read_vint_within(bytes, pos, bytes.len()) {
        Some(r) => Ok(r),
        None => Err(EbmlError::TruncatedInput { offset: pos as u64 }),
    }
}

/// Reads the length-prefixed number at `pos` from the bytes before `limit`.
pub fn read_vint_within(bytes: &[u8], pos: usize, limit: usize) -> (r: Option<(u64, usize)>)
    requires
        limit <= bytes@.len(),
    ensures
        match r {
            Some((v, next)) => vint_at(bytes@, pos as int, limit as int) == Some(
                (v as nat, next as int),
            ),
            None => vint_at(bytes@, pos as int, limit as int) is None,
        },
{
    if pos >= limit {
        return None;
    }
    let w = vint_length(bytes[pos]) as usize;
    if w > limit - pos {
        return None;
    }
    let mask: u8 = if w == 8 {
        0
    } else {
        0xffu8 >> (w as u8)
    };
    let v = read_be(bytes, pos, pos + w, mask);
    proof {
        let s = bytes@.subrange(pos as int, pos + w);
        assert(s[0] == bytes@[pos as int]);
        assert(mask == marker_mask(s.len()));
    }
    Some((v, pos + w))
}

/// Big-endian unsigned value of a payload; of a payload longer than eight
/// octets only the last eight count.
pub fn bytes_to_uint(bytes: &[u8]) -> (r: u64)
    ensures
        r == uint_value(bytes@),
{
    let n = bytes.len();
    if n == 0 {
        return 0;
    }
    let start: usize = if n > 8 { n - 8 } else { 0 };
    let r = read_be(bytes, start, n, 0xff);
    proof {
        let t = bytes@.subrange(start as int, n as int);
        let b = bytes@[start as int];
        assert(b & 0xff == b) by (bit_vector);
        assert(t.update(0, b & 0xff) =~= t);
        assert(low_octets(bytes@) =~= t);
    }
    r
}

/// Two's-complement value of a payload, sign-extended from its width; of a
/// payload longer than eight octets only the last eight count.
pub fn bytes_to_int(bytes: &[u8]) -> (r: i64)
    ensures
        r == int_value(bytes@),
{
    let n = bytes.len();
    if n == 0 {
        return 0;
    }
    let start: usize = if n > 8 { n - 8 } else { 0 };
    let u = bytes_to_uint(bytes);
    let ghost t = low_octets(bytes@);
    assert(t =~= bytes@.subrange(start as int, n as int));
    assert(t[0] == bytes@[start as int]);
    if bytes[start] < 128 {
        proof {
            lemma_be_value_bound(t);
            lemma_octet_range_small(t.len());
            if t.len() == 8 {
                assert(be_value(t) < 0x8000_0000_0000_0000) by {
                    lemma_be_front(t);
                    lemma_be_value_bound(t.drop_first());
                    reveal_with_fuel(octet_range, 8);
                    let k = octet_range(7);
                    assert(k == 0x100_0000_0000_0000);
                    assert(t[0] * k + be_value(t.drop_first()) < 128 * k) by (nonlinear_arith)
                        requires
                            t[0] < 128,
                            be_value(t.drop_first()) < k,
                    ;
                }
            } else {
                assert(octet_range(t.len()) <= 0x100_0000_0000_0000);
            }
        }
        u as i64
    } else {
        let mut range: u128 = 1;
        let mut k: usize = 0;
        while k < n - start
            invariant
                k <= n - start <= 8,
                range == octet_range(k as nat),
            decreases n - start - k,
        {
            proof {
                lemma_octet_range_small(k as nat);
            }
            range = range * 256;
            k = k + 1;
        }
        proof {
            lemma_be_value_bound(t);
            lemma_be_front(t);
            lemma_octet_range_small(t.len());
            lemma_octet_range_small((t.len() - 1) as nat);
            let rest = octet_range((t.len() - 1) as nat);
            assert(octet_range(t.len()) == 256 * rest);
            assert(be_value(t) >= 128 * rest) by (nonlinear_arith)
                requires
                    be_value(t) == t[0] * rest + be_value(t.drop_first()),
                    t[0] >= 128,
            ;
        }
        (u as i128 - range as i128) as i64
    }
}

/// Splits the first octet off a big-endian value.
pub proof fn lemma_be_front(s: Seq<u8>)
    requires
        s.len() > 0,
    ensures
        be_value(s) == s[0] * octet_range((s.len() - 1) as nat) + be_value(s.drop_first()),
    decreases s.len(),
{
    if s.len() == 1 {
        assert(s.drop_last() =~= Seq::<u8>::empty());
        assert(s.drop_first() =~= Seq::<u8>::empty());
        assert(be_value(s.drop_last()) == 0);
        assert(be_value(s.drop_first()) == 0);
        assert(octet_range(0) == 1);
        assert(be_value(s) == s[0]);
    } else {
        let p = s.drop_last();
        lemma_be_front(p);
        assert(p[0] == s[0]);
        assert(p.drop_first() =~= s.drop_first().drop_last());
        let k = octet_range((p.len() - 1) as nat);
        assert(octet_range((s.len() - 1) as nat) == 256 * k);
        let q = s.drop_first();
        assert(q.drop_last() =~= p.drop_first());
        assert(q.last() == s.last());
        assert(be_value(q) == be_value(p.drop_first()) * 256 + s.last());
        assert(be_value(s) == be_value(p) * 256 + s.last());
        assert(be_value(s) == (s[0] * k + be_value(p.drop_first())) * 256 + s.last());
        assert((s[0] * k + be_value(p.drop_first())) * 256 + s.last() == s[0] * (256 * k) + (
        be_value(p.drop_first()) * 256 + s.last())) by (nonlinear_arith);
    }
}

/// The IEEE 754 bit pattern of a float payload: double precision above four
/// octets, single precision otherwise.
pub fn bytes_to_float_bits(bytes: &[u8]) -> (r: FloatBits)
    ensures
        r == float_bits_of(bytes@),
{
    let u = bytes_to_uint(bytes);
    proof {
        lemma_uint_value_bound(bytes@);
    }
    if bytes.len() > 4 {
        FloatBits::Double(u)
    } else {
        FloatBits::Single(u as u32)
    }
}

/// Relies on `String::from_utf8`: it accepts exactly the well-formed UTF-8
/// byte sequences and then holds the characters they encode.
#[verifier::external_body]
fn utf8_from_bytes(bytes: Vec<u8>) -> (r: Option<String>)
    ensures
        r is Some <==> valid_utf8(bytes@),
        r matches Some(s) ==> s@ == decode_utf8(bytes@),
{
    String::from_utf8(bytes).ok()
}

/// Strict UTF-8 decoding of a payload: `None` when it is not well-formed.
pub fn bytes_to_string(bytes: &[u8]) -> (r: Option<String>)
    ensures
        r is Some <==> valid_utf8(bytes@),
        r matches Some(s) ==> s@ == decode_utf8(bytes@),
{
    let mut v: Vec<u8> = Vec::new();
    let mut i: usize = 0;
    while i < bytes.len()
        invariant
            i <= bytes@.len(),
            v@ == bytes@.subrange(0, i as int),
        decreases bytes@.len() - i,
    {
        v.push(bytes[i]);
        i = i + 1;
    }
    assert(v@ =~= bytes@);
    utf8_from_bytes(v)
}

/// `2^(7w)`: the values that a `w`-octet length-prefixed number can carry.
pub open spec fn value_capacity(w: nat) -> nat
    decreases w,
{
    if w == 0 {
        1
    } else {
        (128 * value_capacity((w - 1) as nat)) as nat
    }
}

/// The fewest octets whose value bits hold `v` (at most eight).
pub open spec fn vint_min_width(v: nat) -> nat {
    if v < value_capacity(1) {
        1
    } else if v < value_capacity(2) {
        2
    } else if v < value_capacity(3) {
        3
    } else if v < value_capacity(4) {
        4
    } else if v < value_capacity(5) {
        5
    } else if v < value_capacity(6) {
        6
    } else if v < value_capacity(7) {
        7
    } else {
        8
    }
}

/// The low `w` octets of `n`, most significant first.
pub open spec fn be_octets(n: nat, w: nat) -> Seq<u8>
    decreases w,
{
    if w == 0 {
        seq![]
    } else {
        be_octets(n / 256, (w - 1) as nat).push((n % 256) as u8)
    }
}

/// The `w`-octet encoding of `v`: its value bits under a marker bit placed
/// just above them.
pub open spec fn vint_encoding(v: nat, w: nat) -> Seq<u8> {
    be_octets(v + value_capacity(w), w)
}

/// The marker bit of a `w`-octet first byte, `2^(8-w)`.
pub open spec fn marker_bit(w: nat) -> nat {
    if w == 1 {
        128
    } else if w == 2 {
        64
    } else if w == 3 {
        32
    } else if w == 4 {
        16
    } else if w == 5 {
        8
    } else if w == 6 {
        4
    } else if w == 7 {
        2
    } else {
        1
    }
}

proof fn lemma_be_octets(n: nat, w: nat)
    ensures
        be_octets(n, w).len() == w,
        be_value(be_octets(n, w)) == n % octet_range(w),
    decreases w,
{
    if w == 0 {
        assert(n % 1 == 0);
    } else {
        let a = n / 256;
        let b = n % 256;
        let r = octet_range((w - 1) as nat);
        lemma_be_octets(a, (w - 1) as nat);
        lemma_octet_range_small(0);
        assert(r >= 1) by {
            lemma_octet_range_positive((w - 1) as nat);
        }
        let s = be_octets(n, w);
        assert(s.drop_last() =~= be_octets(a, (w - 1) as nat));
        assert(s.last() == b);
        let c = a / r;
        let d = a % r;
        assert(n == 256 * a + b);
        vstd::arithmetic::div_mod::lemma_fundamental_div_mod(a as int, r as int);
        assert(a == r * c + d);
        assert(a == c * r + d) by (nonlinear_arith)
            requires
                a == r * c + d,
        ;
        assert(n == c * (256 * r) + (256 * d + b)) by (nonlinear_arith)
            requires
                n == 256 * a + b,
                a == c * r + d,
        ;
        assert(256 * d + b < 256 * r) by (nonlinear_arith)
            requires
                d < r,
                b < 256,
        ;
        vstd::arithmetic::div_mod::lemma_fundamental_div_mod_converse(
            n as int,
            (256 * r) as int,
            c as int,
            (256 * d + b) as int,
        );
    }
}

proof fn lemma_octet_range_positive(n: nat)
    ensures
        octet_range(n) >= 1,
    decreases n,
{
    if n > 0 {
        lemma_octet_range_positive((n - 1) as nat);
    }
}

/// What a first byte in the range of width `w` gives: that width, and, once
/// masked, the byte less its marker bit.
proof fn lemma_first_byte(w: nat, b: u8)
    requires
        1 <= w <= 8,
        marker_bit(w) <= b < 2 * marker_bit(w),
    ensures
        vint_width(b) == w,
        b & marker_mask(w) == b - marker_bit(w),
{
    if w == 1 {
        assert(b >= 128 ==> b & (0xffu8 >> 1u8) == (b - 128) as u8) by (bit_vector);
    } else if w == 2 {
        assert(64 <= b < 128 ==> b & (0xffu8 >> 2u8) == (b - 64) as u8) by (bit_vector);
    } else if w == 3 {
        assert(32 <= b < 64 ==> b & (0xffu8 >> 3u8) == (b - 32) as u8) by (bit_vector);
    } else if w == 4 {
        assert(16 <= b < 32 ==> b & (0xffu8 >> 4u8) == (b - 16) as u8) by (bit_vector);
    } else if w == 5 {
        assert(8 <= b < 16 ==> b & (0xffu8 >> 5u8) == (b - 8) as u8) by (bit_vector);
    } else if w == 6 {
        assert(4 <= b < 8 ==> b & (0xffu8 >> 6u8) == (b - 4) as u8) by (bit_vector);
    } else if w == 7 {
        assert(2 <= b < 4 ==> b & (0xffu8 >> 7u8) == (b - 2) as u8) by (bit_vector);
    } else {
        assert(b == 1);
        assert(1u8 & 0u8 == 0u8) by (bit_vector);
    }
}

proof fn lemma_capacity(w: nat)
    requires
        1 <= w <= 8,
    ensures
        value_capacity(w) == marker_bit(w) * octet_range((w - 1) as nat),
        2 * value_capacity(w) <= octet_range(w),
{
    reveal_with_fuel(value_capacity, 9);
    reveal_with_fuel(octet_range, 9);
    if w == 1 {
        assert(value_capacity(1) == 0x80);
        assert(octet_range(0) == 0x1);
        assert(octet_range(1) == 0x100);
    } else if w == 2 {
        assert(value_capacity(2) == 0x4000);
        assert(octet_range(1) == 0x100);
        assert(octet_range(2) == 0x10000);
    } else if w == 3 {
        assert(value_capacity(3) == 0x200000);
        assert(octet_range(2) == 0x10000);
        assert(octet_range(3) == 0x1000000);
    } else if w == 4 {
        assert(value_capacity(4) == 0x10000000);
        assert(octet_range(3) == 0x1000000);
        assert(octet_range(4) == 0x100000000);
    } else if w == 5 {
        assert(value_capacity(5) == 0x800000000);
        assert(octet_range(4) == 0x100000000);
        assert(octet_range(5) == 0x10000000000);
    } else if w == 6 {
        assert(value_capacity(6) == 0x40000000000);
        assert(octet_range(5) == 0x10000000000);
        assert(octet_range(6) == 0x1000000000000);
    } else if w == 7 {
        assert(value_capacity(7) == 0x2000000000000);
        assert(octet_range(6) == 0x1000000000000);
        assert(octet_range(7) == 0x100000000000000);
    } else {
        assert(value_capacity(8) == 0x100000000000000);
        assert(octet_range(7) == 0x100000000000000);
        assert(octet_range(8) == 0x10000000000000000);
    }
}

/// Decoding the `w`-octet encoding of any value that fits in `w` octets gives
/// back that value and width; in particular at the fewest octets that hold it.
pub proof fn lemma_vint_round_trip(v: nat, w: nat)
    requires
        1 <= w <= 8,
        v < value_capacity(w),
    ensures
        vint_encoding(v, w).len() == w,
        vint_at(vint_encoding(v, w), 0, w as int) == Some((v, w as int)),
        v < value_capacity(8) ==> vint_min_width(v) <= 8 && v < value_capacity(vint_min_width(v)),
{
    let t = value_capacity(w);
    let n = v + t;
    let s = vint_encoding(v, w);
    let m = marker_bit(w);
    let big = octet_range((w - 1) as nat);
    lemma_capacity(w);
    lemma_be_octets(n, w);
    lemma_octet_range_positive((w - 1) as nat);
    vstd::arithmetic::div_mod::lemma_small_mod(n, octet_range(w));
    assert(be_value(s) == n);
    lemma_be_front(s);
    lemma_be_value_bound(s.drop_first());
    let rest = be_value(s.drop_first());
    let q = v / big;
    let r = v % big;
    assert(v == q * big + r);
    assert(q < m) by (nonlinear_arith)
        requires
            v == q * big + r,
            v < m * big,
            0 <= r,
            big >= 1,
    ;
    assert(n == (m + q) * big + r) by (nonlinear_arith)
        requires
            n == v + m * big,
            v == q * big + r,
    ;
    vstd::arithmetic::div_mod::lemma_fundamental_div_mod_converse(
        n as int,
        big as int,
        s[0] as int,
        rest as int,
    );
    vstd::arithmetic::div_mod::lemma_fundamental_div_mod_converse(
        n as int,
        big as int,
        (m + q) as int,
        r as int,
    );
    assert(s[0] == m + q);
    lemma_first_byte(w, s[0]);
    let masked = s.update(0, s[0] & marker_mask(w));
    lemma_be_front(masked);
    assert(masked.drop_first() =~= s.drop_first());
    assert(be_value(masked) == q * big + rest) by {
        assert(masked[0] == q);
    }
    assert(s.subrange(0, w as int) =~= s);
    reveal_with_fuel(value_capacity, 9);
}

/// The payload of a non-container element, with its decodings.
pub struct ElementData(pub Vec<u8>);

impl View for ElementData {
    type V = Seq<u8>;

    open spec fn view(&self) -> Seq<u8> {
        self.0@
    }
}

impl Clone for ElementData {
    fn clone(&self) -> (r: Self)
        ensures
            r@ == self@,
    {
        let v = self.0.clone();
        assert(v@ =~= self.0@);
        ElementData(v)
    }
}

impl ElementData {
    /// Strict UTF-8 text; `None` when the payload is not well-formed UTF-8.
    pub fn into_string(&self) -> (r: Option<String>)
        ensures
            r is Some <==> valid_utf8(self@),
            r matches Some(s) ==> s@ == decode_utf8(self@),
    {
        bytes_to_string(self.0.as_slice())
    }

    pub fn into_uint(&self) -> (r: u64)
        ensures
            r == uint_value(self@),
    {
        bytes_to_uint(self.0.as_slice())
    }

    pub fn into_int(&self) -> (r: i64)
        ensures
            r == int_value(self@),
    {
        bytes_to_int(self.0.as_slice())
    }

    /// A flag: true exactly when the signed value is 1.
    pub fn into_bool(&self) -> (r: bool)
        ensures
            r == (int_value(self@) == 1),
    {
        bytes_to_int(self.0.as_slice()) == 1
    }

    pub fn into_float_bits(&self) -> (r: FloatBits)
        ensures
            r == float_bits_of(self@),
    {
        bytes_to_float_bits(self.0.as_slice())
    }

    pub fn into_vec(&self) -> (r: Vec<u8>)
        ensures
            r@ == self@,
    {
        let v = self.0.clone();
        assert(v@ =~= self.0@);
        v
    }
}

} // verus!
