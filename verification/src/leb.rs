//! Varint codec: variable-length encoding of unsigned 64-bit integers.
//!
//! A value is encoded least-significant group first, 7 payload bits per
//! byte; the top bit of every byte except the last is set (continuation
//! bit). Value 0 encodes as one zero byte; a value needing all 64 bits
//! takes 10 bytes. The encoding is total over `u64` and always minimal.

use vstd::arithmetic::div_mod::lemma_div_denominator;
use vstd::arithmetic::div_mod::lemma_fundamental_div_mod;
use vstd::prelude::*;

verus! {

/// The byte sequence that the varint codec produces for `v`: low 7 bits
/// first, continuation bit set on every byte but the last.
pub open spec fn varint(v: u64) -> Seq<u8>
    decreases v,
{
    if v < 0x80 {
        seq![v as u8]
    } else {
        seq![((v % 0x80) + 0x80) as u8] + varint(v / 0x80)
    }
}

/// The value that a varint byte sequence stands for, reading each byte's
/// low 7 bits, least-significant group first. (The on-wire decoder itself
/// runs on the host and is out of scope; this is its mathematical content.)
pub open spec fn varint_decode(s: Seq<u8>) -> int
    decreases s.len(),
{
    if s.len() == 0 {
        0
    } else {
        (s[0] % 0x80) + 0x80 * varint_decode(s.drop_first())
    }
}

/// How many bits are needed to write `v` in binary (0 for the value 0).
pub open spec fn bits_needed(v: u64) -> nat
    decreases v,
{
    if v == 0 {
        0
    } else {
        1 + bits_needed(v / 2)
    }
}

/// Encodes `x` as a varint: the minimum number of bytes, 1 to 10, with
/// 7 payload bits per byte, least-significant group first.
pub fn leb64(x: u64) -> (out: Vec<u8>)
    ensures
        out@ == varint(x),
{
    let mut out: Vec<u8> = Vec::new();
    let mut v: u64 = x;
    while v >= 0x80
        invariant
            varint(x) == out@ + varint(v),
        decreases v,
    {
        let b: u8 = ((v % 0x80) + 0x80) as u8;
        let ghost prev = out@;
        out.push(b);
        proof {
            assert(varint(v) == seq![b] + varint(v / 0x80));
            assert(prev + (seq![b] + varint(v / 0x80)) =~= out@ + varint(v / 0x80));
        }
        v = v / 0x80;
    }
    let ghost prev = out@;
    out.push(v as u8);
    proof {
        assert(varint(v) == seq![v as u8]);
        assert(prev + varint(v) =~= out@);
    }
    out
}

/// Varint round trip: for every `u64` value, decoding the bytes that
/// encoding produced yields the value back.
pub proof fn lemma_varint_round_trip(v: u64)
    ensures
        varint_decode(varint(v)) == v,
    decreases v,
{
    if v < 0x80 {
        let s = varint(v);
        assert(s =~= seq![v as u8]);
        assert(s.drop_first() =~= Seq::<u8>::empty());
        assert(varint_decode(Seq::<u8>::empty()) == 0);
        assert(varint_decode(s) == (s[0] % 0x80) + 0x80 * varint_decode(s.drop_first()));
    } else {
        lemma_varint_round_trip(v / 0x80);
        let s = varint(v);
        let b = ((v % 0x80) + 0x80) as u8;
        assert(s =~= seq![b] + varint(v / 0x80));
        assert(s[0] == b);
        assert(s.drop_first() =~= varint(v / 0x80));
        assert(varint_decode(s) == (s[0] % 0x80) + 0x80 * varint_decode(s.drop_first()));
        assert(b % 0x80 == v % 0x80);
        lemma_fundamental_div_mod(v as int, 0x80);
    }
}

/// The length of the varint encoding of `v`: one byte per started group
/// of 7 bits, and one byte for the value 0.
pub open spec fn varint_len(v: u64) -> nat {
    if v == 0 {
        1
    } else {
        ((bits_needed(v) + 6) / 7) as nat
    }
}

/// Two to the power `n`.
spec fn two_pow(n: nat) -> nat
    decreases n,
{
    if n == 0 {
        1
    } else {
        2 * two_pow((n - 1) as nat)
    }
}

/// A value below `2^n` needs at most `n` bits.
proof fn lemma_bits_needed_below(v: u64, n: nat)
    requires
        v < two_pow(n),
    ensures
        bits_needed(v) <= n,
    decreases v,
{
    if v > 0 {
        assert(two_pow(0) == 1);
        assert(n >= 1);
        assert(two_pow(n) == 2 * two_pow((n - 1) as nat));
        assert(v / 2 < two_pow((n - 1) as nat));
        lemma_bits_needed_below(v / 2, (n - 1) as nat);
    }
}

/// Dropping the low 7 bits drops exactly 7 from the bit count.
proof fn lemma_bits_needed_div128(v: u64)
    requires
        0x80 <= v,
    ensures
        bits_needed(v) == 7 + bits_needed(v / 0x80),
{
    lemma_div_denominator(v as int, 2, 2);
    lemma_div_denominator(v as int, 4, 2);
    lemma_div_denominator(v as int, 8, 2);
    lemma_div_denominator(v as int, 16, 2);
    lemma_div_denominator(v as int, 32, 2);
    lemma_div_denominator(v as int, 64, 2);
    assert(bits_needed(v) == 1 + bits_needed(v / 2));
    assert(bits_needed(v / 2) == 1 + bits_needed(v / 4));
    assert(bits_needed(v / 4) == 1 + bits_needed(v / 8));
    assert(bits_needed(v / 8) == 1 + bits_needed(v / 16));
    assert(bits_needed(v / 16) == 1 + bits_needed(v / 32));
    assert(bits_needed(v / 32) == 1 + bits_needed(v / 64));
    assert(bits_needed(v / 64) == 1 + bits_needed(v / 128));
}

/// The encoding never takes more than 10 bytes: each recursion step drops
/// 7 bits, and a `u64` value crosses at most nine 7-bit thresholds.
proof fn lemma_varint_len_thresholds(v: u64)
    ensures
        varint(v).len() == (if v < 0x80 {
            1nat
        } else if v < 0x4000 {
            2nat
        } else if v < 0x200000 {
            3nat
        } else if v < 0x10000000 {
            4nat
        } else if v < 0x800000000 {
            5nat
        } else if v < 0x40000000000 {
            6nat
        } else if v < 0x2000000000000 {
            7nat
        } else if v < 0x100000000000000 {
            8nat
        } else if v < 0x8000000000000000 {
            9nat
        } else {
            10nat
        }),
    decreases v,
{
    if v >= 0x80 {
        lemma_varint_len_thresholds(v / 0x80);
    }
}

/// Varint minimality: the encoding takes exactly `varint_len(v)` bytes —
/// one per started group of 7 bits, `ceil(bits_needed(v) / 7)` — at least
/// 1 of them and at most 10.
pub proof fn lemma_varint_minimal(v: u64)
    ensures
        varint(v).len() == varint_len(v),
        1 <= varint(v).len() <= 10,
    decreases v,
{
    lemma_varint_len_thresholds(v);
    if v < 0x80 {
        if v > 0 {
            assert(two_pow(7) == 128) by {
                reveal_with_fuel(two_pow, 8);
            }
            lemma_bits_needed_below(v, 7);
            assert(bits_needed(v) == 1 + bits_needed(v / 2));
        }
    } else {
        lemma_varint_minimal(v / 0x80);
        lemma_bits_needed_div128(v);
        assert(v / 0x80 > 0);
        assert(bits_needed(v / 0x80) == 1 + bits_needed(v / 0x80 / 2));
        assert(varint(v).len() == 1 + varint(v / 0x80).len());
    }
}

} // verus!
