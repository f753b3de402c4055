//! Decimal text encoding and parsing for 64-bit integers.
//!
//! 64-bit values cross the dynamic-typing boundary as decimal text in both
//! directions, so that no precision is lost in the caller's number
//! representation. The encoder and the parser below are each specified
//! against the same mathematical description of decimal notation, and the
//! round-trip laws at the bottom state that encoding never loses a value.

use vstd::arithmetic::div_mod::{lemma_fundamental_div_mod, lemma_mod_multiples_vanish};
use vstd::prelude::*;

verus! {

/// The decimal digits of `n`, most significant first, as ASCII bytes.
pub open spec fn dec_digits(n: nat) -> Seq<u8>
    decreases n,
{
    if n < 10 {
        seq![(48 + n) as u8]
    } else {
        dec_digits(n / 10).push((48 + n % 10) as u8)
    }
}

/// The decimal text of a signed value: a minus sign before the digits of
/// the magnitude when the value is negative.
pub open spec fn dec_digits_signed(n: int) -> Seq<u8> {
    if n < 0 {
        seq![45u8] + dec_digits((-n) as nat)
    } else {
        dec_digits(n as nat)
    }
}

/// An ASCII decimal digit.
pub open spec fn is_dec_digit(b: u8) -> bool {
    48 <= b <= 57
}

/// Every byte of `s` is an ASCII decimal digit.
pub open spec fn all_dec_digits(s: Seq<u8>) -> bool {
    forall|i: int| 0 <= i < s.len() ==> is_dec_digit(#[trigger] s[i])
}

/// The numeric value of a digit string, most significant digit first.
pub open spec fn dec_value(s: Seq<u8>) -> nat
    recommends
        all_dec_digits(s),
    decreases s.len(),
{
    if s.len() == 0 {
        0
    } else {
        dec_value(s.drop_last()) * 10 + (s.last() - 48) as nat
    }
}

/// What parsing unsigned decimal text yields: the value of the digits when
/// the text is non-empty, all digits, and the value fits in 64 bits;
/// nothing otherwise.
pub open spec fn parse_u64_spec(s: Seq<u8>) -> Option<u64> {
    if s.len() > 0 && all_dec_digits(s) && dec_value(s) <= u64::MAX {
        Some(dec_value(s) as u64)
    } else {
        None
    }
}

/// What parsing signed decimal text yields: an optional leading minus sign
/// before the digits, with the magnitude bounded by the signed 64-bit
/// range.
pub open spec fn parse_i64_spec(s: Seq<u8>) -> Option<i64> {
    if s.len() > 0 && s[0] == 45 {
        let t = s.skip(1);
        if t.len() > 0 && all_dec_digits(t) && dec_value(t) <= 0x8000000000000000 {
            Some((-(dec_value(t) as int)) as i64)
        } else {
            None
        }
    } else {
        match parse_u64_spec(s) {
            Some(n) => if n <= i64::MAX as u64 {
                Some(n as i64)
            } else {
                None
            },
            None => None,
        }
    }
}

/// Encodes `n` as decimal text.
pub fn format_u64(n: u64) -> (s: Vec<u8>)
    ensures
        s@ == dec_digits(n as nat),
    decreases n,
{
    if n < 10 {
        let mut v: Vec<u8> = Vec::new();
        v.push(48 + n as u8);
        proof {
            assert(v@ =~= dec_digits(n as nat));
        }
        v
    } else {
        let mut v = format_u64(n / 10);
        v.push(48 + (n % 10) as u8);
        v
    }
}

/// Encodes a signed value as decimal text, minus sign first when negative.
pub fn format_i64(n: i64) -> (s: Vec<u8>)
    ensures
        s@ == dec_digits_signed(n as int),
{
    if n >= 0 {
        format_u64(n as u64)
    } else {
        let mag: u64 = ((-(n + 1)) as u64) + 1;
        assert(mag == -(n as int));
        let mut v: Vec<u8> = Vec::new();
        v.push(45);
        let mut digits = format_u64(mag);
        v.append(&mut digits);
        proof {
            assert(v@ =~= dec_digits_signed(n as int));
        }
        v
    }
}

/// The value of a digit string only grows as more digits follow.
proof fn lemma_dec_value_prefix_le(s: Seq<u8>, i: int)
    requires
        0 <= i <= s.len(),
    ensures
        dec_value(s.subrange(0, i)) <= dec_value(s),
    decreases s.len() - i,
{
    if i == s.len() {
        assert(s.subrange(0, i) =~= s);
    } else {
        let t = s.subrange(0, i + 1);
        assert(t.drop_last() =~= s.subrange(0, i));
        assert(dec_value(s.subrange(0, i)) <= dec_value(t));
        lemma_dec_value_prefix_le(s, i + 1);
        assert(s.subrange(0, i + 1) =~= t);
    }
}

/// Parses unsigned decimal text starting at `from`, reporting nothing on
/// any byte that is not a digit and on values beyond 64 bits.
pub fn parse_u64_from(s: &[u8], from: usize) -> (r: Option<u64>)
    requires
        from <= s@.len(),
    ensures
        r == parse_u64_spec(s@.skip(from as int)),
{
    let ghost t = s@.skip(from as int);
    let n = s.len();
    if from == n {
        return None;
    }
    let mut acc: u64 = 0;
    let mut i: usize = from;
    while i < n
        invariant
            from <= i <= n == s@.len(),
            n > from,
            t == s@.skip(from as int),
            all_dec_digits(t.subrange(0, i - from)),
            acc == dec_value(t.subrange(0, i - from)),
        decreases n - i,
    {
        let b = s[i];
        assert(t[i - from] == b);
        if b < 48 || b > 57 {
            assert(!all_dec_digits(t));
            return None;
        }
        let d: u64 = (b - 48) as u64;
        let ghost pre = t.subrange(0, i - from);
        let ghost cur = t.subrange(0, i + 1 - from);
        proof {
            assert(cur.drop_last() =~= pre);
            assert(cur.last() == b);
            assert(dec_value(cur) == dec_value(pre) * 10 + d);
        }
        if acc > (u64::MAX - d) / 10 {
            // the value of the digits seen so far already exceeds 64 bits
            proof {
                lemma_fundamental_div_mod((u64::MAX - d) as int, 10);
                assert(acc * 10 + d > u64::MAX);
                if all_dec_digits(t) {
                    lemma_dec_value_prefix_le(t, i + 1 - from);
                    assert(dec_value(t) > u64::MAX);
                }
            }
            return None;
        }
        proof {
            lemma_fundamental_div_mod((u64::MAX - d) as int, 10);
            assert(acc * 10 + d <= u64::MAX);
        }
        acc = acc * 10 + d;
        i = i + 1;
    }
    proof {
        assert(t.subrange(0, n - from) =~= t);
    }
    Some(acc)
}

/// Parses unsigned decimal text.
pub fn parse_u64(s: &[u8]) -> (r: Option<u64>)
    ensures
        r == parse_u64_spec(s@),
{
    let r = parse_u64_from(s, 0);
    proof {
        assert(s@.skip(0) =~= s@);
    }
    r
}

/// Parses signed decimal text: an optional leading minus sign, then
/// digits.
pub fn parse_i64(s: &[u8]) -> (r: Option<i64>)
    ensures
        r == parse_i64_spec(s@),
{
    if s.len() > 0 && s[0] == 45 {
        let mag = parse_u64_from(s, 1);
        match mag {
            None => None,
            Some(m) => {
                if m > 0x8000000000000000 {
                    None
                } else if m == 0x8000000000000000 {
                    Some(i64::MIN)
                } else {
                    Some(-(m as i64))
                }
            },
        }
    } else {
        match parse_u64(s) {
            None => None,
            Some(n) => if n <= i64::MAX as u64 {
                Some(n as i64)
            } else {
                None
            },
        }
    }
}

/// Every byte the encoder emits is a decimal digit, and it emits at least
/// one.
proof fn lemma_dec_digits_wf(n: nat)
    ensures
        dec_digits(n).len() >= 1,
        all_dec_digits(dec_digits(n)),
    decreases n,
{
    if n >= 10 {
        lemma_dec_digits_wf(n / 10);
        let s = dec_digits(n);
        let p = dec_digits(n / 10);
        assert forall|i: int| 0 <= i < s.len() implies is_dec_digit(#[trigger] s[i]) by {
            lemma_mod_bound_10(n);
            if i < p.len() {
                assert(s[i] == p[i]);
            }
        }
    } else {
        assert(dec_digits(n) =~= seq![(48 + n) as u8]);
    }
}

proof fn lemma_mod_bound_10(n: nat)
    ensures
        n % 10 < 10,
{
}

/// The digits of `n` evaluate back to `n`.
proof fn lemma_dec_digits_value(n: nat)
    ensures
        dec_value(dec_digits(n)) == n,
    decreases n,
{
    if n < 10 {
        let s = dec_digits(n);
        assert(s.drop_last() =~= Seq::<u8>::empty());
        assert(dec_value(Seq::<u8>::empty()) == 0);
        assert(((48 + n) as u8 - 48) as nat == n);
    } else {
        lemma_dec_digits_value(n / 10);
        lemma_fundamental_div_mod(n as int, 10);
        lemma_mod_bound_10(n);
        let s = dec_digits(n);
        assert(s.drop_last() =~= dec_digits(n / 10));
        assert(((48 + n % 10) as u8 - 48) as nat == n % 10);
    }
}

/// Law: a 64-bit unsigned value round-trips through its decimal text
/// without loss, for every value up to `u64::MAX`.
pub proof fn lemma_u64_text_round_trip(n: u64)
    ensures
        parse_u64_spec(dec_digits(n as nat)) == Some(n),
{
    lemma_dec_digits_wf(n as nat);
    lemma_dec_digits_value(n as nat);
}

/// Law: a 64-bit signed value round-trips through its decimal text
/// without loss, over the full signed 64-bit range.
pub proof fn lemma_i64_text_round_trip(n: i64)
    ensures
        parse_i64_spec(dec_digits_signed(n as int)) == Some(n),
{
    if n >= 0 {
        lemma_dec_digits_wf(n as nat);
        lemma_dec_digits_value(n as nat);
        assert(dec_digits_signed(n as int) == dec_digits(n as nat));
        assert(dec_digits(n as nat)[0] != 45);
    } else {
        let mag = (-(n as int)) as nat;
        lemma_dec_digits_wf(mag);
        lemma_dec_digits_value(mag);
        let s = dec_digits_signed(n as int);
        assert(s[0] == 45);
        assert(s.skip(1) =~= dec_digits(mag));
        assert(mag <= 0x8000000000000000);
    }
}

} // verus!
