//! Seed derivation and random-index drawing.
//!
//! A daily seed is derived from the calendar date: the date string is hashed
//! with SHA-256, the first 16 characters of the hex digest are parsed as a
//! base-16 64-bit integer, and that integer seeds the generator. A fresh
//! (non-daily) seed comes from the process entropy source instead. Both feed
//! the same deterministic generator.

use vstd::prelude::*;
use vstd::slice::slice_subrange;
use crate::SeedDerivationError;

verus! {

/// Whether the byte is an ASCII hex digit, in either case.
pub open spec fn is_hex_digit(b: u8) -> bool {
    (48 <= b && b <= 57)  // '0' ..= '9'
    || (97 <= b && b <= 102)  // 'a' ..= 'f'
    || (65 <= b && b <= 70)  // 'A' ..= 'F'
}

/// Whether the byte is a lowercase ASCII hex digit.
pub open spec fn is_lower_hex_digit(b: u8) -> bool {
    (48 <= b && b <= 57) || (97 <= b && b <= 102)
}

/// The numeric value of an ASCII hex digit; 0 for any other byte.
pub open spec fn hex_digit_value(b: u8) -> nat {
    if 48 <= b && b <= 57 {
        (b - 48) as nat
    } else if 97 <= b && b <= 102 {
        (b - 97 + 10) as nat
    } else if 65 <= b && b <= 70 {
        (b - 65 + 10) as nat
    } else {
        0
    }
}

/// Whether every byte of the sequence is a hex digit.
pub open spec fn all_hex_digits(s: Seq<u8>) -> bool {
    forall|i: int| 0 <= i < s.len() ==> is_hex_digit(s[i])
}

/// The base-16 value of a digit sequence, most significant digit first.
pub open spec fn hex_value(s: Seq<u8>) -> nat
    decreases s.len(),
{
    if s.len() == 0 {
        0
    } else {
        hex_value(s.drop_last()) * 16 + hex_digit_value(s.last())
    }
}

/// The digit part of a hex numeral: everything after an optional leading '+'.
pub open spec fn hex_numeral_body(s: Seq<u8>) -> Seq<u8> {
    if s.len() > 0 && s[0] == 43 {  // '+'
        s.drop_first()
    } else {
        s
    }
}

/// What parsing a byte sequence as a base-16 u64 numeral yields: the digits'
/// value when the sequence is an optional '+' followed by one or more hex
/// digits whose value fits in 64 bits, and nothing otherwise.
pub open spec fn spec_hex_to_u64(s: Seq<u8>) -> Option<u64> {
    let d = hex_numeral_body(s);
    if d.len() > 0 && all_hex_digits(d) && hex_value(d) <= u64::MAX {
        Some(hex_value(d) as u64)
    } else {
        None
    }
}

/// Appending one digit multiplies the value by 16 and adds the digit.
proof fn lemma_hex_value_step(s: Seq<u8>, i: int)
    requires
        0 <= i < s.len(),
    ensures
        hex_value(s.take(i + 1)) == hex_value(s.take(i)) * 16 + hex_digit_value(s[i]),
{
    assert(s.take(i + 1).drop_last() =~= s.take(i));
    assert(s.take(i + 1).last() == s[i]);
}

/// The value of a prefix never exceeds the value of the whole sequence.
proof fn lemma_hex_value_prefix_le(s: Seq<u8>, i: int)
    requires
        0 <= i <= s.len(),
    ensures
        hex_value(s.take(i)) <= hex_value(s),
    decreases s.len() - i,
{
    if i == s.len() {
        assert(s.take(i) =~= s);
    } else {
        lemma_hex_value_step(s, i);
        lemma_hex_value_prefix_le(s, i + 1);
    }
}

/// 16 to the given power.
pub open spec fn pow16(n: nat) -> nat
    decreases n,
{
    if n == 0 {
        1
    } else {
        16 * pow16((n - 1) as nat)
    }
}

/// A sequence of n hex digits has value below 16^n.
proof fn lemma_hex_value_bound(s: Seq<u8>)
    ensures
        hex_value(s) < pow16(s.len()),
    decreases s.len(),
{
    if s.len() > 0 {
        lemma_hex_value_bound(s.drop_last());
    }
}

/// Parses a byte sequence as a base-16 unsigned 64-bit numeral: an optional
/// leading '+', then hex digits in either case. Yields nothing when the
/// sequence is empty, holds a non-digit, or the value overflows 64 bits.
pub fn hex_to_u64(b: &[u8]) -> (r: Option<u64>)
    ensures
        r == spec_hex_to_u64(b@),
{
    let n = b.len();
    let start: usize = if n > 0 && b[0] == 43 {
        1
    } else {
        0
    };
    proof {
        if start == 1 {
            assert(hex_numeral_body(b@) =~= b@.subrange(1, n as int));
        } else {
            assert(hex_numeral_body(b@) =~= b@.subrange(0, n as int));
        }
    }
    let ghost d = hex_numeral_body(b@);
    if start >= n {
        return None;
    }
    let mut val: u64 = 0;
    let mut i: usize = start;
    while i < n
        invariant
            start <= i <= n,
            n == b@.len(),
            d == hex_numeral_body(b@),
            d == b@.subrange(start as int, n as int),
            d.len() == n - start,
            d.len() > 0,
            all_hex_digits(d.take(i - start)),
            val == hex_value(d.take(i - start)),
        decreases n - i,
    {
        let c = b[i];
        let dv: u64 = if 48 <= c && c <= 57 {
            (c - 48) as u64
        } else if 97 <= c && c <= 102 {
            (c - 97 + 10) as u64
        } else if 65 <= c && c <= 70 {
            (c - 65 + 10) as u64
        } else {
            proof {
                assert(d[i - start] == b@[i as int]);
                assert(!is_hex_digit(d[i - start]));
            }
            return None;
        };
        proof {
            assert(d[i - start] == b@[i as int]);
            lemma_hex_value_step(d, i - start);
        }
        if val > (u64::MAX - dv) / 16 {
            proof {
                let j = i - start;
                assert(16 * ((u64::MAX - dv) / 16) + 15 >= u64::MAX - dv) by (nonlinear_arith);
                assert(val * 16 >= (((u64::MAX - dv) / 16) + 1) * 16) by (nonlinear_arith)
                    requires
                        val > (u64::MAX - dv) / 16,
                ;
                assert(hex_value(d.take(j + 1)) > u64::MAX);
                lemma_hex_value_prefix_le(d, j + 1);
            }
            return None;
        }
        proof {
            assert(val * 16 + dv <= u64::MAX) by (nonlinear_arith)
                requires
                    val <= (u64::MAX - dv) / 16,
                    dv <= u64::MAX,
            ;
        }
        val = val * 16 + dv;
        i = i + 1;
    }
    proof {
        assert(d.take(i - start) =~= d);
    }
    Some(val)
}

/// The lowercase hex encoding of the SHA-256 digest of a string's UTF-8 bytes,
/// as ASCII bytes.
pub uninterp spec fn sha256_hex(s: Seq<char>) -> Seq<u8>;

/// Relies on sha256::digest: the hex encoding of the 32-byte SHA-256 digest of
/// the string's UTF-8 bytes - 64 lowercase hex characters, a function of the
/// input alone.
#[verifier::external_body]
fn sha256_hex_bytes(s: &str) -> (r: Vec<u8>)
    ensures
        r@ == sha256_hex(s@),
        r@.len() == 64,
        forall|i: int| 0 <= i < r@.len() ==> is_lower_hex_digit(r@[i]),
{
    sha256::digest(s).into_bytes()
}

/// What the daily seed is for a date string: the base-16 value of the first
/// 16 characters of the date's hex digest, or a derivation error when that
/// prefix does not parse.
pub open spec fn spec_seed_from_date(d: Seq<char>) -> Result<u64, SeedDerivationError> {
    match spec_hex_to_u64(sha256_hex(d).take(16)) {
        Some(v) => Ok(v),
        None => Err(SeedDerivationError),
    }
}

/// Derives the deterministic daily seed from a date string, normally the
/// date's canonical "YYYY-MM-DD" form. The digest prefix is always 16
/// lowercase hex digits, so the derivation in fact always succeeds.
pub fn seed_from_date(date: &str) -> (r: Result<u64, SeedDerivationError>)
    ensures
        r == spec_seed_from_date(date@),
        r is Ok,
{
    let digest = sha256_hex_bytes(date);
    let prefix = slice_subrange(digest.as_slice(), 0, 16);
    let ghost p = sha256_hex(date@).take(16);
    proof {
        assert(prefix@ =~= p);
        assert(forall|i: int| 0 <= i < p.len() ==> is_hex_digit(#[trigger] p[i]));
        assert(p[0] != 43);
        assert(hex_numeral_body(p) =~= p);
        lemma_hex_value_bound(p);
        assert(pow16(16) == 0x1_0000_0000_0000_0000) by {
            reveal_with_fuel(pow16, 17);
        }
    }
    match hex_to_u64(prefix) {
        Some(v) => Ok(v),
        None => unreached(),
    }
}

/// The derived seed is a function of the calendar date alone: any two
/// derivations from the same date string yield the same seed.
pub proof fn lemma_seed_from_date_deterministic(d1: Seq<char>, d2: Seq<char>)
    requires
        d1 == d2,
    ensures
        spec_seed_from_date(d1) == spec_seed_from_date(d2),
{
}

} // verus!
