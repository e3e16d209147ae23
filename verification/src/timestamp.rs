//! Request timestamps: parsing the decimal seconds a client sends, and the
//! freshness window that bounds how old a signed request may be.

use vstd::prelude::*;

verus! {

use vstd::string::StrSliceExecFns;

/// Whether a character is a decimal digit.
pub open spec fn is_decimal_digit(c: char) -> bool {
    48 <= c as u32 <= 57
}

/// The numeric value of a decimal digit character.
pub open spec fn digit_value(c: char) -> nat
    recommends
        is_decimal_digit(c),
{
    (c as u32 - 48) as nat
}

/// Whether every character of the sequence is a decimal digit.
pub open spec fn all_decimal_digits(s: Seq<char>) -> bool {
    forall|i: int| 0 <= i < s.len() ==> is_decimal_digit(#[trigger] s[i])
}

/// The number a sequence of decimal digits denotes, most significant first.
pub open spec fn decimal_value(s: Seq<char>) -> nat
    decreases s.len(),
{
    if s.len() == 0 {
        0
    } else {
        decimal_value(s.drop_last()) * 10 + digit_value(s.last())
    }
}

/// The digits of an unsigned decimal literal: a single leading plus sign is
/// accepted, as Rust's integer parsing accepts it.
pub open spec fn digits_of(s: Seq<char>) -> Seq<char> {
    if s.len() > 0 && s[0] == '+' {
        s.drop_first()
    } else {
        s
    }
}

/// Whether a string parses as a `u64`: at least one digit, nothing but
/// digits after an optional plus sign, and a value that fits.
pub open spec fn parses_as_u64(s: Seq<char>) -> bool {
    let d = digits_of(s);
    d.len() > 0 && all_decimal_digits(d) && decimal_value(d) <= u64::MAX
}

/// The value a string parses to.
pub open spec fn u64_value_of(s: Seq<char>) -> nat {
    decimal_value(digits_of(s))
}

/// A digit string denotes at least as much as any of its prefixes.
proof fn lemma_decimal_value_prefix(s: Seq<char>, k: int)
    requires
        0 <= k <= s.len(),
    ensures
        decimal_value(s) >= decimal_value(s.subrange(0, k)),
    decreases s.len() - k,
{
    if k < s.len() {
        lemma_decimal_value_prefix(s.drop_last(), k);
        assert(s.drop_last().subrange(0, k) =~= s.subrange(0, k));
    } else {
        assert(s.subrange(0, k) =~= s);
    }
}

/// Parses a string as an unsigned 64-bit decimal, exactly as Rust's `parse`
/// does: `Some` on well-formed input whose value fits, `None` otherwise.
pub fn parse_u64(s: &str) -> (r: Option<u64>)
    ensures
        parses_as_u64(s@) ==> (r matches Some(v) && v == u64_value_of(s@)),
        !parses_as_u64(s@) ==> r is None,
{
    let n = s.unicode_len();
    if n == 0 {
        return None;
    }
    let start: usize = if s.get_char(0) == '+' {
        1
    } else {
        0
    };
    if n == start {
        return None;
    }
    let ghost digits = digits_of(s@);
    proof {
        assert(digits =~= s@.subrange(start as int, n as int));
    }
    let mut value: u64 = 0;
    let mut i: usize = start;
    while i < n
        invariant
            start <= i <= n,
            n == s@.len(),
            digits == digits_of(s@),
            digits =~= s@.subrange(start as int, n as int),
            all_decimal_digits(s@.subrange(start as int, i as int)),
            value == decimal_value(s@.subrange(start as int, i as int)),
        decreases n - i,
    {
        let c = s.get_char(i);
        if !('0' <= c && c <= '9') {
            proof {
                assert(digits[i - start] == s@[i as int]);
                assert(!is_decimal_digit(digits[i - start]));
            }
            return None;
        }
        let d = (c as u32 - 48) as u64;
        let ghost prefix = s@.subrange(start as int, i as int);
        let ghost extended = s@.subrange(start as int, (i + 1) as int);
        proof {
            assert(extended.drop_last() =~= prefix);
            assert(extended.last() == s@[i as int]);
            assert(decimal_value(extended) == value * 10 + d);
        }
        if value > (u64::MAX - d) / 10 {
            proof {
                assert(value * 10 + d > u64::MAX) by (nonlinear_arith)
                    requires
                        value > (u64::MAX - d) / 10,
                        d <= 9,
                        (u64::MAX - d) / 10 == ((u64::MAX - d) as int) / 10,
                ;
                assert(extended =~= digits.subrange(0, (i + 1 - start) as int));
                lemma_decimal_value_prefix(digits, (i + 1 - start) as int);
                assert(decimal_value(digits) > u64::MAX);
            }
            return None;
        }
        proof {
            assert(value * 10 + d <= u64::MAX) by (nonlinear_arith)
                requires
                    value <= (u64::MAX - d) / 10,
                    d <= 9,
            ;
        }
        value = value * 10 + d;
        i += 1;
    }
    proof {
        assert(s@.subrange(start as int, i as int) =~= digits);
    }
    Some(value)
}

/// How far in the past a timestamp lies, by saturating subtraction: a
/// timestamp in the future counts as age zero, tolerating clock skew in the
/// client's favor.
pub open spec fn request_age(now: u64, timestamp: u64) -> nat {
    if now >= timestamp {
        (now - timestamp) as nat
    } else {
        0
    }
}

/// Whether a request signed at `timestamp` is still fresh at `now`, under a
/// freshness window of `max_ttl` seconds.
pub open spec fn timestamp_is_fresh(now: u64, timestamp: u64, max_ttl: u64) -> bool {
    request_age(now, timestamp) <= max_ttl
}

/// Decides freshness of a timestamp against the wall-clock reading `now`.
pub fn timestamp_within_ttl(now: u64, timestamp: u64, max_ttl: u64) -> (r: bool)
    ensures
        r == timestamp_is_fresh(now, timestamp, max_ttl),
{
    let age = if now >= timestamp {
        now - timestamp
    } else {
        0
    };
    max_ttl >= age
}

} // verus!
