//! Decimal identifiers at the host boundary.
//!
//! Group, user and message ids travel as decimal strings and are 64-bit
//! signed integers internally. `parse_qq_id` accepts exactly what Rust's
//! `i64` parsing accepts: an optional single `+` or `-` sign, then one or
//! more ASCII digits, with the value in range. `i64_to_dec_string` is the
//! inverse direction, producing the canonical decimal form.
use vstd::prelude::*;
use vstd::string::StringExecFns;
use vstd::string::StrSliceExecFns;
use crate::errors::BotError;

verus! {

/// Whether `c` is an ASCII decimal digit.
pub open spec fn spec_is_dec_digit(c: char) -> bool {
    48 <= c as int <= 57
}

/// Whether every character of `s` is an ASCII decimal digit.
pub open spec fn spec_all_digits(s: Seq<char>) -> bool {
    forall|i: int| 0 <= i < s.len() ==> spec_is_dec_digit(#[trigger] s[i])
}

/// The integer denoted by a sequence of ASCII digits, most significant
/// first.
pub open spec fn spec_dec_value(s: Seq<char>) -> int
    decreases s.len(),
{
    if s.len() == 0 {
        0
    } else {
        spec_dec_value(s.drop_last()) * 10 + (s.last() as int - 48)
    }
}

/// The digit part of a decimal representation: what follows one leading
/// `+` or `-`, or all of it when there is no sign.
pub open spec fn spec_sign_digits(s: Seq<char>) -> Seq<char> {
    if s.len() > 0 && (s[0] == '+' || s[0] == '-') {
        s.drop_first()
    } else {
        s
    }
}

/// Whether the representation starts with a minus sign.
pub open spec fn spec_is_negative(s: Seq<char>) -> bool {
    s.len() > 0 && s[0] == '-'
}

/// What `i64` parsing makes of `s`: the denoted value, or `None` when `s`
/// is not an optional sign followed by at least one digit, or the value
/// does not fit in 64 signed bits.
pub open spec fn parsed_i64(s: Seq<char>) -> Option<int> {
    let d = spec_sign_digits(s);
    if d.len() == 0 || !spec_all_digits(d) {
        None
    } else {
        let v: int = if spec_is_negative(s) {
            -spec_dec_value(d)
        } else {
            spec_dec_value(d)
        };
        if i64::MIN <= v <= i64::MAX {
            Some(v)
        } else {
            None
        }
    }
}

proof fn lemma_dec_value_nonneg(s: Seq<char>)
    requires
        spec_all_digits(s),
    ensures
        spec_dec_value(s) >= 0,
    decreases s.len(),
{
    if s.len() > 0 {
        assert(spec_all_digits(s.drop_last())) by {
            assert(forall|i: int|
                0 <= i < s.len() - 1 ==> spec_is_dec_digit(#[trigger] s.drop_last()[i]));
        }
        lemma_dec_value_nonneg(s.drop_last());
    }
}

/// A digit string denotes at least as much as any of its prefixes.
proof fn lemma_dec_value_prefix(s: Seq<char>, n: int)
    requires
        spec_all_digits(s),
        0 <= n <= s.len(),
    ensures
        spec_dec_value(s.take(n)) <= spec_dec_value(s),
    decreases s.len(),
{
    if n < s.len() {
        let t = s.drop_last();
        assert(spec_all_digits(t)) by {
            assert(forall|i: int| 0 <= i < t.len() ==> spec_is_dec_digit(#[trigger] t[i]));
        }
        assert(s.take(n) =~= t.take(n));
        lemma_dec_value_prefix(t, n);
        lemma_dec_value_nonneg(t);
        assert(spec_dec_value(s) == spec_dec_value(t) * 10 + (s.last() as int - 48));
        assert(spec_dec_value(t) * 10 >= spec_dec_value(t)) by {
            assert(spec_dec_value(t) >= 0);
        }
    } else {
        assert(s.take(n) =~= s);
    }
}

/// Parses a decimal id exactly as `i64` parsing would; a string that `i64`
/// parsing rejects fails with `InvalidId`.
pub fn parse_qq_id(s: &str) -> (r: Result<i64, BotError>)
    ensures
        match r {
            Ok(v) => parsed_i64(s@) == Some(v as int),
            Err(e) => parsed_i64(s@) is None && e == BotError::InvalidId,
        },
{
    let n = s.unicode_len();
    let ghost whole = s@;
    let ghost d = spec_sign_digits(whole);
    if n == 0 {
        return Err(BotError::InvalidId);
    }
    let mut i: usize = 0;
    let mut neg = false;
    let c0 = s.get_char(0);
    if c0 == '+' {
        i = 1;
    } else if c0 == '-' {
        neg = true;
        i = 1;
    }
    let start = i;
    proof {
        assert(d =~= whole.subrange(start as int, n as int));
        assert(neg == spec_is_negative(whole));
    }
    if i == n {
        // a bare sign, or the empty string after it: no digits at all
        return Err(BotError::InvalidId);
    }
    let mut mag: u64 = 0;
    while i < n
        invariant
            start <= i <= n,
            start < n,
            n == whole.len(),
            whole == s@,
            start <= 1,
            neg == spec_is_negative(whole),
            d == spec_sign_digits(whole),
            d == whole.subrange(start as int, n as int),
            spec_all_digits(whole.subrange(start as int, i as int)),
            mag as int == spec_dec_value(whole.subrange(start as int, i as int)),
        decreases n - i,
    {
        let c = s.get_char(i);
        let cv = c as u32;
        let ghost seen = whole.subrange(start as int, i as int);
        if cv < 48 || cv > 57 {
            proof {
                assert(d[i - start] == c);
                assert(!spec_all_digits(d));
            }
            return Err(BotError::InvalidId);
        }
        proof {
            assert(whole.subrange(start as int, i + 1) =~= seen.push(c));
            assert(seen.push(c).drop_last() =~= seen);
            assert(spec_dec_value(seen.push(c)) == mag * 10 + (c as int - 48));
        }
        let stepped = match mag.checked_mul(10) {
            Some(m10) => m10.checked_add((cv - 48) as u64),
            None => None,
        };
        match stepped {
            Some(next) => {
                mag = next;
            },
            None => {
                // the digits read so far already exceed any 64-bit value
                proof {
                    let k = i + 1 - start;
                    assert(whole.subrange(start as int, i + 1) =~= d.take(k));
                    assert(spec_dec_value(d.take(k)) > u64::MAX);
                    if spec_all_digits(d) {
                        lemma_dec_value_prefix(d, k);
                    }
                }
                return Err(BotError::InvalidId);
            },
        }
        i = i + 1;
    }
    proof {
        assert(whole.subrange(start as int, n as int) =~= d);
    }
    if neg {
        if mag > 9223372036854775808u64 {
            return Err(BotError::InvalidId);
        }
        if mag == 9223372036854775808u64 {
            Ok(i64::MIN)
        } else {
            Ok(-(mag as i64))
        }
    } else {
        if mag > 9223372036854775807u64 {
            return Err(BotError::InvalidId);
        }
        Ok(mag as i64)
    }
}

/// The character for one decimal digit.
pub open spec fn spec_dec_digit_char(d: int) -> char {
    if d == 0 {
        '0'
    } else if d == 1 {
        '1'
    } else if d == 2 {
        '2'
    } else if d == 3 {
        '3'
    } else if d == 4 {
        '4'
    } else if d == 5 {
        '5'
    } else if d == 6 {
        '6'
    } else if d == 7 {
        '7'
    } else if d == 8 {
        '8'
    } else {
        '9'
    }
}

/// The decimal representation of a nonnegative integer, without sign or
/// leading zeros (a single `'0'` for zero).
pub open spec fn spec_dec_chars(n: int) -> Seq<char>
    decreases n,
{
    if n < 10 {
        seq![spec_dec_digit_char(n)]
    } else {
        spec_dec_chars(n / 10).push(spec_dec_digit_char(n % 10))
    }
}

/// The decimal representation of a 64-bit signed value, `'-'`-prefixed
/// when negative.
pub open spec fn spec_dec_chars_i64(v: int) -> Seq<char> {
    if v >= 0 {
        spec_dec_chars(v)
    } else {
        seq!['-'] + spec_dec_chars(-v)
    }
}

fn dec_digit_str(d: u64) -> (r: &'static str)
    requires
        d < 10,
    ensures
        r@ == seq![spec_dec_digit_char(d as int)],
{
    proof {
        reveal_strlit("0");
        reveal_strlit("1");
        reveal_strlit("2");
        reveal_strlit("3");
        reveal_strlit("4");
        reveal_strlit("5");
        reveal_strlit("6");
        reveal_strlit("7");
        reveal_strlit("8");
        reveal_strlit("9");
    }
    if d == 0 {
        "0"
    } else if d == 1 {
        "1"
    } else if d == 2 {
        "2"
    } else if d == 3 {
        "3"
    } else if d == 4 {
        "4"
    } else if d == 5 {
        "5"
    } else if d == 6 {
        "6"
    } else if d == 7 {
        "7"
    } else if d == 8 {
        "8"
    } else {
        "9"
    }
}

/// Formats a nonnegative value in decimal.
pub fn u64_to_dec_string(n: u64) -> (r: String)
    ensures
        r@ == spec_dec_chars(n as int),
    decreases n,
{
    if n < 10 {
        String::from_str(dec_digit_str(n))
    } else {
        let mut s = u64_to_dec_string(n / 10);
        s.append(dec_digit_str(n % 10));
        s
    }
}

/// Formats a 64-bit signed value in decimal, the inverse of `parse_qq_id`
/// on canonical representations.
pub fn i64_to_dec_string(v: i64) -> (r: String)
    ensures
        r@ == spec_dec_chars_i64(v as int),
{
    if v >= 0 {
        u64_to_dec_string(v as u64)
    } else {
        let m: u64 = if v == i64::MIN {
            9223372036854775808u64
        } else {
            (-v) as u64
        };
        proof {
            reveal_strlit("-");
        }
        let mut s = String::from_str("-");
        let digits = u64_to_dec_string(m);
        s.append(digits.as_str());
        s
    }
}

} // verus!
