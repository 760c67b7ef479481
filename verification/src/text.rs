//! Text primitives shared by the rest of the crate: comparing string slices,
//! reading decimal integer literals and writing integers as decimal text.
//!
//! Decimal literals follow the syntax of the standard integer `FromStr`
//! impls: an optional sign directly followed by one or more ASCII digits,
//! nothing before and nothing after. Unsigned targets accept `+` only.

use vstd::prelude::*;
use vstd::string::StringSliceAdditionalSpecFns;

verus! {

broadcast use vstd::string::is_ascii_spec_bytes;

/// `str`'s `==`: two string slices are equal exactly when they hold the same
/// characters in the same order.
pub assume_specification[ <str as PartialEq>::eq ](a: &str, b: &str) -> (same: bool)
    ensures
        same == (a@ == b@),
;

/// `String::push`: the character is appended at the end, the rest of the
/// string is untouched.
pub assume_specification[ String::push ](s: &mut String, c: char)
    ensures
        final(s)@ == old(s)@.push(c),
;

/// An ASCII decimal digit.
pub open spec fn is_digit(c: char) -> bool {
    '0' <= c && c <= '9'
}

/// The number a digit stands for.
pub open spec fn digit_value(c: char) -> nat {
    (c as int - '0' as int) as nat
}

/// Every character of `s` is a decimal digit.
pub open spec fn all_digits(s: Seq<char>) -> bool {
    forall|i: int| 0 <= i < s.len() ==> is_digit(#[trigger] s[i])
}

/// The number written by a run of digits, most significant first.
pub open spec fn digits_value(s: Seq<char>) -> nat
    decreases s.len(),
{
    if s.len() == 0 {
        0
    } else {
        digits_value(s.drop_last()) * 10 + digit_value(s.last())
    }
}

/// The value of an unsigned decimal literal: an optional `+`, then at least
/// one digit. `None` for anything else.
pub open spec fn unsigned_literal(s: Seq<char>) -> Option<nat> {
    let body = if s.len() > 0 && s[0] == '+' {
        s.skip(1)
    } else {
        s
    };
    if body.len() > 0 && all_digits(body) {
        Some(digits_value(body))
    } else {
        None
    }
}

/// The value of a signed decimal literal: an optional `+` or `-`, then at
/// least one digit. `None` for anything else.
pub open spec fn signed_literal(s: Seq<char>) -> Option<int> {
    if s.len() > 0 && s[0] == '-' {
        let body = s.skip(1);
        if body.len() > 0 && all_digits(body) {
            Some(-(digits_value(body) as int))
        } else {
            None
        }
    } else {
        match unsigned_literal(s) {
            Some(v) => Some(v as int),
            None => None,
        }
    }
}

/// A signed literal whose value lies in `lo..=hi`.
pub open spec fn signed_literal_within(s: Seq<char>, lo: int, hi: int) -> Option<int> {
    match signed_literal(s) {
        Some(v) if lo <= v <= hi => Some(v),
        _ => None,
    }
}

/// An unsigned literal whose value is at most `hi`.
pub open spec fn unsigned_literal_within(s: Seq<char>, hi: int) -> Option<int> {
    match unsigned_literal(s) {
        Some(v) if v <= hi => Some(v as int),
        _ => None,
    }
}

/// A run of digits never denotes less than one of its prefixes.
pub proof fn lemma_digits_value_prefix(s: Seq<char>, k: int)
    requires
        0 <= k <= s.len(),
    ensures
        digits_value(s.take(k)) <= digits_value(s),
    decreases s.len(),
{
    if k == s.len() {
        assert(s.take(k) =~= s);
    } else {
        lemma_digits_value_prefix(s.drop_last(), k);
        assert(s.drop_last().take(k) =~= s.take(k));
    }
}

/// A literal holds ASCII characters only.
pub proof fn lemma_literal_is_ascii(s: Seq<char>)
    requires
        signed_literal(s) is Some,
    ensures
        vstd::utf8::is_ascii_chars(s),
{
    let signed = s.len() > 0 && (s[0] == '-' || s[0] == '+');
    let body = if signed {
        s.skip(1)
    } else {
        s
    };
    assert(all_digits(body));
    assert forall|i: int| 0 <= i < s.len() implies '\0' <= #[trigger] s[i] <= '\u{7f}' by {
        if signed {
            if i > 0 {
                assert(is_digit(body[i - 1]));
            }
        } else {
            assert(is_digit(body[i]));
        }
    }
}

/// Reads the digits of `s` from character `start` to the end.
fn read_digits(s: &str, start: usize) -> (r: Option<u64>)
    requires
        vstd::string::is_ascii(s),
        start <= s@.len(),
    ensures
        r is Some <==> s@.skip(start as int).len() > 0 && all_digits(s@.skip(start as int))
            && digits_value(s@.skip(start as int)) <= u64::MAX,
        r matches Some(v) ==> v == digits_value(s@.skip(start as int)),
{
    let bytes = s.as_bytes();
    let n = bytes.len();
    let ghost body = s@.skip(start as int);
    if start == n {
        return None;
    }
    let mut acc: u64 = 0;
    let mut i: usize = start;
    assert(body.take(0) =~= Seq::<char>::empty());
    while i < n
        invariant
            vstd::string::is_ascii(s),
            bytes@ == s.spec_bytes(),
            n == s@.len(),
            body == s@.skip(start as int),
            start <= i <= n,
            all_digits(body.take(i - start)),
            acc == digits_value(body.take(i - start)),
        decreases n - i,
    {
        let b: u8 = bytes[i];
        let ghost next = body.take(i - start + 1);
        assert(next.drop_last() =~= body.take(i - start));
        assert(next.last() == s@[i as int]);
        assert(b == s@[i as int] as u8);
        if b < 48 || b > 57 {
            assert(!is_digit(body[i - start]));
            return None;
        }
        let d: u64 = (b - 48) as u64;
        assert(d == digit_value(s@[i as int]));
        if acc > (u64::MAX - d) / 10 {
            proof {
                assert(digits_value(next) > u64::MAX);
                lemma_digits_value_prefix(body, i - start + 1);
            }
            return None;
        }
        acc = acc * 10 + d;
        i = i + 1;
        assert(all_digits(next)) by {
            assert forall|j: int| 0 <= j < next.len() implies is_digit(#[trigger] next[j]) by {
                if j < next.len() - 1 {
                    assert(is_digit(body.take(i - start - 1)[j]));
                }
            }
        }
    }
    assert(body.take(n - start) =~= body);
    Some(acc)
}

/// Reads an unsigned decimal literal that fits 64 bits.
pub fn parse_u64(s: &str) -> (r: Option<u64>)
    ensures
        r is Some <==> unsigned_literal_within(s@, u64::MAX as int) is Some,
        r matches Some(v) ==> unsigned_literal_within(s@, u64::MAX as int) == Some(v as int),
{
    if !s.is_ascii() {
        proof {
            if unsigned_literal(s@) is Some {
                lemma_literal_is_ascii(s@);
            }
        }
        return None;
    }
    let bytes = s.as_bytes();
    if bytes.len() > 0 && bytes[0] == 43 {
        assert(s@[0] == '+');
        read_digits(s, 1)
    } else {
        assert(s@.len() > 0 ==> s@[0] != '+');
        assert(s@.skip(0) =~= s@);
        read_digits(s, 0)
    }
}

/// Reads a signed decimal literal that fits 64 bits.
pub fn parse_i64(s: &str) -> (r: Option<i64>)
    ensures
        r is Some <==> signed_literal_within(s@, i64::MIN as int, i64::MAX as int) is Some,
        r matches Some(v) ==> signed_literal_within(s@, i64::MIN as int, i64::MAX as int) == Some(
            v as int,
        ),
{
    if !s.is_ascii() {
        proof {
            if signed_literal(s@) is Some {
                lemma_literal_is_ascii(s@);
            }
        }
        return None;
    }
    let bytes = s.as_bytes();
    if bytes.len() > 0 && bytes[0] == 45 {
        assert(s@[0] == '-');
        match read_digits(s, 1) {
            Some(m) => {
                if m <= 0x7fff_ffff_ffff_ffff {
                    Some(-(m as i64))
                } else if m == 0x8000_0000_0000_0000 {
                    Some(i64::MIN)
                } else {
                    None
                }
            },
            None => None,
        }
    } else {
        assert(s@.len() > 0 ==> s@[0] != '-');
        match parse_u64(s) {
            Some(m) => {
                if m <= 0x7fff_ffff_ffff_ffff {
                    Some(m as i64)
                } else {
                    None
                }
            },
            None => None,
        }
    }
}

/// Reads a signed decimal literal that fits 32 bits.
pub fn parse_i32(s: &str) -> (r: Option<i32>)
    ensures
        r is Some <==> signed_literal_within(s@, i32::MIN as int, i32::MAX as int) is Some,
        r matches Some(v) ==> signed_literal_within(s@, i32::MIN as int, i32::MAX as int) == Some(
            v as int,
        ),
{
    match parse_i64(s) {
        Some(v) => {
            if -0x8000_0000 <= v && v <= 0x7fff_ffff {
                Some(v as i32)
            } else {
                None
            }
        },
        None => None,
    }
}

/// Reads a signed decimal literal that fits 16 bits.
pub fn parse_i16(s: &str) -> (r: Option<i16>)
    ensures
        r is Some <==> signed_literal_within(s@, i16::MIN as int, i16::MAX as int) is Some,
        r matches Some(v) ==> signed_literal_within(s@, i16::MIN as int, i16::MAX as int) == Some(
            v as int,
        ),
{
    match parse_i64(s) {
        Some(v) => {
            if -0x8000 <= v && v <= 0x7fff {
                Some(v as i16)
            } else {
                None
            }
        },
        None => None,
    }
}

/// Reads an unsigned decimal literal that fits 32 bits.
pub fn parse_u32(s: &str) -> (r: Option<u32>)
    ensures
        r is Some <==> unsigned_literal_within(s@, u32::MAX as int) is Some,
        r matches Some(v) ==> unsigned_literal_within(s@, u32::MAX as int) == Some(v as int),
{
    match parse_u64(s) {
        Some(v) => {
            if v <= 0xffff_ffff {
                Some(v as u32)
            } else {
                None
            }
        },
        None => None,
    }
}

/// The character for a digit below ten.
pub open spec fn digit_char(d: nat) -> char {
    ('0' as int + d) as char
}

/// The digits of `n`, most significant first, without leading zeros.
pub open spec fn digits_of(n: nat) -> Seq<char>
    decreases n,
{
    if n < 10 {
        seq![digit_char(n)]
    } else {
        digits_of(n / 10).push(digit_char(n % 10))
    }
}

/// The decimal text of an integer: a `-` for a negative number, then its
/// digits.
pub open spec fn decimal_text(v: int) -> Seq<char> {
    if v < 0 {
        seq!['-'] + digits_of((-v) as nat)
    } else {
        digits_of(v as nat)
    }
}

/// The digits of a number are digits, there is at least one, and they denote
/// the number.
pub proof fn lemma_digits_of(n: nat)
    ensures
        digits_of(n).len() > 0,
        all_digits(digits_of(n)),
        digits_value(digits_of(n)) == n,
    decreases n,
{
    let s = digits_of(n);
    if n < 10 {
        assert(s.drop_last() =~= Seq::<char>::empty());
        assert(digits_value(s.drop_last()) == 0);
        assert(digit_value(s.last()) == n);
    } else {
        lemma_digits_of(n / 10);
        assert(s.drop_last() =~= digits_of(n / 10));
        assert(digit_value(s.last()) == n % 10);
        assert forall|i: int| 0 <= i < s.len() implies is_digit(#[trigger] s[i]) by {
            if i < s.len() - 1 {
                assert(is_digit(digits_of(n / 10)[i]));
            }
        }
    }
}

/// An integer is read back from its decimal text.
pub proof fn lemma_decimal_text_is_read_back(v: int)
    ensures
        signed_literal(decimal_text(v)) == Some(v),
        v >= 0 ==> unsigned_literal(decimal_text(v)) == Some(v as nat),
{
    let s = decimal_text(v);
    if v < 0 {
        let digits = digits_of((-v) as nat);
        lemma_digits_of((-v) as nat);
        assert(s[0] == '-');
        assert(s.skip(1) =~= digits);
    } else {
        lemma_digits_of(v as nat);
        assert(is_digit(s[0]));
    }
}

/// Appends the digits of `n` to `out`.
fn push_digits(out: &mut String, n: u64)
    ensures
        final(out)@ == old(out)@ + digits_of(n as nat),
    decreases n,
{
    if n >= 10 {
        push_digits(out, n / 10);
    }
    let d: u8 = (n % 10) as u8;
    let c: char = (48u8 + d) as char;
    assert(c == digit_char((n % 10) as nat));
    out.push(c);
    assert(final(out)@ =~= old(out)@ + digits_of(n as nat));
}

/// Writes a 64-bit integer as decimal text.
pub fn format_i64(v: i64) -> (s: String)
    ensures
        s@ == decimal_text(v as int),
{
    let mut out = String::new();
    if v < 0 {
        out.push('-');
        let m: u64 = if v == i64::MIN {
            0x8000_0000_0000_0000
        } else {
            (-v) as u64
        };
        push_digits(&mut out, m);
        assert(out@ =~= decimal_text(v as int));
    } else {
        push_digits(&mut out, v as u64);
        assert(out@ =~= decimal_text(v as int));
    }
    out
}

/// Writes a 32-bit integer as decimal text.
pub fn format_i32(v: i32) -> (s: String)
    ensures
        s@ == decimal_text(v as int),
{
    format_i64(v as i64)
}

} // verus!
