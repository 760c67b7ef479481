//! Real numbers as text.
//!
//! Hardness, density, refractive index, coordinates and the like are real
//! numbers. This crate never computes with them: it reads them from a
//! response and writes them into a request. A [`Decimal`] therefore keeps the
//! literal itself, and is only ever built from text that a standard
//! floating-point `FromStr` impl accepts:
//!
//! ```text
//! Literal ::= Sign? ( 'inf' | 'infinity' | 'nan' | Number )
//! Number  ::= ( Digit+ | Digit+ '.' Digit* | Digit* '.' Digit+ ) Exp?
//! Exp     ::= 'e' Sign? Digit+
//! Sign    ::= [+-]
//! Digit   ::= [0-9]
//! ```
//!
//! Letters match in either case.

use crate::text::is_digit;
use vstd::prelude::*;
use vstd::string::StringSliceAdditionalSpecFns;

verus! {

broadcast use vstd::string::is_ascii_spec_bytes;

/// How many digits stand in `s` from position `from` on, without a gap.
pub open spec fn digit_run(s: Seq<char>, from: int) -> nat
    decreases s.len() - from,
{
    if 0 <= from < s.len() && is_digit(s[from]) {
        1 + digit_run(s, from + 1)
    } else {
        0
    }
}

/// An ASCII capital letter turned into its small letter; any other character
/// unchanged.
pub open spec fn ascii_lower(c: char) -> char {
    if 'A' <= c && c <= 'Z' {
        (c as int + 32) as char
    } else {
        c
    }
}

/// From position `from` to its end, `s` spells `word` (given in small
/// letters) in either case.
pub open spec fn spells(s: Seq<char>, from: int, word: Seq<char>) -> bool {
    &&& s.len() - from == word.len()
    &&& forall|i: int| 0 <= i < word.len() ==> ascii_lower(#[trigger] s[from + i]) == word[i]
}

/// From position `from` to its end, `s` is `inf`, `infinity` or `nan`.
pub open spec fn is_special(s: Seq<char>, from: int) -> bool {
    spells(s, from, seq!['i', 'n', 'f']) || spells(
        s,
        from,
        seq!['i', 'n', 'f', 'i', 'n', 'i', 't', 'y'],
    ) || spells(s, from, seq!['n', 'a', 'n'])
}

/// From position `from` to its end, `s` is an exponent: `e`, an optional
/// sign, one or more digits.
pub open spec fn is_exponent(s: Seq<char>, from: int) -> bool {
    &&& 0 <= from < s.len()
    &&& (s[from] == 'e' || s[from] == 'E')
    &&& {
        let digits = if from + 1 < s.len() && (s[from + 1] == '+' || s[from + 1] == '-') {
            from + 2
        } else {
            from + 1
        };
        digit_run(s, digits) > 0 && digits + digit_run(s, digits) == s.len()
    }
}

/// From position `from` to its end, `s` is a `Number` of the grammar.
pub open spec fn is_number(s: Seq<char>, from: int) -> bool {
    let whole = digit_run(s, from);
    let dot = from + whole;
    let has_dot = dot < s.len() && s[dot] == '.';
    let fraction = if has_dot {
        digit_run(s, dot + 1)
    } else {
        0
    };
    let rest = if has_dot {
        dot + 1 + fraction
    } else {
        dot
    };
    whole + fraction > 0 && (rest == s.len() || is_exponent(s, rest as int))
}

/// `s` is a `Literal` of the grammar.
pub open spec fn is_float_literal(s: Seq<char>) -> bool {
    let from: int = if s.len() > 0 && (s[0] == '+' || s[0] == '-') {
        1
    } else {
        0
    };
    is_special(s, from) || is_number(s, from)
}

/// Every position inside a run of digits holds a digit.
proof fn lemma_digit_run_covers(s: Seq<char>, from: int, i: int)
    requires
        0 <= from <= i < from + digit_run(s, from),
    ensures
        i < s.len(),
        is_digit(s[i]),
    decreases i - from,
{
    if i > from {
        lemma_digit_run_covers(s, from + 1, i);
    }
}

/// The first position at or after `from` that holds no digit.
fn skip_digits(text: &str, from: usize) -> (end: usize)
    requires
        vstd::string::is_ascii(text),
        from <= text@.len(),
    ensures
        end == from + digit_run(text@, from as int),
        end <= text@.len(),
{
    let bytes = text.as_bytes();
    let mut end: usize = from;
    while end < bytes.len() && 48 <= bytes[end] && bytes[end] <= 57
        invariant
            vstd::string::is_ascii(text),
            bytes@ == text.spec_bytes(),
            from <= end <= text@.len(),
            digit_run(text@, from as int) == (end - from) + digit_run(text@, end as int),
        decreases text@.len() - end,
    {
        assert(is_digit(text@[end as int]));
        end = end + 1;
    }
    assert(end < text@.len() ==> !is_digit(text@[end as int]));
    end
}

/// Whether `text`, from `from` to its end, spells `word` in either case.
fn spells_word(text: &str, from: usize, word: &str) -> (yes: bool)
    requires
        vstd::string::is_ascii(text),
        vstd::string::is_ascii(word),
        from <= text@.len(),
    ensures
        yes == spells(text@, from as int, word@),
{
    let bytes = text.as_bytes();
    let letters = word.as_bytes();
    let n = bytes.len();
    if n - from != letters.len() {
        return false;
    }
    let mut i: usize = 0;
    while i < letters.len()
        invariant
            vstd::string::is_ascii(text),
            vstd::string::is_ascii(word),
            bytes@ == text.spec_bytes(),
            letters@ == word.spec_bytes(),
            n == text@.len(),
            from <= text@.len(),
            text@.len() - from == word@.len(),
            0 <= i <= word@.len(),
            forall|j: int| 0 <= j < i ==> ascii_lower(#[trigger] text@[from + j]) == word@[j],
        decreases word@.len() - i,
    {
        let b: u8 = bytes[from + i];
        let low: u8 = if 65 <= b && b <= 90 {
            b + 32
        } else {
            b
        };
        assert(low == ascii_lower(text@[from + i]) as u8);
        assert(letters@[i as int] == word@[i as int] as u8);
        if low != letters[i] {
            assert(ascii_lower(text@[from + i]) != word@[i as int]);
            return false;
        }
        i = i + 1;
    }
    true
}

/// A real number, kept as the literal that denotes it.
#[derive(Debug, PartialEq, Eq)]
pub struct Decimal {
    text: String,
}

impl Clone for Decimal {
    fn clone(&self) -> (copy: Self)
        ensures
            copy@ == self@,
    {
        proof {
            use_type_invariant(self);
        }
        Decimal { text: self.text.clone() }
    }
}

impl View for Decimal {
    type V = Seq<char>;

    closed spec fn view(&self) -> Seq<char> {
        self.text@
    }
}

impl Decimal {
    #[verifier::type_invariant]
    spec fn well_formed(self) -> bool {
        is_float_literal(self.text@)
    }

    /// Keeps `text` if it is a literal of the grammar.
    pub fn parse(text: &str) -> (r: Option<Decimal>)
        ensures
            r is Some <==> is_float_literal(text@),
            r matches Some(d) ==> d@ == text@,
    {
        if is_literal(text) {
            Some(Decimal { text: text.to_owned() })
        } else {
            None
        }
    }

    /// The literal.
    pub fn as_str(&self) -> (text: &str)
        ensures
            text@ == self@,
            is_float_literal(text@),
    {
        proof {
            use_type_invariant(self);
        }
        self.text.as_str()
    }

    /// The literal, as an owned string.
    pub fn to_string(&self) -> (text: String)
        ensures
            text@ == self@,
            is_float_literal(text@),
    {
        proof {
            use_type_invariant(self);
        }
        self.text.clone()
    }
}

/// Whether `text` is a literal of the grammar.
pub fn is_literal(text: &str) -> (yes: bool)
    ensures
        yes == is_float_literal(text@),
{
    if !text.is_ascii() {
        proof {
            lemma_literal_is_ascii(text@);
        }
        return false;
    }
    let bytes = text.as_bytes();
    let ghost s = text@;
    let n = bytes.len();
    let from: usize = if n > 0 && (bytes[0] == 43 || bytes[0] == 45) {
        1
    } else {
        0
    };
    assert(s.len() > 0 ==> (bytes@[0] == 43 <==> s[0] == '+') && (bytes@[0] == 45 <==> s[0]
        == '-'));
    proof {
        reveal_strlit("inf");
        reveal_strlit("infinity");
        reveal_strlit("nan");
        assert("inf"@ =~= seq!['i', 'n', 'f']);
        assert("infinity"@ =~= seq!['i', 'n', 'f', 'i', 'n', 'i', 't', 'y']);
        assert("nan"@ =~= seq!['n', 'a', 'n']);
    }
    if spells_word(text, from, "inf") {
        return true;
    }
    if spells_word(text, from, "infinity") {
        return true;
    }
    if spells_word(text, from, "nan") {
        return true;
    }
    let dot = skip_digits(text, from);
    let has_dot = dot < n && bytes[dot] == 46;
    assert(has_dot == (dot < s.len() && s[dot as int] == '.'));
    let rest = if has_dot {
        skip_digits(text, dot + 1)
    } else {
        dot
    };
    let digits = if has_dot {
        rest - from - 1
    } else {
        rest - from
    };
    if digits == 0 {
        return false;
    }
    if rest == n {
        return true;
    }
    if bytes[rest] != 101 && bytes[rest] != 69 {
        assert(s[rest as int] != 'e' && s[rest as int] != 'E');
        return false;
    }
    assert(s[rest as int] == 'e' || s[rest as int] == 'E');
    let signed = rest + 1 < n && (bytes[rest + 1] == 43 || bytes[rest + 1] == 45);
    assert(signed == (rest + 1 < s.len() && (s[rest + 1] == '+' || s[rest + 1] == '-')));
    let start = if signed {
        rest + 2
    } else {
        rest + 1
    };
    let end = skip_digits(text, start);
    end > start && end == n
}

/// Text with a character outside ASCII is no literal.
pub proof fn lemma_literal_is_ascii(s: Seq<char>)
    requires
        !vstd::utf8::is_ascii_chars(s),
    ensures
        !is_float_literal(s),
{
    let bad = choose|i: int| 0 <= i < s.len() && !('\0' <= #[trigger] s[i] <= '\u{7f}');
    let from: int = if s.len() > 0 && (s[0] == '+' || s[0] == '-') {
        1
    } else {
        0
    };
    assert(bad >= from);
    if spells(s, from, seq!['i', 'n', 'f']) {
        assert(ascii_lower(s[from + (bad - from)]) == seq!['i', 'n', 'f'][bad - from]);
    }
    if spells(s, from, seq!['n', 'a', 'n']) {
        assert(ascii_lower(s[from + (bad - from)]) == seq!['n', 'a', 'n'][bad - from]);
    }
    if spells(s, from, seq!['i', 'n', 'f', 'i', 'n', 'i', 't', 'y']) {
        assert(ascii_lower(s[from + (bad - from)]) == seq!['i', 'n', 'f', 'i', 'n', 'i', 't', 'y'][bad
            - from]);
    }
    if is_number(s, from) {
        let whole = digit_run(s, from);
        let dot = from + whole;
        if bad < dot {
            lemma_digit_run_covers(s, from, bad);
        }
        let has_dot = dot < s.len() && s[dot] == '.';
        let fraction = if has_dot {
            digit_run(s, dot + 1)
        } else {
            0
        };
        let rest: int = if has_dot {
            dot + 1 + fraction
        } else {
            dot
        };
        if has_dot && dot < bad < rest {
            lemma_digit_run_covers(s, dot + 1, bad);
        }
        if bad >= rest {
            assert(is_exponent(s, rest));
            let digits = if rest + 1 < s.len() && (s[rest + 1] == '+' || s[rest + 1] == '-') {
                rest + 2
            } else {
                rest + 1
            };
            if bad >= digits {
                lemma_digit_run_covers(s, digits, bad);
            }
        }
    }
}

} // verus!
