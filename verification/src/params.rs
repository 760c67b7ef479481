//! Query parameters: an ordered list of name and value texts.
//!
//! A filter that is not set contributes nothing to the list: upstream reads
//! an absent parameter as "no constraint", which a parameter with an empty
//! value is not. Values are written as upstream expects them: text as it is,
//! booleans as `true` and `false`, integers in decimal, real numbers by
//! their literal.

use crate::decimal::Decimal;
use crate::models::enums::GeomaterialsOrdering;
use crate::text::{decimal_text, format_i32};
use vstd::prelude::*;
use vstd::string::StringSliceAdditionalSpecFns;

verus! {

/// The parameters of a list, each as a pair of name and value characters.
pub open spec fn pairs_view(pairs: Seq<(String, String)>) -> Seq<(Seq<char>, Seq<char>)> {
    pairs.map_values(|p: (String, String)| (p.0@, p.1@))
}

/// How a boolean is written.
pub open spec fn bool_text(value: bool) -> Seq<char> {
    if value {
        "true"@
    } else {
        "false"@
    }
}

/// What a text filter contributes.
pub open spec fn text_param(name: Seq<char>, value: Option<String>) -> Seq<
    (Seq<char>, Seq<char>),
> {
    match value {
        Some(v) => seq![(name, v@)],
        None => seq![],
    }
}

/// What a boolean filter contributes.
pub open spec fn bool_param(name: Seq<char>, value: Option<bool>) -> Seq<(Seq<char>, Seq<char>)> {
    match value {
        Some(v) => seq![(name, bool_text(v))],
        None => seq![],
    }
}

/// What an integer filter contributes.
pub open spec fn int_param(name: Seq<char>, value: Option<i32>) -> Seq<(Seq<char>, Seq<char>)> {
    match value {
        Some(v) => seq![(name, decimal_text(v as int))],
        None => seq![],
    }
}

/// What a real-number filter contributes.
pub open spec fn decimal_param(name: Seq<char>, value: Option<Decimal>) -> Seq<
    (Seq<char>, Seq<char>),
> {
    match value {
        Some(v) => seq![(name, v@)],
        None => seq![],
    }
}

/// What an ordering contributes.
pub open spec fn ordering_param(name: Seq<char>, value: Option<GeomaterialsOrdering>) -> Seq<
    (Seq<char>, Seq<char>),
> {
    match value {
        Some(v) => seq![(name, v.token())],
        None => seq![],
    }
}

/// The size of a text in bytes.
pub open spec fn text_size(text: Seq<char>) -> nat {
    vstd::utf8::encode_utf8(text).len()
}

/// The room that a list of parameters takes before it is encoded: the bytes
/// of each name and value, and two separators for each pair.
pub open spec fn pairs_size(pairs: Seq<(Seq<char>, Seq<char>)>) -> nat
    decreases pairs.len(),
{
    if pairs.len() == 0 {
        0
    } else {
        pairs_size(pairs.drop_last()) + text_size(pairs.last().0) + text_size(pairs.last().1) + 2
    }
}

/// A list never takes less room than one of its prefixes.
pub proof fn lemma_pairs_size_prefix(pairs: Seq<(Seq<char>, Seq<char>)>, k: int)
    requires
        0 <= k <= pairs.len(),
    ensures
        pairs_size(pairs.take(k)) <= pairs_size(pairs),
    decreases pairs.len(),
{
    if k == pairs.len() {
        assert(pairs.take(k) =~= pairs);
    } else {
        lemma_pairs_size_prefix(pairs.drop_last(), k);
        assert(pairs.drop_last().take(k) =~= pairs.take(k));
    }
}

/// Whether a list of parameters takes no more room than `limit`.
pub fn pairs_fit(pairs: &Vec<(String, String)>, limit: usize) -> (yes: bool)
    requires
        limit <= 0x1000_0000,
    ensures
        yes == (pairs_size(pairs_view(pairs@)) <= limit),
{
    let ghost all = pairs_view(pairs@);
    let mut total: usize = 0;
    let mut i: usize = 0;
    assert(all.take(0) =~= Seq::empty());
    while i < pairs.len()
        invariant
            0 <= i <= pairs.len(),
            all == pairs_view(pairs@),
            limit <= 0x1000_0000,
            total == pairs_size(all.take(i as int)),
            total <= limit,
        decreases pairs.len() - i,
    {
        let name = pairs[i].0.as_str().as_bytes().len();
        let value = pairs[i].1.as_str().as_bytes().len();
        let ghost next = all.take(i + 1);
        proof {
            assert(next.drop_last() =~= all.take(i as int));
            assert(next.last() == all[i as int]);
            assert(name == text_size(all[i as int].0));
            assert(value == text_size(all[i as int].1));
            lemma_pairs_size_prefix(all, i + 1);
        }
        if name > limit || value > limit {
            return false;
        }
        total = total + name + value + 2;
        if total > limit {
            return false;
        }
        i = i + 1;
    }
    assert(all.take(pairs.len() as int) =~= all);
    true
}

/// Appends one parameter.
pub fn push_pair(out: &mut Vec<(String, String)>, name: &str, value: String)
    ensures
        pairs_view(final(out)@) == pairs_view(old(out)@) + seq![(name@, value@)],
{
    out.push((name.to_owned(), value));
    assert(pairs_view(out@) =~= pairs_view(old(out)@) + seq![(name@, value@)]);
}

/// Appends a text filter if it is set.
pub fn push_text(out: &mut Vec<(String, String)>, name: &str, value: &Option<String>)
    ensures
        pairs_view(final(out)@) == pairs_view(old(out)@) + text_param(name@, *value),
{
    match value {
        Some(v) => push_pair(out, name, v.clone()),
        None => {
            assert(pairs_view(out@) =~= pairs_view(out@) + Seq::empty());
        },
    }
}

/// Appends a boolean filter if it is set.
pub fn push_bool(out: &mut Vec<(String, String)>, name: &str, value: Option<bool>)
    ensures
        pairs_view(final(out)@) == pairs_view(old(out)@) + bool_param(name@, value),
{
    match value {
        Some(v) => {
            let text = if v {
                "true"
            } else {
                "false"
            };
            push_pair(out, name, text.to_owned())
        },
        None => {
            assert(pairs_view(out@) =~= pairs_view(out@) + Seq::empty());
        },
    }
}

/// Appends an integer filter if it is set.
pub fn push_int(out: &mut Vec<(String, String)>, name: &str, value: Option<i32>)
    ensures
        pairs_view(final(out)@) == pairs_view(old(out)@) + int_param(name@, value),
{
    match value {
        Some(v) => push_pair(out, name, format_i32(v)),
        None => {
            assert(pairs_view(out@) =~= pairs_view(out@) + Seq::empty());
        },
    }
}

/// Appends a real-number filter if it is set.
pub fn push_decimal(out: &mut Vec<(String, String)>, name: &str, value: &Option<Decimal>)
    ensures
        pairs_view(final(out)@) == pairs_view(old(out)@) + decimal_param(name@, *value),
{
    match value {
        Some(v) => push_pair(out, name, v.to_string()),
        None => {
            assert(pairs_view(out@) =~= pairs_view(out@) + Seq::empty());
        },
    }
}

/// Appends an ordering if it is set.
pub fn push_ordering(
    out: &mut Vec<(String, String)>,
    name: &str,
    value: Option<GeomaterialsOrdering>,
)
    ensures
        pairs_view(final(out)@) == pairs_view(old(out)@) + ordering_param(name@, value),
{
    match value {
        Some(v) => push_pair(out, name, v.to_string()),
        None => {
            assert(pairs_view(out@) =~= pairs_view(out@) + Seq::empty());
        },
    }
}

} // verus!
