//! URLs: parsing, resolving a reference against a base, reading and writing
//! the pairs of a query.
//!
//! The work is done by the `url` crate, which follows the WHATWG URL
//! standard. This module gives each call a contract. What the standard
//! defines over many pages is not restated here: a result is named, as a
//! function of the texts that go into the call, and the rest of the crate
//! reasons about those names.

use crate::params::{pairs_size, pairs_view, text_size};
use vstd::prelude::*;

verus! {

/// A parsed URL of the `url` crate.
#[verifier::external_type_specification]
#[verifier::external_body]
pub struct ExUrl(url::Url);

/// The reason why the `url` crate refused a text.
#[verifier::external_type_specification]
#[verifier::external_body]
pub struct ExParseError(url::ParseError);

/// The serialization of a URL: the text that `Url::as_str` hands out. A `Url`
/// is determined by it.
pub uninterp spec fn url_text(url: url::Url) -> Seq<char>;

/// The serialization of the URL that `Url::parse` reads from a text, `None`
/// where it refuses the text.
pub uninterp spec fn parsed_url(text: Seq<char>) -> Option<Seq<char>>;

/// The serialization of the URL that `Url::join` gives for a reference and a
/// base, the base given by its serialization. `None` where it refuses.
pub uninterp spec fn joined_url(base: Seq<char>, reference: Seq<char>) -> Option<Seq<char>>;

/// The name and value pairs that `Url::query_pairs` reads from the query of a
/// URL, the URL given by its serialization.
pub uninterp spec fn query_pairs_of(url: Seq<char>) -> Seq<(Seq<char>, Seq<char>)>;

/// The serialization of a URL after the given pairs were appended to its
/// query in `application/x-www-form-urlencoded` form.
pub uninterp spec fn url_with_pairs(url: Seq<char>, pairs: Seq<(Seq<char>, Seq<char>)>) -> Seq<
    char,
>;

/// `Url::parse`: reads an absolute URL. Succeeds exactly on the texts for
/// which [`parsed_url`] names a result, and then returns that URL.
#[verifier::external_body]
pub(crate) fn parse_url(text: &str) -> (r: Result<url::Url, url::ParseError>)
    ensures
        r matches Ok(url) ==> parsed_url(text@) == Some(url_text(url)),
        r is Err ==> parsed_url(text@) is None,
{
    url::Url::parse(text)
}

/// `Url::join`: resolves a reference against a base. Succeeds exactly where
/// [`joined_url`] names a result, and then returns that URL.
#[verifier::external_body]
pub(crate) fn join_url(base: &url::Url, reference: &str) -> (r: Result<url::Url, url::ParseError>)
    ensures
        r matches Ok(url) ==> joined_url(url_text(*base), reference@) == Some(url_text(url)),
        r is Err ==> joined_url(url_text(*base), reference@) is None,
{
    base.join(reference)
}

/// `Url::clone`: a URL with the same serialization.
pub assume_specification[ <url::Url as Clone>::clone ](url: &url::Url) -> (copy: url::Url)
    ensures
        url_text(copy) == url_text(*url),
;

/// `Url::as_str`: the serialization of the URL.
#[verifier::external_body]
pub(crate) fn url_as_str(url: &url::Url) -> (text: &str)
    ensures
        text@ == url_text(*url),
{
    url.as_str()
}

/// `Url::query_pairs`: the decoded pairs of the query, in their order, each
/// copied into owned strings.
#[verifier::external_body]
pub(crate) fn url_query_pairs(url: &url::Url) -> (pairs: Vec<(String, String)>)
    ensures
        pairs_view(pairs@) == query_pairs_of(url_text(*url)),
{
    url.query_pairs().into_owned().collect()
}

/// `Url::query_pairs_mut` and `Serializer::extend_pairs`: appends the pairs to
/// the query of the URL, in their order. The crate keeps offsets into a URL
/// in 32 bits and panics beyond them; encoding writes at most three bytes for
/// one, so the bound keeps the result within them.
#[verifier::external_body]
pub(crate) fn url_extend_pairs(url: url::Url, pairs: &Vec<(String, String)>) -> (out: url::Url)
    requires
        text_size(url_text(url)) + 3 * pairs_size(pairs_view(pairs@)) + 1 <= u32::MAX,
    ensures
        url_text(out) == url_with_pairs(url_text(url), pairs_view(pairs@)),
{
    let mut out = url;
    out.query_pairs_mut().extend_pairs(pairs.iter());
    out
}

/// The value of the first pair named `name`.
pub open spec fn first_value(pairs: Seq<(Seq<char>, Seq<char>)>, name: Seq<char>) -> Option<
    Seq<char>,
>
    decreases pairs.len(),
{
    if pairs.len() == 0 {
        None
    } else if pairs[0].0 == name {
        Some(pairs[0].1)
    } else {
        first_value(pairs.skip(1), name)
    }
}

/// Looks a parameter up by name. Where the name occurs more than once, the
/// first occurrence counts.
pub fn find_param(pairs: &Vec<(String, String)>, name: &str) -> (value: Option<String>)
    ensures
        value is Some <==> first_value(pairs_view(pairs@), name@) is Some,
        value matches Some(v) ==> first_value(pairs_view(pairs@), name@) == Some(v@),
{
    let mut i: usize = 0;
    let ghost all = pairs_view(pairs@);
    assert(all.skip(0) =~= all);
    while i < pairs.len()
        invariant
            0 <= i <= pairs.len(),
            all == pairs_view(pairs@),
            first_value(all, name@) == first_value(all.skip(i as int), name@),
        decreases pairs.len() - i,
    {
        let ghost rest = all.skip(i as int);
        assert(rest[0] == all[i as int]);
        if *pairs[i].0.as_str() == *name {
            return Some(pairs[i].1.clone());
        }
        assert(rest.skip(1) =~= all.skip(i + 1));
        i = i + 1;
    }
    None
}

/// What a URL text holds under a query parameter: the text is parsed, and the
/// first pair of that name is looked up in its query.
pub open spec fn query_value(url: Seq<char>, name: Seq<char>) -> Option<Seq<char>> {
    match parsed_url(url) {
        Some(parsed) => first_value(query_pairs_of(parsed), name),
        None => None,
    }
}

/// Reads a query parameter out of a URL text. `None` where the text is no URL
/// or its query holds no such parameter.
pub fn query_param(url: &str, name: &str) -> (value: Option<String>)
    ensures
        value is Some <==> query_value(url@, name@) is Some,
        value matches Some(v) ==> query_value(url@, name@) == Some(v@),
{
    match parse_url(url) {
        Ok(parsed) => {
            let pairs = url_query_pairs(&parsed);
            find_param(&pairs, name)
        },
        Err(_) => None,
    }
}

} // verus!
