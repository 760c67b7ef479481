//! Page envelopes: one page of records with the links to its neighbours.
//!
//! Upstream pages its lists in two ways. Lists paged by number report how
//! many records there are in all; lists paged by cursor do not. Both give the
//! neighbouring pages as absolute URLs: the page number or the cursor of the
//! next page is a parameter of the query of `next`, and is read from there.

use crate::decode::{
    all_decodable, array_member, decodes_each, get_long, get_records, get_text, long_member,
    long_of, text_member, text_of, FromJson,
};
use crate::json::Json;
use crate::links::{query_param, query_value};
use crate::text::{parse_i32, signed_literal_within};
use vstd::prelude::*;

verus! {

/// The least number of pages of `page_size` records that hold `count`
/// records.
pub open spec fn pages_needed(count: nat, page_size: nat) -> nat
    recommends
        page_size > 0,
{
    if count % page_size == 0 {
        count / page_size
    } else {
        count / page_size + 1
    }
}

/// `pages_needed` is the ceiling of the quotient: the pages hold all the
/// records, and one page less would not.
pub proof fn lemma_pages_needed_is_ceiling(count: nat, page_size: nat)
    requires
        page_size > 0,
    ensures
        pages_needed(count, page_size) * page_size >= count,
        count > 0 ==> (pages_needed(count, page_size) - 1) * page_size < count,
        count == 0 ==> pages_needed(count, page_size) == 0,
{
    assert(count == page_size * (count / page_size) + count % page_size) by (nonlinear_arith)
        requires
            page_size > 0,
    ;
    assert(0 <= count % page_size < page_size) by (nonlinear_arith)
        requires
            page_size > 0,
    ;
    let q = count / page_size;
    assert((q + 1) * page_size == q * page_size + page_size) by (nonlinear_arith);
    assert((q - 1) * page_size == q * page_size - page_size) by (nonlinear_arith);
    assert(q * page_size == page_size * q) by (nonlinear_arith);
    if count == 0 {
        assert(0nat / page_size == 0) by (nonlinear_arith)
            requires
                page_size > 0,
        ;
    }
}

/// Ceiling division.
pub fn div_ceil(count: usize, page_size: usize) -> (pages: usize)
    requires
        page_size > 0,
    ensures
        pages == pages_needed(count as nat, page_size as nat),
{
    let q: usize = count / page_size;
    let r: usize = count % page_size;
    if r == 0 {
        q
    } else {
        assert(q < usize::MAX) by (nonlinear_arith)
            requires
                q == count / page_size,
                count % page_size != 0,
                page_size > 0,
                count <= usize::MAX,
        {
            if page_size == 1 {
                assert(count % 1 == 0);
            }
        }
        q + 1
    }
}

/// A paginated response using page numbers.
#[derive(Debug, Clone)]
pub struct PaginatedResponse<T> {
    /// Total count of items.
    pub count: Option<i64>,
    /// URL for the next page.
    pub next: Option<String>,
    /// URL for the previous page.
    pub previous: Option<String>,
    /// The results for this page.
    pub results: Vec<T>,
}

impl<T> PaginatedResponse<T> {
    /// Returns true if there is a next page.
    pub fn has_next(&self) -> (yes: bool)
        ensures
            yes == self.next.is_some(),
    {
        self.next.is_some()
    }

    /// Returns true if there is a previous page.
    pub fn has_previous(&self) -> (yes: bool)
        ensures
            yes == self.previous.is_some(),
    {
        self.previous.is_some()
    }

    /// Returns the total number of pages, if the count is available: the
    /// count divided by the page size, rounded up. A count that `usize`
    /// cannot hold is first reduced to it as an `as` cast does.
    pub fn total_pages(&self, page_size: usize) -> (pages: Option<usize>)
        requires
            page_size > 0,
        ensures
            self.count is None ==> pages is None,
            self.count matches Some(count) ==> pages == Some(
                pages_needed((count as usize) as nat, page_size as nat) as usize,
            ),
    {
        match self.count {
            Some(count) => {
                let records: usize = #[verifier::truncate]
                (count as usize);
                Some(div_ceil(records, page_size))
            },
            None => None,
        }
    }
}

/// A page is read from an object. `results` must be an array of which every
/// element can be read; the count and the links are optional, and are absent
/// where they are missing, `null` or of another type.
impl<T: FromJson> FromJson for PaginatedResponse<T> {
    open spec fn decodable(json: Json) -> bool {
        array_member(json, "results"@) matches Some(items) && all_decodable::<T>(items)
    }

    open spec fn decodes(json: Json, value: Self) -> bool {
        &&& long_of(value.count) == long_member(json, "count"@)
        &&& text_of(value.next) == text_member(json, "next"@)
        &&& text_of(value.previous) == text_member(json, "previous"@)
        &&& array_member(json, "results"@) matches Some(items) && decodes_each::<T>(
            items,
            value.results@,
        )
    }

    fn from_json(raw: &serde_json::Value) -> (r: Option<Self>) {
        let count = get_long(raw, "count");
        let next = get_text(raw, "next");
        let previous = get_text(raw, "previous");
        match get_records::<T>(raw, "results") {
            Some(results) => Some(PaginatedResponse { count, next, previous, results }),
            None => None,
        }
    }
}

/// A cursor-based paginated response.
#[derive(Debug, Clone)]
pub struct CursorPaginatedResponse<T> {
    /// Cursor for the next page.
    pub next: Option<String>,
    /// Cursor for the previous page.
    pub previous: Option<String>,
    /// The results for this page.
    pub results: Vec<T>,
}

impl<T> CursorPaginatedResponse<T> {
    /// What the `next` link holds under a query parameter.
    pub open spec fn next_value(self, name: Seq<char>) -> Option<Seq<char>> {
        match self.next {
            Some(url) => query_value(url@, name),
            None => None,
        }
    }

    /// The page number that the `next` link holds: its `page` parameter, read
    /// as a 32-bit decimal integer.
    pub open spec fn next_page_number(self) -> Option<int> {
        match self.next_value("page"@) {
            Some(text) => signed_literal_within(text, i32::MIN as int, i32::MAX as int),
            None => None,
        }
    }

    /// Returns true if there is a next page.
    pub fn has_next(&self) -> (yes: bool)
        ensures
            yes == self.next.is_some(),
    {
        self.next.is_some()
    }

    /// Returns true if there is a previous page.
    pub fn has_previous(&self) -> (yes: bool)
        ensures
            yes == self.previous.is_some(),
    {
        self.previous.is_some()
    }

    /// Extracts the cursor value from the next URL: the `cursor` parameter of
    /// its query. `None` if there is no next URL, if it is no URL, or if it
    /// has no such parameter.
    pub fn next_cursor(&self) -> (cursor: Option<String>)
        ensures
            cursor is Some <==> self.next_value("cursor"@) is Some,
            cursor matches Some(c) ==> self.next_value("cursor"@) == Some(c@),
    {
        match &self.next {
            Some(url) => query_param(url.as_str(), "cursor"),
            None => None,
        }
    }

    /// Extracts the page number from the next URL: the `page` parameter of
    /// its query. `None` if there is no next URL, if it is no URL, if it has
    /// no such parameter, or if the parameter is no 32-bit decimal integer.
    pub fn next_page(&self) -> (page: Option<i32>)
        ensures
            page is Some <==> self.next_page_number() is Some,
            page matches Some(p) ==> self.next_page_number() == Some(p as int),
    {
        match &self.next {
            Some(url) => match query_param(url.as_str(), "page") {
                Some(text) => parse_i32(text.as_str()),
                None => None,
            },
            None => None,
        }
    }
}

/// A page is read from an object. `results` must be an array of which every
/// element can be read; the links are optional, and are absent where they are
/// missing, `null` or of another type.
impl<T: FromJson> FromJson for CursorPaginatedResponse<T> {
    open spec fn decodable(json: Json) -> bool {
        array_member(json, "results"@) matches Some(items) && all_decodable::<T>(items)
    }

    open spec fn decodes(json: Json, value: Self) -> bool {
        &&& text_of(value.next) == text_member(json, "next"@)
        &&& text_of(value.previous) == text_member(json, "previous"@)
        &&& array_member(json, "results"@) matches Some(items) && decodes_each::<T>(
            items,
            value.results@,
        )
    }

    fn from_json(raw: &serde_json::Value) -> (r: Option<Self>) {
        let next = get_text(raw, "next");
        let previous = get_text(raw, "previous");
        match get_records::<T>(raw, "results") {
            Some(results) => Some(CursorPaginatedResponse { next, previous, results }),
            None => None,
        }
    }
}

} // verus!
