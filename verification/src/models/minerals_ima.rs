//! IMA Mineral types for the Mindat API.

use crate::decode::{FromJson, get_int, get_text, int_member, text_member, text_of};
use crate::json::Json;
use crate::lenient::{
    get_lenient_ints,
    get_lenient_strings,
    ints_of,
    lenient_ints_member,
    lenient_strings_member,
    strings_of,
};
use crate::params::{int_param, pairs_view, push_int, push_text, text_param};
use vstd::prelude::*;

verus! {

/// An IMA-approved mineral from the Mindat database.
#[derive(Debug, Clone)]
pub struct ImaMaterial {
    /// Mindat ID.
    pub id: i32,
    /// Mineral name.
    pub name: Option<String>,
    /// IMA-approved formula.
    pub ima_formula: Option<String>,
    /// IMA symbol (3 letters).
    pub ima_symbol: Option<String>,
    /// IMA approval year.
    pub ima_year: Option<String>,
    /// Discovery year.
    pub discovery_year: Option<String>,
    /// IMA status values.
    pub ima_status: Option<Vec<String>>,
    /// IMA notes.
    pub ima_notes: Option<Vec<String>>,
    /// Type specimen storage location.
    pub type_specimen_store: Option<String>,
    /// Mindat long ID.
    pub mindat_longid: Option<String>,
    /// Mindat GUID.
    pub mindat_guid: Option<String>,
    /// Type localities.
    pub type_localities: Option<Vec<i32>>,
    /// Short description.
    pub description_short: Option<String>,
    /// Mindat formula.
    pub mindat_formula: Option<String>,
    /// Mindat formula note.
    pub mindat_formula_note: Option<String>,
}

impl FromJson for ImaMaterial {
    open spec fn decodable(json: Json) -> bool {
        &&& int_member(json, "id"@) is Some
    }

    open spec fn decodes(json: Json, value: Self) -> bool {
        &&& Some(value.id as int) == int_member(json, "id"@)
        &&& text_of(value.name) == text_member(json, "name"@)
        &&& text_of(value.ima_formula) == text_member(json, "ima_formula"@)
        &&& text_of(value.ima_symbol) == text_member(json, "ima_symbol"@)
        &&& text_of(value.ima_year) == text_member(json, "ima_year"@)
        &&& text_of(value.discovery_year) == text_member(json, "discovery_year"@)
        &&& strings_of(value.ima_status) == lenient_strings_member(json, "ima_status"@)
        &&& strings_of(value.ima_notes) == lenient_strings_member(json, "ima_notes"@)
        &&& text_of(value.type_specimen_store) == text_member(json, "type_specimen_store"@)
        &&& text_of(value.mindat_longid) == text_member(json, "mindat_longid"@)
        &&& text_of(value.mindat_guid) == text_member(json, "mindat_guid"@)
        &&& ints_of(value.type_localities) == lenient_ints_member(json, "type_localities"@)
        &&& text_of(value.description_short) == text_member(json, "description_short"@)
        &&& text_of(value.mindat_formula) == text_member(json, "mindat_formula"@)
        &&& text_of(value.mindat_formula_note) == text_member(json, "mindat_formula_note"@)
    }

    fn from_json(raw: &serde_json::Value) -> (r: Option<Self>) {
        let id = match get_int(raw, "id") {
            Some(found) => found,
            None => {
                return None;
            },
        };
        let name = get_text(raw, "name");
        let ima_formula = get_text(raw, "ima_formula");
        let ima_symbol = get_text(raw, "ima_symbol");
        let ima_year = get_text(raw, "ima_year");
        let discovery_year = get_text(raw, "discovery_year");
        let ima_status = get_lenient_strings(raw, "ima_status");
        let ima_notes = get_lenient_strings(raw, "ima_notes");
        let type_specimen_store = get_text(raw, "type_specimen_store");
        let mindat_longid = get_text(raw, "mindat_longid");
        let mindat_guid = get_text(raw, "mindat_guid");
        let type_localities = get_lenient_ints(raw, "type_localities");
        let description_short = get_text(raw, "description_short");
        let mindat_formula = get_text(raw, "mindat_formula");
        let mindat_formula_note = get_text(raw, "mindat_formula_note");
        Some(ImaMaterial {
            id,
            name,
            ima_formula,
            ima_symbol,
            ima_year,
            discovery_year,
            ima_status,
            ima_notes,
            type_specimen_store,
            mindat_longid,
            mindat_guid,
            type_localities,
            description_short,
            mindat_formula,
            mindat_formula_note,
        })
    }
}

/// Builder for IMA minerals query parameters.
///
/// `id_in` and `expand` have no upstream parameter: they are kept in the
/// query and not sent.
#[derive(Debug, Clone)]
pub struct ImaMineralsQuery {
    /// Search query.
    pub q: Option<String>,
    /// IMA filter.
    pub ima: Option<i32>,
    /// Filter by IDs.
    pub id_in: Option<Vec<i32>>,
    /// Updated after datetime.
    pub updated_at: Option<String>,
    /// Fields to include.
    pub fields: Option<String>,
    /// Fields to omit.
    pub omit: Option<String>,
    /// Fields to expand.
    pub expand: Option<Vec<String>>,
    /// Page number.
    pub page: Option<i32>,
    /// Page size.
    pub page_size: Option<i32>,
}

impl ImaMineralsQuery {
    /// The query with no filter set.
    pub open spec fn empty() -> ImaMineralsQuery {
        ImaMineralsQuery {
            q: None,
            ima: None,
            id_in: None,
            updated_at: None,
            fields: None,
            omit: None,
            expand: None,
            page: None,
            page_size: None,
        }
    }

    /// The parameters that this query sends, in the order in which they are
    /// written. A filter that is not set sends none.
    pub open spec fn params(self) -> Seq<(Seq<char>, Seq<char>)> {
        Seq::empty()
            + text_param("q"@, self.q)
            + int_param("ima"@, self.ima)
            + text_param("updated_at"@, self.updated_at)
            + text_param("fields"@, self.fields)
            + text_param("omit"@, self.omit)
            + int_param("page"@, self.page)
            + int_param("page_size"@, self.page_size)
    }

    /// Create a new empty query.
    pub fn new() -> (query: Self)
        ensures
            query == ImaMineralsQuery::empty(),
    {
        ImaMineralsQuery {
            q: None,
            ima: None,
            id_in: None,
            updated_at: None,
            fields: None,
            omit: None,
            expand: None,
            page: None,
            page_size: None,
        }
    }

    /// Search query.
    pub fn search(self, q: &str) -> (query: Self)
        ensures
            query.q matches Some(v) && v@ == q@,
            query == (ImaMineralsQuery { q: query.q, ..self }),
    {
        let mut query = self;
        query.q = Some(q.to_owned());
        query
    }

    /// Select specific fields.
    pub fn select_fields(self, fields: &str) -> (query: Self)
        ensures
            query.fields matches Some(v) && v@ == fields@,
            query == (ImaMineralsQuery { fields: query.fields, ..self }),
    {
        let mut query = self;
        query.fields = Some(fields.to_owned());
        query
    }

    /// Omit specific fields.
    pub fn omit_fields(self, fields: &str) -> (query: Self)
        ensures
            query.omit matches Some(v) && v@ == fields@,
            query == (ImaMineralsQuery { omit: query.omit, ..self }),
    {
        let mut query = self;
        query.omit = Some(fields.to_owned());
        query
    }

    /// Expand related fields.
    pub fn expand_fields(self, fields: Vec<String>) -> (query: Self)
        ensures
            query.expand == Some(fields),
            query == (ImaMineralsQuery { expand: query.expand, ..self }),
    {
        let mut query = self;
        query.expand = Some(fields);
        query
    }

    /// Set page number.
    pub fn page(self, page: i32) -> (query: Self)
        ensures
            query.page == Some(page),
            query == (ImaMineralsQuery { page: query.page, ..self }),
    {
        let mut query = self;
        query.page = Some(page);
        query
    }

    /// Set page size.
    pub fn page_size(self, size: i32) -> (query: Self)
        ensures
            query.page_size == Some(size),
            query == (ImaMineralsQuery { page_size: query.page_size, ..self }),
    {
        let mut query = self;
        query.page_size = Some(size);
        query
    }

    /// The parameters that this query sends.
    pub fn to_params(&self) -> (out: Vec<(String, String)>)
        ensures
            pairs_view(out@) == self.params(),
    {
        let mut out: Vec<(String, String)> = Vec::new();
        assert(pairs_view(out@) =~= Seq::empty());
        push_text(&mut out, "q", &self.q);
        push_int(&mut out, "ima", self.ima);
        push_text(&mut out, "updated_at", &self.updated_at);
        push_text(&mut out, "fields", &self.fields);
        push_text(&mut out, "omit", &self.omit);
        push_int(&mut out, "page", self.page);
        push_int(&mut out, "page_size", self.page_size);
        out
    }

    /// A query with no filter set sends no parameter.
    pub proof fn lemma_empty_sends_nothing()
        ensures
            ImaMineralsQuery::empty().params() == Seq::<(Seq<char>, Seq<char>)>::empty(),
    {
        assert(ImaMineralsQuery::empty().params() =~= Seq::empty());
    }
}

impl Default for ImaMineralsQuery {
    fn default() -> (query: Self)
        ensures
            query == ImaMineralsQuery::empty(),
    {
        ImaMineralsQuery::new()
    }
}

} // verus!
