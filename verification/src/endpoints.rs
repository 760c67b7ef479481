//! The endpoints: one method of the client for each, which plans the request.
//!
//! Each method names the path and the parameters of its endpoint and the type
//! of record that the response holds; the rest is [`MindatClient::get`] or
//! [`MindatClient::get_with_query`].

use crate::client::{MindatClient, Request};
use crate::error::MindatError;
use crate::models::countries::Country;
use crate::models::geomaterials::{Geomaterial, GeomaterialsQuery};
use crate::models::localities::{
    LocalitiesQuery, Locality, LocalityAge, LocalityStatus, LocalityType,
};
use crate::models::minerals_ima::{ImaMaterial, ImaMineralsQuery};
use crate::models::pagination::{CursorPaginatedResponse, PaginatedResponse};
use crate::params::{int_param, pairs_view, push_int, push_pair};
use crate::text::{decimal_text, format_i32};
use vstd::prelude::*;

verus! {

/// The path of one record: the number of the record between the two parts of
/// the path.
pub open spec fn id_path(prefix: Seq<char>, id: i32, suffix: Seq<char>) -> Seq<char> {
    prefix + decimal_text(id as int) + suffix
}

/// Writes the path of one record.
pub fn make_id_path(prefix: &str, id: i32, suffix: &str) -> (path: String)
    ensures
        path@ == id_path(prefix@, id, suffix@),
{
    String::from_str(prefix).concat(format_i32(id).as_str()).concat(suffix)
}

impl MindatClient {
    // ==================== Countries ====================

    /// List all countries.
    pub fn countries(&self) -> (r: Result<Request<PaginatedResponse<Country>>, MindatError>)
        ensures
            self.plans(r, "/countries/"@, Seq::empty()),
    {
        self.get("/countries/")
    }

    /// List countries with pagination.
    pub fn countries_page(&self, page: i32) -> (r: Result<
        Request<PaginatedResponse<Country>>,
        MindatError,
    >)
        ensures
            self.plans(r, "/countries/"@, Seq::empty() + int_param("page"@, Some(page))),
    {
        let mut params: Vec<(String, String)> = Vec::new();
        assert(pairs_view(params@) =~= Seq::empty());
        push_int(&mut params, "page", Some(page));
        self.get_with_query("/countries/", &params)
    }

    /// Get a specific country by ID.
    pub fn country(&self, id: i32) -> (r: Result<Request<Country>, MindatError>)
        ensures
            self.plans(r, id_path("/countries/"@, id, "/"@), Seq::empty()),
    {
        let path = make_id_path("/countries/", id, "/");
        self.get(path.as_str())
    }

    // ==================== Geomaterials ====================

    /// List geomaterials with optional filters.
    pub fn geomaterials(&self, query: GeomaterialsQuery) -> (r: Result<Request<PaginatedResponse<Geomaterial>>, MindatError>)
        ensures
            self.plans(r, "/geomaterials/"@, query.params()),
    {
        let params = query.to_params();
        self.get_with_query("/geomaterials/", &params)
    }

    /// Get a specific geomaterial by ID.
    pub fn geomaterial(&self, id: i32) -> (r: Result<Request<Geomaterial>, MindatError>)
        ensures
            self.plans(r, id_path("/geomaterials/"@, id, "/"@), Seq::empty()),
    {
        let path = make_id_path("/geomaterials/", id, "/");
        self.get(path.as_str())
    }

    /// Get varieties of a specific geomaterial.
    pub fn geomaterial_varieties(&self, id: i32) -> (r: Result<Request<Geomaterial>, MindatError>)
        ensures
            self.plans(r, id_path("/geomaterials/"@, id, "/varieties/"@), Seq::empty()),
    {
        let path = make_id_path("/geomaterials/", id, "/varieties/");
        self.get(path.as_str())
    }

    /// Search for geomaterials.
    pub fn geomaterials_search(&self, q: &str, size: Option<i32>) -> (r: Result<
        Request<Vec<serde_json::Value>>,
        MindatError,
    >)
        ensures
            self.plans(
                r,
                "/geomaterials-search/"@,
                Seq::empty() + seq![("q"@, q@)] + int_param("size"@, size),
            ),
    {
        let mut params: Vec<(String, String)> = Vec::new();
        assert(pairs_view(params@) =~= Seq::empty());
        push_pair(&mut params, "q", q.to_owned());
        push_int(&mut params, "size", size);
        self.get_with_query("/geomaterials-search/", &params)
    }

    // ==================== Localities ====================

    /// List localities with optional filters.
    pub fn localities(&self, query: LocalitiesQuery) -> (r: Result<Request<CursorPaginatedResponse<Locality>>, MindatError>)
        ensures
            self.plans(r, "/localities/"@, query.params()),
    {
        let params = query.to_params();
        self.get_with_query("/localities/", &params)
    }

    /// Get a specific locality by ID.
    pub fn locality(&self, id: i32) -> (r: Result<Request<Locality>, MindatError>)
        ensures
            self.plans(r, id_path("/localities/"@, id, "/"@), Seq::empty()),
    {
        let path = make_id_path("/localities/", id, "/");
        self.get(path.as_str())
    }

    // ==================== Locality Metadata ====================

    /// List locality ages.
    pub fn locality_ages(&self, page: Option<i32>) -> (r: Result<Request<PaginatedResponse<LocalityAge>>, MindatError>)
        ensures
            self.plans(r, "/locality-age/"@, Seq::empty() + int_param("page"@, page)),
    {
        let mut params: Vec<(String, String)> = Vec::new();
        assert(pairs_view(params@) =~= Seq::empty());
        push_int(&mut params, "page", page);
        self.get_with_query("/locality-age/", &params)
    }

    /// Get a specific locality age by ID.
    pub fn locality_age(&self, age_id: i32) -> (r: Result<Request<LocalityAge>, MindatError>)
        ensures
            self.plans(r, id_path("/locality-age/"@, age_id, "/"@), Seq::empty()),
    {
        let path = make_id_path("/locality-age/", age_id, "/");
        self.get(path.as_str())
    }

    /// List locality statuses.
    pub fn locality_statuses(&self, page: Option<i32>) -> (r: Result<Request<PaginatedResponse<LocalityStatus>>, MindatError>)
        ensures
            self.plans(r, "/locality-status/"@, Seq::empty() + int_param("page"@, page)),
    {
        let mut params: Vec<(String, String)> = Vec::new();
        assert(pairs_view(params@) =~= Seq::empty());
        push_int(&mut params, "page", page);
        self.get_with_query("/locality-status/", &params)
    }

    /// Get a specific locality status by ID.
    pub fn locality_status(&self, ls_id: i32) -> (r: Result<Request<LocalityStatus>, MindatError>)
        ensures
            self.plans(r, id_path("/locality-status/"@, ls_id, "/"@), Seq::empty()),
    {
        let path = make_id_path("/locality-status/", ls_id, "/");
        self.get(path.as_str())
    }

    /// List locality types.
    pub fn locality_types(&self, page: Option<i32>) -> (r: Result<Request<PaginatedResponse<LocalityType>>, MindatError>)
        ensures
            self.plans(r, "/locality-type/"@, Seq::empty() + int_param("page"@, page)),
    {
        let mut params: Vec<(String, String)> = Vec::new();
        assert(pairs_view(params@) =~= Seq::empty());
        push_int(&mut params, "page", page);
        self.get_with_query("/locality-type/", &params)
    }

    /// Get a specific locality type by ID.
    pub fn locality_type(&self, lt_id: i32) -> (r: Result<Request<LocalityType>, MindatError>)
        ensures
            self.plans(r, id_path("/locality-type/"@, lt_id, "/"@), Seq::empty()),
    {
        let path = make_id_path("/locality-type/", lt_id, "/");
        self.get(path.as_str())
    }

    /// List geographic regions.
    pub fn geo_regions(&self, page: Option<i32>) -> (r: Result<Request<PaginatedResponse<serde_json::Value>>, MindatError>)
        ensures
            self.plans(r, "/locgeoregion2/"@, Seq::empty() + int_param("page"@, page)),
    {
        let mut params: Vec<(String, String)> = Vec::new();
        assert(pairs_view(params@) =~= Seq::empty());
        push_int(&mut params, "page", page);
        self.get_with_query("/locgeoregion2/", &params)
    }

    // ==================== IMA Minerals ====================

    /// List IMA-approved minerals.
    pub fn minerals_ima(&self, query: ImaMineralsQuery) -> (r: Result<Request<PaginatedResponse<ImaMaterial>>, MindatError>)
        ensures
            self.plans(r, "/minerals-ima/"@, query.params()),
    {
        let params = query.to_params();
        self.get_with_query("/minerals-ima/", &params)
    }

    /// Get a specific IMA mineral by ID.
    pub fn mineral_ima(&self, id: i32) -> (r: Result<Request<Geomaterial>, MindatError>)
        ensures
            self.plans(r, id_path("/minerals-ima/"@, id, "/"@), Seq::empty()),
    {
        let path = make_id_path("/minerals-ima/", id, "/");
        self.get(path.as_str())
    }

    // ==================== Classification Systems ====================

    /// Get Dana 8th edition classification groups.
    pub fn dana8_groups(&self) -> (r: Result<Request<serde_json::Value>, MindatError>)
        ensures
            self.plans(r, "/dana-8/groups/"@, Seq::empty()),
    {
        self.get("/dana-8/groups/")
    }

    /// Get Dana 8th edition classification subgroups.
    pub fn dana8_subgroups(&self) -> (r: Result<Request<serde_json::Value>, MindatError>)
        ensures
            self.plans(r, "/dana-8/subgroups/"@, Seq::empty()),
    {
        self.get("/dana-8/subgroups/")
    }

    /// Get a specific Dana 8th edition classification.
    pub fn dana8(&self, id: i32) -> (r: Result<Request<serde_json::Value>, MindatError>)
        ensures
            self.plans(r, id_path("/dana-8/"@, id, "/"@), Seq::empty()),
    {
        let path = make_id_path("/dana-8/", id, "/");
        self.get(path.as_str())
    }

    /// Get Nickel-Strunz 10th edition classification classes.
    pub fn strunz10_classes(&self) -> (r: Result<Request<serde_json::Value>, MindatError>)
        ensures
            self.plans(r, "/nickel-strunz-10/classes/"@, Seq::empty()),
    {
        self.get("/nickel-strunz-10/classes/")
    }

    /// Get Nickel-Strunz 10th edition classification subclasses.
    pub fn strunz10_subclasses(&self) -> (r: Result<Request<serde_json::Value>, MindatError>)
        ensures
            self.plans(r, "/nickel-strunz-10/subclasses/"@, Seq::empty()),
    {
        self.get("/nickel-strunz-10/subclasses/")
    }

    /// Get Nickel-Strunz 10th edition classification families.
    pub fn strunz10_families(&self) -> (r: Result<Request<serde_json::Value>, MindatError>)
        ensures
            self.plans(r, "/nickel-strunz-10/families/"@, Seq::empty()),
    {
        self.get("/nickel-strunz-10/families/")
    }

    /// Get a specific Nickel-Strunz 10th edition classification.
    pub fn strunz10(&self, id: i32) -> (r: Result<Request<serde_json::Value>, MindatError>)
        ensures
            self.plans(r, id_path("/nickel-strunz-10/"@, id, "/"@), Seq::empty()),
    {
        let path = make_id_path("/nickel-strunz-10/", id, "/");
        self.get(path.as_str())
    }

    // ==================== Other ====================

    /// Get photo count statistics.
    pub fn photocount(&self) -> (r: Result<Request<serde_json::Value>, MindatError>)
        ensures
            self.plans(r, "/photo-count/"@, Seq::empty()),
    {
        self.get("/photo-count/")
    }
}

} // verus!
