//! Locality types for the Mindat API.

use crate::decimal::Decimal;
use crate::decode::{FromJson, get_int, get_text, int_member, text_member, text_of};
use crate::json::Json;
use crate::lenient::{
    decimal_of,
    get_lenient_decimal,
    get_lenient_i16,
    get_lenient_i32,
    get_lenient_ints,
    ints_of,
    lenient_decimal_member,
    lenient_i16_member,
    lenient_i32_member,
    lenient_ints_member,
};
use crate::params::{int_param, pairs_view, push_int, push_text, text_param};
use vstd::prelude::*;

verus! {

/// A locality from the Mindat database.
#[derive(Debug, Clone)]
pub struct Locality {
    /// Mindat ID.
    pub id: i32,
    /// Long ID string.
    pub longid: Option<String>,
    /// GUID.
    pub guid: Option<String>,
    /// Locality text/name.
    pub txt: Option<String>,
    /// Reversed text description.
    pub revtxtd: Option<String>,
    /// Short description.
    pub description_short: Option<String>,
    /// Latitude.
    pub latitude: Option<Decimal>,
    /// Longitude.
    pub longitude: Option<Decimal>,
    /// Language-specific text.
    pub langtxt: Option<String>,
    /// Date added.
    pub dateadd: Option<String>,
    /// Date modified.
    pub datemodify: Option<String>,
    /// Elements found at this locality.
    pub elements: Option<String>,
    /// Country name.
    pub country: Option<String>,
    /// References.
    pub refs: Option<String>,
    /// Coordinate system.
    pub coordsystem: Option<i32>,
    /// Parent locality ID.
    pub parent: Option<i32>,
    /// Links.
    pub links: Option<String>,
    /// Area.
    pub area: Option<i32>,
    /// Non-hierarchical flag.
    pub non_hierarchical: Option<i32>,
    /// Age ID.
    pub age: Option<i32>,
    /// Meteorite type.
    pub meteorite_type: Option<i32>,
    /// Company ID.
    pub company: Option<i32>,
    /// Company 2 ID.
    pub company2: Option<i32>,
    /// Locality status ID.
    pub loc_status: Option<i32>,
    /// Locality group.
    pub loc_group: Option<i32>,
    /// Status year.
    pub status_year: Option<String>,
    /// Company year.
    pub company_year: Option<String>,
    /// Discovered before.
    pub discovered_before: Option<i32>,
    /// Discovery year.
    pub discovery_year: Option<i32>,
    /// Discovery year type.
    pub discovery_year_type: Option<String>,
    /// Hierarchy level.
    pub level: Option<i32>,
    /// Included localities.
    pub locsinclude: Option<String>,
    /// Excluded localities.
    pub locsexclude: Option<String>,
    /// Wikipedia link.
    pub wikipedia: Option<String>,
    /// OSM ID.
    pub osmid: Option<String>,
    /// Geonames ID.
    pub geonames: Option<i32>,
    /// Timestamp.
    pub timestamp: Option<String>,
    /// Geomaterials at this locality (when expanded).
    pub geomaterials: Option<Vec<i32>>,
}

impl FromJson for Locality {
    open spec fn decodable(json: Json) -> bool {
        &&& int_member(json, "id"@) is Some
    }

    open spec fn decodes(json: Json, value: Self) -> bool {
        &&& Some(value.id as int) == int_member(json, "id"@)
        &&& text_of(value.longid) == text_member(json, "longid"@)
        &&& text_of(value.guid) == text_member(json, "guid"@)
        &&& text_of(value.txt) == text_member(json, "txt"@)
        &&& text_of(value.revtxtd) == text_member(json, "revtxtd"@)
        &&& text_of(value.description_short) == text_member(json, "description_short"@)
        &&& decimal_of(value.latitude) == lenient_decimal_member(json, "latitude"@)
        &&& decimal_of(value.longitude) == lenient_decimal_member(json, "longitude"@)
        &&& text_of(value.langtxt) == text_member(json, "langtxt"@)
        &&& text_of(value.dateadd) == text_member(json, "dateadd"@)
        &&& text_of(value.datemodify) == text_member(json, "datemodify"@)
        &&& text_of(value.elements) == text_member(json, "elements"@)
        &&& text_of(value.country) == text_member(json, "country"@)
        &&& text_of(value.refs) == text_member(json, "refs"@)
        &&& value.coordsystem == lenient_i32_member(json, "coordsystem"@)
        &&& value.parent == lenient_i32_member(json, "parent"@)
        &&& text_of(value.links) == text_member(json, "links"@)
        &&& value.area == lenient_i32_member(json, "area"@)
        &&& value.non_hierarchical == lenient_i32_member(json, "non_hierarchical"@)
        &&& value.age == lenient_i32_member(json, "age"@)
        &&& value.meteorite_type == lenient_i32_member(json, "meteorite_type"@)
        &&& value.company == lenient_i32_member(json, "company"@)
        &&& value.company2 == lenient_i32_member(json, "company2"@)
        &&& value.loc_status == lenient_i32_member(json, "loc_status"@)
        &&& value.loc_group == lenient_i32_member(json, "loc_group"@)
        &&& text_of(value.status_year) == text_member(json, "status_year"@)
        &&& text_of(value.company_year) == text_member(json, "company_year"@)
        &&& value.discovered_before == lenient_i32_member(json, "discovered_before"@)
        &&& value.discovery_year == lenient_i32_member(json, "discovery_year"@)
        &&& text_of(value.discovery_year_type) == text_member(json, "discovery_year_type"@)
        &&& value.level == lenient_i32_member(json, "level"@)
        &&& text_of(value.locsinclude) == text_member(json, "locsinclude"@)
        &&& text_of(value.locsexclude) == text_member(json, "locsexclude"@)
        &&& text_of(value.wikipedia) == text_member(json, "wikipedia"@)
        &&& text_of(value.osmid) == text_member(json, "osmid"@)
        &&& value.geonames == lenient_i32_member(json, "geonames"@)
        &&& text_of(value.timestamp) == text_member(json, "timestamp"@)
        &&& ints_of(value.geomaterials) == lenient_ints_member(json, "geomaterials"@)
    }

    fn from_json(raw: &serde_json::Value) -> (r: Option<Self>) {
        let id = match get_int(raw, "id") {
            Some(found) => found,
            None => {
                return None;
            },
        };
        let longid = get_text(raw, "longid");
        let guid = get_text(raw, "guid");
        let txt = get_text(raw, "txt");
        let revtxtd = get_text(raw, "revtxtd");
        let description_short = get_text(raw, "description_short");
        let latitude = get_lenient_decimal(raw, "latitude");
        let longitude = get_lenient_decimal(raw, "longitude");
        let langtxt = get_text(raw, "langtxt");
        let dateadd = get_text(raw, "dateadd");
        let datemodify = get_text(raw, "datemodify");
        let elements = get_text(raw, "elements");
        let country = get_text(raw, "country");
        let refs = get_text(raw, "refs");
        let coordsystem = get_lenient_i32(raw, "coordsystem");
        let parent = get_lenient_i32(raw, "parent");
        let links = get_text(raw, "links");
        let area = get_lenient_i32(raw, "area");
        let non_hierarchical = get_lenient_i32(raw, "non_hierarchical");
        let age = get_lenient_i32(raw, "age");
        let meteorite_type = get_lenient_i32(raw, "meteorite_type");
        let company = get_lenient_i32(raw, "company");
        let company2 = get_lenient_i32(raw, "company2");
        let loc_status = get_lenient_i32(raw, "loc_status");
        let loc_group = get_lenient_i32(raw, "loc_group");
        let status_year = get_text(raw, "status_year");
        let company_year = get_text(raw, "company_year");
        let discovered_before = get_lenient_i32(raw, "discovered_before");
        let discovery_year = get_lenient_i32(raw, "discovery_year");
        let discovery_year_type = get_text(raw, "discovery_year_type");
        let level = get_lenient_i32(raw, "level");
        let locsinclude = get_text(raw, "locsinclude");
        let locsexclude = get_text(raw, "locsexclude");
        let wikipedia = get_text(raw, "wikipedia");
        let osmid = get_text(raw, "osmid");
        let geonames = get_lenient_i32(raw, "geonames");
        let timestamp = get_text(raw, "timestamp");
        let geomaterials = get_lenient_ints(raw, "geomaterials");
        Some(Locality {
            id,
            longid,
            guid,
            txt,
            revtxtd,
            description_short,
            latitude,
            longitude,
            langtxt,
            dateadd,
            datemodify,
            elements,
            country,
            refs,
            coordsystem,
            parent,
            links,
            area,
            non_hierarchical,
            age,
            meteorite_type,
            company,
            company2,
            loc_status,
            loc_group,
            status_year,
            company_year,
            discovered_before,
            discovery_year,
            discovery_year_type,
            level,
            locsinclude,
            locsexclude,
            wikipedia,
            osmid,
            geonames,
            timestamp,
            geomaterials,
        })
    }
}

/// Builder for locality query parameters.
///
/// `id_in` and `expand` have no upstream parameter: they are kept in the
/// query and not sent.
#[derive(Debug, Clone)]
pub struct LocalitiesQuery {
    /// Country name filter.
    pub country: Option<String>,
    /// Locality name contains.
    pub txt: Option<String>,
    /// Description contains.
    pub description: Option<String>,
    /// Include elements (comma-separated).
    pub elements_inc: Option<String>,
    /// Exclude elements (comma-separated).
    pub elements_exc: Option<String>,
    /// Filter by IDs.
    pub id_in: Option<Vec<i32>>,
    /// Updated after datetime.
    pub updated_at: Option<String>,
    /// Fields to include.
    pub fields: Option<String>,
    /// Fields to omit.
    pub omit: Option<String>,
    /// Fields to expand.
    pub expand: Option<Vec<String>>,
    /// Cursor for pagination.
    pub cursor: Option<String>,
    /// Page size.
    pub page_size: Option<i32>,
    /// Page number.
    pub page: Option<i32>,
}

impl LocalitiesQuery {
    /// The query with no filter set.
    pub open spec fn empty() -> LocalitiesQuery {
        LocalitiesQuery {
            country: None,
            txt: None,
            description: None,
            elements_inc: None,
            elements_exc: None,
            id_in: None,
            updated_at: None,
            fields: None,
            omit: None,
            expand: None,
            cursor: None,
            page_size: None,
            page: None,
        }
    }

    /// The parameters that this query sends, in the order in which they are
    /// written. A filter that is not set sends none.
    pub open spec fn params(self) -> Seq<(Seq<char>, Seq<char>)> {
        Seq::empty()
            + text_param("country"@, self.country)
            + text_param("txt"@, self.txt)
            + text_param("description"@, self.description)
            + text_param("elements_inc"@, self.elements_inc)
            + text_param("elements_exc"@, self.elements_exc)
            + text_param("updated_at"@, self.updated_at)
            + text_param("fields"@, self.fields)
            + text_param("omit"@, self.omit)
            + text_param("cursor"@, self.cursor)
            + int_param("page_size"@, self.page_size)
            + int_param("page"@, self.page)
    }

    /// Create a new empty query.
    pub fn new() -> (query: Self)
        ensures
            query == LocalitiesQuery::empty(),
    {
        LocalitiesQuery {
            country: None,
            txt: None,
            description: None,
            elements_inc: None,
            elements_exc: None,
            id_in: None,
            updated_at: None,
            fields: None,
            omit: None,
            expand: None,
            cursor: None,
            page_size: None,
            page: None,
        }
    }

    /// Filter by country name.
    pub fn country(self, country: &str) -> (query: Self)
        ensures
            query.country matches Some(v) && v@ == country@,
            query == (LocalitiesQuery { country: query.country, ..self }),
    {
        let mut query = self;
        query.country = Some(country.to_owned());
        query
    }

    /// Filter by locality name.
    pub fn name_contains(self, txt: &str) -> (query: Self)
        ensures
            query.txt matches Some(v) && v@ == txt@,
            query == (LocalitiesQuery { txt: query.txt, ..self }),
    {
        let mut query = self;
        query.txt = Some(txt.to_owned());
        query
    }

    /// Filter by description.
    pub fn description_contains(self, desc: &str) -> (query: Self)
        ensures
            query.description matches Some(v) && v@ == desc@,
            query == (LocalitiesQuery { description: query.description, ..self }),
    {
        let mut query = self;
        query.description = Some(desc.to_owned());
        query
    }

    /// Filter by included elements.
    pub fn with_elements(self, elements: &str) -> (query: Self)
        ensures
            query.elements_inc matches Some(v) && v@ == elements@,
            query == (LocalitiesQuery { elements_inc: query.elements_inc, ..self }),
    {
        let mut query = self;
        query.elements_inc = Some(elements.to_owned());
        query
    }

    /// Filter by excluded elements.
    pub fn without_elements(self, elements: &str) -> (query: Self)
        ensures
            query.elements_exc matches Some(v) && v@ == elements@,
            query == (LocalitiesQuery { elements_exc: query.elements_exc, ..self }),
    {
        let mut query = self;
        query.elements_exc = Some(elements.to_owned());
        query
    }

    /// Select specific fields.
    pub fn select_fields(self, fields: &str) -> (query: Self)
        ensures
            query.fields matches Some(v) && v@ == fields@,
            query == (LocalitiesQuery { fields: query.fields, ..self }),
    {
        let mut query = self;
        query.fields = Some(fields.to_owned());
        query
    }

    /// Omit specific fields.
    pub fn omit_fields(self, fields: &str) -> (query: Self)
        ensures
            query.omit matches Some(v) && v@ == fields@,
            query == (LocalitiesQuery { omit: query.omit, ..self }),
    {
        let mut query = self;
        query.omit = Some(fields.to_owned());
        query
    }

    /// Expand related fields.
    pub fn expand_fields(self, fields: Vec<String>) -> (query: Self)
        ensures
            query.expand == Some(fields),
            query == (LocalitiesQuery { expand: query.expand, ..self }),
    {
        let mut query = self;
        query.expand = Some(fields);
        query
    }

    /// Set cursor for pagination.
    pub fn cursor(self, cursor: &str) -> (query: Self)
        ensures
            query.cursor matches Some(v) && v@ == cursor@,
            query == (LocalitiesQuery { cursor: query.cursor, ..self }),
    {
        let mut query = self;
        query.cursor = Some(cursor.to_owned());
        query
    }

    /// The parameters that this query sends.
    pub fn to_params(&self) -> (out: Vec<(String, String)>)
        ensures
            pairs_view(out@) == self.params(),
    {
        let mut out: Vec<(String, String)> = Vec::new();
        assert(pairs_view(out@) =~= Seq::empty());
        push_text(&mut out, "country", &self.country);
        push_text(&mut out, "txt", &self.txt);
        push_text(&mut out, "description", &self.description);
        push_text(&mut out, "elements_inc", &self.elements_inc);
        push_text(&mut out, "elements_exc", &self.elements_exc);
        push_text(&mut out, "updated_at", &self.updated_at);
        push_text(&mut out, "fields", &self.fields);
        push_text(&mut out, "omit", &self.omit);
        push_text(&mut out, "cursor", &self.cursor);
        push_int(&mut out, "page_size", self.page_size);
        push_int(&mut out, "page", self.page);
        out
    }

    /// A query with no filter set sends no parameter.
    pub proof fn lemma_empty_sends_nothing()
        ensures
            LocalitiesQuery::empty().params() == Seq::<(Seq<char>, Seq<char>)>::empty(),
    {
        assert(LocalitiesQuery::empty().params() =~= Seq::empty());
    }
}

impl Default for LocalitiesQuery {
    fn default() -> (query: Self)
        ensures
            query == LocalitiesQuery::empty(),
    {
        LocalitiesQuery::new()
    }
}

/// Locality age information.
#[derive(Debug, Clone)]
pub struct LocalityAge {
    /// Age ID.
    pub age_id: i32,
    /// Age MA value.
    pub age_mav: Option<Decimal>,
    /// Age PM value.
    pub age_pmv: Option<Decimal>,
    /// Age MA2 value.
    pub age_ma2v: Option<Decimal>,
    /// Age PM2 value.
    pub age_pm2v: Option<Decimal>,
    /// Age method.
    pub agemethod: Option<String>,
    /// Age reference.
    pub agereference: Option<String>,
    /// Age MA string.
    pub age_ma: Option<String>,
    /// Age PM string.
    pub age_pm: Option<String>,
    /// Age MA2 string.
    pub age_ma2: Option<String>,
    /// Age PM2 string.
    pub age_pm2: Option<String>,
    /// Ages 1.
    pub ages1: Option<i32>,
    /// Ages 2.
    pub ages2: Option<i32>,
    /// Age type.
    pub age_type: Option<i32>,
}

impl FromJson for LocalityAge {
    open spec fn decodable(json: Json) -> bool {
        &&& int_member(json, "age_id"@) is Some
    }

    open spec fn decodes(json: Json, value: Self) -> bool {
        &&& Some(value.age_id as int) == int_member(json, "age_id"@)
        &&& decimal_of(value.age_mav) == lenient_decimal_member(json, "age_mav"@)
        &&& decimal_of(value.age_pmv) == lenient_decimal_member(json, "age_pmv"@)
        &&& decimal_of(value.age_ma2v) == lenient_decimal_member(json, "age_ma2v"@)
        &&& decimal_of(value.age_pm2v) == lenient_decimal_member(json, "age_pm2v"@)
        &&& text_of(value.agemethod) == text_member(json, "agemethod"@)
        &&& text_of(value.agereference) == text_member(json, "agereference"@)
        &&& text_of(value.age_ma) == text_member(json, "age_ma"@)
        &&& text_of(value.age_pm) == text_member(json, "age_pm"@)
        &&& text_of(value.age_ma2) == text_member(json, "age_ma2"@)
        &&& text_of(value.age_pm2) == text_member(json, "age_pm2"@)
        &&& value.ages1 == lenient_i32_member(json, "ages1"@)
        &&& value.ages2 == lenient_i32_member(json, "ages2"@)
        &&& value.age_type == lenient_i32_member(json, "age_type"@)
    }

    fn from_json(raw: &serde_json::Value) -> (r: Option<Self>) {
        let age_id = match get_int(raw, "age_id") {
            Some(found) => found,
            None => {
                return None;
            },
        };
        let age_mav = get_lenient_decimal(raw, "age_mav");
        let age_pmv = get_lenient_decimal(raw, "age_pmv");
        let age_ma2v = get_lenient_decimal(raw, "age_ma2v");
        let age_pm2v = get_lenient_decimal(raw, "age_pm2v");
        let agemethod = get_text(raw, "agemethod");
        let agereference = get_text(raw, "agereference");
        let age_ma = get_text(raw, "age_ma");
        let age_pm = get_text(raw, "age_pm");
        let age_ma2 = get_text(raw, "age_ma2");
        let age_pm2 = get_text(raw, "age_pm2");
        let ages1 = get_lenient_i32(raw, "ages1");
        let ages2 = get_lenient_i32(raw, "ages2");
        let age_type = get_lenient_i32(raw, "age_type");
        Some(LocalityAge {
            age_id,
            age_mav,
            age_pmv,
            age_ma2v,
            age_pm2v,
            agemethod,
            agereference,
            age_ma,
            age_pm,
            age_ma2,
            age_pm2,
            ages1,
            ages2,
            age_type,
        })
    }
}

/// Locality status information.
#[derive(Debug, Clone)]
pub struct LocalityStatus {
    /// Status ID.
    pub ls_id: i32,
    /// Status text.
    pub ls_text: String,
    /// Historical flag.
    pub ls_historical: Option<i32>,
    /// Wide flag.
    pub ls_wide: Option<i32>,
}

impl FromJson for LocalityStatus {
    open spec fn decodable(json: Json) -> bool {
        &&& int_member(json, "ls_id"@) is Some
        &&& text_member(json, "ls_text"@) is Some
    }

    open spec fn decodes(json: Json, value: Self) -> bool {
        &&& Some(value.ls_id as int) == int_member(json, "ls_id"@)
        &&& Some(value.ls_text@) == text_member(json, "ls_text"@)
        &&& value.ls_historical == lenient_i32_member(json, "ls_historical"@)
        &&& value.ls_wide == lenient_i32_member(json, "ls_wide"@)
    }

    fn from_json(raw: &serde_json::Value) -> (r: Option<Self>) {
        let ls_id = match get_int(raw, "ls_id") {
            Some(found) => found,
            None => {
                return None;
            },
        };
        let ls_text = match get_text(raw, "ls_text") {
            Some(found) => found,
            None => {
                return None;
            },
        };
        let ls_historical = get_lenient_i32(raw, "ls_historical");
        let ls_wide = get_lenient_i32(raw, "ls_wide");
        Some(LocalityStatus {
            ls_id,
            ls_text,
            ls_historical,
            ls_wide,
        })
    }
}

/// Locality type information.
#[derive(Debug, Clone)]
pub struct LocalityType {
    /// Type ID.
    pub lt_id: i32,
    /// Type text.
    pub lt_text: String,
    /// Parent type ID.
    pub lt_parent: Option<i32>,
    /// Sort order.
    pub lt_sortorder: Option<i16>,
    /// Erratic flag.
    pub lt_erratic: Option<i32>,
    /// Area flag.
    pub lt_area: Option<i32>,
    /// Underground flag.
    pub lt_underground: Option<i32>,
}

impl FromJson for LocalityType {
    open spec fn decodable(json: Json) -> bool {
        &&& int_member(json, "lt_id"@) is Some
        &&& text_member(json, "lt_text"@) is Some
    }

    open spec fn decodes(json: Json, value: Self) -> bool {
        &&& Some(value.lt_id as int) == int_member(json, "lt_id"@)
        &&& Some(value.lt_text@) == text_member(json, "lt_text"@)
        &&& value.lt_parent == lenient_i32_member(json, "lt_parent"@)
        &&& value.lt_sortorder == lenient_i16_member(json, "lt_sortorder"@)
        &&& value.lt_erratic == lenient_i32_member(json, "lt_erratic"@)
        &&& value.lt_area == lenient_i32_member(json, "lt_area"@)
        &&& value.lt_underground == lenient_i32_member(json, "lt_underground"@)
    }

    fn from_json(raw: &serde_json::Value) -> (r: Option<Self>) {
        let lt_id = match get_int(raw, "lt_id") {
            Some(found) => found,
            None => {
                return None;
            },
        };
        let lt_text = match get_text(raw, "lt_text") {
            Some(found) => found,
            None => {
                return None;
            },
        };
        let lt_parent = get_lenient_i32(raw, "lt_parent");
        let lt_sortorder = get_lenient_i16(raw, "lt_sortorder");
        let lt_erratic = get_lenient_i32(raw, "lt_erratic");
        let lt_area = get_lenient_i32(raw, "lt_area");
        let lt_underground = get_lenient_i32(raw, "lt_underground");
        Some(LocalityType {
            lt_id,
            lt_text,
            lt_parent,
            lt_sortorder,
            lt_erratic,
            lt_area,
            lt_underground,
        })
    }
}

/// Geographic region (with GeoJSON geometry).
#[derive(Debug, Clone)]
pub struct GeoRegion {
    /// Region ID.
    pub id: i32,
    /// Region text.
    pub lgr_revtxtd: Option<String>,
    /// Update time.
    pub lgr_updttime: Option<String>,
    /// Non-hierarchical flag.
    pub lgr_non_hierarchical: Option<i32>,
}

impl FromJson for GeoRegion {
    open spec fn decodable(json: Json) -> bool {
        &&& int_member(json, "id"@) is Some
    }

    open spec fn decodes(json: Json, value: Self) -> bool {
        &&& Some(value.id as int) == int_member(json, "id"@)
        &&& text_of(value.lgr_revtxtd) == text_member(json, "lgr_revtxtd"@)
        &&& text_of(value.lgr_updttime) == text_member(json, "lgr_updttime"@)
        &&& value.lgr_non_hierarchical == lenient_i32_member(json, "lgr_non_hierarchical"@)
    }

    fn from_json(raw: &serde_json::Value) -> (r: Option<Self>) {
        let id = match get_int(raw, "id") {
            Some(found) => found,
            None => {
                return None;
            },
        };
        let lgr_revtxtd = get_text(raw, "lgr_revtxtd");
        let lgr_updttime = get_text(raw, "lgr_updttime");
        let lgr_non_hierarchical = get_lenient_i32(raw, "lgr_non_hierarchical");
        Some(GeoRegion {
            id,
            lgr_revtxtd,
            lgr_updttime,
            lgr_non_hierarchical,
        })
    }
}

} // verus!
