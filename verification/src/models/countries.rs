//! Countries.

use crate::decode::{FromJson, get_int, get_text, int_member, text_member};
use crate::json::Json;
use vstd::prelude::*;

verus! {

/// Country information.
#[derive(Debug, Clone)]
pub struct Country {
    /// Unique identifier.
    pub id: i32,
    /// Country name.
    pub text: String,
    /// Continent code (2 characters).
    pub continent: String,
    /// ISO country code (2 characters).
    pub iso: String,
    /// Latitude direction (N/S).
    pub latdir: String,
    /// Longitude direction (E/W).
    pub longdir: String,
}

impl FromJson for Country {
    open spec fn decodable(json: Json) -> bool {
        &&& int_member(json, "id"@) is Some
        &&& text_member(json, "text"@) is Some
        &&& text_member(json, "continent"@) is Some
        &&& text_member(json, "iso"@) is Some
        &&& text_member(json, "latdir"@) is Some
        &&& text_member(json, "longdir"@) is Some
    }

    open spec fn decodes(json: Json, value: Self) -> bool {
        &&& Some(value.id as int) == int_member(json, "id"@)
        &&& Some(value.text@) == text_member(json, "text"@)
        &&& Some(value.continent@) == text_member(json, "continent"@)
        &&& Some(value.iso@) == text_member(json, "iso"@)
        &&& Some(value.latdir@) == text_member(json, "latdir"@)
        &&& Some(value.longdir@) == text_member(json, "longdir"@)
    }

    fn from_json(raw: &serde_json::Value) -> (r: Option<Self>) {
        let id = match get_int(raw, "id") {
            Some(found) => found,
            None => {
                return None;
            },
        };
        let text = match get_text(raw, "text") {
            Some(found) => found,
            None => {
                return None;
            },
        };
        let continent = match get_text(raw, "continent") {
            Some(found) => found,
            None => {
                return None;
            },
        };
        let iso = match get_text(raw, "iso") {
            Some(found) => found,
            None => {
                return None;
            },
        };
        let latdir = match get_text(raw, "latdir") {
            Some(found) => found,
            None => {
                return None;
            },
        };
        let longdir = match get_text(raw, "longdir") {
            Some(found) => found,
            None => {
                return None;
            },
        };
        Some(Country {
            id,
            text,
            continent,
            iso,
            latdir,
            longdir,
        })
    }
}

} // verus!
