//! Common types shared across multiple API endpoints.

use crate::decimal::Decimal;
use crate::decode::{
    all_decodable,
    array_member,
    decodes_each,
    decodes_optional,
    FromJson,
    get_int,
    get_optional_record,
    get_record,
    get_records,
    get_text,
    int_member,
    int_of,
    record_member_decodable,
    text_member,
    text_of,
};
use crate::json::{Json, json_is_object, member};
use crate::lenient::{get_lenient_i32, lenient_i32_member};
use vstd::prelude::*;

verus! {

/// Relation between geomaterials.
#[derive(Debug, Clone)]
pub struct Relation {
    /// ID of the related mineral.
    pub mineral_id: i32,
    /// Type of relation (1-13).
    /// 1=Synonym, 2=Mixture, 4=Structurally related, 5=Associated at type locality,
    /// 6=Epitaxial, 7=Polymorph, 8=Isostructural, 9=Chemically related,
    /// 10=Common Associates, 11=Essential minerals, 12=Common ore minerals, 13=Accessory minerals
    pub relation_type: i32,
    /// Human-readable relation type description.
    pub relation_type_text: String,
}

impl FromJson for Relation {
    open spec fn decodable(json: Json) -> bool {
        &&& int_member(json, "mineral_id"@) is Some
        &&& int_member(json, "relation_type"@) is Some
        &&& text_member(json, "relation_type_text"@) is Some
    }

    open spec fn decodes(json: Json, value: Self) -> bool {
        &&& Some(value.mineral_id as int) == int_member(json, "mineral_id"@)
        &&& Some(value.relation_type as int) == int_member(json, "relation_type"@)
        &&& Some(value.relation_type_text@) == text_member(json, "relation_type_text"@)
    }

    fn from_json(raw: &serde_json::Value) -> (r: Option<Self>) {
        let mineral_id = match get_int(raw, "mineral_id") {
            Some(found) => found,
            None => {
                return None;
            },
        };
        let relation_type = match get_int(raw, "relation_type") {
            Some(found) => found,
            None => {
                return None;
            },
        };
        let relation_type_text = match get_text(raw, "relation_type_text") {
            Some(found) => found,
            None => {
                return None;
            },
        };
        Some(Relation {
            mineral_id,
            relation_type,
            relation_type_text,
        })
    }
}

/// Statistics for a mineral.
#[derive(Debug, Clone)]
pub struct MinStats {
    /// Number of photos.
    pub ms_photos: i32,
    /// Number of locality entries.
    pub ms_locentries: i32,
    /// Number of votes for photos.
    pub ms_photovotes: i32,
}

impl FromJson for MinStats {
    open spec fn decodable(json: Json) -> bool {
        &&& int_member(json, "ms_photos"@) is Some
        &&& int_member(json, "ms_locentries"@) is Some
        &&& int_member(json, "ms_photovotes"@) is Some
    }

    open spec fn decodes(json: Json, value: Self) -> bool {
        &&& Some(value.ms_photos as int) == int_member(json, "ms_photos"@)
        &&& Some(value.ms_locentries as int) == int_member(json, "ms_locentries"@)
        &&& Some(value.ms_photovotes as int) == int_member(json, "ms_photovotes"@)
    }

    fn from_json(raw: &serde_json::Value) -> (r: Option<Self>) {
        let ms_photos = match get_int(raw, "ms_photos") {
            Some(found) => found,
            None => {
                return None;
            },
        };
        let ms_locentries = match get_int(raw, "ms_locentries") {
            Some(found) => found,
            None => {
                return None;
            },
        };
        let ms_photovotes = match get_int(raw, "ms_photovotes") {
            Some(found) => found,
            None => {
                return None;
            },
        };
        Some(MinStats {
            ms_photos,
            ms_locentries,
            ms_photovotes,
        })
    }
}

/// GeoJSON Geometry. The member `type` of the object says which shape it is;
/// the coordinates are kept as they are written.
#[derive(Debug, Clone)]
pub enum GeoJsonGeometry {
    Point { coordinates: Vec<Decimal> },
    LineString { coordinates: Vec<Vec<Decimal>> },
    Polygon { coordinates: Vec<Vec<Vec<Decimal>>> },
}

impl FromJson for GeoJsonGeometry {
    open spec fn decodable(json: Json) -> bool {
        match text_member(json, "type"@) {
            Some(kind) => if kind == "Point"@ {
                record_member_decodable::<Vec<Decimal>>(json, "coordinates"@)
            } else if kind == "LineString"@ {
                record_member_decodable::<Vec<Vec<Decimal>>>(json, "coordinates"@)
            } else if kind == "Polygon"@ {
                record_member_decodable::<Vec<Vec<Vec<Decimal>>>>(json, "coordinates"@)
            } else {
                false
            },
            None => false,
        }
    }

    open spec fn decodes(json: Json, value: Self) -> bool {
        &&& member(json, "coordinates"@) is Some
        &&& match value {
            GeoJsonGeometry::Point { coordinates } => text_member(json, "type"@) == Some("Point"@)
                && Vec::<Decimal>::decodes(member(json, "coordinates"@)->0, coordinates),
            GeoJsonGeometry::LineString { coordinates } => text_member(json, "type"@) == Some(
                "LineString"@,
            ) && Vec::<Vec<Decimal>>::decodes(member(json, "coordinates"@)->0, coordinates),
            GeoJsonGeometry::Polygon { coordinates } => text_member(json, "type"@) == Some(
                "Polygon"@,
            ) && Vec::<Vec<Vec<Decimal>>>::decodes(member(json, "coordinates"@)->0, coordinates),
        }
    }

    fn from_json(raw: &serde_json::Value) -> (r: Option<Self>) {
        let kind = match get_text(raw, "type") {
            Some(found) => found,
            None => {
                return None;
            },
        };
        if *kind.as_str() == *"Point" {
            match get_record::<Vec<Decimal>>(raw, "coordinates") {
                Some(coordinates) => Some(GeoJsonGeometry::Point { coordinates }),
                None => None,
            }
        } else if *kind.as_str() == *"LineString" {
            match get_record::<Vec<Vec<Decimal>>>(raw, "coordinates") {
                Some(coordinates) => Some(GeoJsonGeometry::LineString { coordinates }),
                None => None,
            }
        } else if *kind.as_str() == *"Polygon" {
            match get_record::<Vec<Vec<Vec<Decimal>>>>(raw, "coordinates") {
                Some(coordinates) => Some(GeoJsonGeometry::Polygon { coordinates }),
                None => None,
            }
        } else {
            None
        }
    }
}

/// GeoJSON Feature type.
#[derive(Debug, Clone)]
pub struct GeoJsonFeature<P> {
    /// Feature type (always "Feature").
    pub feature_type: String,
    /// Feature ID.
    pub id: Option<i32>,
    /// Geometry data.
    pub geometry: Option<GeoJsonGeometry>,
    /// Feature properties.
    pub properties: P,
}

impl<P: FromJson> FromJson for GeoJsonFeature<P> {
    open spec fn decodable(json: Json) -> bool {
        &&& text_member(json, "type"@) is Some
        &&& record_member_decodable::<P>(json, "properties"@)
    }

    open spec fn decodes(json: Json, value: Self) -> bool {
        &&& Some(value.feature_type@) == text_member(json, "type"@)
        &&& int_of(value.id) == int_member(json, "id"@)
        &&& decodes_optional::<GeoJsonGeometry>(member(json, "geometry"@), value.geometry)
        &&& (member(json, "properties"@) matches Some(found) && P::decodes(found, value.properties))
    }

    fn from_json(raw: &serde_json::Value) -> (r: Option<Self>) {
        let feature_type = match get_text(raw, "type") {
            Some(found) => found,
            None => {
                return None;
            },
        };
        let id = get_int(raw, "id");
        let geometry = get_optional_record::<GeoJsonGeometry>(raw, "geometry");
        let properties = match get_record::<P>(raw, "properties") {
            Some(found) => found,
            None => {
                return None;
            },
        };
        Some(GeoJsonFeature {
            feature_type,
            id,
            geometry,
            properties,
        })
    }
}

/// GeoJSON FeatureCollection.
#[derive(Debug, Clone)]
pub struct GeoJsonFeatureCollection<P> {
    /// Collection type (always "FeatureCollection").
    pub collection_type: String,
    /// Features in the collection.
    pub features: Vec<GeoJsonFeature<P>>,
}

impl<P: FromJson> FromJson for GeoJsonFeatureCollection<P> {
    open spec fn decodable(json: Json) -> bool {
        &&& text_member(json, "type"@) is Some
        &&& (array_member(json, "features"@) matches Some(items) && all_decodable::<GeoJsonFeature<P>>(items))
    }

    open spec fn decodes(json: Json, value: Self) -> bool {
        &&& Some(value.collection_type@) == text_member(json, "type"@)
        &&& (array_member(json, "features"@) matches Some(items) && decodes_each::<GeoJsonFeature<P>>(items, value.features@))
    }

    fn from_json(raw: &serde_json::Value) -> (r: Option<Self>) {
        let collection_type = match get_text(raw, "type") {
            Some(found) => found,
            None => {
                return None;
            },
        };
        let features = match get_records::<GeoJsonFeature<P>>(raw, "features") {
            Some(found) => found,
            None => {
                return None;
            },
        };
        Some(GeoJsonFeatureCollection {
            collection_type,
            features,
        })
    }
}

/// Geographic region properties.
#[derive(Debug, Clone)]
pub struct GeoRegionProperties {
    /// Region text description.
    pub lgr_revtxtd: Option<String>,
    /// Last update time.
    pub lgr_updttime: Option<String>,
    /// Non-hierarchical flag.
    pub lgr_non_hierarchical: Option<i32>,
}

impl FromJson for GeoRegionProperties {
    open spec fn decodable(json: Json) -> bool {
        json is Object
    }

    open spec fn decodes(json: Json, value: Self) -> bool {
        &&& text_of(value.lgr_revtxtd) == text_member(json, "lgr_revtxtd"@)
        &&& text_of(value.lgr_updttime) == text_member(json, "lgr_updttime"@)
        &&& value.lgr_non_hierarchical == lenient_i32_member(json, "lgr_non_hierarchical"@)
    }

    fn from_json(raw: &serde_json::Value) -> (r: Option<Self>) {
        if !json_is_object(raw) {
            return None;
        }
        let lgr_revtxtd = get_text(raw, "lgr_revtxtd");
        let lgr_updttime = get_text(raw, "lgr_updttime");
        let lgr_non_hierarchical = get_lenient_i32(raw, "lgr_non_hierarchical");
        Some(GeoRegionProperties {
            lgr_revtxtd,
            lgr_updttime,
            lgr_non_hierarchical,
        })
    }
}

} // verus!
