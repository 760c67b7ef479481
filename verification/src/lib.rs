//! A typed client core for the Mindat API, the open database of minerals,
//! rocks, meteorites and the localities where they come from.
//!
//! The crate builds requests and reads responses; it opens no connection.
//! A caller composes a query model, asks the client for the request of an
//! endpoint, hands its URL and headers to a transport of its choice, and
//! gives status and body back to be decoded:
//!
//! - [`models`]: the query models, the records and the page envelopes;
//! - [`client`] and [`endpoints`]: planning a request, reading a response;
//! - [`lenient`] and [`decode`]: reading records from JSON, tolerant of the
//!   ways in which upstream writes an optional field;
//! - [`commands`]: what the commands of a front end decide;
//! - [`json`], [`links`], [`text`], [`decimal`], [`params`]: the ground they
//!   stand on.

pub mod client;
pub mod commands;
pub mod decimal;
pub mod decode;
pub mod endpoints;
pub mod error;
pub mod json;
pub mod lenient;
pub mod links;
pub mod models;
pub mod params;
pub mod text;

pub use client::{
    handle_response, MindatClient, MindatClientBuilder, Request, DEFAULT_BASE_URL,
};
pub use commands::{AppState, CommandError};
pub use decimal::Decimal;
pub use decode::FromJson;
pub use error::MindatError;
pub use lenient::{
    deserialize_optional_f32, deserialize_optional_f64, deserialize_optional_i16,
    deserialize_optional_i32, deserialize_optional_u32, deserialize_optional_vec,
    deserialize_optional_vec_i32, deserialize_optional_vec_string,
};
pub use models::common::{
    GeoJsonFeature, GeoJsonFeatureCollection, GeoJsonGeometry, GeoRegionProperties, MinStats,
    Relation,
};
pub use models::countries::Country;
pub use models::enums::{
    CleavageType, CrystalSystem, Diapheny, EntryType, FractureType, GeomaterialsOrdering,
    ImaNotes, ImaStatus, LustreType, Magnetism, OpticalPleochroism, OpticalSign, OpticalTropic,
    OpticalType, Tenacity,
};
pub use models::geomaterials::{Geomaterial, GeomaterialsQuery};
pub use models::localities::{
    GeoRegion, LocalitiesQuery, Locality, LocalityAge, LocalityStatus, LocalityType,
};
pub use models::minerals_ima::{ImaMaterial, ImaMineralsQuery};
pub use models::pagination::{CursorPaginatedResponse, PaginatedResponse};
