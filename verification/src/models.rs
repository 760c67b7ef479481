//! Data models: enumerations, query models, records and page envelopes.

pub mod common;
pub mod countries;
pub mod enums;
pub mod geomaterials;
pub mod localities;
pub mod minerals_ima;
pub mod pagination;
