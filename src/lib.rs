//! Mapping, date-format and request-building core of a client for a document
//! search engine.
//!
//! - [`mapping`]: field and object mappings and their JSON text, with the
//!   laws that containers are transparent, that a document root shows only its
//!   properties, and that nested objects never show `enabled`.
//! - [`derive`]: deriving a record type's document mapping, index, type name
//!   and id from a description of the type, and writing its instances.
//! - [`field`]: core datatypes, the table of derivable mappings, and the
//!   binding of Rust types to field mappings.
//! - [`date`]: dates and their text formats.
//! - [`path`], [`codegen`]: URL templates and the endpoint functions read off
//!   them.
//! - [`endpoints`], [`requests`]: the method, URL and body of each request.
//! - [`parsers`], [`text`], [`geo`]: byte scanners, decimal text, distance units.

pub mod parsers;
pub mod path;
pub mod endpoints;
pub mod text;
pub mod date;
pub mod mapping;
pub mod derive;
pub mod field;
pub mod geo;
pub mod codegen;
pub mod requests;
