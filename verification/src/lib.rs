//! Verified core of a one-shot exporter for a paginated content API.
//!
//! The library models one Confluence-style content record, the request URL a
//! page fetch uses, the classification of a fetch outcome (success, error
//! status, transport failure, malformed body), and the pagination driver that
//! aggregates pages into one ordered collection. All network and environment
//! work stays outside the library and hands it plain values.

pub mod decimal;
pub mod driver;
pub mod error;
pub mod fetch;
pub mod pages;
pub mod url;
