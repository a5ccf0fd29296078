//! Typed tables of aviation reference data, made from the CSV datasets that
//! OurAirports publishes: airports, their runways and radio frequencies,
//! navaids, countries and regions.
//!
//! A dataset is CSV text with a header row. [`source`] hands the text to the
//! `csv` reader, [`table`] decodes the records row by row and stores each
//! under its numeric identifier, and the module of each dataset says which
//! columns a record is made of. The decoders of single cells are in
//! [`fields`], [`integer`] and [`decimal`]; the vocabularies stand beside the
//! records that use them. [`pages`] decides what a listing shows for a query.
//!
//! Decoding is all or nothing: one cell that is rejected stops the load and
//! is reported with its row and its column.

pub mod airport_frequencies;
pub mod airports;
pub mod continent;
pub mod countries;
pub mod decimal;
pub mod error;
pub mod fields;
pub mod integer;
pub mod location;
pub mod navaids;
pub mod order;
pub mod pages;
pub mod regions;
pub mod runways;
pub mod source;
pub mod table;
pub mod text;

pub use continent::Continent;
pub use error::{DecodeError, ErrorKind, FieldError};
pub use table::Id;
