//! Conversion between the project formats of three generations of a
//! vocal-synthesis editor: two XML dialects and a zip-contained JSON format.
//!
//! - [`vsqx3`] and [`vsqx4`] hold the records of the two XML dialects, with the
//!   way in which each is written as a document; [`dialect`] holds what the
//!   two have in common, and [`write_xml`] the markup writer.
//! - [`vpr`] holds the records of the JSON format, and [`archive`] the archive
//!   that a project of that format lives in.
//! - [`v4to5`] upgrades a project and [`v5to4`] downgrades one; the bridge
//!   between the two XML dialects is the `From` of their root records.
//! - [`laws`] states what holds of the converters and the writer on every
//!   project.
//!
//! Contracts speak of records by their views: a record's view is the record
//! with sequences in place of vectors and texts in place of strings.

pub mod archive;
pub mod dialect;
pub mod error;
pub mod laws;
pub mod lemmas;
pub mod v4to5;
pub mod v5to4;
pub mod vpr;
pub mod vsqx3;
pub mod vsqx4;
pub mod write_xml;

pub use error::ConvertError;
