//! The failures that a conversion can end in.
//!
//! The library itself runs into two of them: an archive that lacks the project
//! entry, and a part that names an unknown voice. The others arise where files
//! are read and parsed; they have their place here so that a caller has one
//! type for all of them.

use vstd::prelude::*;
use vstd::std_specs::convert::FromSpecImpl;

verus! {

/// `serde_json::Error`: a value of it is carried, never looked into.
#[verifier::external_type_specification]
#[verifier::external_body]
pub struct ExJsonError(serde_json::Error);

/// `std::io::Error`: a value of it is carried, never looked into.
#[verifier::external_type_specification]
#[verifier::external_body]
pub struct ExIoError(std::io::Error);

/// `zip::result::ZipError`: a value of it is carried, never looked into.
#[verifier::external_type_specification]
#[verifier::external_body]
pub struct ExZipError(zip::result::ZipError);

/// `quick_xml::Error`: a value of it is carried, never looked into.
#[verifier::external_type_specification]
#[verifier::external_body]
pub struct ExXmlError(quick_xml::Error);

/// `quick_xml::DeError`: a value of it is carried, never looked into.
#[verifier::external_type_specification]
#[verifier::external_body]
pub struct ExXmlDeError(quick_xml::DeError);

/// Why a conversion was given up. No failure is retried, and none leaves a
/// partial model behind.
#[derive(Debug)]
pub enum ConvertError {
    /// A JSON document was malformed or did not have the expected shape.
    SerdeJsonError(serde_json::Error),
    /// A file or stream could not be read or written.
    IoError(std::io::Error),
    /// The archive is corrupt, or lacks the entry that was asked for.
    ZipError(zip::result::ZipError),
    /// Markup could not be written or read.
    XmlError(quick_xml::Error),
    /// An XML document was malformed or did not have the expected shape.
    XmlDeError(quick_xml::DeError),
    /// A part names a voice component id that the voice table does not hold.
    VoiceReference(String),
}

impl From<serde_json::Error> for ConvertError {
    fn from(e: serde_json::Error) -> (r: Self) {
        Self::SerdeJsonError(e)
    }
}

impl FromSpecImpl<serde_json::Error> for ConvertError {
    open spec fn obeys_from_spec() -> bool {
        true
    }

    open spec fn from_spec(e: serde_json::Error) -> Self {
        Self::SerdeJsonError(e)
    }
}

impl From<std::io::Error> for ConvertError {
    fn from(e: std::io::Error) -> (r: Self) {
        Self::IoError(e)
    }
}

impl FromSpecImpl<std::io::Error> for ConvertError {
    open spec fn obeys_from_spec() -> bool {
        true
    }

    open spec fn from_spec(e: std::io::Error) -> Self {
        Self::IoError(e)
    }
}

impl From<zip::result::ZipError> for ConvertError {
    fn from(e: zip::result::ZipError) -> (r: Self) {
        Self::ZipError(e)
    }
}

impl FromSpecImpl<zip::result::ZipError> for ConvertError {
    open spec fn obeys_from_spec() -> bool {
        true
    }

    open spec fn from_spec(e: zip::result::ZipError) -> Self {
        Self::ZipError(e)
    }
}

impl From<quick_xml::Error> for ConvertError {
    fn from(e: quick_xml::Error) -> (r: Self) {
        Self::XmlError(e)
    }
}

impl FromSpecImpl<quick_xml::Error> for ConvertError {
    open spec fn obeys_from_spec() -> bool {
        true
    }

    open spec fn from_spec(e: quick_xml::Error) -> Self {
        Self::XmlError(e)
    }
}

impl From<quick_xml::DeError> for ConvertError {
    fn from(e: quick_xml::DeError) -> (r: Self) {
        Self::XmlDeError(e)
    }
}

impl FromSpecImpl<quick_xml::DeError> for ConvertError {
    open spec fn obeys_from_spec() -> bool {
        true
    }

    open spec fn from_spec(e: quick_xml::DeError) -> Self {
        Self::XmlDeError(e)
    }
}

} // verus!
