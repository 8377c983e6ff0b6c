//! Conversion of a parsed package-oriented SBOM document into a serialized
//! component-oriented SBOM document, plus a small filename sanitizer used
//! when offering the result for download.

pub mod bom;
pub mod convert;
pub mod filename;
pub mod model;
