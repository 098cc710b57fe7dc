//! Composite content identifiers for files: media classification, text and
//! title extraction, metadata title search and identifier assembly.

pub mod batch;
pub mod error;
pub mod extract;
pub mod identifier;
pub mod media;
pub mod metadata;
pub mod text;
pub mod tika;
