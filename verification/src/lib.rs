//! A verified model of Anchor IDL documents and their structural operations:
//! extracting a declared program identifier from source text, patching it
//! into a template document, validating a parsed document's invariants, and
//! rendering instruction reports with formatted types and account trees.

pub mod accounts;
pub mod errors;
pub mod extract;
pub mod format;
pub mod model;
pub mod report;
pub mod template;
pub mod validate;
