//! Classifies application errors into a stable, client-safe taxonomy.
//!
//! A taxonomy is an explicit table that gives each variant of an error enum a
//! short code, an application-level status written as text, and an optional
//! message that is safe to show to clients. The table checks once, when it is
//! built, that variant names and full codes (`prefix ++ short code`) are unique,
//! and then turns any variant into an [`ErrorInfo`] descriptor.
pub mod app_code;
pub mod error_info;
pub mod taxonomy;

pub use app_code::{AppCode, HttpStatus};
pub use error_info::{ErrorInfo, ToErrorInfo};
pub use taxonomy::{Taxonomy, TaxonomyError, VariantSpec};


