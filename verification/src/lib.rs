//! Build-time static-asset registry.
//!
//! Embedded assets are declared as (field name, request path, content type,
//! content bytes). A [`registry::Registry`] assigns each asset a
//! content-derived fingerprint and a versioned URL, and answers read-only
//! queries by request path or by field name.

pub mod content_type;
pub mod decimal;
pub mod fingerprint;
pub mod lazy;
pub mod registry;
