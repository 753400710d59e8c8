//! Navigation data for a graph of spheres.
//!
//! A catalog of sphere records is read once from a TOML document. A lookup
//! finds a sphere by its identifier and returns a copy of the record in which
//! every neighbour link carries a coordinate pair derived from the link's
//! angle. The projection from angle to coordinates is supplied by the caller,
//! so the crate itself is free of floating-point arithmetic.

pub mod catalog;
pub mod document;
pub mod error;
pub mod laws;
pub mod loader;
pub mod lookup;
pub mod model;

pub use crate::catalog::SphereCatalog;
pub use crate::error::{ConfigParseError, DataIntegrityError, LookupError};
pub use crate::loader::{catalog_from_document, load};
pub use crate::lookup::{check_angle, enrich, lookup};
pub use crate::model::{EnrichedNeighbour, EnrichedSphere, NeighbourLink, Sphere};
