//! The ways in which loading and lookup fail.

use vstd::prelude::*;

verus! {

/// Why a configuration document gives no catalog. Fatal at startup.
#[derive(Debug, PartialEq)]
pub enum ConfigParseError {
    /// The text is not a TOML document; the parser's error says where.
    Syntax(toml::de::Error),
    /// The document has no `spheres` key.
    MissingSpheres,
    /// The value under `spheres` is not a list.
    SpheresNotList,
    /// The entry at `index` of the list is not a table with a string `id`.
    MalformedSphere { index: usize },
}

/// Why the record of a sphere cannot be enriched. Confined to the request
/// that met it.
#[derive(Debug, Clone, Copy, PartialEq, Eq)]
pub enum DataIntegrityError {
    /// The sphere has no well-formed list of neighbours.
    MalformedNeighbours,
    /// The neighbour at `index` carries no integer angle.
    MissingAngle { index: usize },
    /// The neighbour at `index` carries an angle outside `[0, 65535]`.
    AngleOutOfRange { index: usize, angle: i64 },
}

/// Why a lookup gives no enriched record.
#[derive(Debug, Clone, Copy, PartialEq, Eq)]
pub enum LookupError {
    /// No sphere of the catalog has the requested identifier.
    NotFound,
    /// The sphere was found, but its stored data cannot be used.
    DataIntegrity(DataIntegrityError),
}

} // verus!
