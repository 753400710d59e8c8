//! The catalog of spheres and the search by identifier.

use crate::model::{sphere_views, Sphere, SphereView};
use vstd::prelude::*;

verus! {

/// The complete, read-only set of sphere records, in configured order.
///
/// Identifiers are expected to be unique, but nothing enforces it: where
/// several spheres share an identifier, the first one in order is the one
/// that a search finds.
#[derive(Debug, Clone, PartialEq, Eq)]
pub struct SphereCatalog {
    spheres: Vec<Sphere>,
}

impl View for SphereCatalog {
    type V = Seq<SphereView>;

    closed spec fn view(&self) -> Seq<SphereView> {
        sphere_views(self.spheres@)
    }
}

/// `i` is the position of the first sphere in `catalog` whose identifier is
/// `id`.
pub open spec fn is_first_match(catalog: Seq<SphereView>, id: Seq<char>, i: int) -> bool {
    &&& 0 <= i < catalog.len()
    &&& catalog[i].id == id
    &&& forall|j: int| 0 <= j < i ==> (#[trigger] catalog[j]).id != id
}

/// Some sphere in `catalog` has the identifier `id`.
pub open spec fn contains_id(catalog: Seq<SphereView>, id: Seq<char>) -> bool {
    exists|i: int| 0 <= i < catalog.len() && (#[trigger] catalog[i]).id == id
}

/// `found` is what a search for `id` in `catalog` gives: the first sphere
/// with that identifier, or nothing when no sphere has it.
pub open spec fn is_find_outcome(
    catalog: Seq<SphereView>,
    id: Seq<char>,
    found: Option<SphereView>,
) -> bool {
    match found {
        Some(sphere) => exists|i: int| is_first_match(catalog, id, i) && sphere == catalog[i],
        None => !contains_id(catalog, id),
    }
}

impl SphereCatalog {
    /// A catalog of the given spheres, in the given order.
    pub fn new(spheres: Vec<Sphere>) -> (catalog: SphereCatalog)
        ensures
            catalog@ == sphere_views(spheres@),
    {
        SphereCatalog { spheres }
    }

    /// The spheres, in order.
    pub fn spheres(&self) -> (all: &Vec<Sphere>)
        ensures
            sphere_views(all@) == self@,
    {
        &self.spheres
    }

    /// The number of spheres.
    pub fn len(&self) -> (n: usize)
        ensures
            n == self@.len(),
    {
        self.spheres.len()
    }

    /// The position of the first sphere whose identifier is `id`, if there is
    /// one.
    pub fn position(&self, id: &str) -> (found: Option<usize>)
        ensures
            match found {
                Some(i) => is_first_match(self@, id@, i as int),
                None => !contains_id(self@, id@),
            },
    {
        let wanted = id.to_owned();
        let mut i: usize = 0;
        while i < self.spheres.len()
            invariant
                i <= self.spheres.len(),
                wanted@ == id@,
                forall|j: int| 0 <= j < i ==> (#[trigger] self@[j]).id != id@,
            decreases self.spheres.len() - i,
        {
            if self.spheres[i].id == wanted {
                return Some(i);
            }
            i += 1;
        }
        None
    }

    /// The first sphere whose identifier is `id`, if there is one.
    pub fn find(&self, id: &str) -> (found: Option<&Sphere>)
        ensures
            is_find_outcome(
                self@,
                id@,
                match found {
                    Some(sphere) => Some(sphere@),
                    None => None,
                },
            ),
    {
        match self.position(id) {
            Some(i) => Some(&self.spheres[i]),
            None => None,
        }
    }
}

} // verus!
