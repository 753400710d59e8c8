//! Looking a sphere up and enriching its record with coordinates.
//!
//! The projection from an angle to coordinates is a parameter: any function
//! that accepts every `u16`. The contracts speak of it through the relation
//! between its argument and the results it may return.

use crate::catalog::{contains_id, is_first_match, SphereCatalog};
use crate::error::{DataIntegrityError, LookupError};
use crate::model::{
    link_views, usable_angle, EnrichedLinkView, EnrichedNeighbour, EnrichedSphere, LinkView,
    Sphere, SphereView, MAX_ANGLE,
};
use vstd::prelude::*;

verus! {

/// The relation between an angle and the coordinates that `project` may
/// return for it.
pub open spec fn projection_of<C, F: Fn(u16) -> C>(project: F) -> spec_fn(u16, C) -> bool {
    |angle: u16, point: C| call_ensures(project, (angle,), point)
}

/// `i` is the position of the first link in `links` whose angle cannot be
/// used.
pub open spec fn is_first_unusable(links: Seq<LinkView>, i: int) -> bool {
    &&& 0 <= i < links.len()
    &&& !usable_angle(links[i].angle)
    &&& forall|j: int| 0 <= j < i ==> usable_angle((#[trigger] links[j]).angle)
}

/// `enriched` is `links` with coordinates attached: the same number of links
/// in the same order, each with its identifier and angle unchanged and with
/// coordinates that `projection` relates to its angle.
pub open spec fn is_enrichment<C>(
    links: Seq<LinkView>,
    projection: spec_fn(u16, C) -> bool,
    enriched: Seq<EnrichedLinkView<C>>,
) -> bool {
    &&& enriched.len() == links.len()
    &&& forall|k: int|
        0 <= k < links.len() ==> {
            &&& (#[trigger] enriched[k]).id == links[k].id
            &&& links[k].angle == Some(enriched[k].angle as i64)
            &&& projection(enriched[k].angle, enriched[k].coordinates)
        }
}

/// `outcome` is what enriching `sphere` gives: the enriched record when every
/// neighbour has a usable angle, and otherwise the fault of the missing list
/// or of the first neighbour whose angle cannot be used.
pub open spec fn is_enrich_outcome<C>(
    sphere: SphereView,
    projection: spec_fn(u16, C) -> bool,
    outcome: Result<EnrichedSphere<C>, DataIntegrityError>,
) -> bool {
    match outcome {
        Ok(record) => {
            &&& sphere.neighbours matches Some(links)
            &&& record@.id == sphere.id
            &&& is_enrichment(links, projection, record@.neighbours)
        },
        Err(DataIntegrityError::MalformedNeighbours) => sphere.neighbours is None,
        Err(DataIntegrityError::MissingAngle { index }) => {
            &&& sphere.neighbours matches Some(links)
            &&& is_first_unusable(links, index as int)
            &&& links[index as int].angle is None
        },
        Err(DataIntegrityError::AngleOutOfRange { index, angle }) => {
            &&& sphere.neighbours matches Some(links)
            &&& is_first_unusable(links, index as int)
            &&& links[index as int].angle == Some(angle)
        },
    }
}

/// `outcome` is what looking `id` up in `catalog` gives: `NotFound` when no
/// sphere has that identifier, and otherwise what enriching the first sphere
/// with that identifier gives.
pub open spec fn is_lookup_outcome<C>(
    catalog: Seq<SphereView>,
    id: Seq<char>,
    projection: spec_fn(u16, C) -> bool,
    outcome: Result<EnrichedSphere<C>, LookupError>,
) -> bool {
    match outcome {
        Ok(record) => exists|i: int|
            is_first_match(catalog, id, i) && is_enrich_outcome(
                #[trigger] catalog[i],
                projection,
                Ok(record),
            ),
        Err(LookupError::NotFound) => !contains_id(catalog, id),
        Err(LookupError::DataIntegrity(fault)) => exists|i: int|
            is_first_match(catalog, id, i) && is_enrich_outcome(
                #[trigger] catalog[i],
                projection,
                Err::<EnrichedSphere<C>, _>(fault),
            ),
    }
}

/// Checks the stored angle of the neighbour at `index` of a list.
///
/// Returns the angle as a `u16` when it is usable, and otherwise the fault
/// that names the neighbour.
pub fn check_angle(angle: Option<i64>, index: usize) -> (outcome: Result<u16, DataIntegrityError>)
    ensures
        match outcome {
            Ok(degrees) => angle == Some(degrees as i64),
            Err(fault) => match angle {
                None => fault == (DataIntegrityError::MissingAngle { index }),
                Some(stored) => {
                    &&& !(0 <= stored <= MAX_ANGLE)
                    &&& fault == (DataIntegrityError::AngleOutOfRange { index, angle: stored })
                },
            },
        },
{
    match angle {
        None => Err(DataIntegrityError::MissingAngle { index }),
        Some(stored) => {
            if 0 <= stored && stored <= MAX_ANGLE {
                Ok(stored as u16)
            } else {
                Err(DataIntegrityError::AngleOutOfRange { index, angle: stored })
            }
        },
    }
}

/// Copies `sphere` and attaches to every neighbour, in stored order, the
/// coordinates that `project` returns for its angle.
///
/// Fails, without calling `project` any further, at the first neighbour whose
/// angle is missing or outside `[0, 65535]`, and when the sphere has no
/// well-formed list of neighbours.
pub fn enrich<C, F: Fn(u16) -> C>(sphere: &Sphere, project: F) -> (outcome: Result<
    EnrichedSphere<C>,
    DataIntegrityError,
>)
    requires
        forall|angle: u16| call_requires(project, (angle,)),
    ensures
        is_enrich_outcome(sphere@, projection_of(project), outcome),
{
    let links = match &sphere.neighbours {
        Some(links) => links,
        None => return Err(DataIntegrityError::MalformedNeighbours),
    };
    let ghost stored = sphere@.neighbours.unwrap();
    let mut enriched: Vec<EnrichedNeighbour<C>> = Vec::new();
    let mut k: usize = 0;
    while k < links.len()
        invariant
            k <= links.len(),
            sphere@.neighbours == Some(stored),
            stored == link_views(links@),
            forall|angle: u16| call_requires(project, (angle,)),
            enriched@.len() == k,
            forall|j: int| 0 <= j < k ==> usable_angle((#[trigger] stored[j]).angle),
            forall|j: int|
                0 <= j < k ==> {
                    &&& (#[trigger] enriched@[j]).id@ == stored[j].id
                    &&& stored[j].angle == Some(enriched@[j].angle as i64)
                    &&& call_ensures(project, (enriched@[j].angle,), enriched@[j].coordinates)
                },
        decreases links.len() - k,
    {
        let link = &links[k];
        let angle = match check_angle(link.angle, k) {
            Ok(angle) => angle,
            Err(fault) => return Err(fault),
        };
        let coordinates = project(angle);
        enriched.push(EnrichedNeighbour { id: link.id.clone(), angle, coordinates });
        k += 1;
    }
    Ok(EnrichedSphere { id: sphere.id.clone(), neighbours: enriched })
}

/// Looks `id` up in `catalog` and returns the enriched record of the first
/// sphere with that identifier.
///
/// The catalog is only read. Fails with [`LookupError::NotFound`] exactly when
/// no sphere has the identifier, and with [`LookupError::DataIntegrity`]
/// exactly when [`enrich`] fails on the sphere that was found.
pub fn lookup<C, F: Fn(u16) -> C>(catalog: &SphereCatalog, id: &str, project: F) -> (outcome:
    Result<EnrichedSphere<C>, LookupError>)
    requires
        forall|angle: u16| call_requires(project, (angle,)),
    ensures
        is_lookup_outcome(catalog@, id@, projection_of(project), outcome),
{
    match catalog.find(id) {
        None => Err(LookupError::NotFound),
        Some(sphere) => match enrich(sphere, project) {
            Ok(record) => Ok(record),
            Err(fault) => Err(LookupError::DataIntegrity(fault)),
        },
    }
}

} // verus!
