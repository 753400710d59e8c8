//! What holds of every load, every search and every lookup.

use crate::catalog::{contains_id, is_find_outcome, is_first_match, SphereCatalog};
use crate::document::DocValue;
use crate::error::{ConfigParseError, DataIntegrityError, LookupError};
use crate::loader::{is_catalog_outcome, sphere_of};
use crate::lookup::{is_enrich_outcome, is_first_unusable, is_lookup_outcome};
use crate::model::{usable_angle, EnrichedSphere, LinkView, SphereView};
use vstd::prelude::*;

verus! {

/// `projection` relates every angle to at most one pair of coordinates.
pub open spec fn is_deterministic<C>(projection: spec_fn(u16, C) -> bool) -> bool {
    forall|angle: u16, p: C, q: C|
        #![trigger projection(angle, p), projection(angle, q)]
        projection(angle, p) && projection(angle, q) ==> p == q
}

/// Two outcomes of a lookup are the same by value: the same error, or
/// records with equal views.
pub open spec fn same_outcome<C>(
    first: Result<EnrichedSphere<C>, LookupError>,
    second: Result<EnrichedSphere<C>, LookupError>,
) -> bool {
    match (first, second) {
        (Ok(a), Ok(b)) => a@ == b@,
        (Err(e), Err(f)) => e == f,
        _ => false,
    }
}

/// The outcome of the enrichment inside the outcome of a lookup that found a
/// sphere.
pub open spec fn enrich_part<C>(outcome: Result<EnrichedSphere<C>, LookupError>) -> Result<
    EnrichedSphere<C>,
    DataIntegrityError,
> {
    match outcome {
        Ok(record) => Ok(record),
        Err(LookupError::DataIntegrity(fault)) => Err(fault),
        Err(LookupError::NotFound) => Err(DataIntegrityError::MalformedNeighbours),
    }
}

/// The position that a fault names, where it names one.
pub open spec fn fault_index(fault: DataIntegrityError) -> int {
    match fault {
        DataIntegrityError::MalformedNeighbours => 0,
        DataIntegrityError::MissingAngle { index } => index as int,
        DataIntegrityError::AngleOutOfRange { index, .. } => index as int,
    }
}

/// A root table gives one catalog or one error: two outcomes of building the
/// catalog from it are the same by value.
pub proof fn catalog_outcome_is_unique(
    root: Map<Seq<char>, DocValue>,
    first: Result<SphereCatalog, ConfigParseError>,
    second: Result<SphereCatalog, ConfigParseError>,
)
    requires
        is_catalog_outcome(root, first),
        is_catalog_outcome(root, second),
    ensures
        match (first, second) {
            (Ok(a), Ok(b)) => a@ == b@,
            (Err(e), Err(f)) => e == f,
            _ => false,
        },
{
    if root.contains_key("spheres"@) && root["spheres"@] is List {
        let entries = root["spheres"@]->List_0;
        match (first, second) {
            (Ok(a), Ok(b)) => {
                assert forall|i: int| 0 <= i < entries.len() implies a@[i] == b@[i] by {
                    assert(sphere_of(entries[i]) == Some(a@[i]));
                    assert(sphere_of(entries[i]) == Some(b@[i]));
                }
                assert(a@ =~= b@);
            },
            (Ok(a), Err(ConfigParseError::MalformedSphere { index })) => {
                assert(sphere_of(entries[index as int]) == Some(a@[index as int]));
            },
            (Err(ConfigParseError::MalformedSphere { index }), Ok(b)) => {
                assert(sphere_of(entries[index as int]) == Some(b@[index as int]));
            },
            (
                Err(ConfigParseError::MalformedSphere { index: i }),
                Err(ConfigParseError::MalformedSphere { index: j }),
            ) => {
                if i < j {
                    assert(sphere_of(entries[i as int]) is Some);
                }
                if j < i {
                    assert(sphere_of(entries[j as int]) is Some);
                }
            },
            _ => {},
        }
    }
}

/// A catalog has at most one first sphere with a given identifier.
pub proof fn first_match_is_unique(catalog: Seq<SphereView>, id: Seq<char>, i: int, j: int)
    requires
        is_first_match(catalog, id, i),
        is_first_match(catalog, id, j),
    ensures
        i == j,
{
    if i < j {
        assert(catalog[i].id != id);
    }
    if j < i {
        assert(catalog[j].id != id);
    }
}

/// A list of links has at most one first link with an unusable angle.
pub proof fn first_unusable_is_unique(links: Seq<LinkView>, i: int, j: int)
    requires
        is_first_unusable(links, i),
        is_first_unusable(links, j),
    ensures
        i == j,
{
    if i < j {
        assert(usable_angle(links[i].angle));
    }
    if j < i {
        assert(usable_angle(links[j].angle));
    }
}

/// Searching an unchanged catalog twice for the same identifier finds the
/// same sphere both times.
pub proof fn find_is_repeatable(
    catalog: Seq<SphereView>,
    id: Seq<char>,
    first: Option<SphereView>,
    second: Option<SphereView>,
)
    requires
        is_find_outcome(catalog, id, first),
        is_find_outcome(catalog, id, second),
    ensures
        first == second,
{
    if first is Some && second is Some {
        let i = choose|i: int| is_first_match(catalog, id, i) && first.unwrap() == catalog[i];
        let j = choose|j: int| is_first_match(catalog, id, j) && second.unwrap() == catalog[j];
        first_match_is_unique(catalog, id, i, j);
    } else if first is Some {
        let i = choose|i: int| is_first_match(catalog, id, i) && first.unwrap() == catalog[i];
        assert(catalog[i].id == id);
    } else if second is Some {
        let j = choose|j: int| is_first_match(catalog, id, j) && second.unwrap() == catalog[j];
        assert(catalog[j].id == id);
    }
}

/// Enriching the same sphere twice with a deterministic projection gives the
/// same outcome both times.
pub proof fn enrich_is_repeatable<C>(
    sphere: SphereView,
    projection: spec_fn(u16, C) -> bool,
    first: Result<EnrichedSphere<C>, DataIntegrityError>,
    second: Result<EnrichedSphere<C>, DataIntegrityError>,
)
    requires
        is_deterministic(projection),
        is_enrich_outcome(sphere, projection, first),
        is_enrich_outcome(sphere, projection, second),
    ensures
        match (first, second) {
            (Ok(a), Ok(b)) => a@ == b@,
            (Err(e), Err(f)) => e == f,
            _ => false,
        },
{
    match (first, second) {
        (Ok(a), Ok(b)) => {
            let links = sphere.neighbours.unwrap();
            assert forall|k: int| 0 <= k < links.len() implies a@.neighbours[k]
                == b@.neighbours[k] by {
                let x = a@.neighbours[k];
                let y = b@.neighbours[k];
                assert(links[k].angle == Some(x.angle as i64));
                assert(links[k].angle == Some(y.angle as i64));
                assert(projection(x.angle, x.coordinates));
                assert(projection(y.angle, y.coordinates));
            }
            assert(a@.neighbours =~= b@.neighbours);
        },
        (Ok(a), Err(f)) => {
            record_excludes_fault(sphere, projection, a, f);
        },
        (Err(e), Ok(b)) => {
            record_excludes_fault(sphere, projection, b, e);
        },
        (Err(e), Err(f)) => {
            if sphere.neighbours is Some {
                let links = sphere.neighbours.unwrap();
                let i = fault_index(e);
                let j = fault_index(f);
                first_unusable_is_unique(links, i, j);
            }
        },
    }
}

/// A sphere that can be enriched gives no fault.
proof fn record_excludes_fault<C>(
    sphere: SphereView,
    projection: spec_fn(u16, C) -> bool,
    record: EnrichedSphere<C>,
    fault: DataIntegrityError,
)
    requires
        is_enrich_outcome(sphere, projection, Ok::<_, DataIntegrityError>(record)),
    ensures
        !is_enrich_outcome(sphere, projection, Err::<EnrichedSphere<C>, _>(fault)),
{
    if is_enrich_outcome(sphere, projection, Err::<EnrichedSphere<C>, _>(fault)) {
        let links = sphere.neighbours.unwrap();
        let i = fault_index(fault);
        assert(links[i].angle == Some(record@.neighbours[i].angle as i64));
    }
}

/// Looking the same identifier up twice in an unchanged catalog, with a
/// deterministic projection, gives the same outcome both times.
pub proof fn lookup_is_repeatable<C>(
    catalog: Seq<SphereView>,
    id: Seq<char>,
    projection: spec_fn(u16, C) -> bool,
    first: Result<EnrichedSphere<C>, LookupError>,
    second: Result<EnrichedSphere<C>, LookupError>,
)
    requires
        is_deterministic(projection),
        is_lookup_outcome(catalog, id, projection, first),
        is_lookup_outcome(catalog, id, projection, second),
    ensures
        same_outcome(first, second),
{
    if first == Err::<EnrichedSphere<C>, _>(LookupError::NotFound) || second == Err::<
        EnrichedSphere<C>,
        _,
    >(LookupError::NotFound) {
        if first != Err::<EnrichedSphere<C>, _>(LookupError::NotFound) {
            let i = found_at(catalog, id, projection, first);
            assert(catalog[i].id == id);
        }
        if second != Err::<EnrichedSphere<C>, _>(LookupError::NotFound) {
            let j = found_at(catalog, id, projection, second);
            assert(catalog[j].id == id);
        }
    } else {
        let i = found_at(catalog, id, projection, first);
        let j = found_at(catalog, id, projection, second);
        first_match_is_unique(catalog, id, i, j);
        enrich_is_repeatable(catalog[i], projection, enrich_part(first), enrich_part(second));
    }
}

/// The position of the sphere that a lookup found.
proof fn found_at<C>(
    catalog: Seq<SphereView>,
    id: Seq<char>,
    projection: spec_fn(u16, C) -> bool,
    outcome: Result<EnrichedSphere<C>, LookupError>,
) -> (i: int)
    requires
        is_lookup_outcome(catalog, id, projection, outcome),
        outcome != Err::<EnrichedSphere<C>, _>(LookupError::NotFound),
    ensures
        is_first_match(catalog, id, i),
        is_enrich_outcome(catalog[i], projection, enrich_part(outcome)),
{
    choose|i: int|
        is_first_match(catalog, id, i) && is_enrich_outcome(
            #[trigger] catalog[i],
            projection,
            enrich_part(outcome),
        )
}

/// Looking up an identifier that no sphere of the catalog has gives
/// `NotFound`.
pub proof fn lookup_of_absent_id<C>(
    catalog: Seq<SphereView>,
    id: Seq<char>,
    projection: spec_fn(u16, C) -> bool,
    outcome: Result<EnrichedSphere<C>, LookupError>,
)
    requires
        forall|i: int| 0 <= i < catalog.len() ==> (#[trigger] catalog[i]).id != id,
        is_lookup_outcome(catalog, id, projection, outcome),
    ensures
        outcome == Err::<EnrichedSphere<C>, _>(LookupError::NotFound),
{
    if outcome != Err::<EnrichedSphere<C>, _>(LookupError::NotFound) {
        let i = found_at(catalog, id, projection, outcome);
        assert(catalog[i].id == id);
    }
}

/// Looking up an identifier that some sphere of the catalog has never gives
/// `NotFound`.
pub proof fn lookup_of_present_id<C>(
    catalog: Seq<SphereView>,
    id: Seq<char>,
    projection: spec_fn(u16, C) -> bool,
    outcome: Result<EnrichedSphere<C>, LookupError>,
)
    requires
        contains_id(catalog, id),
        is_lookup_outcome(catalog, id, projection, outcome),
    ensures
        outcome != Err::<EnrichedSphere<C>, _>(LookupError::NotFound),
{
}

/// Enrichment keeps the record as it is stored: the record that a lookup
/// returns has the requested identifier, and its neighbours are those of the
/// first sphere with that identifier, as many and in the same order, each
/// with its identifier and its angle unchanged and with coordinates that the
/// projection gives for that angle.
pub proof fn enrichment_keeps_links<C>(
    catalog: Seq<SphereView>,
    id: Seq<char>,
    projection: spec_fn(u16, C) -> bool,
    record: EnrichedSphere<C>,
    i: int,
)
    requires
        is_lookup_outcome(catalog, id, projection, Ok::<_, LookupError>(record)),
        is_first_match(catalog, id, i),
    ensures
        record@.id == id,
        catalog[i].neighbours is Some,
        record@.neighbours.len() == catalog[i].neighbours.unwrap().len(),
        forall|k: int|
            0 <= k < record@.neighbours.len() ==> {
                &&& (#[trigger] record@.neighbours[k]).id == catalog[i].neighbours.unwrap()[k].id
                &&& catalog[i].neighbours.unwrap()[k].angle == Some(
                    record@.neighbours[k].angle as i64,
                )
                &&& projection(record@.neighbours[k].angle, record@.neighbours[k].coordinates)
            },
{
    let j = found_at(catalog, id, projection, Ok::<_, LookupError>(record));
    first_match_is_unique(catalog, id, i, j);
}

} // verus!
