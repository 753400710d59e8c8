//! The sphere records and their mathematical views.

use vstd::prelude::*;

verus! {

/// The largest angle, in degrees, that a neighbour link may carry.
pub const MAX_ANGLE: i64 = 65535;

/// A directed link from a sphere to a neighbouring sphere.
#[derive(Debug, Clone, PartialEq, Eq)]
pub struct NeighbourLink {
    /// Identifier of the sphere the link points to. It is not checked against
    /// the catalog.
    pub id: String,
    /// The angle in degrees as the configuration gave it; `None` when the
    /// entry carries no integer angle.
    pub angle: Option<i64>,
}

/// A node of the navigation graph.
#[derive(Debug, Clone, PartialEq, Eq)]
pub struct Sphere {
    /// Identifier of the sphere.
    pub id: String,
    /// The outgoing links in their configured order; `None` when the entry
    /// carries no well-formed list of neighbours.
    pub neighbours: Option<Vec<NeighbourLink>>,
}

/// View of a [`NeighbourLink`].
pub struct LinkView {
    pub id: Seq<char>,
    pub angle: Option<i64>,
}

/// View of a [`Sphere`].
pub struct SphereView {
    pub id: Seq<char>,
    pub neighbours: Option<Seq<LinkView>>,
}

impl NeighbourLink {
    /// A link to the sphere `id` at `angle` degrees.
    pub fn new(id: &str, angle: i64) -> (link: NeighbourLink)
        ensures
            link@ == (LinkView { id: id@, angle: Some(angle) }),
    {
        NeighbourLink { id: id.to_owned(), angle: Some(angle) }
    }
}

impl Sphere {
    /// A sphere `id` with the given links, in the given order.
    pub fn new(id: &str, neighbours: Vec<NeighbourLink>) -> (sphere: Sphere)
        ensures
            sphere@ == (SphereView { id: id@, neighbours: Some(link_views(neighbours@)) }),
    {
        Sphere { id: id.to_owned(), neighbours: Some(neighbours) }
    }
}

impl View for NeighbourLink {
    type V = LinkView;

    open spec fn view(&self) -> LinkView {
        LinkView { id: self.id@, angle: self.angle }
    }
}

/// The views of a sequence of links, in order.
pub open spec fn link_views(links: Seq<NeighbourLink>) -> Seq<LinkView> {
    links.map_values(|l: NeighbourLink| l@)
}

impl View for Sphere {
    type V = SphereView;

    open spec fn view(&self) -> SphereView {
        SphereView {
            id: self.id@,
            neighbours: match self.neighbours {
                Some(links) => Some(link_views(links@)),
                None => None,
            },
        }
    }
}

/// The views of a sequence of spheres, in order.
pub open spec fn sphere_views(spheres: Seq<Sphere>) -> Seq<SphereView> {
    spheres.map_values(|s: Sphere| s@)
}

/// A neighbour link of an enriched record: the stored link with its usable
/// angle and the coordinates that the projection gave for it.
#[derive(Debug, Clone, PartialEq)]
pub struct EnrichedNeighbour<C> {
    /// Identifier of the sphere the link points to.
    pub id: String,
    /// The angle in degrees.
    pub angle: u16,
    /// What the projection returned for `angle`.
    pub coordinates: C,
}

/// The record that a lookup returns: a copy of the sphere, independent of the
/// catalog, in which every neighbour carries coordinates.
#[derive(Debug, Clone, PartialEq)]
pub struct EnrichedSphere<C> {
    /// Identifier of the sphere.
    pub id: String,
    /// The links of the sphere, in their stored order.
    pub neighbours: Vec<EnrichedNeighbour<C>>,
}

/// View of an [`EnrichedNeighbour`].
pub struct EnrichedLinkView<C> {
    pub id: Seq<char>,
    pub angle: u16,
    pub coordinates: C,
}

/// View of an [`EnrichedSphere`].
pub struct EnrichedView<C> {
    pub id: Seq<char>,
    pub neighbours: Seq<EnrichedLinkView<C>>,
}

impl<C> View for EnrichedNeighbour<C> {
    type V = EnrichedLinkView<C>;

    open spec fn view(&self) -> EnrichedLinkView<C> {
        EnrichedLinkView { id: self.id@, angle: self.angle, coordinates: self.coordinates }
    }
}

impl<C> View for EnrichedSphere<C> {
    type V = EnrichedView<C>;

    open spec fn view(&self) -> EnrichedView<C> {
        EnrichedView {
            id: self.id@,
            neighbours: self.neighbours@.map_values(|link: EnrichedNeighbour<C>| link@),
        }
    }
}

/// Whether a stored angle can be projected: it is present and lies in
/// `[0, MAX_ANGLE]`.
pub open spec fn usable_angle(angle: Option<i64>) -> bool {
    angle matches Some(a) && 0 <= a <= MAX_ANGLE
}

} // verus!
