use sphere_nav::{
    enrich, lookup, DataIntegrityError, EnrichedSphere, LookupError, NeighbourLink, Sphere,
    SphereCatalog,
};

const RADIUS: f32 = 1.0;
const TOLERANCE: f32 = 1e-5;

fn project(angle: u16) -> (f32, f32) {
    let radians = f32::from(angle).to_radians();
    (RADIUS * radians.sin(), -RADIUS * radians.cos())
}

fn close(actual: (f32, f32), expected: (f32, f32)) -> bool {
    (actual.0 - expected.0).abs() < TOLERANCE && (actual.1 - expected.1).abs() < TOLERANCE
}

fn two_spheres() -> SphereCatalog {
    SphereCatalog::new(vec![
        Sphere::new(
            "hall",
            vec![NeighbourLink::new("a", 0), NeighbourLink::new("b", 90)],
        ),
        Sphere::new("attic", vec![NeighbourLink::new("hall", 180)]),
    ])
}

#[test]
fn lookup_returns_the_record_with_coordinates() {
    let record = lookup(&two_spheres(), "hall", project).unwrap();
    assert_eq!(record.id, "hall");
    assert_eq!(record.neighbours.len(), 2);
    assert_eq!(record.neighbours[0].id, "a");
    assert_eq!(record.neighbours[0].angle, 0);
    assert!(close(record.neighbours[0].coordinates, (0.0, -RADIUS)));
    assert_eq!(record.neighbours[1].id, "b");
    assert_eq!(record.neighbours[1].angle, 90);
    assert!(close(record.neighbours[1].coordinates, (RADIUS, 0.0)));
}

#[test]
fn lookup_attaches_exactly_what_the_projection_returns() {
    let record = lookup(&two_spheres(), "hall", |angle: u16| u32::from(angle) + 7).unwrap();
    let coordinates: Vec<u32> = record.neighbours.iter().map(|n| n.coordinates).collect();
    assert_eq!(coordinates, vec![7, 97]);
}

#[test]
fn projection_lies_on_the_circle() {
    let links: Vec<NeighbourLink> =
        (0..360).map(|angle| NeighbourLink::new("n", angle)).collect();
    let catalog = SphereCatalog::new(vec![Sphere::new("s", links)]);
    let record = lookup(&catalog, "s", project).unwrap();
    assert_eq!(record.neighbours.len(), 360);
    for (angle, neighbour) in record.neighbours.iter().enumerate() {
        assert_eq!(usize::from(neighbour.angle), angle);
        let (x, y) = neighbour.coordinates;
        assert!((x * x + y * y - RADIUS * RADIUS).abs() < TOLERANCE);
    }
}

#[test]
fn cardinal_angles_are_fixed_points() {
    let links = vec![
        NeighbourLink::new("up", 0),
        NeighbourLink::new("right", 90),
        NeighbourLink::new("down", 180),
        NeighbourLink::new("left", 270),
    ];
    let catalog = SphereCatalog::new(vec![Sphere::new("s", links)]);
    let record = lookup(&catalog, "s", project).unwrap();
    assert!(close(record.neighbours[0].coordinates, (0.0, -RADIUS)));
    assert!(close(record.neighbours[1].coordinates, (RADIUS, 0.0)));
    assert!(close(record.neighbours[2].coordinates, (0.0, RADIUS)));
    assert!(close(record.neighbours[3].coordinates, (-RADIUS, 0.0)));
}

#[test]
fn lookup_twice_gives_equal_records() {
    let catalog = two_spheres();
    let first = lookup(&catalog, "hall", project);
    let second = lookup(&catalog, "hall", project);
    assert_eq!(first, second);
    assert!(first.is_ok());
}

#[test]
fn lookup_leaves_the_catalog_as_it_was() {
    let catalog = two_spheres();
    let before = catalog.clone();
    let first = lookup(&catalog, "attic", project);
    assert_eq!(catalog, before);
    let second = lookup(&catalog, "attic", project);
    assert_eq!(catalog, before);
    assert_eq!(first, second);
}

#[test]
fn lookup_of_an_unknown_id_is_not_found() {
    let outcome: Result<EnrichedSphere<(f32, f32)>, LookupError> =
        lookup(&two_spheres(), "nonexistent-id", project);
    assert_eq!(outcome, Err(LookupError::NotFound));
}

#[test]
fn lookup_in_an_empty_catalog_is_not_found() {
    let catalog = SphereCatalog::new(Vec::new());
    assert_eq!(catalog.len(), 0);
    assert_eq!(lookup(&catalog, "hall", project), Err(LookupError::NotFound));
}

#[test]
fn lookup_matches_the_whole_identifier() {
    let catalog = two_spheres();
    assert_eq!(lookup(&catalog, "hal", project), Err(LookupError::NotFound));
    assert_eq!(lookup(&catalog, "hall ", project), Err(LookupError::NotFound));
    assert_eq!(lookup(&catalog, "", project), Err(LookupError::NotFound));
    assert_eq!(lookup(&catalog, "Hall", project), Err(LookupError::NotFound));
}

#[test]
fn enrichment_keeps_order_and_ids() {
    let catalog = SphereCatalog::new(vec![Sphere::new(
        "s",
        vec![NeighbourLink::new("a", 0), NeighbourLink::new("b", 90)],
    )]);
    let record = lookup(&catalog, "s", project).unwrap();
    let ids: Vec<&str> = record.neighbours.iter().map(|n| n.id.as_str()).collect();
    assert_eq!(ids, vec!["a", "b"]);
    let angles: Vec<u16> = record.neighbours.iter().map(|n| n.angle).collect();
    assert_eq!(angles, vec![0, 90]);
}

#[test]
fn sphere_without_neighbours_gives_an_empty_list() {
    let catalog = SphereCatalog::new(vec![Sphere::new("lonely", Vec::new())]);
    let record = lookup(&catalog, "lonely", project).unwrap();
    assert_eq!(record.id, "lonely");
    assert!(record.neighbours.is_empty());
}

#[test]
fn first_of_two_spheres_with_one_id_wins() {
    let catalog = SphereCatalog::new(vec![
        Sphere::new("other", vec![NeighbourLink::new("x", 1)]),
        Sphere::new("twin", vec![NeighbourLink::new("first", 10)]),
        Sphere::new("twin", vec![NeighbourLink::new("second", 20)]),
    ]);
    assert_eq!(catalog.position("twin"), Some(1));
    assert_eq!(catalog.find("twin"), Some(&catalog.spheres()[1]));
    let record = lookup(&catalog, "twin", project).unwrap();
    assert_eq!(record.neighbours.len(), 1);
    assert_eq!(record.neighbours[0].id, "first");
    assert_eq!(record.neighbours[0].angle, 10);
}

#[test]
fn find_and_position_agree() {
    let catalog = two_spheres();
    assert_eq!(catalog.len(), 2);
    assert_eq!(catalog.position("hall"), Some(0));
    assert_eq!(catalog.position("attic"), Some(1));
    assert_eq!(catalog.position("cellar"), None);
    assert_eq!(catalog.find("attic").map(|s| s.id.as_str()), Some("attic"));
    assert_eq!(catalog.find("cellar"), None);
}

#[test]
fn the_largest_angle_is_usable() {
    let catalog = SphereCatalog::new(vec![Sphere::new(
        "s",
        vec![NeighbourLink::new("far", 65535)],
    )]);
    let record = lookup(&catalog, "s", |angle: u16| angle).unwrap();
    assert_eq!(record.neighbours[0].angle, 65535);
    assert_eq!(record.neighbours[0].coordinates, 65535);
}

#[test]
fn an_angle_above_the_range_fails_the_lookup() {
    let catalog = SphereCatalog::new(vec![Sphere::new(
        "s",
        vec![NeighbourLink::new("ok", 10), NeighbourLink::new("far", 65536)],
    )]);
    assert_eq!(
        lookup(&catalog, "s", project),
        Err(LookupError::DataIntegrity(DataIntegrityError::AngleOutOfRange {
            index: 1,
            angle: 65536,
        }))
    );
}

#[test]
fn a_negative_angle_fails_the_lookup() {
    let catalog = SphereCatalog::new(vec![Sphere::new(
        "s",
        vec![NeighbourLink::new("back", -1)],
    )]);
    assert_eq!(
        lookup(&catalog, "s", project),
        Err(LookupError::DataIntegrity(DataIntegrityError::AngleOutOfRange {
            index: 0,
            angle: -1,
        }))
    );
}

#[test]
fn a_missing_angle_fails_the_lookup() {
    let links = vec![
        NeighbourLink::new("a", 0),
        NeighbourLink::new("b", 1),
        NeighbourLink { id: "c".to_string(), angle: None },
        NeighbourLink::new("d", 70000),
    ];
    let catalog = SphereCatalog::new(vec![Sphere::new("s", links)]);
    assert_eq!(
        lookup(&catalog, "s", project),
        Err(LookupError::DataIntegrity(DataIntegrityError::MissingAngle { index: 2 }))
    );
}

#[test]
fn a_missing_neighbour_list_fails_the_lookup() {
    let catalog = SphereCatalog::new(vec![
        Sphere { id: "bare".to_string(), neighbours: None },
        Sphere::new("fine", vec![NeighbourLink::new("bare", 5)]),
    ]);
    assert_eq!(
        lookup(&catalog, "bare", project),
        Err(LookupError::DataIntegrity(DataIntegrityError::MalformedNeighbours))
    );
    assert!(lookup(&catalog, "fine", project).is_ok());
}

#[test]
fn a_fault_in_one_sphere_leaves_the_others_alone() {
    let catalog = SphereCatalog::new(vec![
        Sphere::new("bad", vec![NeighbourLink::new("x", 100000)]),
        Sphere::new("good", vec![NeighbourLink::new("x", 270)]),
    ]);
    assert!(lookup(&catalog, "bad", project).is_err());
    let record = lookup(&catalog, "good", project).unwrap();
    assert!(close(record.neighbours[0].coordinates, (-RADIUS, 0.0)));
}

#[test]
fn enrich_works_on_a_sphere_outside_any_catalog() {
    let sphere = Sphere::new("s", vec![NeighbourLink::new("t", 180)]);
    let record = enrich(&sphere, project).unwrap();
    assert_eq!(record.id, "s");
    assert!(close(record.neighbours[0].coordinates, (0.0, RADIUS)));
    assert_eq!(sphere, Sphere::new("s", vec![NeighbourLink::new("t", 180)]));
}

#[test]
fn the_record_is_independent_of_the_catalog() {
    let catalog = two_spheres();
    let mut record = lookup(&catalog, "hall", project).unwrap();
    record.id.push_str("-changed");
    record.neighbours.clear();
    let again = lookup(&catalog, "hall", project).unwrap();
    assert_eq!(again.id, "hall");
    assert_eq!(again.neighbours.len(), 2);
}
