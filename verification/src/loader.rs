//! Building the catalog from a configuration document.

use crate::catalog::SphereCatalog;
use crate::document::{
    parse_document, parsed_document, table_doc, table_get, value_as_array, value_as_integer,
    value_as_str, value_as_table, value_doc, DocValue,
};
use crate::error::ConfigParseError;
use crate::model::{link_views, LinkView, NeighbourLink, Sphere, SphereView};
use vstd::prelude::*;

verus! {

/// The string under `key`, if the table has one there.
pub open spec fn text_field(fields: Map<Seq<char>, DocValue>, key: Seq<char>) -> Option<Seq<char>> {
    if fields.contains_key(key) {
        match fields[key] {
            DocValue::Text(text) => Some(text),
            _ => None,
        }
    } else {
        None
    }
}

/// The integer under `key`, if the table has one there.
pub open spec fn integer_field(fields: Map<Seq<char>, DocValue>, key: Seq<char>) -> Option<i64> {
    if fields.contains_key(key) {
        match fields[key] {
            DocValue::Integer(number) => Some(number),
            _ => None,
        }
    } else {
        None
    }
}

/// The link that a neighbour entry describes: the entry must be a table with
/// a string `id`; its `angle` is kept when it is an integer.
pub open spec fn link_of(entry: DocValue) -> Option<LinkView> {
    match entry {
        DocValue::Table(fields) => match text_field(fields, "id"@) {
            Some(id) => Some(LinkView { id, angle: integer_field(fields, "angle"@) }),
            None => None,
        },
        _ => None,
    }
}

/// The links that a list of neighbour entries describes, in order, provided
/// that every entry describes one.
pub open spec fn links_of(entries: Seq<DocValue>) -> Option<Seq<LinkView>> {
    if forall|i: int| 0 <= i < entries.len() ==> link_of(#[trigger] entries[i]) is Some {
        Some(entries.map_values(|entry: DocValue| link_of(entry).unwrap()))
    } else {
        None
    }
}

/// The neighbours of a sphere entry: the links of the list under
/// `neighbours`, or `None` when there is no such list or one of its entries
/// describes no link.
pub open spec fn neighbours_of(fields: Map<Seq<char>, DocValue>) -> Option<Seq<LinkView>> {
    if fields.contains_key("neighbours"@) {
        match fields["neighbours"@] {
            DocValue::List(entries) => links_of(entries),
            _ => None,
        }
    } else {
        None
    }
}

/// The sphere that an entry of the `spheres` list describes: the entry must
/// be a table with a string `id`.
pub open spec fn sphere_of(entry: DocValue) -> Option<SphereView> {
    match entry {
        DocValue::Table(fields) => match text_field(fields, "id"@) {
            Some(id) => Some(SphereView { id, neighbours: neighbours_of(fields) }),
            None => None,
        },
        _ => None,
    }
}

/// `outcome` is what a document with the root table `root` gives: the
/// spheres that the entries of its `spheres` list describe, in order, or the
/// first reason why there are none.
pub open spec fn is_catalog_outcome(
    root: Map<Seq<char>, DocValue>,
    outcome: Result<SphereCatalog, ConfigParseError>,
) -> bool {
    match outcome {
        Ok(catalog) => {
            &&& root.contains_key("spheres"@)
            &&& root["spheres"@] matches DocValue::List(entries)
            &&& catalog@.len() == entries.len()
            &&& forall|i: int|
                0 <= i < entries.len() ==> sphere_of(#[trigger] entries[i]) == Some(catalog@[i])
        },
        Err(ConfigParseError::Syntax(_)) => false,
        Err(ConfigParseError::MissingSpheres) => !root.contains_key("spheres"@),
        Err(ConfigParseError::SpheresNotList) => {
            &&& root.contains_key("spheres"@)
            &&& !(root["spheres"@] is List)
        },
        Err(ConfigParseError::MalformedSphere { index }) => {
            &&& root.contains_key("spheres"@)
            &&& root["spheres"@] matches DocValue::List(entries)
            &&& index < entries.len()
            &&& sphere_of(entries[index as int]) is None
            &&& forall|j: int| 0 <= j < index ==> sphere_of(#[trigger] entries[j]) is Some
        },
    }
}

/// The string under `key` of a table, copied.
fn text_under(table: &toml::Table, key: &str) -> (found: Option<String>)
    ensures
        match found {
            Some(text) => text_field(table_doc(*table), key@) == Some(text@),
            None => text_field(table_doc(*table), key@) is None,
        },
{
    match table_get(table, key) {
        Some(value) => match value_as_str(value) {
            Some(text) => Some(text.to_owned()),
            None => None,
        },
        None => None,
    }
}

/// The integer under `key` of a table.
fn integer_under(table: &toml::Table, key: &str) -> (found: Option<i64>)
    ensures
        found == integer_field(table_doc(*table), key@),
{
    match table_get(table, key) {
        Some(value) => value_as_integer(value),
        None => None,
    }
}

/// Reads one neighbour entry.
fn link_from_value(entry: &toml::Value) -> (found: Option<NeighbourLink>)
    ensures
        match found {
            Some(link) => link_of(value_doc(*entry)) == Some(link@),
            None => link_of(value_doc(*entry)) is None,
        },
{
    match value_as_table(entry) {
        Some(fields) => match text_under(fields, "id") {
            Some(id) => Some(NeighbourLink { id, angle: integer_under(fields, "angle") }),
            None => None,
        },
        None => None,
    }
}

/// Reads the list of neighbours of a sphere entry.
fn neighbours_from_table(fields: &toml::Table) -> (found: Option<Vec<NeighbourLink>>)
    ensures
        match found {
            Some(links) => neighbours_of(table_doc(*fields)) == Some(link_views(links@)),
            None => neighbours_of(table_doc(*fields)) is None,
        },
{
    let entries = match table_get(fields, "neighbours") {
        Some(value) => match value_as_array(value) {
            Some(entries) => entries,
            None => return None,
        },
        None => return None,
    };
    let ghost docs = entries@.map_values(|item: toml::Value| value_doc(item));
    let mut links: Vec<NeighbourLink> = Vec::new();
    let mut i: usize = 0;
    while i < entries.len()
        invariant
            i <= entries.len(),
            docs == entries@.map_values(|item: toml::Value| value_doc(item)),
            table_doc(*fields).contains_key("neighbours"@),
            table_doc(*fields)["neighbours"@] == DocValue::List(docs),
            links@.len() == i,
            forall|j: int| 0 <= j < i ==> link_of(#[trigger] docs[j]) == Some(links@[j]@),
        decreases entries.len() - i,
    {
        match link_from_value(&entries[i]) {
            Some(link) => links.push(link),
            None => {
                assert(link_of(docs[i as int]) is None);
                return None;
            },
        }
        i += 1;
    }
    assert(links_of(docs).unwrap() =~= link_views(links@));
    Some(links)
}

/// Reads one entry of the `spheres` list.
fn sphere_from_value(entry: &toml::Value) -> (found: Option<Sphere>)
    ensures
        match found {
            Some(sphere) => sphere_of(value_doc(*entry)) == Some(sphere@),
            None => sphere_of(value_doc(*entry)) is None,
        },
{
    match value_as_table(entry) {
        Some(fields) => match text_under(fields, "id") {
            Some(id) => Some(Sphere { id, neighbours: neighbours_from_table(fields) }),
            None => None,
        },
        None => None,
    }
}

/// Builds the catalog from the root table of a parsed document.
///
/// The table must hold a list under `spheres`, and every entry of that list
/// must be a table with a string `id`. What is wrong below that level (a
/// missing list of neighbours, an angle that is no integer) is stored as it is
/// and reported by the lookup that meets it.
pub fn catalog_from_document(root: &toml::Table) -> (outcome: Result<SphereCatalog, ConfigParseError>)
    ensures
        is_catalog_outcome(table_doc(*root), outcome),
{
    let entries = match table_get(root, "spheres") {
        Some(value) => match value_as_array(value) {
            Some(entries) => entries,
            None => return Err(ConfigParseError::SpheresNotList),
        },
        None => return Err(ConfigParseError::MissingSpheres),
    };
    let ghost docs = entries@.map_values(|item: toml::Value| value_doc(item));
    let mut spheres: Vec<Sphere> = Vec::new();
    let mut i: usize = 0;
    while i < entries.len()
        invariant
            i <= entries.len(),
            docs == entries@.map_values(|item: toml::Value| value_doc(item)),
            table_doc(*root).contains_key("spheres"@),
            table_doc(*root)["spheres"@] == DocValue::List(docs),
            spheres@.len() == i,
            forall|j: int| 0 <= j < i ==> sphere_of(#[trigger] docs[j]) == Some(spheres@[j]@),
        decreases entries.len() - i,
    {
        match sphere_from_value(&entries[i]) {
            Some(sphere) => spheres.push(sphere),
            None => return Err(ConfigParseError::MalformedSphere { index: i }),
        }
        i += 1;
    }
    Ok(SphereCatalog::new(spheres))
}

/// Loads the catalog from the text of a configuration document.
///
/// Fails with [`ConfigParseError::Syntax`] exactly when the text is not a
/// TOML document, and otherwise as [`catalog_from_document`] does on the
/// parsed root table.
pub fn load(text: &str) -> (outcome: Result<SphereCatalog, ConfigParseError>)
    ensures
        match parsed_document(text@) {
            Ok(root) => is_catalog_outcome(root, outcome),
            Err(error) => outcome matches Err(ConfigParseError::Syntax(cause)) && cause == error,
        },
{
    match parse_document(text) {
        Ok(root) => catalog_from_document(&root),
        Err(error) => Err(ConfigParseError::Syntax(error)),
    }
}

} // verus!
