//! The boundary to the `toml` crate.
//!
//! The crate parses the configuration text and owns the parsed values. What
//! this module states about its functions is taken on trust: each contract
//! below says what the corresponding function of `toml` returns, in terms of
//! an abstract view of a TOML value, and nothing here is proved.

use vstd::prelude::*;

verus! {

/// A TOML value as the contracts of this crate see it.
pub enum DocValue {
    /// A string.
    Text(Seq<char>),
    /// An integer.
    Integer(i64),
    /// A float, a boolean or a datetime.
    Scalar,
    /// An array, in order.
    List(Seq<DocValue>),
    /// A table, by key.
    Table(Map<Seq<char>, DocValue>),
}

/// `toml::Value`, opaque to the verifier.
#[verifier::external_type_specification]
#[verifier::external_body]
pub struct ExTomlValue(toml::Value);

/// `toml::map::Map`, of which `toml::Table` is an instance; opaque to the
/// verifier.
#[verifier::external_type_specification]
#[verifier::external_body]
#[verifier::reject_recursive_types(K)]
#[verifier::reject_recursive_types(V)]
pub struct ExTomlMap<K, V>(toml::map::Map<K, V>);

/// `toml::de::Error`, opaque to the verifier.
#[verifier::external_type_specification]
#[verifier::external_body]
pub struct ExTomlError(toml::de::Error);

/// What a `toml::Value` holds.
pub uninterp spec fn value_doc(value: toml::Value) -> DocValue;

/// What a `toml::Table` holds: its keys and the value under each.
pub uninterp spec fn table_doc(table: toml::Table) -> Map<Seq<char>, DocValue>;

/// What parsing `text` as a TOML document gives: the content of the root
/// table, or the parser's error.
pub uninterp spec fn parsed_document(text: Seq<char>) -> Result<Map<Seq<char>, DocValue>, toml::de::Error>;

/// Parses `text` as a TOML document, by the `FromStr` impl of `toml::Table`.
///
/// Trusted: the outcome is a function of the text alone, named
/// [`parsed_document`].
#[verifier::external_body]
pub(crate) fn parse_document(text: &str) -> (outcome: Result<toml::Table, toml::de::Error>)
    ensures
        match outcome {
            Ok(table) => parsed_document(text@) == Ok::<_, toml::de::Error>(table_doc(table)),
            Err(error) => parsed_document(text@) == Err::<Map<Seq<char>, DocValue>, _>(error),
        },
{
    text.parse::<toml::Table>()
}

/// The value under `key`, by `toml::map::Map::get`.
///
/// Trusted: returns the value stored under exactly that key, and `None` when
/// the table has no such key.
#[verifier::external_body]
pub(crate) fn table_get<'a>(table: &'a toml::Table, key: &str) -> (found: Option<&'a toml::Value>)
    ensures
        match found {
            Some(value) => table_doc(*table).contains_key(key@) && table_doc(*table)[key@]
                == value_doc(*value),
            None => !table_doc(*table).contains_key(key@),
        },
{
    table.get(key)
}

/// The table inside a value, by `toml::Value::as_table`.
///
/// Trusted: returns the table when the value is one, and `None` otherwise.
#[verifier::external_body]
pub(crate) fn value_as_table(value: &toml::Value) -> (found: Option<&toml::Table>)
    ensures
        match found {
            Some(table) => value_doc(*value) == DocValue::Table(table_doc(*table)),
            None => !(value_doc(*value) is Table),
        },
{
    value.as_table()
}

/// The array inside a value, by `toml::Value::as_array`.
///
/// Trusted: returns the elements in order when the value is an array, and
/// `None` otherwise.
#[verifier::external_body]
pub(crate) fn value_as_array(value: &toml::Value) -> (found: Option<&Vec<toml::Value>>)
    ensures
        match found {
            Some(items) => value_doc(*value) == DocValue::List(
                items@.map_values(|item: toml::Value| value_doc(item)),
            ),
            None => !(value_doc(*value) is List),
        },
{
    value.as_array()
}

/// The string inside a value, by `toml::Value::as_str`.
///
/// Trusted: returns the string when the value is one, and `None` otherwise.
#[verifier::external_body]
pub(crate) fn value_as_str(value: &toml::Value) -> (found: Option<&str>)
    ensures
        match found {
            Some(text) => value_doc(*value) == DocValue::Text(text@),
            None => !(value_doc(*value) is Text),
        },
{
    value.as_str()
}

/// The integer inside a value, by `toml::Value::as_integer`.
///
/// Trusted: returns the integer when the value is one, and `None` otherwise.
#[verifier::external_body]
pub(crate) fn value_as_integer(value: &toml::Value) -> (found: Option<i64>)
    ensures
        match found {
            Some(number) => value_doc(*value) == DocValue::Integer(number),
            None => !(value_doc(*value) is Integer),
        },
{
    value.as_integer()
}

} // verus!
