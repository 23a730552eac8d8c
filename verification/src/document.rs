//! The parsed form of the persisted cache: a TOML document, read through the
//! `toml` crate.

use vstd::prelude::*;
use vstd::string::*;

verus! {

/// The table type of the `toml` crate.
#[verifier::external_type_specification]
#[verifier::external_body]
#[verifier::reject_recursive_types(K)]
#[verifier::reject_recursive_types(V)]
pub struct ExMap<K, V>(toml::map::Map<K, V>);

/// The value type of the `toml` crate.
#[verifier::external_type_specification]
#[verifier::external_body]
pub struct ExValue(toml::Value);

/// What a value of a document holds, as far as the cache reads it.
pub enum Node {
    /// A string.
    Text(Seq<char>),
    /// An integer.
    Integer(i64),
    /// A table: its keys and values, in the order in which the table yields them.
    Table(Seq<(Seq<char>, Node)>),
    /// A float, a boolean, a date or an array.
    Other,
}

/// The document that a text denotes, if it denotes one.
pub uninterp spec fn parsed_document(text: Seq<char>) -> Option<Seq<(Seq<char>, Node)>>;

/// The entries of a table, in the order in which it yields them.
pub uninterp spec fn table_entries(table: toml::Table) -> Seq<(Seq<char>, Node)>;

/// What a value holds.
pub uninterp spec fn value_node(value: toml::Value) -> Node;

/// `toml::from_str`, at the table type, with the parse error dropped.
/// Whether a text is a document, and which, depends on the text alone.
#[verifier::external_body]
pub(crate) fn parse_document(text: &str) -> (r: Option<toml::Table>)
    ensures
        match r {
            Some(table) => parsed_document(text@) == Some(table_entries(table)),
            None => parsed_document(text@) is None,
        },
{
    toml::from_str::<toml::Table>(text).ok()
}

/// `toml::map::Map::iter`, collected: every entry of the table once, in the
/// table's order. No two entries of a table have the same key.
#[verifier::external_body]
pub(crate) fn table_items<'a>(table: &'a toml::Table) -> (items: Vec<(&'a String, &'a toml::Value)>)
    ensures
        items@.len() == table_entries(*table).len(),
        forall|i: int|
            0 <= i < items@.len() ==> (#[trigger] items@[i]).0@ == table_entries(*table)[i].0
                && value_node(*items@[i].1) == table_entries(*table)[i].1,
        forall|i: int, j: int|
            0 <= i < items@.len() && 0 <= j < items@.len() && (#[trigger] items@[i]).0@ == (
            #[trigger] items@[j]).0@ ==> i == j,
{
    table.iter().collect()
}

/// `toml::Value::as_str`: the text of a string value, and nothing for a
/// value of another type.
pub assume_specification<'a>[ toml::Value::as_str ](value: &'a toml::Value) -> (r: Option<&'a str>)
    ensures
        match r {
            Some(s) => value_node(*value) == Node::Text(s@),
            None => !(value_node(*value) is Text),
        },
;

/// `toml::Value::as_integer`: the number of an integer value, and nothing
/// for a value of another type.
pub assume_specification[ toml::Value::as_integer ](value: &toml::Value) -> (r: Option<i64>)
    ensures
        match r {
            Some(i) => value_node(*value) == Node::Integer(i),
            None => !(value_node(*value) is Integer),
        },
;

/// `toml::Value::as_table`: the table of a table value, and nothing for a
/// value of another type.
pub assume_specification<'a>[ toml::Value::as_table ](value: &'a toml::Value) -> (r: Option<&'a toml::Table>)
    ensures
        match r {
            Some(t) => value_node(*value) == Node::Table(table_entries(*t)),
            None => !(value_node(*value) is Table),
        },
;


} // verus!
