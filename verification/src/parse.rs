//! Reading a configuration document from TOML text.
//!
//! The `toml` crate parses; this module walks the table it gives and
//! keeps what the library reads. What is taken on trust about the crate
//! is stated on the items marked `external_body`, over the two names
//! [`toml_parse`] and [`toml_entries`], and nowhere else.

use vstd::prelude::*;
use crate::document::{distinct_keys, well_formed, Document, Item, Shape};
use crate::failure::{Failure, Reason};

verus! {

/// `toml::map::Map`, the type behind `toml::Table`. Nothing inside it is
/// visible here.
#[verifier::external_type_specification]
#[verifier::external_body]
#[verifier::reject_recursive_types(K)]
#[verifier::reject_recursive_types(V)]
pub struct ExMap<K, V>(toml::map::Map<K, V>);

/// `toml::Value`, the type of a table's values. Nothing inside it is
/// visible here.
#[verifier::external_type_specification]
#[verifier::external_body]
pub struct ExValue(toml::Value);

/// `toml::de::Error`, the parser's error. Nothing inside it is visible
/// here.
#[verifier::external_type_specification]
#[verifier::external_body]
pub struct ExDeError(toml::de::Error);

/// The document that `toml::from_str` reads from a text, when asked for a
/// table: its top-level keys with the shapes of their values, in the
/// order in which the table is walked; `None` where it reports an error.
pub uninterp spec fn toml_parse(text: Seq<char>) -> Option<Seq<(Seq<char>, Shape)>>;

/// What a table holds: each key with the shape of its value, in the order
/// in which the table is walked. A string has the shape of its text; a
/// table that of its own entries, each key with its value where that is a
/// string; every other value is `Other`.
pub uninterp spec fn toml_entries(table: toml::Table) -> Seq<(Seq<char>, Shape)>;

/// A value met while walking a table.
enum Slot<'a> {
    Text(String),
    Table(&'a toml::Table),
    Other,
}

/// An entry of a config as the library keeps it: the key, and the value
/// where that is a string.
spec fn entry_of() -> spec_fn((Seq<char>, Shape)) -> (Seq<char>, Option<Seq<char>>) {
    |item: (Seq<char>, Shape)|
        (
            item.0,
            match item.1 {
                Shape::Text(s) => Some(s),
                _ => None,
            },
        )
}

impl<'a> Slot<'a> {
    /// The shape that a slot stands for.
    spec fn shape(self) -> Shape {
        match self {
            Slot::Text(s) => Shape::Text(s@),
            Slot::Table(table) => Shape::Table(toml_entries(*table).map_values(entry_of())),
            Slot::Other => Shape::Other,
        }
    }
}

/// Calls `toml::from_str` for a `toml::Table`. The contract only names
/// what comes back: the table holds what `toml_parse` gives for the text,
/// and an error comes exactly where `toml_parse` gives nothing.
#[verifier::external_body]
fn parse_table(text: &str) -> (r: Result<toml::Table, toml::de::Error>)
    ensures
        match r {
            Ok(table) => toml_parse(text@) == Some(toml_entries(table)),
            Err(_) => toml_parse(text@) is None,
        },
{
    toml::from_str::<toml::Table>(text)
}

/// Displays a `toml::de::Error`: the parser's own words for what is wrong
/// and where. Nothing is claimed of them.
#[verifier::external_body]
fn error_words(error: &toml::de::Error) -> String {
    error.to_string()
}

/// Calls `toml::map::Map::len`: the number of entries. The table is a
/// map, so no two of them have the same key.
#[verifier::external_body]
fn table_len(table: &toml::Table) -> (n: usize)
    ensures
        n == toml_entries(*table).len(),
        forall|i: int, j: int|
            0 <= i < j < n ==> toml_entries(*table)[i].0 != toml_entries(*table)[j].0,
{
    table.len()
}

/// Calls `toml::map::Map::iter` and takes the entry at `index` in the
/// order of the walk: its key, and its value as a [`Slot`], told apart by
/// the variant of `toml::Value`.
#[verifier::external_body]
fn table_at<'a>(table: &'a toml::Table, index: usize) -> (r: (String, Slot<'a>))
    requires
        index < toml_entries(*table).len(),
    ensures
        r.0@ == toml_entries(*table)[index as int].0,
        r.1.shape() == toml_entries(*table)[index as int].1,
{
    let (key, value) = table.iter().nth(index).unwrap();
    let slot = match value {
        toml::Value::String(s) => Slot::Text(s.clone()),
        toml::Value::Table(t) => Slot::Table(t),
        toml::Value::Integer(_) => Slot::Other,
        toml::Value::Float(_) => Slot::Other,
        toml::Value::Boolean(_) => Slot::Other,
        toml::Value::Datetime(_) => Slot::Other,
        toml::Value::Array(_) => Slot::Other,
    };
    (key.clone(), slot)
}

/// The entries of a config table.
fn entries_of(table: &toml::Table) -> (entries: Vec<(String, Option<String>)>)
    ensures
        entries.deep_view() == toml_entries(*table).map_values(entry_of()),
        distinct_keys(entries.deep_view()),
{
    let len: usize = table_len(table);
    let mut entries: Vec<(String, Option<String>)> = Vec::new();
    let mut i: usize = 0;
    while i < len
        invariant
            i <= len,
            len == toml_entries(*table).len(),
            entries.deep_view() == toml_entries(*table).map_values(entry_of()).take(i as int),
        decreases len - i,
    {
        let ghost before = entries.deep_view();
        let (key, slot) = table_at(table, i);
        let source = match slot {
            Slot::Text(s) => Some(s),
            _ => None,
        };
        entries.push((key, source));
        assert(entries.deep_view() == before.push(entry_of()(toml_entries(*table)[i as int])));
        i += 1;
    }
    entries
}

/// The document that a table holds.
pub fn document_of(table: &toml::Table) -> (document: Document)
    ensures
        document@ == toml_entries(*table),
        well_formed(document@),
{
    let len: usize = table_len(table);
    let mut items: Vec<(String, Item)> = Vec::new();
    let mut i: usize = 0;
    while i < len
        invariant
            i <= len,
            len == toml_entries(*table).len(),
            items.deep_view() == toml_entries(*table).take(i as int),
            forall|k: int|
                0 <= k < i ==> ((#[trigger] items.deep_view()[k]).1 matches Shape::Table(entries)
                    ==> distinct_keys(entries)),
        decreases len - i,
    {
        let ghost before = items.deep_view();
        let (key, slot) = table_at(table, i);
        let item = match slot {
            Slot::Text(s) => Item::Text(s),
            Slot::Table(sub) => Item::Table(entries_of(sub)),
            Slot::Other => Item::Other,
        };
        items.push((key, item));
        assert(items.deep_view() == before.push(toml_entries(*table)[i as int]));
        i += 1;
    }
    Document { items }
}

/// What [`parse`] gives for a text, given what the parser made of it.
pub open spec fn parsed(r: Result<Document, Failure>, read: Option<Seq<(Seq<char>, Shape)>>) -> bool {
    match read {
        Some(doc) => r is Ok && r->Ok_0@ == doc && well_formed(doc),
        None => r is Err && r->Err_0@.reason == Reason::Malformed && r->Err_0@.path.len() == 0,
    }
}

/// Reads a document from TOML text. Malformed text is an error whose
/// further words are the parser's.
pub fn parse(text: &str) -> (r: Result<Document, Failure>)
    ensures
        parsed(r, toml_parse(text@)),
{
    match parse_table(text) {
        Ok(table) => Ok(document_of(&table)),
        Err(error) => Err(
            Failure { reason: Reason::Malformed, path: String::new(), detail: error_words(&error) },
        ),
    }
}

} // verus!
