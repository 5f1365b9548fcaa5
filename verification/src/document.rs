//! The configuration document as plain values, and what can be read off
//! it: declared strings, the names of the configs, the entries of one.
//!
//! A document is a list of top-level keys with their values, in the order
//! in which the document gives them. A value that is a table is a config;
//! its entries map a destination spec to a source spec.

use vstd::prelude::*;
use crate::failure::{failed, Failure, FailureView, Reason};

verus! {

/// The value of a top-level key, as far as the library reads it.
#[derive(Clone, Debug)]
pub enum Item {
    /// A string.
    Text(String),
    /// A table: each key with its value where that is a string, with
    /// `None` where it is anything else.
    Table(Vec<(String, Option<String>)>),
    /// Any other value.
    Other,
}

/// An [`Item`] as plain values.
pub ghost enum Shape {
    Text(Seq<char>),
    Table(Seq<(Seq<char>, Option<Seq<char>>)>),
    Other,
}

impl DeepView for Item {
    type V = Shape;

    open spec fn deep_view(&self) -> Shape {
        match self {
            Item::Text(s) => Shape::Text(s@),
            Item::Table(entries) => Shape::Table(entries.deep_view()),
            Item::Other => Shape::Other,
        }
    }
}

/// A configuration document: its top-level keys and their values.
#[derive(Clone, Debug)]
pub struct Document {
    pub items: Vec<(String, Item)>,
}

impl View for Document {
    type V = Seq<(Seq<char>, Shape)>;

    open spec fn view(&self) -> Seq<(Seq<char>, Shape)> {
        self.items.deep_view()
    }
}

/// The value of the first item that has this key.
pub open spec fn lookup(doc: Seq<(Seq<char>, Shape)>, key: Seq<char>) -> Option<Shape>
    decreases doc.len(),
{
    if doc.len() == 0 {
        None
    } else if doc.first().0 == key {
        Some(doc.first().1)
    } else {
        lookup(doc.drop_first(), key)
    }
}

/// The string that the document declares under a key. A key that is
/// missing, or whose value is no string, declares nothing.
pub open spec fn declared(doc: Seq<(Seq<char>, Shape)>, key: Seq<char>) -> Option<Seq<char>> {
    match lookup(doc, key) {
        Some(Shape::Text(s)) => Some(s),
        _ => None,
    }
}

/// The key of an item whose value is a table.
pub open spec fn table_key() -> spec_fn((Seq<char>, Shape)) -> Option<Seq<char>> {
    |item: (Seq<char>, Shape)|
        if item.1 is Table {
            Some(item.0)
        } else {
            None
        }
}

/// The names of the configs: every top-level key whose value is a table,
/// in the order of the document.
pub open spec fn config_names(doc: Seq<(Seq<char>, Shape)>) -> Seq<Seq<char>> {
    doc.filter_map(table_key())
}

/// The entries of the config of that name, or why there are none: the
/// document has no such key, or its value is no table.
pub open spec fn config_entries(doc: Seq<(Seq<char>, Shape)>, name: Seq<char>) -> Result<
    Seq<(Seq<char>, Option<Seq<char>>)>,
    FailureView,
> {
    match lookup(doc, name) {
        None => Err(failed(Reason::UnknownConfig, name)),
        Some(Shape::Table(entries)) => Ok(entries),
        Some(_) => Err(failed(Reason::NotATable, name)),
    }
}

/// Whether no key occurs twice.
pub open spec fn distinct_keys<V>(entries: Seq<(Seq<char>, V)>) -> bool {
    forall|i: int, j: int| 0 <= i < j < entries.len() ==> entries[i].0 != entries[j].0
}

/// Whether a document is as a parser gives it: no top-level key occurs
/// twice, and within a config no destination spec does.
pub open spec fn well_formed(doc: Seq<(Seq<char>, Shape)>) -> bool {
    &&& distinct_keys(doc)
    &&& forall|i: int|
        0 <= i < doc.len() ==> ((#[trigger] doc[i]).1 matches Shape::Table(entries)
            ==> distinct_keys(entries))
}

/// Where the key first occurs, the lookup gives the value there.
pub proof fn lemma_lookup_found(doc: Seq<(Seq<char>, Shape)>, key: Seq<char>, at: int)
    requires
        0 <= at < doc.len(),
        doc[at].0 == key,
        forall|j: int| 0 <= j < at ==> doc[j].0 != key,
    ensures
        lookup(doc, key) == Some(doc[at].1),
    decreases at,
{
    if at > 0 {
        let rest = doc.drop_first();
        lemma_lookup_found(rest, key, at - 1);
    }
}

/// Where the key does not occur, the lookup gives nothing.
pub proof fn lemma_lookup_missing(doc: Seq<(Seq<char>, Shape)>, key: Seq<char>)
    requires
        forall|j: int| 0 <= j < doc.len() ==> doc[j].0 != key,
    ensures
        lookup(doc, key) is None,
    decreases doc.len(),
{
    if doc.len() > 0 {
        let rest = doc.drop_first();
        lemma_lookup_missing(rest, key);
    }
}

/// What a lookup gives is the value of an item with that key.
pub proof fn lemma_lookup_is_an_item(doc: Seq<(Seq<char>, Shape)>, key: Seq<char>)
    requires
        lookup(doc, key) is Some,
    ensures
        doc.contains((key, lookup(doc, key)->0)),
    decreases doc.len(),
{
    if doc.first().0 == key {
        assert(doc[0] == (key, lookup(doc, key)->0));
    } else {
        let rest = doc.drop_first();
        lemma_lookup_is_an_item(rest, key);
        let at = choose|i: int| 0 <= i < rest.len() && rest[i] == (key, lookup(rest, key)->0);
        assert(doc[at + 1] == rest[at]);
    }
}

/// Every config is listed.
pub proof fn lemma_config_is_listed(doc: Seq<(Seq<char>, Shape)>, at: int)
    requires
        0 <= at < doc.len(),
        doc[at].1 is Table,
    ensures
        config_names(doc).contains(doc[at].0),
    decreases doc.len(),
{
    let rest = doc.drop_last();
    let names = config_names(rest);
    if at == doc.len() - 1 {
        let listed = names + seq![doc[at].0];
        assert(listed[names.len() as int] == doc[at].0);
    } else {
        lemma_config_is_listed(rest, at);
        let found = choose|i: int| 0 <= i < names.len() && names[i] == doc[at].0;
        if doc.last().1 is Table {
            assert((names + seq![doc.last().0])[found] == doc[at].0);
        }
    }
}

/// In a document where no key occurs twice, the configs that are listed
/// are the ones that have entries: a name is among the config names
/// exactly if the entries of that config can be had.
pub proof fn law_listed_configs_have_entries(doc: Seq<(Seq<char>, Shape)>, name: Seq<char>)
    requires
        distinct_keys(doc),
    ensures
        config_names(doc).contains(name) <==> config_entries(doc, name) is Ok,
{
    if config_names(doc).contains(name) {
        doc.lemma_filter_map_contains(table_key(), name);
        let item = choose|item: (Seq<char>, Shape)|
            #[trigger] doc.contains(item) && table_key()(item) == Some(name);
        let at = choose|i: int| 0 <= i < doc.len() && doc[i] == item;
        lemma_lookup_found(doc, name, at);
    }
    if config_entries(doc, name) is Ok {
        lemma_lookup_is_an_item(doc, name);
        let item = (name, lookup(doc, name)->0);
        let at = choose|i: int| 0 <= i < doc.len() && doc[i] == item;
        lemma_config_is_listed(doc, at);
    }
}

impl Document {
    /// The value of the first item with this key.
    pub fn get(&self, key: &str) -> (found: Option<&Item>)
        ensures
            match found {
                Some(item) => lookup(self@, key@) == Some(item.deep_view()),
                None => lookup(self@, key@) is None,
            },
    {
        let wanted = key.to_owned();
        let mut i: usize = 0;
        while i < self.items.len()
            invariant
                i <= self.items.len(),
                wanted@ == key@,
                forall|j: int| 0 <= j < i ==> self@[j].0 != key@,
            decreases self.items.len() - i,
        {
            if self.items[i].0 == wanted {
                proof {
                    lemma_lookup_found(self@, key@, i as int);
                }
                return Some(&self.items[i].1);
            }
            i += 1;
        }
        proof {
            lemma_lookup_missing(self@, key@);
        }
        None
    }

    /// The string declared under this key, if there is one.
    pub fn text(&self, key: &str) -> (found: Option<&String>)
        ensures
            match found {
                Some(s) => declared(self@, key@) == Some(s@),
                None => declared(self@, key@) is None,
            },
    {
        match self.get(key) {
            Some(Item::Text(s)) => Some(s),
            _ => None,
        }
    }

    /// The names of the configs, in the order of the document.
    pub fn config_names(&self) -> (names: Vec<String>)
        ensures
            names.deep_view() == config_names(self@),
    {
        let mut names: Vec<String> = Vec::new();
        let mut i: usize = 0;
        while i < self.items.len()
            invariant
                i <= self.items.len(),
                names.deep_view() == config_names(self@.take(i as int)),
            decreases self.items.len() - i,
        {
            proof {
                self@.lemma_filter_map_take_succ(table_key(), i as int);
            }
            match &self.items[i].1 {
                Item::Table(_) => {
                    names.push(self.items[i].0.clone());
                },
                _ => {},
            }
            i += 1;
        }
        assert(self@.take(self@.len() as int) == self@);
        names
    }

    /// The entries of the config of that name.
    pub fn config(&self, name: &str) -> (found: Result<&Vec<(String, Option<String>)>, Failure>)
        ensures
            match config_entries(self@, name@) {
                Ok(entries) => found is Ok && found->Ok_0.deep_view() == entries,
                Err(f) => found is Err && found->Err_0@ == f,
            },
    {
        match self.get(name) {
            None => Err(Failure::new(Reason::UnknownConfig, name)),
            Some(Item::Table(entries)) => Ok(entries),
            Some(_) => Err(Failure::new(Reason::NotATable, name)),
        }
    }
}

} // verus!
