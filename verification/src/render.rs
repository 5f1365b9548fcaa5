//! Writing one config back as a TOML document of its own.
//!
//! The `toml` crate writes the values; this module lays the document out.
//! What is taken on trust about the crate is stated on the items marked
//! `external_body`, over the two names [`toml_string`] and
//! [`toml_table`], and nowhere else.

use vstd::prelude::*;

verus! {

/// `toml::ser::Error`, the serializer's error. Nothing inside it is
/// visible here.
#[verifier::external_type_specification]
#[verifier::external_body]
pub struct ExSerError(toml::ser::Error);

/// The text that the `toml` crate displays for a string value: the
/// string as TOML writes it, quoted and escaped.
pub uninterp spec fn toml_string(text: Seq<char>) -> Seq<char>;

/// The text that `toml::ser::to_string` gives for the table made of these
/// keys, each with its string; `None` where it reports an error.
pub uninterp spec fn toml_table(entries: Seq<(Seq<char>, Seq<char>)>) -> Option<Seq<char>>;

/// Displays a `toml::Value::String` made from the text. The contract only
/// names what comes back.
#[verifier::external_body]
fn string_text(text: &str) -> (r: String)
    ensures
        r@ == toml_string(text@),
{
    toml::Value::String(text.to_string()).to_string()
}

/// Calls `toml::ser::to_string` on the table collected from the entries,
/// each string as a `toml::Value::String`. The contract only names what
/// comes back, and says that an error comes exactly where `toml_table`
/// gives nothing.
#[verifier::external_body]
fn table_text(entries: &Vec<(String, String)>) -> (r: Result<String, toml::ser::Error>)
    ensures
        match r {
            Ok(text) => toml_table(entries.deep_view()) == Some(text@),
            Err(_) => toml_table(entries.deep_view()) is None,
        },
{
    let table: toml::Table = entries.iter().map(
        |(key, text)| (key.clone(), toml::Value::String(text.clone())),
    ).collect();
    toml::ser::to_string(&table)
}

/// An entry whose source is a string, as key and string.
pub open spec fn with_source() -> spec_fn((Seq<char>, Option<Seq<char>>)) -> Option<
    (Seq<char>, Seq<char>),
> {
    |entry: (Seq<char>, Option<Seq<char>>)|
        match entry.1 {
            Some(source) => Some((entry.0, source)),
            None => None,
        }
}

/// The entries that can be written: those whose source is a string.
pub open spec fn writable(entries: Seq<(Seq<char>, Option<Seq<char>>)>) -> Seq<
    (Seq<char>, Seq<char>),
> {
    entries.filter_map(with_source())
}

/// The layout of a document that holds one config: the title, the two
/// roots, then the config's table under its name.
pub open spec fn laid_out(
    title: Seq<char>,
    src_dir: Seq<char>,
    dst_dir: Seq<char>,
    config: Seq<char>,
    body: Seq<char>,
) -> Seq<char> {
    "title = "@ + title + "\nsrc_dir = \""@ + src_dir + "\"\ndst_dir = \""@ + dst_dir
        + "\"\n["@ + config + "]\n"@ + body
}

/// The document that holds one config, from its parts: `title` and `body`
/// in TOML syntax already, the other three as they are.
pub fn lay_out(title: &str, src_dir: &str, dst_dir: &str, config: &str, body: &str) -> (text:
    String)
    ensures
        text@ == laid_out(title@, src_dir@, dst_dir@, config@, body@),
{
    let mut text = String::new();
    text.append("title = ");
    text.append(title);
    text.append("\nsrc_dir = \"");
    text.append(src_dir);
    text.append("\"\ndst_dir = \"");
    text.append(dst_dir);
    text.append("\"\n[");
    text.append(config);
    text.append("]\n");
    text.append(body);
    text
}

/// The text of one config as a document of its own, given what the
/// `toml` crate makes of the title and of the entries; empty where it
/// makes nothing of the entries.
pub open spec fn rendered(
    title: Seq<char>,
    src_dir: Seq<char>,
    dst_dir: Seq<char>,
    config: Seq<char>,
    entries: Seq<(Seq<char>, Option<Seq<char>>)>,
) -> Seq<char> {
    match toml_table(writable(entries)) {
        Some(body) => laid_out(toml_string(title), src_dir, dst_dir, config, body),
        None => Seq::empty(),
    }
}

/// Writes one config as a document of its own. Entries whose source is no
/// string are left out.
pub fn render(
    title: &str,
    src_dir: &str,
    dst_dir: &str,
    config: &str,
    entries: &Vec<(String, Option<String>)>,
) -> (text: String)
    ensures
        text@ == rendered(title@, src_dir@, dst_dir@, config@, entries.deep_view()),
{
    let mut pairs: Vec<(String, String)> = Vec::new();
    let mut i: usize = 0;
    while i < entries.len()
        invariant
            i <= entries.len(),
            pairs.deep_view() == writable(entries.deep_view().take(i as int)),
        decreases entries.len() - i,
    {
        proof {
            entries.deep_view().lemma_filter_map_take_succ(with_source(), i as int);
        }
        match &entries[i].1 {
            Some(source) => {
                pairs.push((entries[i].0.clone(), source.clone()));
            },
            None => {},
        }
        i += 1;
    }
    assert(entries.deep_view().take(entries.deep_view().len() as int) == entries.deep_view());
    match table_text(&pairs) {
        Ok(body) => {
            let quoted = string_text(title);
            lay_out(quoted.as_str(), src_dir, dst_dir, config, body.as_str())
        },
        Err(_) => String::new(),
    }
}

} // verus!
