//! Reading TOML text into a [`Element`] with the `toml` crate.
//!
//! Parsing is the crate's work and is trusted; turning what it returns into
//! this library's own document type is verified here.

use vstd::prelude::*;
use crate::document::{lemma_contents, lemma_fields, Element, Entry, Field, Node};

verus! {

/// `toml::Value`, the `toml` crate's own document tree. It is carried
/// through as it is; nothing of its inside is known here but what [`peel`]
/// hands out.
#[verifier::external_type_specification]
#[verifier::external_body]
pub struct ExTomlValue(toml::Value);

/// The content of a `toml::Value`: texts, integers and booleans with their
/// payload, arrays with their items in order, tables with their entries in
/// the order in which the table hands them out.
pub uninterp spec fn toml_content(value: toml::Value) -> Node;

/// What `toml::from_str` makes of a text: the document it denotes, or the
/// diagnostic that the crate prints for a text that is not TOML.
pub uninterp spec fn toml_parsed(text: Seq<char>) -> Result<Node, Seq<char>>;

/// One level of a `toml::Value`, its children still unread.
enum Peeled<'a> {
    Text(&'a str),
    Integer(i64),
    Float,
    Boolean(bool),
    Datetime,
    Array(&'a Vec<toml::Value>),
    Table(Vec<(&'a String, &'a toml::Value)>),
}

/// The content that a peeled level stands for.
spec fn peeled_content(level: Peeled<'_>) -> Node {
    match level {
        Peeled::Text(text) => Node::Text(text@),
        Peeled::Integer(number) => Node::Integer(number),
        Peeled::Float => Node::Float,
        Peeled::Boolean(flag) => Node::Boolean(flag),
        Peeled::Datetime => Node::Datetime,
        Peeled::Array(items) => Node::Array(
            Seq::new(items@.len(), |i: int| toml_content(items@[i])),
        ),
        Peeled::Table(entries) => Node::Table(
            Seq::new(
                entries@.len(),
                |i: int| Field { key: entries@[i].0@, value: toml_content(*entries@[i].1) },
            ),
        ),
    }
}

/// Calls `toml::from_str` for a `toml::Value`. Trusted: the outcome is a
/// function of the text alone, named [`toml_parsed`]; a failure is carried
/// as the text that the crate's error displays.
#[verifier::external_body]
fn parse_toml(text: &str) -> (parsed: Result<toml::Value, String>)
    ensures
        match parsed {
            Ok(value) => toml_parsed(text@) == Ok::<Node, Seq<char>>(toml_content(value)),
            Err(message) => toml_parsed(text@) == Err::<Node, Seq<char>>(message@),
        },
{
    match toml::from_str::<toml::Value>(text) {
        Ok(value) => Ok(value),
        Err(error) => Err(error.to_string()),
    }
}

/// Tells the variants of `toml::Value` apart. Trusted: each variant is handed
/// out with its payload, a table as the entries that `iter` yields; the
/// payloads of floats and datetimes are left behind.
#[verifier::external_body]
fn peel(value: &toml::Value) -> (level: Peeled<'_>)
    ensures
        peeled_content(level) == toml_content(*value),
{
    match value {
        toml::Value::String(text) => Peeled::Text(text),
        toml::Value::Integer(number) => Peeled::Integer(*number),
        toml::Value::Float(_) => Peeled::Float,
        toml::Value::Boolean(flag) => Peeled::Boolean(*flag),
        toml::Value::Datetime(_) => Peeled::Datetime,
        toml::Value::Array(items) => Peeled::Array(items),
        toml::Value::Table(table) => Peeled::Table(table.iter().collect()),
    }
}

/// Copies a `toml::Value` into a [`Element`] with the same content.
fn lift(value: &toml::Value) -> (lifted: Element)
    ensures
        lifted@ == toml_content(*value),
    decreases toml_content(*value),
{
    match peel(value) {
        Peeled::Text(text) => Element::Text(text.to_owned()),
        Peeled::Integer(number) => Element::Integer(number),
        Peeled::Float => Element::Float,
        Peeled::Boolean(flag) => Element::Boolean(flag),
        Peeled::Datetime => Element::Datetime,
        Peeled::Array(items) => {
            let ghost content = Seq::new(items@.len(), |i: int| toml_content(items@[i]));
            let mut lifted: Vec<Element> = Vec::new();
            let mut i: usize = 0;
            while i < items.len()
                invariant
                    i <= items@.len(),
                    lifted@.len() == i,
                    toml_content(*value) == Node::Array(content),
                    content == Seq::new(items@.len(), |i: int| toml_content(items@[i])),
                    forall|j: int| 0 <= j < i ==> (#[trigger] lifted@[j])@ == content[j],
                decreases items@.len() - i,
            {
                proof {
                    let whole = toml_content(*value);
                    assert(toml_content(items@[i as int]) == content[i as int]);
                    assert(decreases_to!(whole => whole->Array_0));
                    assert(decreases_to!(content => content[i as int]));
                }
                let item = lift(&items[i]);
                lifted.push(item);
                i += 1;
            }
            let array = Element::Array(lifted);
            assert(array@ == Node::Array(content)) by {
                lemma_contents(lifted@, lifted@.len());
                assert(array@->Array_0 =~= content);
            }
            array
        },
        Peeled::Table(entries) => {
            let ghost content = Seq::new(
                entries@.len(),
                |i: int| Field { key: entries@[i].0@, value: toml_content(*entries@[i].1) },
            );
            let mut lifted: Vec<Entry> = Vec::new();
            let mut i: usize = 0;
            while i < entries.len()
                invariant
                    i <= entries@.len(),
                    lifted@.len() == i,
                    toml_content(*value) == Node::Table(content),
                    content == Seq::new(
                        entries@.len(),
                        |i: int| Field { key: entries@[i].0@, value: toml_content(*entries@[i].1) },
                    ),
                    forall|j: int| 0 <= j < i ==> (#[trigger] lifted@[j])@ == content[j],
                decreases entries@.len() - i,
            {
                proof {
                    let whole = toml_content(*value);
                    assert(toml_content(*entries@[i as int].1) == content[i as int].value);
                    assert(decreases_to!(whole => whole->Table_0));
                    assert(decreases_to!(content => content[i as int]));
                    assert(decreases_to!(content[i as int] => content[i as int].value));
                }
                let key = entries[i].0.clone();
                let item = lift(entries[i].1);
                lifted.push(Entry { key, value: item });
                i += 1;
            }
            let table = Element::Table(lifted);
            assert(table@ == Node::Table(content)) by {
                lemma_fields(lifted@, lifted@.len());
                assert(table@->Table_0 =~= content);
            }
            table
        },
    }
}

/// Parses TOML text into a document.
///
/// Succeeds exactly on the texts that the `toml` crate accepts, with the
/// document it reads from them; otherwise returns the crate's diagnostic.
pub fn parse_document(text: &str) -> (parsed: Result<Element, String>)
    ensures
        match parsed {
            Ok(document) => toml_parsed(text@) == Ok::<Node, Seq<char>>(document@),
            Err(message) => toml_parsed(text@) == Err::<Node, Seq<char>>(message@),
        },
{
    match parse_toml(text) {
        Ok(value) => Ok(lift(&value)),
        Err(message) => Err(message),
    }
}

} // verus!
