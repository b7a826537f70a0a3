//! A structured document: the tree of tables, arrays and scalars that a
//! configuration text denotes, independent of how the text was parsed.

use vstd::prelude::*;
use crate::text::same_text;

verus! {

/// The kind of a document value, as named in diagnostics.
#[derive(Clone, Copy, Debug, PartialEq, Eq, Structural)]
pub enum Kind {
    Text,
    Integer,
    Float,
    Boolean,
    Datetime,
    Array,
    Table,
}

/// A document value. Floats and datetimes carry no payload: no schema in
/// this crate reads one, only their kind is ever reported.
#[derive(Debug, PartialEq)]
pub enum Element {
    Text(String),
    Integer(i64),
    Float,
    Boolean(bool),
    Datetime,
    Array(Vec<Element>),
    Table(Vec<Entry>),
}

/// One `key = value` line of a table.
#[derive(Debug, PartialEq)]
pub struct Entry {
    pub key: String,
    pub value: Element,
}

/// The mathematical content of a [`Element`].
pub ghost enum Node {
    Text(Seq<char>),
    Integer(i64),
    Float,
    Boolean(bool),
    Datetime,
    Array(Seq<Node>),
    Table(Seq<Field>),
}

/// The mathematical content of an [`Entry`].
pub ghost struct Field {
    pub key: Seq<char>,
    pub value: Node,
}

/// The content of an element.
pub open spec fn content(element: Element) -> Node
    decreases element, 0nat,
{
    match element {
        Element::Text(text) => Node::Text(text@),
        Element::Integer(number) => Node::Integer(number),
        Element::Float => Node::Float,
        Element::Boolean(flag) => Node::Boolean(flag),
        Element::Datetime => Node::Datetime,
        Element::Array(items) => Node::Array(contents_of(items@, items@.len())),
        Element::Table(entries) => Node::Table(fields_of(entries@, entries@.len())),
    }
}

/// The contents of the first `count` of `items`, in order.
pub open spec fn contents_of(items: Seq<Element>, count: nat) -> Seq<Node>
    decreases items, count,
{
    if count == 0 || count > items.len() {
        Seq::empty()
    } else {
        contents_of(items, (count - 1) as nat).push(content(items[count - 1]))
    }
}

/// The fields that the first `count` of `entries` stand for, in order.
pub open spec fn fields_of(entries: Seq<Entry>, count: nat) -> Seq<Field>
    decreases entries, count,
{
    if count == 0 || count > entries.len() {
        Seq::empty()
    } else {
        fields_of(entries, (count - 1) as nat).push(
            Field { key: entries[count - 1].key@, value: content(entries[count - 1].value) },
        )
    }
}

impl View for Element {
    type V = Node;

    open spec fn view(&self) -> Node {
        content(*self)
    }
}

/// An array's content is the content of each item, in order.
pub proof fn lemma_contents(items: Seq<Element>, count: nat)
    requires
        count <= items.len(),
    ensures
        contents_of(items, count).len() == count,
        forall|i: int| 0 <= i < count ==> #[trigger] contents_of(items, count)[i] == items[i]@,
    decreases count,
{
    if count > 0 {
        lemma_contents(items, (count - 1) as nat);
    }
}

/// A table's content is the field of each entry, in order.
pub proof fn lemma_fields(entries: Seq<Entry>, count: nat)
    requires
        count <= entries.len(),
    ensures
        fields_of(entries, count).len() == count,
        forall|i: int| 0 <= i < count ==> #[trigger] fields_of(entries, count)[i] == entries[i]@,
    decreases count,
{
    if count > 0 {
        lemma_fields(entries, (count - 1) as nat);
    }
}

impl View for Entry {
    type V = Field;

    open spec fn view(&self) -> Field {
        Field { key: self.key@, value: self.value@ }
    }
}

impl Kind {
    /// The kind's name as it is written in a diagnostic.
    pub open spec fn text(self) -> Seq<char> {
        match self {
            Kind::Text => "string"@,
            Kind::Integer => "integer"@,
            Kind::Float => "float"@,
            Kind::Boolean => "boolean"@,
            Kind::Datetime => "datetime"@,
            Kind::Array => "array"@,
            Kind::Table => "table"@,
        }
    }

    /// The kind's name as it is written in a diagnostic.
    pub fn name(self) -> (name: &'static str)
        ensures
            name@ == self.text(),
    {
        match self {
            Kind::Text => "string",
            Kind::Integer => "integer",
            Kind::Float => "float",
            Kind::Boolean => "boolean",
            Kind::Datetime => "datetime",
            Kind::Array => "array",
            Kind::Table => "table",
        }
    }
}

impl Node {
    /// The value under `key` where this node is a table that has the key.
    pub open spec fn child(self, key: Seq<char>) -> Option<Node> {
        match self {
            Node::Table(fields) => field(fields, key),
            _ => None,
        }
    }

    /// The kind of this node.
    pub open spec fn kind(self) -> Kind {
        match self {
            Node::Text(_) => Kind::Text,
            Node::Integer(_) => Kind::Integer,
            Node::Float => Kind::Float,
            Node::Boolean(_) => Kind::Boolean,
            Node::Datetime => Kind::Datetime,
            Node::Array(_) => Kind::Array,
            Node::Table(_) => Kind::Table,
        }
    }
}

/// The value of the first field of `fields` whose key is `key`, if any.
pub open spec fn field(fields: Seq<Field>, key: Seq<char>) -> Option<Node>
    decreases fields.len(),
{
    if fields.len() == 0 {
        None
    } else if fields[0].key == key {
        Some(fields[0].value)
    } else {
        field(fields.drop_first(), key)
    }
}

/// Whether `index` is the first place in `fields` where `key` stands.
pub open spec fn first_place(fields: Seq<Field>, key: Seq<char>, index: int) -> bool {
    &&& 0 <= index < fields.len()
    &&& fields[index].key == key
    &&& forall|j: int| 0 <= j < index ==> (#[trigger] fields[j]).key != key
}

/// A lookup finds nothing exactly where no field has the key, and else
/// finds the value at the first place where the key stands.
pub proof fn lemma_field(fields: Seq<Field>, key: Seq<char>)
    ensures
        field(fields, key) is None <==> forall|i: int|
            0 <= i < fields.len() ==> (#[trigger] fields[i]).key != key,
        field(fields, key) matches Some(value) ==> exists|i: int| #[trigger]
            first_place(fields, key, i) && fields[i].value == value,
    decreases fields.len(),
{
    if fields.len() == 0 {
    } else if fields[0].key == key {
        assert(first_place(fields, key, 0));
    } else {
        let rest = fields.drop_first();
        lemma_field(rest, key);
        assert forall|i: int| 0 <= i < rest.len() implies rest[i] == fields[i + 1] by {}
        if field(rest, key) is Some {
            let i = choose|i: int| #[trigger]
                first_place(rest, key, i) && rest[i].value == field(rest, key)->Some_0;
            assert forall|j: int| 0 <= j < i + 1 implies (#[trigger] fields[j]).key != key by {
                if j > 0 {
                    assert(rest[j - 1] == fields[j]);
                }
            }
            assert(first_place(fields, key, i + 1));
        } else {
            assert forall|i: int| 0 <= i < fields.len() implies (#[trigger] fields[i]).key
                != key by {
                if i > 0 {
                    assert(rest[i - 1] == fields[i]);
                }
            }
        }
    }
}

impl Element {
    /// The value under `key`, where this is a table that has the key; the
    /// first such entry where a table written by hand repeats a key.
    pub fn get(&self, key: &str) -> (found: Option<&Element>)
        ensures
            match found {
                Some(value) => self@.child(key@) == Some(value@),
                None => self@.child(key@) is None,
            },
    {
        match self {
            Element::Table(entries) => {
                let ghost table = fields_of(entries@, entries@.len());
                proof {
                    lemma_fields(entries@, entries@.len());
                    assert(table.skip(0) =~= table);
                }
                let mut i: usize = 0;
                while i < entries.len()
                    invariant
                        i <= entries@.len(),
                        self@ == Node::Table(table),
                        table.len() == entries@.len(),
                        forall|j: int| 0 <= j < entries@.len() ==> #[trigger] table[j] == entries@[j]@,
                        field(table, key@) == field(table.skip(i as int), key@),
                    decreases entries@.len() - i,
                {
                    if same_text(entries[i].key.as_str(), key) {
                        return Some(&entries[i].value);
                    }
                    assert(table.skip(i as int).drop_first() =~= table.skip(i + 1));
                    i += 1;
                }
                None
            },
            _ => None,
        }
    }

    /// The items of this value, where it is an array.
    pub fn as_array(&self) -> (items: Option<&Vec<Element>>)
        ensures
            match items {
                Some(items) => {
                    &&& self@ is Array
                    &&& self@->Array_0.len() == items@.len()
                    &&& forall|i: int|
                        0 <= i < items@.len() ==> #[trigger] self@->Array_0[i] == items@[i]@
                },
                None => !(self@ is Array),
            },
    {
        match self {
            Element::Array(items) => {
                proof {
                    lemma_contents(items@, items@.len());
                }
                Some(items)
            },
            _ => None,
        }
    }

    /// The characters of this value, where it is a text.
    pub fn as_text(&self) -> (text: Option<&str>)
        ensures
            match text {
                Some(text) => self@ == Node::Text(text@),
                None => !(self@ is Text),
            },
    {
        match self {
            Element::Text(text) => Some(text.as_str()),
            _ => None,
        }
    }

    /// The kind of this value.
    pub fn kind(&self) -> (kind: Kind)
        ensures
            kind == self@.kind(),
    {
        match self {
            Element::Text(_) => Kind::Text,
            Element::Integer(_) => Kind::Integer,
            Element::Float => Kind::Float,
            Element::Boolean(_) => Kind::Boolean,
            Element::Datetime => Kind::Datetime,
            Element::Array(_) => Kind::Array,
            Element::Table(_) => Kind::Table,
        }
    }
}

} // verus!
