//! Colors and styles, and how a document spells them.

use vstd::prelude::*;
use crate::document::{Element, Kind, Node};
use crate::error::{Fault, Key, Rejection, SchemaError, Step};
use crate::text::same_text;

verus! {

/// A terminal color, or none at all.
#[derive(Clone, Copy, Debug, PartialEq, Eq, Structural)]
pub enum Color {
    /// No color: the terminal's own.
    Unset,
    Black,
    Red,
    Green,
    Yellow,
    Blue,
    Magenta,
    Cyan,
    White,
}

/// How one kind of token is rendered.
#[derive(Clone, Copy, Debug, PartialEq, Eq, Structural)]
pub struct Style {
    pub fg: Color,
    pub bg: Color,
    pub bold: bool,
    pub faint: bool,
    pub italic: bool,
    pub underline: bool,
}

impl Color {
    /// The color that a lower-case name stands for.
    pub open spec fn named(name: Seq<char>) -> Option<Color> {
        if name == "none"@ {
            Some(Color::Unset)
        } else if name == "black"@ {
            Some(Color::Black)
        } else if name == "red"@ {
            Some(Color::Red)
        } else if name == "green"@ {
            Some(Color::Green)
        } else if name == "yellow"@ {
            Some(Color::Yellow)
        } else if name == "blue"@ {
            Some(Color::Blue)
        } else if name == "magenta"@ {
            Some(Color::Magenta)
        } else if name == "cyan"@ {
            Some(Color::Cyan)
        } else if name == "white"@ {
            Some(Color::White)
        } else {
            None
        }
    }

    /// What a document node says as a color: a text that names one.
    pub open spec fn decoded(node: Node) -> Result<Color, Rejection> {
        match node {
            Node::Text(name) => match Color::named(name) {
                Some(color) => Ok(color),
                None => Err(Rejection::here(Fault::UnknownColor)),
            },
            _ => Err(
                Rejection::here(Fault::Mismatch { expected: Kind::Text, found: node.kind() }),
            ),
        }
    }

    /// The color under `key` of a table, none where the key is absent.
    pub open spec fn decoded_at(table: Node, key: Key) -> Result<Color, Rejection> {
        match table.child(key.text()) {
            None => Ok(Color::Unset),
            Some(node) => match Color::decoded(node) {
                Ok(color) => Ok(color),
                Err(rejection) => Err(rejection.under(Step::Key(key))),
            },
        }
    }

    /// The color that a lower-case name stands for.
    pub fn parse(name: &str) -> (color: Option<Color>)
        ensures
            color == Color::named(name@),
    {
        if same_text(name, "none") {
            Some(Color::Unset)
        } else if same_text(name, "black") {
            Some(Color::Black)
        } else if same_text(name, "red") {
            Some(Color::Red)
        } else if same_text(name, "green") {
            Some(Color::Green)
        } else if same_text(name, "yellow") {
            Some(Color::Yellow)
        } else if same_text(name, "blue") {
            Some(Color::Blue)
        } else if same_text(name, "magenta") {
            Some(Color::Magenta)
        } else if same_text(name, "cyan") {
            Some(Color::Cyan)
        } else if same_text(name, "white") {
            Some(Color::White)
        } else {
            None
        }
    }

    /// Reads a color from a document value.
    pub fn decode(value: &Element) -> (color: Result<Color, SchemaError>)
        ensures
            match color {
                Ok(color) => Color::decoded(value@) == Ok::<Color, Rejection>(color),
                Err(error) => Color::decoded(value@) == Err::<Color, Rejection>(error@),
            },
    {
        match value {
            Element::Text(name) => match Color::parse(name.as_str()) {
                Some(color) => Ok(color),
                None => Err(SchemaError::here(Fault::UnknownColor)),
            },
            _ => Err(
                SchemaError::here(Fault::Mismatch { expected: Kind::Text, found: value.kind() }),
            ),
        }
    }

    /// Reads the color under `key` of a table, none where the key is absent.
    pub fn decode_at(table: &Element, key: Key) -> (color: Result<Color, SchemaError>)
        ensures
            match color {
                Ok(color) => Color::decoded_at(table@, key) == Ok::<Color, Rejection>(color),
                Err(error) => Color::decoded_at(table@, key) == Err::<Color, Rejection>(error@),
            },
    {
        match table.get(key.name()) {
            None => Ok(Color::Unset),
            Some(value) => match Color::decode(value) {
                Ok(color) => Ok(color),
                Err(error) => Err(error.under(Step::Key(key))),
            },
        }
    }
}

/// What a document node says as a flag: a boolean.
pub open spec fn flag_decoded(node: Node) -> Result<bool, Rejection> {
    match node {
        Node::Boolean(flag) => Ok(flag),
        _ => Err(Rejection::here(Fault::Mismatch { expected: Kind::Boolean, found: node.kind() })),
    }
}

/// The flag under `key` of a table, false where the key is absent.
pub open spec fn flag_decoded_at(table: Node, key: Key) -> Result<bool, Rejection> {
    match table.child(key.text()) {
        None => Ok(false),
        Some(node) => match flag_decoded(node) {
            Ok(flag) => Ok(flag),
            Err(rejection) => Err(rejection.under(Step::Key(key))),
        },
    }
}

/// Reads the flag under `key` of a table, false where the key is absent.
pub fn decode_flag_at(table: &Element, key: Key) -> (flag: Result<bool, SchemaError>)
    ensures
        match flag {
            Ok(flag) => flag_decoded_at(table@, key) == Ok::<bool, Rejection>(flag),
            Err(error) => flag_decoded_at(table@, key) == Err::<bool, Rejection>(error@),
        },
{
    match table.get(key.name()) {
        None => Ok(false),
        Some(value) => match value {
            Element::Boolean(flag) => Ok(*flag),
            _ => Err(
                SchemaError::here(
                    Fault::Mismatch { expected: Kind::Boolean, found: value.kind() },
                ).under(Step::Key(key)),
            ),
        },
    }
}

impl Style {
    /// The style that changes nothing: no colors, no emphasis.
    pub open spec fn plain() -> Style {
        Style {
            fg: Color::Unset,
            bg: Color::Unset,
            bold: false,
            faint: false,
            italic: false,
            underline: false,
        }
    }

    /// What a document node says as a style: a table in which each of the
    /// six keys is optional and every other key is ignored. Of several
    /// faults, the one under the first key in the order below is reported.
    pub open spec fn decoded(node: Node) -> Result<Style, Rejection> {
        if !(node is Table) {
            Err(Rejection::here(Fault::Mismatch { expected: Kind::Table, found: node.kind() }))
        } else {
            match Color::decoded_at(node, Key::Fg) {
                Err(rejection) => Err(rejection),
                Ok(fg) => match Color::decoded_at(node, Key::Bg) {
                    Err(rejection) => Err(rejection),
                    Ok(bg) => match flag_decoded_at(node, Key::Bold) {
                        Err(rejection) => Err(rejection),
                        Ok(bold) => match flag_decoded_at(node, Key::Faint) {
                            Err(rejection) => Err(rejection),
                            Ok(faint) => match flag_decoded_at(node, Key::Italic) {
                                Err(rejection) => Err(rejection),
                                Ok(italic) => match flag_decoded_at(node, Key::Underline) {
                                    Err(rejection) => Err(rejection),
                                    Ok(underline) => Ok(
                                        Style { fg, bg, bold, faint, italic, underline },
                                    ),
                                },
                            },
                        },
                    },
                },
            }
        }
    }

    /// The style under `key` of a table; the key is required.
    pub open spec fn decoded_at(table: Node, key: Key) -> Result<Style, Rejection> {
        match table.child(key.text()) {
            None => Err(Rejection::here(Fault::Missing).under(Step::Key(key))),
            Some(node) => match Style::decoded(node) {
                Ok(style) => Ok(style),
                Err(rejection) => Err(rejection.under(Step::Key(key))),
            },
        }
    }

    /// Reads a style from a document value.
    pub fn decode(value: &Element) -> (style: Result<Style, SchemaError>)
        ensures
            match style {
                Ok(style) => Style::decoded(value@) == Ok::<Style, Rejection>(style),
                Err(error) => Style::decoded(value@) == Err::<Style, Rejection>(error@),
            },
    {
        match value.kind() {
            Kind::Table => {},
            found => {
                return Err(SchemaError::here(Fault::Mismatch { expected: Kind::Table, found }));
            },
        }
        let fg = Color::decode_at(value, Key::Fg)?;
        let bg = Color::decode_at(value, Key::Bg)?;
        let bold = decode_flag_at(value, Key::Bold)?;
        let faint = decode_flag_at(value, Key::Faint)?;
        let italic = decode_flag_at(value, Key::Italic)?;
        let underline = decode_flag_at(value, Key::Underline)?;
        Ok(Style { fg, bg, bold, faint, italic, underline })
    }

    /// Reads the style under `key` of a table; the key is required.
    pub fn decode_at(table: &Element, key: Key) -> (style: Result<Style, SchemaError>)
        ensures
            match style {
                Ok(style) => Style::decoded_at(table@, key) == Ok::<Style, Rejection>(style),
                Err(error) => Style::decoded_at(table@, key) == Err::<Style, Rejection>(error@),
            },
    {
        match table.get(key.name()) {
            None => Err(SchemaError::here(Fault::Missing).under(Step::Key(key))),
            Some(value) => match Style::decode(value) {
                Ok(style) => Ok(style),
                Err(error) => Err(error.under(Step::Key(key))),
            },
        }
    }
}

impl Default for Style {
    fn default() -> (style: Style)
        ensures
            style == Style::plain(),
    {
        Style {
            fg: Color::Unset,
            bg: Color::Unset,
            bold: false,
            faint: false,
            italic: false,
            underline: false,
        }
    }
}

impl Default for Color {
    fn default() -> (color: Color)
        ensures
            color == Color::Unset,
    {
        Color::Unset
    }
}

/// A style in which nothing is specified is the plain style: a table with
/// none of the six keys, the empty table among them, reads as no colors and
/// no emphasis.
pub proof fn lemma_unspecified_style_is_plain(node: Node)
    requires
        node is Table,
        node.child(Key::Fg.text()) is None,
        node.child(Key::Bg.text()) is None,
        node.child(Key::Bold.text()) is None,
        node.child(Key::Faint.text()) is None,
        node.child(Key::Italic.text()) is None,
        node.child(Key::Underline.text()) is None,
    ensures
        Style::decoded(node) == Ok::<Style, Rejection>(Style::plain()),
        Style::decoded(Node::Table(Seq::empty())) == Ok::<Style, Rejection>(Style::plain()),
{
}

/// Each field of a style is optional on its own: in a style that is read,
/// a field whose key is absent has no effect, whatever the other keys say.
pub proof fn lemma_style_fields_default(node: Node)
    requires
        Style::decoded(node) is Ok,
    ensures
        node.child(Key::Fg.text()) is None ==> Style::decoded(node)->Ok_0.fg == Color::Unset,
        node.child(Key::Bg.text()) is None ==> Style::decoded(node)->Ok_0.bg == Color::Unset,
        node.child(Key::Bold.text()) is None ==> !Style::decoded(node)->Ok_0.bold,
        node.child(Key::Faint.text()) is None ==> !Style::decoded(node)->Ok_0.faint,
        node.child(Key::Italic.text()) is None ==> !Style::decoded(node)->Ok_0.italic,
        node.child(Key::Underline.text()) is None ==> !Style::decoded(node)->Ok_0.underline,
{
}

/// Keys that the schema does not know are ignored: two tables that agree
/// under the six keys of a style spell the same style, or are rejected for
/// the same reason, whatever else they hold.
pub proof fn lemma_style_ignores_other_keys(one: Node, other: Node)
    requires
        one is Table,
        other is Table,
        one.child(Key::Fg.text()) == other.child(Key::Fg.text()),
        one.child(Key::Bg.text()) == other.child(Key::Bg.text()),
        one.child(Key::Bold.text()) == other.child(Key::Bold.text()),
        one.child(Key::Faint.text()) == other.child(Key::Faint.text()),
        one.child(Key::Italic.text()) == other.child(Key::Italic.text()),
        one.child(Key::Underline.text()) == other.child(Key::Underline.text()),
    ensures
        Style::decoded(one) == Style::decoded(other),
{
}

} // verus!
