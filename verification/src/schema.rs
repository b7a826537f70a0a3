//! What it means for a type to be read from a document.

use vstd::prelude::*;
use crate::document::{Element, Kind, Node};
use crate::error::{Fault, Key, Rejection, SchemaError, Step};

verus! {

/// A type with a schema: a statement of which documents spell a value of
/// it, and a reader that follows the statement.
pub trait Schema: Sized + View {
    /// The value that a node spells, or why it spells none.
    spec fn decoded(node: Node) -> Result<Self::V, Rejection>;

    /// Reads a value from a document.
    fn decode(value: &Element) -> (read: Result<Self, SchemaError>)
        ensures
            match read {
                Ok(value_read) => Self::decoded(value@) == Ok::<Self::V, Rejection>(value_read@),
                Err(error) => Self::decoded(value@) == Err::<Self::V, Rejection>(error@),
            },
    ;
}

/// The rejection of a node that should have been a table.
pub open spec fn not_a_table(node: Node) -> Rejection {
    Rejection::here(Fault::Mismatch { expected: Kind::Table, found: node.kind() })
}

/// What stands under an optional `key` of a table: nothing where the key is
/// absent, else what the value there spells.
pub open spec fn optional<T: Schema>(table: Node, key: Key) -> Result<Option<T::V>, Rejection> {
    match table.child(key.text()) {
        None => Ok(None),
        Some(node) => match T::decoded(node) {
            Ok(value) => Ok(Some(value)),
            Err(rejection) => Err(rejection.under(Step::Key(key))),
        },
    }
}

/// The view of an optional value.
pub open spec fn option_view<T: View>(value: Option<T>) -> Option<T::V> {
    match value {
        None => None,
        Some(inner) => Some(inner@),
    }
}

/// Fails unless `value` is a table.
pub fn expect_table(value: &Element) -> (checked: Result<(), SchemaError>)
    ensures
        match checked {
            Ok(_) => value@ is Table,
            Err(error) => !(value@ is Table) && error@ == not_a_table(value@),
        },
{
    match value.kind() {
        Kind::Table => Ok(()),
        found => Err(SchemaError::here(Fault::Mismatch { expected: Kind::Table, found })),
    }
}

/// Reads what stands under an optional `key` of a table.
pub fn decode_optional<T: Schema>(table: &Element, key: Key) -> (read: Result<
    Option<T>,
    SchemaError,
>)
    ensures
        match read {
            Ok(value) => optional::<T>(table@, key) == Ok::<Option<T::V>, Rejection>(
                option_view(value),
            ),
            Err(error) => optional::<T>(table@, key) == Err::<Option<T::V>, Rejection>(error@),
        },
{
    match table.get(key.name()) {
        None => Ok(None),
        Some(value) => match T::decode(value) {
            Ok(inner) => Ok(Some(inner)),
            Err(error) => Err(error.under(Step::Key(key))),
        },
    }
}

} // verus!
