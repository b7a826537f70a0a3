//! What can go wrong while a configuration is located, read and decoded.

use vstd::prelude::*;
use crate::document::Kind;

verus! {

/// A key of the configuration schema.
#[derive(Clone, Copy, Debug, PartialEq, Eq, Structural)]
pub enum Key {
    Groups,
    Date,
    Number,
    Quotes,
    Uuid,
    Url,
    Ip,
    Path,
    Keywords,
    Style,
    Words,
    Token,
    Segment,
    Separator,
    Http,
    Https,
    Host,
    QueryParamsKey,
    QueryParamsValue,
    Symbols,
    Fg,
    Bg,
    Bold,
    Faint,
    Italic,
    Underline,
}

impl Key {
    /// The key as it is written in a configuration.
    pub open spec fn text(self) -> Seq<char> {
        match self {
            Key::Groups => "groups"@,
            Key::Date => "date"@,
            Key::Number => "number"@,
            Key::Quotes => "quotes"@,
            Key::Uuid => "uuid"@,
            Key::Url => "url"@,
            Key::Ip => "ip"@,
            Key::Path => "path"@,
            Key::Keywords => "keywords"@,
            Key::Style => "style"@,
            Key::Words => "words"@,
            Key::Token => "token"@,
            Key::Segment => "segment"@,
            Key::Separator => "separator"@,
            Key::Http => "http"@,
            Key::Https => "https"@,
            Key::Host => "host"@,
            Key::QueryParamsKey => "query_params_key"@,
            Key::QueryParamsValue => "query_params_value"@,
            Key::Symbols => "symbols"@,
            Key::Fg => "fg"@,
            Key::Bg => "bg"@,
            Key::Bold => "bold"@,
            Key::Faint => "faint"@,
            Key::Italic => "italic"@,
            Key::Underline => "underline"@,
        }
    }

    /// The key as it is written in a configuration.
    pub fn name(self) -> (name: &'static str)
        ensures
            name@ == self.text(),
    {
        match self {
            Key::Groups => "groups",
            Key::Date => "date",
            Key::Number => "number",
            Key::Quotes => "quotes",
            Key::Uuid => "uuid",
            Key::Url => "url",
            Key::Ip => "ip",
            Key::Path => "path",
            Key::Keywords => "keywords",
            Key::Style => "style",
            Key::Words => "words",
            Key::Token => "token",
            Key::Segment => "segment",
            Key::Separator => "separator",
            Key::Http => "http",
            Key::Https => "https",
            Key::Host => "host",
            Key::QueryParamsKey => "query_params_key",
            Key::QueryParamsValue => "query_params_value",
            Key::Symbols => "symbols",
            Key::Fg => "fg",
            Key::Bg => "bg",
            Key::Bold => "bold",
            Key::Faint => "faint",
            Key::Italic => "italic",
            Key::Underline => "underline",
        }
    }
}

/// One step from a table or an array to a value inside it.
#[derive(Clone, Copy, Debug, PartialEq, Eq, Structural)]
pub enum Step {
    Key(Key),
    Index(usize),
}

/// Why a value does not fit the schema.
#[derive(Clone, Copy, Debug, PartialEq, Eq, Structural)]
pub enum Fault {
    /// A required key is absent.
    Missing,
    /// The value has another kind than the schema asks for.
    Mismatch { expected: Kind, found: Kind },
    /// The text names no color.
    UnknownColor,
    /// The text is not a single character.
    NotOneChar,
}

/// A value that does not fit the schema: where it stands in the document,
/// outermost step first, and what is wrong with it.
#[derive(Clone, Debug, PartialEq, Eq)]
pub struct SchemaError {
    pub path: Vec<Step>,
    pub fault: Fault,
}

/// The mathematical content of a [`SchemaError`].
pub ghost struct Rejection {
    pub path: Seq<Step>,
    pub fault: Fault,
}

impl View for SchemaError {
    type V = Rejection;

    open spec fn view(&self) -> Rejection {
        Rejection { path: self.path@, fault: self.fault }
    }
}

impl Rejection {
    /// A fault of the value at hand.
    pub open spec fn here(fault: Fault) -> Rejection {
        Rejection { path: Seq::empty(), fault }
    }

    /// The same rejection, seen from the value one `step` further out.
    pub open spec fn under(self, step: Step) -> Rejection {
        Rejection { path: seq![step] + self.path, fault: self.fault }
    }
}

impl SchemaError {
    /// A fault of the value at hand.
    pub fn here(fault: Fault) -> (error: SchemaError)
        ensures
            error@ == Rejection::here(fault),
    {
        SchemaError { path: Vec::new(), fault }
    }

    /// The same error, seen from the value one `step` further out.
    pub fn under(self, step: Step) -> (error: SchemaError)
        ensures
            error@ == self@.under(step),
    {
        let mut path = self.path;
        path.insert(0, step);
        assert(path@ =~= seq![step] + self.path@);
        SchemaError { path, fault: self.fault }
    }
}

/// The file-system operation that failed.
#[derive(Clone, Copy, Debug, PartialEq, Eq, Structural)]
pub enum Operation {
    /// Reading a configuration file.
    Read,
    /// Asking whether the target file exists.
    Probe,
    /// Creating the directories above the target file.
    CreateDirectories,
    /// Creating the target file.
    CreateFile,
    /// Writing the template into the target file.
    Write,
}

/// Why no configuration was loaded, or none was generated.
#[derive(Clone, Debug, PartialEq, Eq)]
pub enum ConfigError {
    /// The home directory is not known.
    Environment,
    /// The file system refused an operation on `path`; `detail` is what it
    /// said.
    Io { operation: Operation, path: String, detail: String },
    /// The text is not a structured document; `message` is the parser's
    /// diagnostic.
    Syntax { message: String },
    /// The document does not fit the schema.
    Schema(SchemaError),
    /// A file already stands at `path`.
    Conflict { path: String },
}

/// The mathematical content of a [`ConfigError`].
pub ghost enum Failure {
    Environment,
    Io { operation: Operation, path: Seq<char>, detail: Seq<char> },
    Syntax { message: Seq<char> },
    Schema(Rejection),
    Conflict { path: Seq<char> },
}

impl View for ConfigError {
    type V = Failure;

    open spec fn view(&self) -> Failure {
        match self {
            ConfigError::Environment => Failure::Environment,
            ConfigError::Io { operation, path, detail } => Failure::Io {
                operation: *operation,
                path: path@,
                detail: detail@,
            },
            ConfigError::Syntax { message } => Failure::Syntax { message: message@ },
            ConfigError::Schema(error) => Failure::Schema(error@),
            ConfigError::Conflict { path } => Failure::Conflict { path: path@ },
        }
    }
}

} // verus!
