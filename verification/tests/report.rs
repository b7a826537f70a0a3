use tailspin_config::document::Kind;
use tailspin_config::error::{ConfigError, Fault, Key, Operation, SchemaError, Step};
use tailspin_config::report::decimal;

#[test]
fn numbers_are_written_in_decimal() {
    assert_eq!(decimal(0), "0");
    assert_eq!(decimal(7), "7");
    assert_eq!(decimal(10), "10");
    assert_eq!(decimal(405), "405");
    assert_eq!(decimal(1234567890), "1234567890");
    assert_eq!(decimal(usize::MAX), usize::MAX.to_string());
}

#[test]
fn faults_are_put_into_words() {
    assert_eq!(Fault::Missing.describe(), "missing field");
    assert_eq!(Fault::UnknownColor.describe(), "unknown color");
    assert_eq!(Fault::NotOneChar.describe(), "expected a single character");
    assert_eq!(
        Fault::Mismatch { expected: Kind::Boolean, found: Kind::Text }.describe(),
        "invalid type: string, expected boolean"
    );
    assert_eq!(
        Fault::Mismatch { expected: Kind::Table, found: Kind::Datetime }.describe(),
        "invalid type: datetime, expected table"
    );
}

#[test]
fn locations_are_dotted_with_indices_in_brackets() {
    let error = SchemaError {
        path: vec![
            Step::Key(Key::Groups),
            Step::Key(Key::Keywords),
            Step::Index(12),
            Step::Key(Key::Words),
            Step::Index(0),
        ],
        fault: Fault::Mismatch { expected: Kind::Text, found: Kind::Integer },
    };
    assert_eq!(error.location(), "groups.keywords[12].words[0]");
    assert_eq!(
        error.describe(),
        "groups.keywords[12].words[0]: invalid type: integer, expected string"
    );
    let leading = SchemaError { path: vec![Step::Index(3), Step::Key(Key::Style)], fault: Fault::Missing };
    assert_eq!(leading.describe(), "[3].style: missing field");
}

#[test]
fn fault_of_the_root_has_no_location() {
    let error = SchemaError {
        path: vec![],
        fault: Fault::Mismatch { expected: Kind::Table, found: Kind::Array },
    };
    assert_eq!(error.location(), "");
    assert_eq!(error.describe(), "invalid type: array, expected table");
}

#[test]
fn every_key_is_written_as_in_a_configuration() {
    let keys = [
        (Key::Groups, "groups"),
        (Key::Date, "date"),
        (Key::Number, "number"),
        (Key::Quotes, "quotes"),
        (Key::Uuid, "uuid"),
        (Key::Url, "url"),
        (Key::Ip, "ip"),
        (Key::Path, "path"),
        (Key::Keywords, "keywords"),
        (Key::Style, "style"),
        (Key::Words, "words"),
        (Key::Token, "token"),
        (Key::Segment, "segment"),
        (Key::Separator, "separator"),
        (Key::Http, "http"),
        (Key::Https, "https"),
        (Key::Host, "host"),
        (Key::QueryParamsKey, "query_params_key"),
        (Key::QueryParamsValue, "query_params_value"),
        (Key::Symbols, "symbols"),
        (Key::Fg, "fg"),
        (Key::Bg, "bg"),
        (Key::Bold, "bold"),
        (Key::Faint, "faint"),
        (Key::Italic, "italic"),
        (Key::Underline, "underline"),
    ];
    for (key, name) in keys {
        assert_eq!(key.name(), name);
    }
}

#[test]
fn every_failure_names_what_it_is_about() {
    assert_eq!(ConfigError::Environment.describe(), "HOME directory not set");
    assert_eq!(
        ConfigError::Conflict { path: "~/.config/tailspin/config.toml".to_string() }.describe(),
        "Config file already exists at ~/.config/tailspin/config.toml"
    );
    let io = |operation: Operation| {
        ConfigError::Io { operation, path: "~/c".to_string(), detail: "denied".to_string() }
            .describe()
    };
    assert_eq!(io(Operation::Read), "Could not read file ~/c: denied");
    assert_eq!(io(Operation::Probe), "Failed to check if file ~/c exists: denied");
    assert_eq!(io(Operation::CreateDirectories), "Failed to create the directory for ~/c: denied");
    assert_eq!(io(Operation::CreateFile), "Failed to create the config file at ~/c: denied");
    assert_eq!(io(Operation::Write), "Failed to write to the config file at ~/c: denied");
    assert_eq!(
        ConfigError::Syntax { message: "expected `=`".to_string() }.describe(),
        "Could not deserialize file:\n\nexpected `=`"
    );
    assert_eq!(
        ConfigError::Schema(SchemaError {
            path: vec![Step::Key(Key::Groups)],
            fault: Fault::Missing
        })
        .describe(),
        "Could not deserialize file:\n\ngroups: missing field"
    );
}
