use tailspin_config::config::Config;
use tailspin_config::error::{ConfigError, Fault, Key, Operation, SchemaError, Step};
use tailspin_config::paths::conventional_path;
use tailspin_config::resolver::{load_config, Answer, Resolver};
use tailspin_config::style::Color;
use tailspin_config::template::DEFAULT_CONFIG;

const MINE: &str = "[groups.date]\nstyle = { fg = 'white' }\n";

fn home() -> Answer {
    Answer::Home(Some("/home/ada".to_string()))
}

#[test]
fn resolver_starts_by_asking_for_home() {
    assert_eq!(load_config(None), Resolver::NeedsHome { explicit: None });
    assert_eq!(
        load_config(Some("mine.toml".to_string())),
        Resolver::NeedsHome { explicit: Some("mine.toml".to_string()) }
    );
}

#[test]
fn missing_home_is_fatal_even_with_explicit_path() {
    assert_eq!(
        load_config(Some("mine.toml".to_string())).advance(Answer::Home(None)),
        Resolver::Finished(Err(ConfigError::Environment))
    );
    assert_eq!(
        load_config(None).advance(Answer::Home(None)),
        Resolver::Finished(Err(ConfigError::Environment))
    );
}

#[test]
fn explicit_path_is_read_without_probing() {
    let asked = load_config(Some("mine.toml".to_string())).advance(home());
    assert_eq!(asked, Resolver::NeedsContents { path: "mine.toml".to_string() });
    let done = asked.advance(Answer::Contents(Ok(MINE.to_string())));
    match done {
        Resolver::Finished(Ok(config)) => {
            assert_eq!(config.groups.date.unwrap().style.fg, Color::White);
            assert_eq!(config.groups.number, None);
        },
        other => panic!("expected a configuration, got {:?}", other),
    }
}

#[test]
fn conventional_file_is_read_where_it_exists() {
    let probing = load_config(None).advance(home());
    assert_eq!(
        probing,
        Resolver::NeedsProbe { path: "/home/ada/.config/tailspin/config.toml".to_string() }
    );
    let reading = probing.advance(Answer::Exists(true));
    assert_eq!(
        reading,
        Resolver::NeedsContents { path: "/home/ada/.config/tailspin/config.toml".to_string() }
    );
    let done = reading.advance(Answer::Contents(Ok(MINE.to_string())));
    assert_eq!(done, Resolver::Finished(Config::from_text(MINE)));
}

#[test]
fn default_is_loaded_where_no_file_exists() {
    let done = load_config(None).advance(home()).advance(Answer::Exists(false));
    assert_eq!(done, Resolver::Finished(Config::from_text(DEFAULT_CONFIG)));
    assert!(matches!(done, Resolver::Finished(Ok(_))));
}

#[test]
fn unreadable_file_is_an_io_error_with_its_path() {
    let done = load_config(Some("gone.toml".to_string()))
        .advance(home())
        .advance(Answer::Contents(Err("No such file or directory".to_string())));
    assert_eq!(
        done,
        Resolver::Finished(Err(ConfigError::Io {
            operation: Operation::Read,
            path: "gone.toml".to_string(),
            detail: "No such file or directory".to_string(),
        }))
    );
}

#[test]
fn malformed_file_ends_the_resolver_with_the_fault() {
    let done = load_config(Some("mine.toml".to_string()))
        .advance(home())
        .advance(Answer::Contents(Ok("[groups.date]\nstyle = { fg = 'mauve' }\n".to_string())));
    assert_eq!(
        done,
        Resolver::Finished(Err(ConfigError::Schema(SchemaError {
            path: vec![
                Step::Key(Key::Groups),
                Step::Key(Key::Date),
                Step::Key(Key::Style),
                Step::Key(Key::Fg),
            ],
            fault: Fault::UnknownColor,
        })))
    );
}

#[test]
fn answers_that_were_not_asked_for_change_nothing() {
    assert_eq!(
        load_config(None).advance(Answer::Exists(true)),
        Resolver::NeedsHome { explicit: None }
    );
    assert_eq!(
        load_config(None).advance(home()).advance(Answer::Contents(Ok(MINE.to_string()))),
        Resolver::NeedsProbe { path: "/home/ada/.config/tailspin/config.toml".to_string() }
    );
    assert_eq!(
        load_config(Some("a".to_string())).advance(home()).advance(Answer::Exists(false)),
        Resolver::NeedsContents { path: "a".to_string() }
    );
    let finished = load_config(None).advance(Answer::Home(None));
    assert_eq!(finished.advance(home()), Resolver::Finished(Err(ConfigError::Environment)));
}

#[test]
fn conventional_path_joins_home_and_suffix() {
    assert_eq!(conventional_path("/home/ada"), "/home/ada/.config/tailspin/config.toml");
    assert_eq!(conventional_path("/home/ada/"), "/home/ada/.config/tailspin/config.toml");
    assert_eq!(conventional_path("/"), "/.config/tailspin/config.toml");
    assert_eq!(conventional_path(""), ".config/tailspin/config.toml");
    assert_eq!(conventional_path("/home/z\u{00fc}rich"), "/home/z\u{00fc}rich/.config/tailspin/config.toml");
}
