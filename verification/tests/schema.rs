use tailspin_config::config::{Config, Groups};
use tailspin_config::document::{Element, Entry, Kind};
use tailspin_config::error::{ConfigError, Fault, Key, SchemaError, Step};
use tailspin_config::groups::{
    decode_keywords, decode_words, default_quotes_token, Date, FilePath, Ip, Keyword, Number,
    Quotes, Url, Uuid,
};
use tailspin_config::schema::Schema;
use tailspin_config::style::{Color, Style};

fn text(value: &str) -> Element {
    Element::Text(value.to_string())
}

fn table(entries: Vec<(&str, Element)>) -> Element {
    Element::Table(
        entries
            .into_iter()
            .map(|(key, value)| Entry { key: key.to_string(), value })
            .collect(),
    )
}

fn plain() -> Style {
    Style {
        fg: Color::Unset,
        bg: Color::Unset,
        bold: false,
        faint: false,
        italic: false,
        underline: false,
    }
}

fn red() -> Style {
    Style { fg: Color::Red, ..plain() }
}

fn red_table() -> Element {
    table(vec![("fg", text("red"))])
}

fn rejected(path: Vec<Step>, fault: Fault) -> SchemaError {
    SchemaError { path, fault }
}

#[test]
fn empty_style_table_is_plain() {
    assert_eq!(Style::decode(&table(vec![])), Ok(plain()));
    assert_eq!(Style::default(), plain());
}

#[test]
fn style_with_unrelated_keys_only_is_plain() {
    let value = table(vec![("blink", Element::Boolean(true)), ("weight", Element::Integer(7))]);
    assert_eq!(Style::decode(&value), Ok(plain()));
}

#[test]
fn style_fields_are_read_one_by_one() {
    let value = table(vec![
        ("fg", text("black")),
        ("bg", text("green")),
        ("bold", Element::Boolean(true)),
        ("faint", Element::Boolean(false)),
        ("italic", Element::Boolean(true)),
        ("underline", Element::Boolean(true)),
    ]);
    assert_eq!(
        Style::decode(&value),
        Ok(Style {
            fg: Color::Black,
            bg: Color::Green,
            bold: true,
            faint: false,
            italic: true,
            underline: true,
        })
    );
    let partial = table(vec![("italic", Element::Boolean(true))]);
    assert_eq!(Style::decode(&partial), Ok(Style { italic: true, ..plain() }));
}

#[test]
fn every_color_name_is_known() {
    assert_eq!(Color::parse("none"), Some(Color::Unset));
    assert_eq!(Color::parse("black"), Some(Color::Black));
    assert_eq!(Color::parse("red"), Some(Color::Red));
    assert_eq!(Color::parse("green"), Some(Color::Green));
    assert_eq!(Color::parse("yellow"), Some(Color::Yellow));
    assert_eq!(Color::parse("blue"), Some(Color::Blue));
    assert_eq!(Color::parse("magenta"), Some(Color::Magenta));
    assert_eq!(Color::parse("cyan"), Some(Color::Cyan));
    assert_eq!(Color::parse("white"), Some(Color::White));
    assert_eq!(Color::parse("Red"), None);
    assert_eq!(Color::parse("purple"), None);
    assert_eq!(Color::parse(""), None);
}

#[test]
fn unknown_color_is_a_fault_under_its_key() {
    let value = table(vec![("bg", text("chartreuse"))]);
    assert_eq!(
        Style::decode(&value),
        Err(rejected(vec![Step::Key(Key::Bg)], Fault::UnknownColor))
    );
}

#[test]
fn color_must_be_text_and_flag_must_be_boolean() {
    let color = table(vec![("fg", Element::Integer(3))]);
    assert_eq!(
        Style::decode(&color),
        Err(rejected(
            vec![Step::Key(Key::Fg)],
            Fault::Mismatch { expected: Kind::Text, found: Kind::Integer }
        ))
    );
    let flag = table(vec![("bold", text("yes"))]);
    assert_eq!(
        Style::decode(&flag),
        Err(rejected(
            vec![Step::Key(Key::Bold)],
            Fault::Mismatch { expected: Kind::Boolean, found: Kind::Text }
        ))
    );
}

#[test]
fn first_fault_in_schema_order_is_reported() {
    let value = table(vec![("underline", text("no")), ("fg", text("nope"))]);
    assert_eq!(
        Style::decode(&value),
        Err(rejected(vec![Step::Key(Key::Fg)], Fault::UnknownColor))
    );
}

#[test]
fn style_must_be_a_table() {
    assert_eq!(
        Style::decode(&text("red")),
        Err(rejected(vec![], Fault::Mismatch { expected: Kind::Table, found: Kind::Text }))
    );
    assert_eq!(
        Style::decode(&Element::Array(vec![])),
        Err(rejected(vec![], Fault::Mismatch { expected: Kind::Table, found: Kind::Array }))
    );
}

#[test]
fn first_entry_wins_where_a_key_is_repeated() {
    let value = table(vec![("fg", text("red")), ("fg", text("blue"))]);
    assert_eq!(Style::decode(&value), Ok(red()));
    assert_eq!(value.get("fg"), Some(&text("red")));
    assert_eq!(value.get("bg"), None);
    assert_eq!(text("red").get("fg"), None);
}

#[test]
fn single_style_groups_require_their_style() {
    let good = table(vec![("style", red_table())]);
    assert_eq!(Date::decode(&good), Ok(Date { style: red() }));
    assert_eq!(Number::decode(&good), Ok(Number { style: red() }));
    let missing = rejected(vec![Step::Key(Key::Style)], Fault::Missing);
    assert_eq!(Date::decode(&table(vec![])), Err(missing.clone()));
    assert_eq!(Number::decode(&table(vec![])), Err(missing));
}

#[test]
fn paired_groups_require_both_styles() {
    let good = table(vec![("segment", red_table()), ("separator", table(vec![]))]);
    assert_eq!(Uuid::decode(&good), Ok(Uuid { segment: red(), separator: plain() }));
    assert_eq!(Ip::decode(&good), Ok(Ip { segment: red(), separator: plain() }));
    assert_eq!(FilePath::decode(&good), Ok(FilePath { segment: red(), separator: plain() }));
    let half = table(vec![("segment", red_table())]);
    let missing = rejected(vec![Step::Key(Key::Separator)], Fault::Missing);
    assert_eq!(Uuid::decode(&half), Err(missing.clone()));
    assert_eq!(Ip::decode(&half), Err(missing.clone()));
    assert_eq!(FilePath::decode(&half), Err(missing));
    let other = table(vec![("separator", red_table())]);
    assert_eq!(
        Uuid::decode(&other),
        Err(rejected(vec![Step::Key(Key::Segment)], Fault::Missing))
    );
}

#[test]
fn quotes_token_defaults_to_double_quote() {
    assert_eq!(default_quotes_token(), '"');
    let value = table(vec![("style", red_table())]);
    assert_eq!(Quotes::decode(&value), Ok(Quotes { style: red(), token: '"' }));
    assert_eq!(Quotes::default().token, '"');
}

#[test]
fn quotes_token_is_read_where_given() {
    let value = table(vec![("style", red_table()), ("token", text("'"))]);
    assert_eq!(Quotes::decode(&value), Ok(Quotes { style: red(), token: '\'' }));
    let wide = table(vec![("style", red_table()), ("token", text("\u{00e9}"))]);
    assert_eq!(Quotes::decode(&wide), Ok(Quotes { style: red(), token: '\u{00e9}' }));
}

#[test]
fn quotes_token_must_be_one_character() {
    let long = table(vec![("style", red_table()), ("token", text("<<"))]);
    assert_eq!(
        Quotes::decode(&long),
        Err(rejected(vec![Step::Key(Key::Token)], Fault::NotOneChar))
    );
    let empty = table(vec![("style", red_table()), ("token", text(""))]);
    assert_eq!(
        Quotes::decode(&empty),
        Err(rejected(vec![Step::Key(Key::Token)], Fault::NotOneChar))
    );
    let number = table(vec![("style", red_table()), ("token", Element::Integer(1))]);
    assert_eq!(
        Quotes::decode(&number),
        Err(rejected(
            vec![Step::Key(Key::Token)],
            Fault::Mismatch { expected: Kind::Text, found: Kind::Integer }
        ))
    );
}

#[test]
fn quotes_style_stays_required() {
    let value = table(vec![("token", text("'"))]);
    assert_eq!(
        Quotes::decode(&value),
        Err(rejected(vec![Step::Key(Key::Style)], Fault::Missing))
    );
}

#[test]
fn url_requires_all_seven_styles() {
    let all = vec![
        ("http", red_table()),
        ("https", table(vec![])),
        ("host", table(vec![])),
        ("path", table(vec![])),
        ("query_params_key", table(vec![])),
        ("query_params_value", table(vec![])),
        ("symbols", table(vec![("bold", Element::Boolean(true))])),
    ];
    assert_eq!(
        Url::decode(&table(all)),
        Ok(Url {
            http: red(),
            https: plain(),
            host: plain(),
            path: plain(),
            query_params_key: plain(),
            query_params_value: plain(),
            symbols: Style { bold: true, ..plain() },
        })
    );
    let without_symbols = vec![
        ("http", red_table()),
        ("https", table(vec![])),
        ("host", table(vec![])),
        ("path", table(vec![])),
        ("query_params_key", table(vec![])),
        ("query_params_value", table(vec![])),
    ];
    assert_eq!(
        Url::decode(&table(without_symbols)),
        Err(rejected(vec![Step::Key(Key::Symbols)], Fault::Missing))
    );
}

#[test]
fn keyword_requires_style_and_words() {
    let good = table(vec![
        ("style", red_table()),
        ("words", Element::Array(vec![text("null"), text("true")])),
    ]);
    assert_eq!(
        Keyword::decode(&good),
        Ok(Keyword { style: red(), words: vec!["null".to_string(), "true".to_string()] })
    );
    let no_words = table(vec![("style", red_table())]);
    assert_eq!(
        Keyword::decode(&no_words),
        Err(rejected(vec![Step::Key(Key::Words)], Fault::Missing))
    );
    let no_style = table(vec![("words", Element::Array(vec![]))]);
    assert_eq!(
        Keyword::decode(&no_style),
        Err(rejected(vec![Step::Key(Key::Style)], Fault::Missing))
    );
}

#[test]
fn words_keep_their_order_and_may_be_empty() {
    assert_eq!(decode_words(&Element::Array(vec![])), Ok(vec![]));
    assert_eq!(
        decode_words(&Element::Array(vec![text("b"), text("a"), text("b")])),
        Ok(vec!["b".to_string(), "a".to_string(), "b".to_string()])
    );
}

#[test]
fn first_word_that_is_no_text_is_reported_with_its_index() {
    let value = Element::Array(vec![text("a"), Element::Integer(1), Element::Boolean(true)]);
    assert_eq!(
        decode_words(&value),
        Err(rejected(
            vec![Step::Index(1)],
            Fault::Mismatch { expected: Kind::Text, found: Kind::Integer }
        ))
    );
    assert_eq!(
        decode_words(&text("a")),
        Err(rejected(vec![], Fault::Mismatch { expected: Kind::Array, found: Kind::Text }))
    );
}

#[test]
fn keyword_lists_are_read_in_order() {
    let first = table(vec![("style", red_table()), ("words", Element::Array(vec![text("x")]))]);
    let second = table(vec![("style", table(vec![])), ("words", Element::Array(vec![]))]);
    assert_eq!(
        decode_keywords(&Element::Array(vec![first, second])),
        Ok(vec![
            Keyword { style: red(), words: vec!["x".to_string()] },
            Keyword { style: plain(), words: vec![] },
        ])
    );
    assert_eq!(decode_keywords(&Element::Array(vec![])), Ok(vec![]));
}

#[test]
fn faulty_keyword_list_is_reported_with_its_index() {
    let good = table(vec![("style", red_table()), ("words", Element::Array(vec![text("x")]))]);
    let bad = table(vec![
        ("style", red_table()),
        ("words", Element::Array(vec![text("x"), Element::Float])),
    ]);
    assert_eq!(
        decode_keywords(&Element::Array(vec![good, bad])),
        Err(rejected(
            vec![Step::Index(1), Step::Key(Key::Words), Step::Index(1)],
            Fault::Mismatch { expected: Kind::Text, found: Kind::Float }
        ))
    );
}

#[test]
fn groups_are_optional_one_by_one() {
    let none = Groups::decode(&table(vec![])).unwrap();
    assert_eq!(none, Groups::default());
    assert!(none.date.is_none() && none.keywords.is_none());
    let some = table(vec![
        ("number", table(vec![("style", red_table())])),
        ("path", table(vec![("segment", red_table()), ("separator", red_table())])),
        ("keywords", Element::Array(vec![])),
    ]);
    let read = Groups::decode(&some).unwrap();
    assert_eq!(read.date, None);
    assert_eq!(read.number, Some(Number { style: red() }));
    assert_eq!(read.quotes, None);
    assert_eq!(read.uuid, None);
    assert_eq!(read.url, None);
    assert_eq!(read.ip, None);
    assert_eq!(read.path, Some(FilePath { segment: red(), separator: red() }));
    assert_eq!(read.keywords, Some(vec![]));
}

#[test]
fn absent_group_differs_from_plain_group() {
    let absent = Groups::decode(&table(vec![])).unwrap();
    let present =
        Groups::decode(&table(vec![("date", table(vec![("style", table(vec![]))]))])).unwrap();
    assert_eq!(absent.date, None);
    assert_eq!(present.date, Some(Date { style: plain() }));
    assert_ne!(absent, present);
}

#[test]
fn config_requires_groups() {
    assert_eq!(
        Config::decode(&table(vec![])),
        Err(rejected(vec![Step::Key(Key::Groups)], Fault::Missing))
    );
    assert_eq!(
        Config::decode(&table(vec![("groups", table(vec![]))])),
        Ok(Config { groups: Groups::default() })
    );
    assert_eq!(Config::default(), Config { groups: Groups::default() });
    assert_eq!(
        Config::decode(&table(vec![("groups", Element::Integer(1))])),
        Err(rejected(
            vec![Step::Key(Key::Groups)],
            Fault::Mismatch { expected: Kind::Table, found: Kind::Integer }
        ))
    );
}

#[test]
fn unknown_color_deep_in_a_document_rejects_all_of_it() {
    let document = table(vec![(
        "groups",
        table(vec![
            ("number", table(vec![("style", red_table())])),
            ("date", table(vec![("style", table(vec![("fg", text("mauve"))]))])),
        ]),
    )]);
    assert_eq!(
        Config::decode(&document),
        Err(rejected(
            vec![
                Step::Key(Key::Groups),
                Step::Key(Key::Date),
                Step::Key(Key::Style),
                Step::Key(Key::Fg),
            ],
            Fault::UnknownColor
        ))
    );
}

#[test]
fn malformed_text_is_reported_not_half_read() {
    let source = "[groups.number]\nstyle = { fg = 'cyan' }\n\n[groups.date]\nstyle = { fg = 'mauve' }\n";
    assert_eq!(
        Config::from_text(source),
        Err(ConfigError::Schema(rejected(
            vec![
                Step::Key(Key::Groups),
                Step::Key(Key::Date),
                Step::Key(Key::Style),
                Step::Key(Key::Fg),
            ],
            Fault::UnknownColor
        )))
    );
}

#[test]
fn text_that_is_no_document_is_a_syntax_error() {
    match Config::from_text("[groups\nstyle = ") {
        Err(ConfigError::Syntax { message }) => assert!(!message.is_empty()),
        other => panic!("expected a syntax error, got {:?}", other),
    }
}

#[test]
fn empty_text_lacks_groups() {
    assert_eq!(
        Config::from_text(""),
        Err(ConfigError::Schema(rejected(vec![Step::Key(Key::Groups)], Fault::Missing)))
    );
}

#[test]
fn empty_groups_table_gives_no_groups() {
    assert_eq!(Config::from_text("[groups]\n"), Ok(Config { groups: Groups::default() }));
}

#[test]
fn unknown_keys_are_ignored() {
    let source = "title = 'mine'\n\n[extra]\nlevel = 3\n\n[groups]\nfuture = true\n\n[groups.date]\nstyle = { fg = 'red', blink = true }\nformat = 'iso'\n";
    let read = Config::from_text(source).unwrap();
    assert_eq!(read.groups.date, Some(Date { style: red() }));
    assert_eq!(read.groups.number, None);
}

#[test]
fn text_is_read_into_every_group() {
    let source = "[groups.date]\nstyle = { fg = 'magenta' }\n\n[groups.quotes]\nstyle = { fg = 'yellow' }\ntoken = \"'\"\n\n[groups.ip]\nsegment = { fg = 'blue', italic = true }\nseparator = { fg = 'red' }\n\n[[groups.keywords]]\nwords = ['GET', 'POST']\nstyle = { fg = 'black', bg = 'green' }\n\n[[groups.keywords]]\nwords = []\nstyle = {}\n";
    let read = Config::from_text(source).unwrap();
    assert_eq!(read.groups.date, Some(Date { style: Style { fg: Color::Magenta, ..plain() } }));
    assert_eq!(
        read.groups.quotes,
        Some(Quotes { style: Style { fg: Color::Yellow, ..plain() }, token: '\'' })
    );
    assert_eq!(
        read.groups.ip,
        Some(Ip {
            segment: Style { fg: Color::Blue, italic: true, ..plain() },
            separator: Style { fg: Color::Red, ..plain() },
        })
    );
    assert_eq!(
        read.groups.keywords,
        Some(vec![
            Keyword {
                style: Style { fg: Color::Black, bg: Color::Green, ..plain() },
                words: vec!["GET".to_string(), "POST".to_string()],
            },
            Keyword { style: plain(), words: vec![] },
        ])
    );
    assert_eq!(read.groups.number, None);
    assert_eq!(read.groups.uuid, None);
    assert_eq!(read.groups.url, None);
    assert_eq!(read.groups.path, None);
}
