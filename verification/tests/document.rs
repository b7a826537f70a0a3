use tailspin_config::document::{Element, Entry, Kind};
use tailspin_config::text::same_text;
use tailspin_config::toml_text::parse_document;

fn entry(key: &str, value: Element) -> Entry {
    Entry { key: key.to_string(), value }
}

#[test]
fn scalars_are_parsed_with_their_payload() {
    let parsed = parse_document("name = 'x'\ncount = -3\nflag = true\n").unwrap();
    assert_eq!(
        parsed,
        Element::Table(vec![
            entry("count", Element::Integer(-3)),
            entry("flag", Element::Boolean(true)),
            entry("name", Element::Text("x".to_string())),
        ])
    );
}

#[test]
fn floats_and_datetimes_keep_their_kind_only() {
    let parsed = parse_document("ratio = 1.5\nwhen = 1979-05-27T07:32:00Z\n").unwrap();
    assert_eq!(
        parsed,
        Element::Table(vec![entry("ratio", Element::Float), entry("when", Element::Datetime)])
    );
    assert_eq!(parsed.get("ratio").unwrap().kind(), Kind::Float);
    assert_eq!(parsed.get("when").unwrap().kind(), Kind::Datetime);
}

#[test]
fn tables_and_arrays_nest() {
    let parsed = parse_document("[a]\nb = [1, [2, 3], { c = 'd' }]\n").unwrap();
    assert_eq!(
        parsed,
        Element::Table(vec![entry(
            "a",
            Element::Table(vec![entry(
                "b",
                Element::Array(vec![
                    Element::Integer(1),
                    Element::Array(vec![Element::Integer(2), Element::Integer(3)]),
                    Element::Table(vec![entry("c", Element::Text("d".to_string()))]),
                ])
            )])
        )])
    );
}

#[test]
fn table_entries_come_sorted_by_key() {
    let parsed = parse_document("zebra = 1\napple = 2\nmango = 3\n").unwrap();
    assert_eq!(
        parsed,
        Element::Table(vec![
            entry("apple", Element::Integer(2)),
            entry("mango", Element::Integer(3)),
            entry("zebra", Element::Integer(1)),
        ])
    );
}

#[test]
fn empty_text_is_the_empty_table() {
    assert_eq!(parse_document(""), Ok(Element::Table(vec![])));
}

#[test]
fn text_that_is_no_document_gives_the_diagnostic() {
    let message = parse_document("a = \n").unwrap_err();
    assert!(!message.is_empty());
    assert!(message.contains("line 1"));
    assert!(parse_document("a = 1\na = 2\n").is_err());
}

#[test]
fn kinds_are_told_apart() {
    assert_eq!(Element::Text(String::new()).kind(), Kind::Text);
    assert_eq!(Element::Integer(0).kind(), Kind::Integer);
    assert_eq!(Element::Float.kind(), Kind::Float);
    assert_eq!(Element::Boolean(false).kind(), Kind::Boolean);
    assert_eq!(Element::Datetime.kind(), Kind::Datetime);
    assert_eq!(Element::Array(vec![]).kind(), Kind::Array);
    assert_eq!(Element::Table(vec![]).kind(), Kind::Table);
}

#[test]
fn accessors_answer_only_for_their_kind() {
    let array = Element::Array(vec![Element::Integer(1)]);
    assert_eq!(array.as_array(), Some(&vec![Element::Integer(1)]));
    assert_eq!(array.as_text(), None);
    let text = Element::Text("t".to_string());
    assert_eq!(text.as_text(), Some("t"));
    assert_eq!(text.as_array(), None);
}

#[test]
fn texts_are_compared_by_their_characters() {
    assert!(same_text("", ""));
    assert!(same_text("fg", "fg"));
    assert!(same_text("h\u{00e9}", "h\u{00e9}"));
    assert!(!same_text("fg", "bg"));
    assert!(!same_text("fg", "fgx"));
    assert!(!same_text("fg", ""));
    assert!(!same_text("e", "\u{00e9}"));
}
