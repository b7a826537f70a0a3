//! The token groups of a configuration and their schemas.

use vstd::prelude::*;
use vstd::string::StrSliceExecFns;
use crate::document::{Element, Kind, Node};
use crate::error::{Fault, Key, Rejection, SchemaError, Step};
use crate::schema::{expect_table, not_a_table, Schema};
use crate::style::Style;

verus! {

/// How dates are rendered.
#[derive(Clone, Copy, Debug, PartialEq, Eq, Structural)]
pub struct Date {
    pub style: Style,
}

impl View for Date {
    type V = Date;

    open spec fn view(&self) -> Date {
        *self
    }
}

impl Schema for Date {
    /// A table with the required key `style`.
    open spec fn decoded(node: Node) -> Result<Date, Rejection> {
        if !(node is Table) {
            Err(not_a_table(node))
        } else {
            match Style::decoded_at(node, Key::Style) {
                Err(rejection) => Err(rejection),
                Ok(style) => Ok(Date { style }),
            }
        }
    }

    fn decode(value: &Element) -> (read: Result<Date, SchemaError>) {
        expect_table(value)?;
        let style = Style::decode_at(value, Key::Style)?;
        Ok(Date { style })
    }
}

impl Default for Date {
    fn default() -> (made: Date)
        ensures
            made == (Date { style: Style::plain() }),
    {
        Date { style: Style::default() }
    }
}

/// How numbers are rendered.
#[derive(Clone, Copy, Debug, PartialEq, Eq, Structural)]
pub struct Number {
    pub style: Style,
}

impl View for Number {
    type V = Number;

    open spec fn view(&self) -> Number {
        *self
    }
}

impl Schema for Number {
    /// A table with the required key `style`.
    open spec fn decoded(node: Node) -> Result<Number, Rejection> {
        if !(node is Table) {
            Err(not_a_table(node))
        } else {
            match Style::decoded_at(node, Key::Style) {
                Err(rejection) => Err(rejection),
                Ok(style) => Ok(Number { style }),
            }
        }
    }

    fn decode(value: &Element) -> (read: Result<Number, SchemaError>) {
        expect_table(value)?;
        let style = Style::decode_at(value, Key::Style)?;
        Ok(Number { style })
    }
}

impl Default for Number {
    fn default() -> (made: Number)
        ensures
            made == (Number { style: Style::plain() }),
    {
        Number { style: Style::default() }
    }
}

/// How UUIDs are rendered: the segments in one style, the separators
/// between them in another.
#[derive(Clone, Copy, Debug, PartialEq, Eq, Structural)]
pub struct Uuid {
    pub segment: Style,
    pub separator: Style,
}

impl View for Uuid {
    type V = Uuid;

    open spec fn view(&self) -> Uuid {
        *self
    }
}

impl Schema for Uuid {
    /// A table with the required keys `segment` and `separator`.
    open spec fn decoded(node: Node) -> Result<Uuid, Rejection> {
        if !(node is Table) {
            Err(not_a_table(node))
        } else {
            match Style::decoded_at(node, Key::Segment) {
                Err(rejection) => Err(rejection),
                Ok(segment) => match Style::decoded_at(node, Key::Separator) {
                    Err(rejection) => Err(rejection),
                    Ok(separator) => Ok(Uuid { segment, separator }),
                },
            }
        }
    }

    fn decode(value: &Element) -> (read: Result<Uuid, SchemaError>) {
        expect_table(value)?;
        let segment = Style::decode_at(value, Key::Segment)?;
        let separator = Style::decode_at(value, Key::Separator)?;
        Ok(Uuid { segment, separator })
    }
}

impl Default for Uuid {
    fn default() -> (made: Uuid)
        ensures
            made == (Uuid { segment: Style::plain(), separator: Style::plain() }),
    {
        Uuid { segment: Style::default(), separator: Style::default() }
    }
}

/// How IP addresses are rendered: the segments in one style, the separators
/// between them in another.
#[derive(Clone, Copy, Debug, PartialEq, Eq, Structural)]
pub struct Ip {
    pub segment: Style,
    pub separator: Style,
}

impl View for Ip {
    type V = Ip;

    open spec fn view(&self) -> Ip {
        *self
    }
}

impl Schema for Ip {
    /// A table with the required keys `segment` and `separator`.
    open spec fn decoded(node: Node) -> Result<Ip, Rejection> {
        if !(node is Table) {
            Err(not_a_table(node))
        } else {
            match Style::decoded_at(node, Key::Segment) {
                Err(rejection) => Err(rejection),
                Ok(segment) => match Style::decoded_at(node, Key::Separator) {
                    Err(rejection) => Err(rejection),
                    Ok(separator) => Ok(Ip { segment, separator }),
                },
            }
        }
    }

    fn decode(value: &Element) -> (read: Result<Ip, SchemaError>) {
        expect_table(value)?;
        let segment = Style::decode_at(value, Key::Segment)?;
        let separator = Style::decode_at(value, Key::Separator)?;
        Ok(Ip { segment, separator })
    }
}

impl Default for Ip {
    fn default() -> (made: Ip)
        ensures
            made == (Ip { segment: Style::plain(), separator: Style::plain() }),
    {
        Ip { segment: Style::default(), separator: Style::default() }
    }
}

/// How filesystem paths are rendered: the segments in one style, the separators
/// between them in another.
#[derive(Clone, Copy, Debug, PartialEq, Eq, Structural)]
pub struct FilePath {
    pub segment: Style,
    pub separator: Style,
}

impl View for FilePath {
    type V = FilePath;

    open spec fn view(&self) -> FilePath {
        *self
    }
}

impl Schema for FilePath {
    /// A table with the required keys `segment` and `separator`.
    open spec fn decoded(node: Node) -> Result<FilePath, Rejection> {
        if !(node is Table) {
            Err(not_a_table(node))
        } else {
            match Style::decoded_at(node, Key::Segment) {
                Err(rejection) => Err(rejection),
                Ok(segment) => match Style::decoded_at(node, Key::Separator) {
                    Err(rejection) => Err(rejection),
                    Ok(separator) => Ok(FilePath { segment, separator }),
                },
            }
        }
    }

    fn decode(value: &Element) -> (read: Result<FilePath, SchemaError>) {
        expect_table(value)?;
        let segment = Style::decode_at(value, Key::Segment)?;
        let separator = Style::decode_at(value, Key::Separator)?;
        Ok(FilePath { segment, separator })
    }
}

impl Default for FilePath {
    fn default() -> (made: FilePath)
        ensures
            made == (FilePath { segment: Style::plain(), separator: Style::plain() }),
    {
        FilePath { segment: Style::default(), separator: Style::default() }
    }
}

/// The delimiter of quoted text where a configuration names none.
pub fn default_quotes_token() -> (token: char)
    ensures
        token == '"',
{
    '"'
}

/// How quoted text is rendered, and the character that delimits it.
#[derive(Clone, Copy, Debug, PartialEq, Eq, Structural)]
pub struct Quotes {
    pub style: Style,
    pub token: char,
}

impl View for Quotes {
    type V = Quotes;

    open spec fn view(&self) -> Quotes {
        *self
    }
}

/// What a node says as a delimiter: a text of exactly one character.
pub open spec fn token_decoded(node: Node) -> Result<char, Rejection> {
    match node {
        Node::Text(text) => if text.len() == 1 {
            Ok(text[0])
        } else {
            Err(Rejection::here(Fault::NotOneChar))
        },
        _ => Err(Rejection::here(Fault::Mismatch { expected: Kind::Text, found: node.kind() })),
    }
}

/// The delimiter under `token` of a table, the double quote where the key
/// is absent.
pub open spec fn token_decoded_at(table: Node) -> Result<char, Rejection> {
    match table.child(Key::Token.text()) {
        None => Ok('"'),
        Some(node) => match token_decoded(node) {
            Ok(token) => Ok(token),
            Err(rejection) => Err(rejection.under(Step::Key(Key::Token))),
        },
    }
}

/// Reads the delimiter under `token` of a table.
pub fn decode_token_at(table: &Element) -> (read: Result<char, SchemaError>)
    ensures
        match read {
            Ok(token) => token_decoded_at(table@) == Ok::<char, Rejection>(token),
            Err(error) => token_decoded_at(table@) == Err::<char, Rejection>(error@),
        },
{
    match table.get(Key::Token.name()) {
        None => Ok(default_quotes_token()),
        Some(value) => match value.as_text() {
            Some(text) => if text.unicode_len() == 1 {
                Ok(text.get_char(0))
            } else {
                Err(SchemaError::here(Fault::NotOneChar).under(Step::Key(Key::Token)))
            },
            None => Err(
                SchemaError::here(
                    Fault::Mismatch { expected: Kind::Text, found: value.kind() },
                ).under(Step::Key(Key::Token)),
            ),
        },
    }
}

impl Schema for Quotes {
    /// A table with the required key `style` and the optional key `token`.
    open spec fn decoded(node: Node) -> Result<Quotes, Rejection> {
        if !(node is Table) {
            Err(not_a_table(node))
        } else {
            match Style::decoded_at(node, Key::Style) {
                Err(rejection) => Err(rejection),
                Ok(style) => match token_decoded_at(node) {
                    Err(rejection) => Err(rejection),
                    Ok(token) => Ok(Quotes { style, token }),
                },
            }
        }
    }

    fn decode(value: &Element) -> (read: Result<Quotes, SchemaError>) {
        expect_table(value)?;
        let style = Style::decode_at(value, Key::Style)?;
        let token = decode_token_at(value)?;
        Ok(Quotes { style, token })
    }
}

impl Default for Quotes {
    fn default() -> (made: Quotes)
        ensures
            made == (Quotes { style: Style::plain(), token: '"' }),
    {
        Quotes { style: Style::default(), token: default_quotes_token() }
    }
}

/// How the parts of a URL are rendered: the scheme by whether it is `http`
/// or `https`, then host, path, the keys and values of the query, and the
/// symbols between them.
#[derive(Clone, Copy, Debug, PartialEq, Eq, Structural)]
pub struct Url {
    pub http: Style,
    pub https: Style,
    pub host: Style,
    pub path: Style,
    pub query_params_key: Style,
    pub query_params_value: Style,
    pub symbols: Style,
}

impl View for Url {
    type V = Url;

    open spec fn view(&self) -> Url {
        *self
    }
}

impl Schema for Url {
    /// A table with seven required keys, one for each part.
    open spec fn decoded(node: Node) -> Result<Url, Rejection> {
        if !(node is Table) {
            Err(not_a_table(node))
        } else {
            match Style::decoded_at(node, Key::Http) {
                Err(rejection) => Err(rejection),
                Ok(http) => match Style::decoded_at(node, Key::Https) {
                    Err(rejection) => Err(rejection),
                    Ok(https) => match Style::decoded_at(node, Key::Host) {
                        Err(rejection) => Err(rejection),
                        Ok(host) => match Style::decoded_at(node, Key::Path) {
                            Err(rejection) => Err(rejection),
                            Ok(path) => match Style::decoded_at(node, Key::QueryParamsKey) {
                                Err(rejection) => Err(rejection),
                                Ok(query_params_key) => match Style::decoded_at(
                                    node,
                                    Key::QueryParamsValue,
                                ) {
                                    Err(rejection) => Err(rejection),
                                    Ok(query_params_value) => match Style::decoded_at(
                                        node,
                                        Key::Symbols,
                                    ) {
                                        Err(rejection) => Err(rejection),
                                        Ok(symbols) => Ok(
                                            Url {
                                                http,
                                                https,
                                                host,
                                                path,
                                                query_params_key,
                                                query_params_value,
                                                symbols,
                                            },
                                        ),
                                    },
                                },
                            },
                        },
                    },
                },
            }
        }
    }

    fn decode(value: &Element) -> (read: Result<Url, SchemaError>) {
        expect_table(value)?;
        let http = Style::decode_at(value, Key::Http)?;
        let https = Style::decode_at(value, Key::Https)?;
        let host = Style::decode_at(value, Key::Host)?;
        let path = Style::decode_at(value, Key::Path)?;
        let query_params_key = Style::decode_at(value, Key::QueryParamsKey)?;
        let query_params_value = Style::decode_at(value, Key::QueryParamsValue)?;
        let symbols = Style::decode_at(value, Key::Symbols)?;
        Ok(Url { http, https, host, path, query_params_key, query_params_value, symbols })
    }
}

impl Default for Url {
    fn default() -> (made: Url)
        ensures
            made == (Url {
                http: Style::plain(),
                https: Style::plain(),
                host: Style::plain(),
                path: Style::plain(),
                query_params_key: Style::plain(),
                query_params_value: Style::plain(),
                symbols: Style::plain(),
            }),
    {
        Url {
            http: Style::default(),
            https: Style::default(),
            host: Style::default(),
            path: Style::default(),
            query_params_key: Style::default(),
            query_params_value: Style::default(),
            symbols: Style::default(),
        }
    }
}

/// A list of literal words and the style in which each is rendered.
#[derive(Clone, Debug, PartialEq, Eq)]
pub struct Keyword {
    pub style: Style,
    pub words: Vec<String>,
}

/// The mathematical content of a [`Keyword`].
pub ghost struct KeywordView {
    pub style: Style,
    pub words: Seq<Seq<char>>,
}

/// The characters of each of `words`, in order.
pub open spec fn texts(words: Seq<String>) -> Seq<Seq<char>> {
    Seq::new(words.len(), |i: int| words[i]@)
}

/// The content of each of `keywords`, in order.
pub open spec fn keyword_views(keywords: Seq<Keyword>) -> Seq<KeywordView> {
    Seq::new(keywords.len(), |i: int| keywords[i]@)
}

impl View for Keyword {
    type V = KeywordView;

    open spec fn view(&self) -> KeywordView {
        KeywordView { style: self.style, words: texts(self.words@) }
    }
}

/// The rejection of item `index` of an array for the reason `inner`.
pub open spec fn at_index(inner: Rejection, index: int) -> Rejection {
    inner.under(Step::Index(index as usize))
}

/// What the first `count` items of an array say as texts: each must be a
/// text, and the first that is not is reported under its index.
pub open spec fn texts_upto(items: Seq<Node>, count: nat) -> Result<Seq<Seq<char>>, Rejection>
    decreases count,
{
    if count == 0 || count > items.len() {
        Ok(Seq::empty())
    } else {
        match texts_upto(items, (count - 1) as nat) {
            Err(rejection) => Err(rejection),
            Ok(before) => match items[count - 1] {
                Node::Text(text) => Ok(before.push(text)),
                other => Err(
                    at_index(
                        Rejection::here(
                            Fault::Mismatch { expected: Kind::Text, found: other.kind() },
                        ),
                        count - 1,
                    ),
                ),
            },
        }
    }
}

/// What a node says as a list of words: an array of texts.
pub open spec fn words_decoded(node: Node) -> Result<Seq<Seq<char>>, Rejection> {
    match node {
        Node::Array(items) => texts_upto(items, items.len()),
        _ => Err(Rejection::here(Fault::Mismatch { expected: Kind::Array, found: node.kind() })),
    }
}

/// The words under `words` of a table; the key is required.
pub open spec fn words_decoded_at(table: Node) -> Result<Seq<Seq<char>>, Rejection> {
    match table.child(Key::Words.text()) {
        None => Err(Rejection::here(Fault::Missing).under(Step::Key(Key::Words))),
        Some(node) => match words_decoded(node) {
            Ok(words) => Ok(words),
            Err(rejection) => Err(rejection.under(Step::Key(Key::Words))),
        },
    }
}

/// A list of texts is read whole or not at all: it is read exactly when
/// every item is a text, and then holds each item's characters in order.
pub proof fn lemma_texts_upto(items: Seq<Node>, count: nat)
    requires
        count <= items.len(),
    ensures
        texts_upto(items, count) is Ok <==> forall|i: int|
            0 <= i < count ==> #[trigger] items[i] is Text,
        texts_upto(items, count) matches Ok(words) ==> {
            &&& words.len() == count
            &&& forall|i: int| 0 <= i < count ==> #[trigger] words[i] == items[i]->Text_0
        },
    decreases count,
{
    if count > 0 {
        lemma_texts_upto(items, (count - 1) as nat);
        if texts_upto(items, (count - 1) as nat) is Err {
            let i = choose|i: int| 0 <= i < count - 1 && !(#[trigger] items[i] is Text);
            assert(!(items[i] is Text));
        } else if !(items[count - 1] is Text) {
        } else {
            assert forall|i: int| 0 <= i < count implies #[trigger] items[i] is Text by {}
        }
    }
}

/// Once a prefix of an array is rejected, every longer prefix is rejected
/// for the same reason.
pub proof fn lemma_texts_rejected(items: Seq<Node>, at: nat, count: nat)
    requires
        at <= count <= items.len(),
        texts_upto(items, at) is Err,
    ensures
        texts_upto(items, count) == texts_upto(items, at),
    decreases count,
{
    if count > at {
        lemma_texts_rejected(items, at, (count - 1) as nat);
    }
}

/// Reads a list of words from a document value.
pub fn decode_words(value: &Element) -> (read: Result<Vec<String>, SchemaError>)
    ensures
        match read {
            Ok(words) => words_decoded(value@) == Ok::<Seq<Seq<char>>, Rejection>(texts(words@)),
            Err(error) => words_decoded(value@) == Err::<Seq<Seq<char>>, Rejection>(error@),
        },
{
    let items = match value.as_array() {
        Some(items) => items,
        None => {
            return Err(
                SchemaError::here(Fault::Mismatch { expected: Kind::Array, found: value.kind() }),
            );
        },
    };
    let ghost nodes = value@->Array_0;
    let mut words: Vec<String> = Vec::new();
    let mut i: usize = 0;
    assert(texts(words@) =~= Seq::empty());
    while i < items.len()
        invariant
            i <= items@.len(),
            value@ == Node::Array(nodes),
            nodes.len() == items@.len(),
            forall|j: int| 0 <= j < items@.len() ==> #[trigger] nodes[j] == items@[j]@,
            texts_upto(nodes, i as nat) == Ok::<Seq<Seq<char>>, Rejection>(texts(words@)),
        decreases items@.len() - i,
    {
        match items[i].as_text() {
            Some(text) => {
                let ghost before = texts(words@);
                words.push(text.to_owned());
                assert(texts(words@) =~= before.push(text@));
            },
            None => {
                let error = SchemaError::here(
                    Fault::Mismatch { expected: Kind::Text, found: items[i].kind() },
                ).under(Step::Index(i));
                proof {
                    assert(texts_upto(nodes, (i + 1) as nat) == Err::<
                        Seq<Seq<char>>,
                        Rejection,
                    >(error@));
                    lemma_texts_rejected(nodes, (i + 1) as nat, nodes.len());
                }
                return Err(error);
            },
        }
        i += 1;
    }
    Ok(words)
}

/// Reads the words under `words` of a table; the key is required.
pub fn decode_words_at(table: &Element) -> (read: Result<Vec<String>, SchemaError>)
    ensures
        match read {
            Ok(words) => words_decoded_at(table@) == Ok::<Seq<Seq<char>>, Rejection>(
                texts(words@),
            ),
            Err(error) => words_decoded_at(table@) == Err::<Seq<Seq<char>>, Rejection>(error@),
        },
{
    match table.get(Key::Words.name()) {
        None => Err(SchemaError::here(Fault::Missing).under(Step::Key(Key::Words))),
        Some(value) => match decode_words(value) {
            Ok(words) => Ok(words),
            Err(error) => Err(error.under(Step::Key(Key::Words))),
        },
    }
}

impl Schema for Keyword {
    /// A table with the required keys `style` and `words`.
    open spec fn decoded(node: Node) -> Result<KeywordView, Rejection> {
        if !(node is Table) {
            Err(not_a_table(node))
        } else {
            match Style::decoded_at(node, Key::Style) {
                Err(rejection) => Err(rejection),
                Ok(style) => match words_decoded_at(node) {
                    Err(rejection) => Err(rejection),
                    Ok(words) => Ok(KeywordView { style, words }),
                },
            }
        }
    }

    fn decode(value: &Element) -> (read: Result<Keyword, SchemaError>) {
        expect_table(value)?;
        let style = Style::decode_at(value, Key::Style)?;
        let words = decode_words_at(value)?;
        Ok(Keyword { style, words })
    }
}

impl Default for Keyword {
    fn default() -> (made: Keyword)
        ensures
            made@ == (KeywordView { style: Style::plain(), words: Seq::empty() }),
    {
        let made = Keyword { style: Style::default(), words: Vec::new() };
        assert(made@.words =~= Seq::empty());
        made
    }
}

/// What the first `count` items of an array say as keyword lists; the first
/// that is rejected is reported under its index.
pub open spec fn keywords_upto(items: Seq<Node>, count: nat) -> Result<
    Seq<KeywordView>,
    Rejection,
>
    decreases count,
{
    if count == 0 || count > items.len() {
        Ok(Seq::empty())
    } else {
        match keywords_upto(items, (count - 1) as nat) {
            Err(rejection) => Err(rejection),
            Ok(before) => match Keyword::decoded(items[count - 1]) {
                Ok(keyword) => Ok(before.push(keyword)),
                Err(rejection) => Err(at_index(rejection, count - 1)),
            },
        }
    }
}

/// What a node says as the keyword lists of a configuration: an array of
/// keyword tables.
pub open spec fn keywords_decoded(node: Node) -> Result<Seq<KeywordView>, Rejection> {
    match node {
        Node::Array(items) => keywords_upto(items, items.len()),
        _ => Err(Rejection::here(Fault::Mismatch { expected: Kind::Array, found: node.kind() })),
    }
}

/// The keyword lists under `keywords` of a table, none where the key is
/// absent.
pub open spec fn keywords_decoded_at(table: Node) -> Result<Option<Seq<KeywordView>>, Rejection> {
    match table.child(Key::Keywords.text()) {
        None => Ok(None),
        Some(node) => match keywords_decoded(node) {
            Ok(keywords) => Ok(Some(keywords)),
            Err(rejection) => Err(rejection.under(Step::Key(Key::Keywords))),
        },
    }
}

/// Keyword lists are read whole or not at all: they are read exactly when
/// every item spells a keyword list, and then hold what each item spells,
/// in order.
pub proof fn lemma_keywords_upto(items: Seq<Node>, count: nat)
    requires
        count <= items.len(),
    ensures
        keywords_upto(items, count) is Ok <==> forall|i: int|
            0 <= i < count ==> #[trigger] Keyword::decoded(items[i]) is Ok,
        keywords_upto(items, count) matches Ok(keywords) ==> {
            &&& keywords.len() == count
            &&& forall|i: int|
                0 <= i < count ==> Keyword::decoded(items[i]) == Ok::<KeywordView, Rejection>(
                    #[trigger] keywords[i],
                )
        },
    decreases count,
{
    if count > 0 {
        lemma_keywords_upto(items, (count - 1) as nat);
        if keywords_upto(items, (count - 1) as nat) is Err {
            let i = choose|i: int|
                0 <= i < count - 1 && !(#[trigger] Keyword::decoded(items[i]) is Ok);
            assert(!(Keyword::decoded(items[i]) is Ok));
        } else if !(Keyword::decoded(items[count - 1]) is Ok) {
        } else {
            assert forall|i: int| 0 <= i < count implies #[trigger] Keyword::decoded(
                items[i],
            ) is Ok by {}
        }
    }
}

/// Once a prefix of an array is rejected, every longer prefix is rejected
/// for the same reason.
pub proof fn lemma_keywords_rejected(items: Seq<Node>, at: nat, count: nat)
    requires
        at <= count <= items.len(),
        keywords_upto(items, at) is Err,
    ensures
        keywords_upto(items, count) == keywords_upto(items, at),
    decreases count,
{
    if count > at {
        lemma_keywords_rejected(items, at, (count - 1) as nat);
    }
}

/// Reads the keyword lists of a configuration from a document value.
pub fn decode_keywords(value: &Element) -> (read: Result<Vec<Keyword>, SchemaError>)
    ensures
        match read {
            Ok(keywords) => keywords_decoded(value@) == Ok::<Seq<KeywordView>, Rejection>(
                keyword_views(keywords@),
            ),
            Err(error) => keywords_decoded(value@) == Err::<Seq<KeywordView>, Rejection>(error@),
        },
{
    let items = match value.as_array() {
        Some(items) => items,
        None => {
            return Err(
                SchemaError::here(Fault::Mismatch { expected: Kind::Array, found: value.kind() }),
            );
        },
    };
    let ghost nodes = value@->Array_0;
    let mut keywords: Vec<Keyword> = Vec::new();
    let mut i: usize = 0;
    assert(keyword_views(keywords@) =~= Seq::empty());
    while i < items.len()
        invariant
            i <= items@.len(),
            value@ == Node::Array(nodes),
            nodes.len() == items@.len(),
            forall|j: int| 0 <= j < items@.len() ==> #[trigger] nodes[j] == items@[j]@,
            keywords_upto(nodes, i as nat) == Ok::<Seq<KeywordView>, Rejection>(
                keyword_views(keywords@),
            ),
        decreases items@.len() - i,
    {
        match Keyword::decode(&items[i]) {
            Ok(keyword) => {
                let ghost before = keyword_views(keywords@);
                let ghost added = keyword@;
                keywords.push(keyword);
                assert(keyword_views(keywords@) =~= before.push(added));
            },
            Err(inner) => {
                let error = inner.under(Step::Index(i));
                proof {
                    assert(keywords_upto(nodes, (i + 1) as nat) == Err::<
                        Seq<KeywordView>,
                        Rejection,
                    >(error@));
                    lemma_keywords_rejected(nodes, (i + 1) as nat, nodes.len());
                }
                return Err(error);
            },
        }
        i += 1;
    }
    Ok(keywords)
}

/// Where a quotes group names no delimiter, the delimiter is the double
/// quote; the style stays required.
pub proof fn lemma_token_defaults(node: Node)
    requires
        node is Table,
        node.child(Key::Token.text()) is None,
    ensures
        Quotes::decoded(node) == match Style::decoded_at(node, Key::Style) {
            Ok(style) => Ok::<Quotes, Rejection>(Quotes { style, token: '"' }),
            Err(rejection) => Err::<Quotes, Rejection>(rejection),
        },
        node.child(Key::Style.text()) is None ==> Quotes::decoded(node) == Err::<
            Quotes,
            Rejection,
        >(Rejection::here(Fault::Missing).under(Step::Key(Key::Style))),
{
}

/// The words of a keyword list have no default: a keyword table without
/// them is rejected.
pub proof fn lemma_words_are_required(node: Node)
    requires
        node is Table,
        node.child(Key::Words.text()) is None,
    ensures
        Keyword::decoded(node) is Err,
        Style::decoded_at(node, Key::Style) is Ok ==> Keyword::decoded(node) == Err::<
            KeywordView,
            Rejection,
        >(Rejection::here(Fault::Missing).under(Step::Key(Key::Words))),
{
}

} // verus!
