//! The configuration as a whole: which groups it styles, and how it is
//! read from a document or from text.

use vstd::prelude::*;
use crate::document::{Element, Node};
use crate::error::{ConfigError, Failure, Fault, Key, Rejection, SchemaError, Step};
use crate::groups::{
    decode_keywords, keyword_views, keywords_decoded_at, Date, FilePath, Ip, Keyword,
    KeywordView, Number, Quotes, Url, Uuid,
};
use crate::schema::{decode_optional, expect_table, not_a_table, optional, Schema};
use crate::style::{Color, Style};
use crate::toml_text::{parse_document, toml_parsed};

verus! {

/// The groups of a configuration. A group that is absent is not
/// highlighted at all, which is not the same as a group that is present
/// with plain styles.
#[derive(Clone, Debug, PartialEq, Eq)]
pub struct Groups {
    pub date: Option<Date>,
    pub number: Option<Number>,
    pub quotes: Option<Quotes>,
    pub uuid: Option<Uuid>,
    pub url: Option<Url>,
    pub ip: Option<Ip>,
    pub path: Option<FilePath>,
    pub keywords: Option<Vec<Keyword>>,
}

/// The mathematical content of [`Groups`].
pub ghost struct GroupsView {
    pub date: Option<Date>,
    pub number: Option<Number>,
    pub quotes: Option<Quotes>,
    pub uuid: Option<Uuid>,
    pub url: Option<Url>,
    pub ip: Option<Ip>,
    pub path: Option<FilePath>,
    pub keywords: Option<Seq<KeywordView>>,
}

impl GroupsView {
    /// No group at all.
    pub open spec fn empty() -> GroupsView {
        GroupsView {
            date: None,
            number: None,
            quotes: None,
            uuid: None,
            url: None,
            ip: None,
            path: None,
            keywords: None,
        }
    }
}

impl View for Groups {
    type V = GroupsView;

    open spec fn view(&self) -> GroupsView {
        GroupsView {
            date: self.date,
            number: self.number,
            quotes: self.quotes,
            uuid: self.uuid,
            url: self.url,
            ip: self.ip,
            path: self.path,
            keywords: match self.keywords {
                None => None,
                Some(keywords) => Some(keyword_views(keywords@)),
            },
        }
    }
}

impl Schema for Groups {
    /// A table in which each group's key is optional and every other key is
    /// ignored. Of several faults, the one under the first key in the order
    /// below is reported.
    open spec fn decoded(node: Node) -> Result<GroupsView, Rejection> {
        if !(node is Table) {
            Err(not_a_table(node))
        } else {
            match optional::<Date>(node, Key::Date) {
                Err(rejection) => Err(rejection),
                Ok(date) => match optional::<Number>(node, Key::Number) {
                    Err(rejection) => Err(rejection),
                    Ok(number) => match optional::<Quotes>(node, Key::Quotes) {
                        Err(rejection) => Err(rejection),
                        Ok(quotes) => match optional::<Uuid>(node, Key::Uuid) {
                            Err(rejection) => Err(rejection),
                            Ok(uuid) => match optional::<Url>(node, Key::Url) {
                                Err(rejection) => Err(rejection),
                                Ok(url) => match optional::<Ip>(node, Key::Ip) {
                                    Err(rejection) => Err(rejection),
                                    Ok(ip) => match optional::<FilePath>(node, Key::Path) {
                                        Err(rejection) => Err(rejection),
                                        Ok(path) => match keywords_decoded_at(node) {
                                            Err(rejection) => Err(rejection),
                                            Ok(keywords) => Ok(
                                                GroupsView {
                                                    date,
                                                    number,
                                                    quotes,
                                                    uuid,
                                                    url,
                                                    ip,
                                                    path,
                                                    keywords,
                                                },
                                            ),
                                        },
                                    },
                                },
                            },
                        },
                    },
                },
            }
        }
    }

    fn decode(value: &Element) -> (read: Result<Groups, SchemaError>) {
        expect_table(value)?;
        let date = decode_optional::<Date>(value, Key::Date)?;
        let number = decode_optional::<Number>(value, Key::Number)?;
        let quotes = decode_optional::<Quotes>(value, Key::Quotes)?;
        let uuid = decode_optional::<Uuid>(value, Key::Uuid)?;
        let url = decode_optional::<Url>(value, Key::Url)?;
        let ip = decode_optional::<Ip>(value, Key::Ip)?;
        let path = decode_optional::<FilePath>(value, Key::Path)?;
        let keywords = match value.get(Key::Keywords.name()) {
            None => None,
            Some(list) => match decode_keywords(list) {
                Ok(keywords) => Some(keywords),
                Err(error) => {
                    return Err(error.under(Step::Key(Key::Keywords)));
                },
            },
        };
        Ok(Groups { date, number, quotes, uuid, url, ip, path, keywords })
    }
}

impl Default for Groups {
    fn default() -> (made: Groups)
        ensures
            made@ == GroupsView::empty(),
    {
        Groups {
            date: None,
            number: None,
            quotes: None,
            uuid: None,
            url: None,
            ip: None,
            path: None,
            keywords: None,
        }
    }
}

/// A configuration: the root of the schema.
#[derive(Clone, Debug, PartialEq, Eq)]
pub struct Config {
    pub groups: Groups,
}

/// The mathematical content of a [`Config`].
pub ghost struct ConfigView {
    pub groups: GroupsView,
}

impl View for Config {
    type V = ConfigView;

    open spec fn view(&self) -> ConfigView {
        ConfigView { groups: self.groups@ }
    }
}

impl Schema for Config {
    /// A table with the required key `groups`; every other key is ignored.
    open spec fn decoded(node: Node) -> Result<ConfigView, Rejection> {
        if !(node is Table) {
            Err(not_a_table(node))
        } else {
            match node.child(Key::Groups.text()) {
                None => Err(Rejection::here(Fault::Missing).under(Step::Key(Key::Groups))),
                Some(inner) => match Groups::decoded(inner) {
                    Ok(groups) => Ok(ConfigView { groups }),
                    Err(rejection) => Err(rejection.under(Step::Key(Key::Groups))),
                },
            }
        }
    }

    fn decode(value: &Element) -> (read: Result<Config, SchemaError>) {
        expect_table(value)?;
        match value.get(Key::Groups.name()) {
            None => Err(SchemaError::here(Fault::Missing).under(Step::Key(Key::Groups))),
            Some(inner) => match Groups::decode(inner) {
                Ok(groups) => Ok(Config { groups }),
                Err(error) => Err(error.under(Step::Key(Key::Groups))),
            },
        }
    }
}

impl Default for Config {
    fn default() -> (made: Config)
        ensures
            made@ == (ConfigView { groups: GroupsView::empty() }),
    {
        Config { groups: Groups::default() }
    }
}

/// What a text says as a configuration: the text must be a document, and
/// the document must fit the schema.
pub open spec fn config_of_text(text: Seq<char>) -> Result<ConfigView, Failure> {
    match toml_parsed(text) {
        Err(message) => Err(Failure::Syntax { message }),
        Ok(document) => match Config::decoded(document) {
            Ok(config) => Ok(config),
            Err(rejection) => Err(Failure::Schema(rejection)),
        },
    }
}

/// What a configuration that was read, or the failure to read one, stands
/// for.
pub open spec fn outcome_view(outcome: Result<Config, ConfigError>) -> Result<
    ConfigView,
    Failure,
> {
    match outcome {
        Ok(config) => Ok(config@),
        Err(error) => Err(error@),
    }
}

impl Config {
    /// Reads a configuration from text: all of it or, on the first fault,
    /// none of it.
    pub fn from_text(text: &str) -> (read: Result<Config, ConfigError>)
        ensures
            outcome_view(read) == config_of_text(text@),
    {
        match parse_document(text) {
            Err(message) => Err(ConfigError::Syntax { message }),
            Ok(document) => match Config::decode(&document) {
                Ok(config) => Ok(config),
                Err(error) => Err(ConfigError::Schema(error)),
            },
        }
    }
}

/// A configuration is read whole or not at all: where one is read, its
/// `groups` table is there, and every group of it was read without fault.
pub proof fn lemma_config_is_whole(document: Node)
    requires
        Config::decoded(document) is Ok,
    ensures
        document.child(Key::Groups.text()) matches Some(groups) && {
            &&& Groups::decoded(groups) == Ok::<GroupsView, Rejection>(
                Config::decoded(document)->Ok_0.groups,
            )
            &&& optional::<Date>(groups, Key::Date) is Ok
            &&& optional::<Number>(groups, Key::Number) is Ok
            &&& optional::<Quotes>(groups, Key::Quotes) is Ok
            &&& optional::<Uuid>(groups, Key::Uuid) is Ok
            &&& optional::<Url>(groups, Key::Url) is Ok
            &&& optional::<Ip>(groups, Key::Ip) is Ok
            &&& optional::<FilePath>(groups, Key::Path) is Ok
            &&& keywords_decoded_at(groups) is Ok
        },
{
}

/// A group that is absent stays absent: it is not the same as a group that
/// is present with plain styles.
pub proof fn lemma_absent_group_stays_absent(document: Node)
    requires
        Config::decoded(document) is Ok,
    ensures
        ({
            let groups = document.child(Key::Groups.text())->Some_0;
            let read = Config::decoded(document)->Ok_0.groups;
            &&& groups.child(Key::Date.text()) is None <==> read.date is None
            &&& groups.child(Key::Number.text()) is None <==> read.number is None
            &&& groups.child(Key::Quotes.text()) is None <==> read.quotes is None
            &&& groups.child(Key::Uuid.text()) is None <==> read.uuid is None
            &&& groups.child(Key::Url.text()) is None <==> read.url is None
            &&& groups.child(Key::Ip.text()) is None <==> read.ip is None
            &&& groups.child(Key::Path.text()) is None <==> read.path is None
            &&& groups.child(Key::Keywords.text()) is None <==> read.keywords is None
        }),
{
}

/// A color that is not known makes the whole document unfit: where
/// `groups.date.style.fg` is a text that names no color, no configuration
/// is read, and the rejection points at that value.
pub proof fn lemma_unknown_color_is_rejected(document: Node, name: Seq<char>)
    requires
        document.child(Key::Groups.text()) matches Some(groups) && groups.child(
            Key::Date.text(),
        ) matches Some(date) && date.child(Key::Style.text()) matches Some(style) && style.child(
            Key::Fg.text(),
        ) == Some(Node::Text(name)),
        Color::named(name) is None,
    ensures
        Config::decoded(document) == Err::<ConfigView, Rejection>(
            Rejection {
                path: seq![
                    Step::Key(Key::Groups),
                    Step::Key(Key::Date),
                    Step::Key(Key::Style),
                    Step::Key(Key::Fg),
                ],
                fault: Fault::UnknownColor,
            },
        ),
{
    let groups = document.child(Key::Groups.text())->Some_0;
    let date = groups.child(Key::Date.text())->Some_0;
    let style = date.child(Key::Style.text())->Some_0;
    let at_fg = Rejection::here(Fault::UnknownColor).under(Step::Key(Key::Fg));
    assert(Color::decoded_at(style, Key::Fg) == Err::<Color, Rejection>(at_fg));
    assert(Style::decoded(style) == Err::<Style, Rejection>(at_fg));
    let at_style = at_fg.under(Step::Key(Key::Style));
    assert(Date::decoded(date) == Err::<Date, Rejection>(at_style));
    let at_date = at_style.under(Step::Key(Key::Date));
    assert(Groups::decoded(groups) == Err::<GroupsView, Rejection>(at_date));
    let at_groups = at_date.under(Step::Key(Key::Groups));
    assert(Config::decoded(document) == Err::<ConfigView, Rejection>(at_groups));
    assert(at_groups.path =~= seq![
        Step::Key(Key::Groups),
        Step::Key(Key::Date),
        Step::Key(Key::Style),
        Step::Key(Key::Fg),
    ]);
}

/// A text is read as a configuration exactly when it is a document that
/// fits the schema; every other text is reported as a failure, a text that
/// is no document with the parser's diagnostic, a document that does not
/// fit with the place and the fault.
pub proof fn lemma_text_is_read_or_reported(text: Seq<char>)
    ensures
        config_of_text(text) is Ok <==> (toml_parsed(text) matches Ok(document)
            && Config::decoded(document) is Ok),
        toml_parsed(text) matches Err(message) ==> config_of_text(text) == Err::<
            ConfigView,
            Failure,
        >(Failure::Syntax { message }),
        toml_parsed(text) matches Ok(document) ==> (Config::decoded(document) matches Err(
            rejection,
        ) ==> config_of_text(text) == Err::<ConfigView, Failure>(Failure::Schema(rejection))),
{
}

/// Keys that the schema does not know are ignored at the root as well: two
/// documents with the same `groups` spell the same configuration, or are
/// rejected for the same reason, whatever else they hold.
pub proof fn lemma_config_ignores_other_keys(one: Node, other: Node)
    requires
        one is Table,
        other is Table,
        one.child(Key::Groups.text()) == other.child(Key::Groups.text()),
    ensures
        Config::decoded(one) == Config::decoded(other),
{
}

/// The same holds of the groups: two tables that agree under the eight
/// group keys spell the same groups.
pub proof fn lemma_groups_ignore_other_keys(one: Node, other: Node)
    requires
        one is Table,
        other is Table,
        one.child(Key::Date.text()) == other.child(Key::Date.text()),
        one.child(Key::Number.text()) == other.child(Key::Number.text()),
        one.child(Key::Quotes.text()) == other.child(Key::Quotes.text()),
        one.child(Key::Uuid.text()) == other.child(Key::Uuid.text()),
        one.child(Key::Url.text()) == other.child(Key::Url.text()),
        one.child(Key::Ip.text()) == other.child(Key::Ip.text()),
        one.child(Key::Path.text()) == other.child(Key::Path.text()),
        one.child(Key::Keywords.text()) == other.child(Key::Keywords.text()),
    ensures
        Groups::decoded(one) == Groups::decoded(other),
{
}

} // verus!
