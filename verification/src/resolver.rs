//! Deciding which configuration is loaded.
//!
//! The resolver does no input or output of its own. It is a machine that
//! asks one question at a time (the home directory, whether a file exists,
//! what a file holds) and is advanced with the answer, until it is
//! finished with a configuration or with the reason why there is none.

use vstd::prelude::*;
use crate::config::{config_of_text, outcome_view, Config, ConfigView};
use crate::error::{ConfigError, Failure, Operation};
use crate::paths::{conventional_path, conventional_path_of};
use crate::template::DEFAULT_CONFIG;

verus! {

/// The resolver: the question it is waiting on, or its outcome.
#[derive(Debug, PartialEq, Eq)]
pub enum Resolver {
    /// Waiting for the home directory; `explicit` is the path that the
    /// caller asked for, if any.
    NeedsHome { explicit: Option<String> },
    /// Waiting to hear whether a file exists at the conventional `path`.
    NeedsProbe { path: String },
    /// Waiting for the contents of the file at `path`.
    NeedsContents { path: String },
    /// Done.
    Finished(Result<Config, ConfigError>),
}

/// An answer to a resolver's question.
#[derive(Debug, PartialEq, Eq)]
pub enum Answer {
    /// The home directory, where the environment names one.
    Home(Option<String>),
    /// Whether the file exists.
    Exists(bool),
    /// The file's contents, or what the file system said instead.
    Contents(Result<String, String>),
}

/// The mathematical content of a [`Resolver`].
pub ghost enum ResolverView {
    NeedsHome { explicit: Option<Seq<char>> },
    NeedsProbe { path: Seq<char> },
    NeedsContents { path: Seq<char> },
    Finished(Result<ConfigView, Failure>),
}

/// The mathematical content of an [`Answer`].
pub ghost enum AnswerView {
    Home(Option<Seq<char>>),
    Exists(bool),
    Contents(Result<Seq<char>, Seq<char>>),
}

impl View for Resolver {
    type V = ResolverView;

    open spec fn view(&self) -> ResolverView {
        match self {
            Resolver::NeedsHome { explicit } => ResolverView::NeedsHome {
                explicit: match explicit {
                    Some(path) => Some(path@),
                    None => None,
                },
            },
            Resolver::NeedsProbe { path } => ResolverView::NeedsProbe { path: path@ },
            Resolver::NeedsContents { path } => ResolverView::NeedsContents { path: path@ },
            Resolver::Finished(outcome) => ResolverView::Finished(outcome_view(*outcome)),
        }
    }
}

impl View for Answer {
    type V = AnswerView;

    open spec fn view(&self) -> AnswerView {
        match self {
            Answer::Home(home) => AnswerView::Home(
                match home {
                    Some(home) => Some(home@),
                    None => None,
                },
            ),
            Answer::Exists(exists) => AnswerView::Exists(*exists),
            Answer::Contents(contents) => AnswerView::Contents(
                match contents {
                    Ok(text) => Ok(text@),
                    Err(detail) => Err(detail@),
                },
            ),
        }
    }
}

impl ResolverView {
    /// The resolver at its start.
    pub open spec fn start(explicit: Option<Seq<char>>) -> ResolverView {
        ResolverView::NeedsHome { explicit }
    }

    /// The resolver after an answer.
    ///
    /// Without a home directory nothing is loaded. With one, an explicit
    /// path is read without a look at the conventional one; else the
    /// conventional file is read where it exists, and the default
    /// configuration is taken where it does not. A file that cannot be
    /// read, or whose text is no configuration, ends the resolver with
    /// that failure. An answer to a question that was not asked changes
    /// nothing.
    pub open spec fn after(self, answer: AnswerView) -> ResolverView {
        match (self, answer) {
            (ResolverView::NeedsHome { explicit }, AnswerView::Home(None)) => {
                ResolverView::Finished(Err(Failure::Environment))
            },
            (ResolverView::NeedsHome { explicit: Some(path) }, AnswerView::Home(Some(home))) => {
                ResolverView::NeedsContents { path }
            },
            (ResolverView::NeedsHome { explicit: None }, AnswerView::Home(Some(home))) => {
                ResolverView::NeedsProbe { path: conventional_path_of(home) }
            },
            (ResolverView::NeedsProbe { path }, AnswerView::Exists(true)) => {
                ResolverView::NeedsContents { path }
            },
            (ResolverView::NeedsProbe { path }, AnswerView::Exists(false)) => {
                ResolverView::Finished(config_of_text(DEFAULT_CONFIG@))
            },
            (ResolverView::NeedsContents { path }, AnswerView::Contents(Ok(text))) => {
                ResolverView::Finished(config_of_text(text))
            },
            (ResolverView::NeedsContents { path }, AnswerView::Contents(Err(detail))) => {
                ResolverView::Finished(
                    Err(Failure::Io { operation: Operation::Read, path, detail }),
                )
            },
            (state, _) => state,
        }
    }
}

/// Starts to load the configuration: from the file at `path` where one is
/// given, else from the conventional file where it exists, else from the
/// default configuration.
pub fn load_config(path: Option<String>) -> (resolver: Resolver)
    ensures
        resolver@ == ResolverView::start(
            match path {
                Some(path) => Some(path@),
                None => None,
            },
        ),
{
    Resolver::NeedsHome { explicit: path }
}

impl Resolver {
    /// Advances the resolver with the answer to its question.
    pub fn advance(self, answer: Answer) -> (next: Resolver)
        ensures
            next@ == self@.after(answer@),
    {
        match self {
            Resolver::NeedsHome { explicit } => match answer {
                Answer::Home(None) => Resolver::Finished(Err(ConfigError::Environment)),
                Answer::Home(Some(home)) => match explicit {
                    Some(path) => Resolver::NeedsContents { path },
                    None => Resolver::NeedsProbe { path: conventional_path(home.as_str()) },
                },
                other => Resolver::NeedsHome { explicit },
            },
            Resolver::NeedsProbe { path } => match answer {
                Answer::Exists(true) => Resolver::NeedsContents { path },
                Answer::Exists(false) => Resolver::Finished(Config::from_text(DEFAULT_CONFIG)),
                other => Resolver::NeedsProbe { path },
            },
            Resolver::NeedsContents { path } => match answer {
                Answer::Contents(Ok(text)) => Resolver::Finished(Config::from_text(text.as_str())),
                Answer::Contents(Err(detail)) => Resolver::Finished(
                    Err(ConfigError::Io { operation: Operation::Read, path, detail }),
                ),
                other => Resolver::NeedsContents { path },
            },
            Resolver::Finished(outcome) => Resolver::Finished(outcome),
        }
    }
}

/// An explicit path takes precedence: with a home directory, the file at
/// the explicit path is the one that is read, the conventional path is
/// never asked about, and the outcome is what that file's contents say.
pub proof fn lemma_explicit_path_wins(
    explicit: Seq<char>,
    home: Seq<char>,
    contents: Result<Seq<char>, Seq<char>>,
)
    ensures
        ResolverView::start(Some(explicit)).after(AnswerView::Home(Some(home)))
            == (ResolverView::NeedsContents { path: explicit }),
        ResolverView::start(Some(explicit)).after(AnswerView::Home(Some(home))).after(
            AnswerView::Contents(contents),
        ) == ResolverView::Finished(
            match contents {
                Ok(text) => config_of_text(text),
                Err(detail) => Err(
                    Failure::Io { operation: Operation::Read, path: explicit, detail },
                ),
            },
        ),
{
}

/// Without an explicit path and without a file at the conventional path,
/// the outcome is what the default configuration says, read as any other
/// text is.
pub proof fn lemma_fallback_is_default(home: Seq<char>)
    ensures
        ResolverView::start(None).after(AnswerView::Home(Some(home)))
            == (ResolverView::NeedsProbe { path: conventional_path_of(home) }),
        ResolverView::start(None).after(AnswerView::Home(Some(home))).after(
            AnswerView::Exists(false),
        ) == ResolverView::Finished(config_of_text(DEFAULT_CONFIG@)),
{
}

/// Without an explicit path, a file at the conventional path is the one
/// that is read.
pub proof fn lemma_conventional_file_is_read(
    home: Seq<char>,
    contents: Result<Seq<char>, Seq<char>>,
)
    ensures
        ResolverView::start(None).after(AnswerView::Home(Some(home))).after(
            AnswerView::Exists(true),
        ).after(AnswerView::Contents(contents)) == ResolverView::Finished(
            match contents {
                Ok(text) => config_of_text(text),
                Err(detail) => Err(
                    Failure::Io {
                        operation: Operation::Read,
                        path: conventional_path_of(home),
                        detail,
                    },
                ),
            },
        ),
{
}

/// Without a home directory nothing is loaded, whether or not a path was
/// given.
pub proof fn lemma_home_is_required(explicit: Option<Seq<char>>)
    ensures
        ResolverView::start(explicit).after(AnswerView::Home(None)) == ResolverView::Finished(
            Err(Failure::Environment),
        ),
{
}

/// A finished resolver stays as it is.
pub proof fn lemma_finished_stays(outcome: Result<ConfigView, Failure>, answer: AnswerView)
    ensures
        ResolverView::Finished(outcome).after(answer) == ResolverView::Finished(outcome),
{
}

} // verus!
