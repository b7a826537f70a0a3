//! Writing the default configuration to the conventional place.
//!
//! Like the resolver, the bootstrapper does no input or output of its own:
//! it is a machine that asks for one step at a time and is advanced with
//! what came of it. It never asks to write where a file already stands.

use vstd::prelude::*;
use crate::error::{ConfigError, Failure, Operation};
use crate::paths::{
    abbreviated, display_path, target_directory, target_path, tilde_expanded,
    TARGET_CONFIG_DIRECTORY, TARGET_CONFIG_PATH,
};
use crate::template::DEFAULT_CONFIG;

verus! {

/// The bootstrapper: the step it is waiting on, or its outcome. `target`
/// is the file to be written, `shown` the same path as it is shown to the
/// user.
#[derive(Debug, PartialEq, Eq)]
pub enum Bootstrapper {
    /// Waiting for the home directory.
    NeedsHome,
    /// Waiting to hear whether `target` exists.
    NeedsProbe { target: String, directory: String, shown: String },
    /// Waiting for `directory` and the directories above it to be created.
    NeedsDirectories { target: String, directory: String, shown: String },
    /// Waiting for the file `target` to be created.
    NeedsFile { target: String, shown: String },
    /// Waiting for `contents` to be written into the new file.
    NeedsWrite { contents: &'static str, shown: String },
    /// Done: the path of the new file as it is shown, or why none was
    /// written.
    Finished(Result<String, ConfigError>),
}

/// What came of a step that a bootstrapper asked for.
#[derive(Debug, PartialEq, Eq)]
pub enum Reply {
    /// The home directory, where the environment names one.
    Home(Option<String>),
    /// Whether the file exists, or what the file system said instead.
    Exists(Result<bool, String>),
    /// The step was carried out, or what the file system said instead.
    Done(Result<(), String>),
}

/// The mathematical content of a [`Bootstrapper`].
pub ghost enum BootstrapperView {
    NeedsHome,
    NeedsProbe { target: Seq<char>, directory: Seq<char>, shown: Seq<char> },
    NeedsDirectories { target: Seq<char>, directory: Seq<char>, shown: Seq<char> },
    NeedsFile { target: Seq<char>, shown: Seq<char> },
    NeedsWrite { contents: Seq<char>, shown: Seq<char> },
    Finished(Result<Seq<char>, Failure>),
}

/// The mathematical content of a [`Reply`].
pub ghost enum ReplyView {
    Home(Option<Seq<char>>),
    Exists(Result<bool, Seq<char>>),
    Done(Result<(), Seq<char>>),
}

impl View for Bootstrapper {
    type V = BootstrapperView;

    open spec fn view(&self) -> BootstrapperView {
        match self {
            Bootstrapper::NeedsHome => BootstrapperView::NeedsHome,
            Bootstrapper::NeedsProbe { target, directory, shown } => BootstrapperView::NeedsProbe {
                target: target@,
                directory: directory@,
                shown: shown@,
            },
            Bootstrapper::NeedsDirectories {
                target,
                directory,
                shown,
            } => BootstrapperView::NeedsDirectories {
                target: target@,
                directory: directory@,
                shown: shown@,
            },
            Bootstrapper::NeedsFile { target, shown } => BootstrapperView::NeedsFile {
                target: target@,
                shown: shown@,
            },
            Bootstrapper::NeedsWrite { contents, shown } => BootstrapperView::NeedsWrite {
                contents: contents@,
                shown: shown@,
            },
            Bootstrapper::Finished(outcome) => BootstrapperView::Finished(
                match outcome {
                    Ok(shown) => Ok(shown@),
                    Err(error) => Err(error@),
                },
            ),
        }
    }
}

impl View for Reply {
    type V = ReplyView;

    open spec fn view(&self) -> ReplyView {
        match self {
            Reply::Home(home) => ReplyView::Home(
                match home {
                    Some(home) => Some(home@),
                    None => None,
                },
            ),
            Reply::Exists(exists) => ReplyView::Exists(
                match exists {
                    Ok(exists) => Ok(*exists),
                    Err(detail) => Err(detail@),
                },
            ),
            Reply::Done(done) => ReplyView::Done(
                match done {
                    Ok(_) => Ok(()),
                    Err(detail) => Err(detail@),
                },
            ),
        }
    }
}

/// The failure of `operation` on the file that is shown as `shown`.
pub open spec fn refused(operation: Operation, shown: Seq<char>, detail: Seq<char>) -> Failure {
    Failure::Io { operation, path: shown, detail }
}

impl BootstrapperView {
    /// The bootstrapper at its start.
    pub open spec fn start() -> BootstrapperView {
        BootstrapperView::NeedsHome
    }

    /// The bootstrapper once the home directory is known.
    pub open spec fn planned(home: Seq<char>) -> BootstrapperView {
        BootstrapperView::NeedsProbe {
            target: tilde_expanded(TARGET_CONFIG_PATH@, home),
            directory: tilde_expanded(TARGET_CONFIG_DIRECTORY@, home),
            shown: abbreviated(tilde_expanded(TARGET_CONFIG_PATH@, home), home),
        }
    }

    /// The bootstrapper after a reply.
    ///
    /// The steps follow one another without a way back: the home
    /// directory, the look at the target, its directories, the file, its
    /// contents. A file that already stands at the target ends the
    /// bootstrapper with a conflict; a step that the file system refuses
    /// ends it with that failure. A reply to a step that was not asked for
    /// changes nothing.
    pub open spec fn after(self, reply: ReplyView) -> BootstrapperView {
        match (self, reply) {
            (BootstrapperView::NeedsHome, ReplyView::Home(None)) => {
                BootstrapperView::Finished(Err(Failure::Environment))
            },
            (BootstrapperView::NeedsHome, ReplyView::Home(Some(home))) => {
                BootstrapperView::planned(home)
            },
            (
                BootstrapperView::NeedsProbe { target, directory, shown },
                ReplyView::Exists(Ok(true)),
            ) => { BootstrapperView::Finished(Err(Failure::Conflict { path: shown })) },
            (
                BootstrapperView::NeedsProbe { target, directory, shown },
                ReplyView::Exists(Err(detail)),
            ) => { BootstrapperView::Finished(Err(refused(Operation::Probe, shown, detail))) },
            (
                BootstrapperView::NeedsProbe { target, directory, shown },
                ReplyView::Exists(Ok(false)),
            ) => { BootstrapperView::NeedsDirectories { target, directory, shown } },
            (
                BootstrapperView::NeedsDirectories { target, directory, shown },
                ReplyView::Done(Ok(_)),
            ) => { BootstrapperView::NeedsFile { target, shown } },
            (
                BootstrapperView::NeedsDirectories { target, directory, shown },
                ReplyView::Done(Err(detail)),
            ) => {
                BootstrapperView::Finished(
                    Err(refused(Operation::CreateDirectories, shown, detail)),
                )
            },
            (BootstrapperView::NeedsFile { target, shown }, ReplyView::Done(Ok(_))) => {
                BootstrapperView::NeedsWrite { contents: DEFAULT_CONFIG@, shown }
            },
            (BootstrapperView::NeedsFile { target, shown }, ReplyView::Done(Err(detail))) => {
                BootstrapperView::Finished(Err(refused(Operation::CreateFile, shown, detail)))
            },
            (BootstrapperView::NeedsWrite { contents, shown }, ReplyView::Done(Ok(_))) => {
                BootstrapperView::Finished(Ok(shown))
            },
            (BootstrapperView::NeedsWrite { contents, shown }, ReplyView::Done(Err(detail))) => {
                BootstrapperView::Finished(Err(refused(Operation::Write, shown, detail)))
            },
            (state, _) => state,
        }
    }

    /// Whether the bootstrapper asks for something to be created or
    /// written.
    pub open spec fn changes_files(self) -> bool {
        self is NeedsDirectories || self is NeedsFile || self is NeedsWrite
    }
}

/// Starts to write the default configuration to the conventional place.
pub fn generate_default_config() -> (bootstrapper: Bootstrapper)
    ensures
        bootstrapper@ == BootstrapperView::start(),
{
    Bootstrapper::NeedsHome
}

impl Bootstrapper {
    /// Advances the bootstrapper with what came of its step.
    pub fn advance(self, reply: Reply) -> (next: Bootstrapper)
        ensures
            next@ == self@.after(reply@),
    {
        match self {
            Bootstrapper::NeedsHome => match reply {
                Reply::Home(None) => Bootstrapper::Finished(Err(ConfigError::Environment)),
                Reply::Home(Some(home)) => {
                    let target = target_path(home.as_str());
                    let directory = target_directory(home.as_str());
                    let shown = display_path(target.as_str(), home.as_str());
                    Bootstrapper::NeedsProbe { target, directory, shown }
                },
                other => Bootstrapper::NeedsHome,
            },
            Bootstrapper::NeedsProbe { target, directory, shown } => match reply {
                Reply::Exists(Ok(true)) => Bootstrapper::Finished(
                    Err(ConfigError::Conflict { path: shown }),
                ),
                Reply::Exists(Ok(false)) => Bootstrapper::NeedsDirectories {
                    target,
                    directory,
                    shown,
                },
                Reply::Exists(Err(detail)) => Bootstrapper::Finished(
                    Err(ConfigError::Io { operation: Operation::Probe, path: shown, detail }),
                ),
                other => Bootstrapper::NeedsProbe { target, directory, shown },
            },
            Bootstrapper::NeedsDirectories { target, directory, shown } => match reply {
                Reply::Done(Ok(_)) => Bootstrapper::NeedsFile { target, shown },
                Reply::Done(Err(detail)) => Bootstrapper::Finished(
                    Err(
                        ConfigError::Io {
                            operation: Operation::CreateDirectories,
                            path: shown,
                            detail,
                        },
                    ),
                ),
                other => Bootstrapper::NeedsDirectories { target, directory, shown },
            },
            Bootstrapper::NeedsFile { target, shown } => match reply {
                Reply::Done(Ok(_)) => Bootstrapper::NeedsWrite { contents: DEFAULT_CONFIG, shown },
                Reply::Done(Err(detail)) => Bootstrapper::Finished(
                    Err(ConfigError::Io { operation: Operation::CreateFile, path: shown, detail }),
                ),
                other => Bootstrapper::NeedsFile { target, shown },
            },
            Bootstrapper::NeedsWrite { contents, shown } => match reply {
                Reply::Done(Ok(_)) => Bootstrapper::Finished(Ok(shown)),
                Reply::Done(Err(detail)) => Bootstrapper::Finished(
                    Err(ConfigError::Io { operation: Operation::Write, path: shown, detail }),
                ),
                other => Bootstrapper::NeedsWrite { contents, shown },
            },
            Bootstrapper::Finished(outcome) => Bootstrapper::Finished(outcome),
        }
    }
}

/// The target is the home directory followed by the conventional suffix,
/// it is the file `config.toml` of the directory that is created for it,
/// and it is shown with a tilde in place of the home directory.
pub proof fn lemma_target(home: Seq<char>)
    ensures
        tilde_expanded(TARGET_CONFIG_PATH@, home) == home + "/.config/tailspin/config.toml"@,
        tilde_expanded(TARGET_CONFIG_PATH@, home) == tilde_expanded(TARGET_CONFIG_DIRECTORY@, home)
            + "/config.toml"@,
        abbreviated(tilde_expanded(TARGET_CONFIG_PATH@, home), home) == TARGET_CONFIG_PATH@,
{
    reveal_strlit("~/.config/tailspin/config.toml");
    reveal_strlit("~/.config/tailspin");
    reveal_strlit("/.config/tailspin/config.toml");
    reveal_strlit("/config.toml");
    let path = TARGET_CONFIG_PATH@;
    let directory = TARGET_CONFIG_DIRECTORY@;
    let target = tilde_expanded(path, home);
    assert(path.skip(1) =~= "/.config/tailspin/config.toml"@);
    assert(directory.skip(1) + "/config.toml"@ =~= path.skip(1));
    assert(target =~= home + directory.skip(1) + "/config.toml"@);
    assert(target.subrange(0, home.len() as int) =~= home);
    assert(target.skip(home.len() as int) =~= path.skip(1));
    assert(seq!['~'] + path.skip(1) =~= path);
}

/// Where a file already stands at the target, the bootstrapper ends with a
/// conflict, and never asked for anything to be created or written on the
/// way there.
pub proof fn lemma_existing_file_is_kept(home: Seq<char>)
    ensures
        !BootstrapperView::start().changes_files(),
        !BootstrapperView::start().after(ReplyView::Home(Some(home))).changes_files(),
        BootstrapperView::start().after(ReplyView::Home(Some(home))).after(
            ReplyView::Exists(Ok(true)),
        ) == BootstrapperView::Finished(Err(Failure::Conflict { path: TARGET_CONFIG_PATH@ })),
{
    lemma_target(home);
}

/// Where no file stands at the target, the bootstrapper asks in turn for
/// the target's directory with all above it, for the target file, and for
/// the default configuration, whole and unchanged, as the file's contents;
/// then it ends with the path as it is shown.
pub proof fn lemma_fresh_file_holds_default(home: Seq<char>)
    ensures
        ({
            let target = tilde_expanded(TARGET_CONFIG_PATH@, home);
            let directory = tilde_expanded(TARGET_CONFIG_DIRECTORY@, home);
            let shown = TARGET_CONFIG_PATH@;
            let probing = BootstrapperView::start().after(ReplyView::Home(Some(home)));
            let directories = probing.after(ReplyView::Exists(Ok(false)));
            let file = directories.after(ReplyView::Done(Ok(())));
            let write = file.after(ReplyView::Done(Ok(())));
            let finished = write.after(ReplyView::Done(Ok(())));
            &&& target == directory + "/config.toml"@
            &&& probing == (BootstrapperView::NeedsProbe { target, directory, shown })
            &&& directories == (BootstrapperView::NeedsDirectories { target, directory, shown })
            &&& file == (BootstrapperView::NeedsFile { target, shown })
            &&& write == (BootstrapperView::NeedsWrite { contents: DEFAULT_CONFIG@, shown })
            &&& finished == BootstrapperView::Finished(Ok(shown))
        }),
{
    lemma_target(home);
}

/// A finished bootstrapper stays as it is, so nothing is asked for after a
/// failure.
pub proof fn lemma_finished_stays(outcome: Result<Seq<char>, Failure>, reply: ReplyView)
    ensures
        BootstrapperView::Finished(outcome).after(reply) == BootstrapperView::Finished(outcome),
        !BootstrapperView::Finished(outcome).changes_files(),
{
}

} // verus!
