//! Where the configuration file stands, and how its path is shown.

use vstd::prelude::*;
use vstd::string::{StrSliceExecFns, StringExecFns};

verus! {

/// The configuration file, relative to the home directory.
pub const CONFIG_SUFFIX: &'static str = ".config/tailspin/config.toml";

/// The configuration file, the home directory written as a tilde.
pub const TARGET_CONFIG_PATH: &'static str = "~/.config/tailspin/config.toml";

/// The directory of the configuration file, the home directory written as
/// a tilde.
pub const TARGET_CONFIG_DIRECTORY: &'static str = "~/.config/tailspin";

/// A relative path joined to a base: a slash stands between the two unless
/// the base is empty or ends in one.
pub open spec fn joined(base: Seq<char>, relative: Seq<char>) -> Seq<char> {
    if base.len() == 0 || base.last() == '/' {
        base + relative
    } else {
        base + seq!['/'] + relative
    }
}

/// The path with a leading tilde replaced by the home directory. The tilde
/// is replaced only where it is the whole path or a slash follows it.
pub open spec fn tilde_expanded(path: Seq<char>, home: Seq<char>) -> Seq<char> {
    if path.len() > 0 && path[0] == '~' && (path.len() == 1 || path[1] == '/') {
        home + path.skip(1)
    } else {
        path
    }
}

/// The path as it is shown to the user: where it begins with the home
/// directory, a tilde stands in place of that prefix.
pub open spec fn abbreviated(path: Seq<char>, home: Seq<char>) -> Seq<char> {
    if home.is_prefix_of(path) {
        seq!['~'] + path.skip(home.len() as int)
    } else {
        path
    }
}

/// The conventional place of the configuration file under a home
/// directory.
pub open spec fn conventional_path_of(home: Seq<char>) -> Seq<char> {
    joined(home, CONFIG_SUFFIX@)
}

/// Calls `shellexpand::tilde_with_context` with a home directory that is
/// known. Trusted: a leading tilde that is the whole input or is followed
/// by a slash is replaced by `home`, and every other input comes back as it
/// is. Inputs with a backslash behind the tilde are left out, as the crate
/// treats them differently from one platform to another.
#[verifier::external_body]
fn expand_tilde(path: &str, home: &str) -> (expanded: String)
    requires
        path@.len() < 2 || path@[1] != '\\',
    ensures
        expanded@ == tilde_expanded(path@, home@),
{
    shellexpand::tilde_with_context(path, || Some(home)).into_owned()
}

/// Whether `text` begins with `prefix`.
pub fn begins_with(text: &str, prefix: &str) -> (begins: bool)
    ensures
        begins == prefix@.is_prefix_of(text@),
{
    let length = prefix.unicode_len();
    if length > text.unicode_len() {
        return false;
    }
    let mut i: usize = 0;
    while i < length
        invariant
            i <= length,
            length == prefix@.len(),
            length <= text@.len(),
            forall|j: int| 0 <= j < i ==> text@[j] == prefix@[j],
        decreases length - i,
    {
        if text.get_char(i) != prefix.get_char(i) {
            assert(text@.subrange(0, prefix@.len() as int)[i as int] != prefix@[i as int]);
            return false;
        }
        i += 1;
    }
    assert(text@.subrange(0, prefix@.len() as int) =~= prefix@);
    true
}

/// The path as it is shown to the user.
pub fn display_path(path: &str, home: &str) -> (shown: String)
    ensures
        shown@ == abbreviated(path@, home@),
{
    if begins_with(path, home) {
        let rest = path.substring_char(home.unicode_len(), path.unicode_len());
        let shown = "~".to_owned().concat(rest);
        proof {
            reveal_strlit("~");
            assert("~"@ =~= seq!['~']);
            assert(path@.subrange(home@.len() as int, path@.len() as int) =~= path@.skip(
                home@.len() as int,
            ));
        }
        shown
    } else {
        path.to_owned()
    }
}

/// The conventional place of the configuration file under a home
/// directory.
pub fn conventional_path(home: &str) -> (path: String)
    ensures
        path@ == conventional_path_of(home@),
{
    let length = home.unicode_len();
    if length == 0 || home.get_char(length - 1) == '/' {
        home.to_owned().concat(CONFIG_SUFFIX)
    } else {
        let path = home.to_owned().concat("/").concat(CONFIG_SUFFIX);
        proof {
            reveal_strlit("/");
            assert("/"@ =~= seq!['/']);
        }
        path
    }
}

/// The place where a generated configuration file is written.
pub fn target_path(home: &str) -> (path: String)
    ensures
        path@ == tilde_expanded(TARGET_CONFIG_PATH@, home@),
{
    proof {
        reveal_strlit("~/.config/tailspin/config.toml");
    }
    expand_tilde(TARGET_CONFIG_PATH, home)
}

/// The directory that holds a generated configuration file.
pub fn target_directory(home: &str) -> (path: String)
    ensures
        path@ == tilde_expanded(TARGET_CONFIG_DIRECTORY@, home@),
{
    proof {
        reveal_strlit("~/.config/tailspin");
    }
    expand_tilde(TARGET_CONFIG_DIRECTORY, home)
}

} // verus!
