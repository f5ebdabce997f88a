//! Paths that start at the user's home directory.
//!
//! Launch commands, icon files and the launcher's own files may be written
//! with a leading `~`. The expansion itself is the work of the `shellexpand`
//! crate, which asks the system for the home directory; this module states
//! what every expansion has in common.

use vstd::prelude::*;

verus! {

/// Where the launcher's configuration is read from.
pub const CONFIG_FILE: &'static str = "~/.config/htpc_app_manager/apps.json";

/// Where the launcher's background image is read from.
pub const BACKGROUND_FILE: &'static str = "~/.config/htpc_app_manager/background.jpg";

/// Whether `path` starts with a `~` that stands for the home directory: one
/// that ends the path or is followed by a path separator.
pub open spec fn names_home(path: Seq<char>) -> bool {
    path.len() >= 1 && path[0] == '~' && (path.len() == 1 || path[1] == '/' || path[1] == '\\')
}

/// Whether `text` ends with `tail`.
pub open spec fn ends_with(text: Seq<char>, tail: Seq<char>) -> bool {
    text.len() >= tail.len() && text.skip(text.len() - tail.len()) == tail
}

/// Whether `expanded` can be the expansion of `path`, whatever the home
/// directory is: either the path itself, or, where the path names the home
/// directory, some text followed by everything after the `~`.
pub open spec fn is_expansion(path: Seq<char>, expanded: Seq<char>) -> bool {
    expanded == path || (names_home(path) && ends_with(expanded, path.skip(1)))
}

/// Calls `shellexpand::tilde`.
///
/// That function replaces a leading `~` by the current user's home directory
/// when the `~` ends the input or is followed by `/` (on Windows also by
/// `\`), and returns the input unchanged in every other case, also when no
/// home directory is known. The home directory comes from the system, so the
/// contract claims only what holds whatever it is: the result is the input,
/// or the input names the home directory and the result ends with what
/// follows the `~`.
#[verifier::external_body]
fn tilde(path: &str) -> (expanded: String)
    ensures
        is_expansion(path@, expanded@),
{
    shellexpand::tilde(path).to_string()
}

/// Expands a leading `~` in `path` to the user's home directory.
///
/// A path that does not name the home directory comes back unchanged.
pub fn expand_home(path: &str) -> (expanded: String)
    ensures
        is_expansion(path@, expanded@),
        !names_home(path@) ==> expanded@ == path@,
{
    tilde(path)
}

/// The configuration file, with the home directory filled in.
pub fn config_file() -> (file: String)
    ensures
        is_expansion(CONFIG_FILE@, file@),
{
    tilde(CONFIG_FILE)
}

/// The background image file, with the home directory filled in.
pub fn background_file() -> (file: String)
    ensures
        is_expansion(BACKGROUND_FILE@, file@),
{
    tilde(BACKGROUND_FILE)
}

} // verus!
