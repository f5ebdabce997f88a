//! The configured applications and the requests to launch them.

use vstd::prelude::*;

verus! {

/// One configured application. The order of the entries is the order of the
/// tiles on the grid.
#[derive(Clone, Debug, PartialEq, Eq)]
pub struct AppEntry {
    pub identifier: String,
    pub launch_command: String,
    pub icon_path: String,
}

/// A request to start an application, detached, through a command shell.
#[derive(Clone, Debug, PartialEq, Eq)]
pub struct LaunchRequest {
    /// The entry that was activated.
    pub index: usize,
    /// Its launch command, with a leading `~` expanded.
    pub command: String,
}

} // verus!
