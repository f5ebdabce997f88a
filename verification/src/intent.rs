//! The single action that one tick of input amounts to.

use vstd::prelude::*;

verus! {

/// What the user asked for in one tick, after all input sources were merged.
#[derive(Clone, Copy, Debug, PartialEq, Eq, Structural)]
pub enum Intent {
    /// No effective input in this tick.
    Nothing,
    MoveLeft,
    MoveRight,
    MoveUp,
    MoveDown,
    /// Launch the selected application.
    Activate,
}

} // verus!
