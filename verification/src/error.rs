//! Errors of construction.

use vstd::prelude::*;

verus! {

/// Why a grid or a controller could not be built.
#[derive(Clone, Copy, Debug, PartialEq, Eq, Structural)]
pub enum ConstructionError {
    /// There is no application entry to select.
    EmptyEntries,
    /// The grid has no cell: `rows * cols` is zero.
    ZeroAreaGrid,
}

impl ConstructionError {
    /// A short description for diagnostics.
    pub fn message(&self) -> (text: &'static str)
        ensures
            text@ == (match *self {
                ConstructionError::EmptyEntries => "no application entries"@,
                ConstructionError::ZeroAreaGrid => "grid has no cells"@,
            }),
    {
        match self {
            ConstructionError::EmptyEntries => "no application entries",
            ConstructionError::ZeroAreaGrid => "grid has no cells",
        }
    }
}

} // verus!
