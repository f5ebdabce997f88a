//! Index arithmetic of the launcher grid.
//!
//! The grid has a fixed shape of `rows` by `cols` cells, filled row by row from
//! an ordered list of `entry_count` entries. Cells past the last entry exist as
//! geometry only: they hold nothing and can never be selected. Moves do not
//! wrap around a row or a column, and they do not clamp to the nearest entry.

use vstd::prelude::*;
use crate::error::ConstructionError;
use crate::intent::Intent;

verus! {

/// The mathematical shape of a grid: what a [`GridModel`] stands for.
pub struct GridShape {
    pub rows: nat,
    pub cols: nat,
    pub entry_count: nat,
}

impl GridShape {
    /// A usable grid has at least one cell and at least one entry.
    pub open spec fn valid(self) -> bool {
        self.rows * self.cols != 0 && self.entry_count > 0
    }

    /// Whether `index` names an entry.
    pub open spec fn occupied(self, index: int) -> bool {
        0 <= index < self.entry_count
    }

    /// The cell to the right holds an entry and lies in the same row.
    pub open spec fn can_move_right(self, selected: int) -> bool {
        selected + 1 < self.entry_count && (selected + 1) % (self.cols as int) != 0
    }

    /// The selection is not in the leftmost column.
    pub open spec fn can_move_left(self, selected: int) -> bool {
        selected % (self.cols as int) != 0
    }

    /// The cell below holds an entry.
    pub open spec fn can_move_down(self, selected: int) -> bool {
        selected + self.cols < self.entry_count
    }

    /// The selection is not in the top row.
    pub open spec fn can_move_up(self, selected: int) -> bool {
        selected >= self.cols
    }

    /// Where `intent` takes the selection, or `None` where it is a no-op.
    pub open spec fn target(self, selected: int, intent: Intent) -> Option<int> {
        match intent {
            Intent::MoveRight => if self.can_move_right(selected) {
                Some(selected + 1)
            } else {
                None
            },
            Intent::MoveLeft => if self.can_move_left(selected) {
                Some(selected - 1)
            } else {
                None
            },
            Intent::MoveDown => if self.can_move_down(selected) {
                Some(selected + self.cols)
            } else {
                None
            },
            Intent::MoveUp => if self.can_move_up(selected) {
                Some(selected - self.cols)
            } else {
                None
            },
            Intent::Nothing | Intent::Activate => None,
        }
    }

    /// The selection after one intent.
    pub open spec fn after(self, selected: int, intent: Intent) -> int {
        match self.target(selected, intent) {
            Some(next) => next,
            None => selected,
        }
    }

    /// The selection after a sequence of intents, applied first to last.
    pub open spec fn after_all(self, selected: int, intents: Seq<Intent>) -> int
        decreases intents.len(),
    {
        if intents.len() == 0 {
            selected
        } else {
            self.after(self.after_all(selected, intents.drop_last()), intents.last())
        }
    }

    /// The entry shown in the cell at `row` and `col`, if the cell holds one.
    pub open spec fn cell(self, row: int, col: int) -> Option<int> {
        if 0 <= row < self.rows && 0 <= col < self.cols && row * self.cols + col
            < self.entry_count {
            Some(row * self.cols + col)
        } else {
            None
        }
    }
}

/// An optional machine index as an optional mathematical one.
pub open spec fn as_index(index: Option<usize>) -> Option<int> {
    match index {
        Some(i) => Some(i as int),
        None => None,
    }
}

/// A grid of fixed shape over a fixed number of entries.
#[derive(Clone, Copy, Debug)]
pub struct GridModel {
    rows: usize,
    cols: usize,
    entry_count: usize,
}

impl View for GridModel {
    type V = GridShape;

    closed spec fn view(&self) -> GridShape {
        GridShape {
            rows: self.rows as nat,
            cols: self.cols as nat,
            entry_count: self.entry_count as nat,
        }
    }
}

impl GridModel {
    /// Every grid that exists is valid.
    #[verifier::type_invariant]
    pub open spec fn wf(self) -> bool {
        self@.valid()
    }

    /// Builds a grid of `rows` by `cols` cells over `entry_count` entries.
    ///
    /// Fails with `EmptyEntries` when there is no entry, and otherwise with
    /// `ZeroAreaGrid` when the grid has no cell.
    pub fn new(rows: usize, cols: usize, entry_count: usize) -> (made: Result<
        GridModel,
        ConstructionError,
    >)
        ensures
            match made {
                Ok(grid) => grid@ == (GridShape {
                    rows: rows as nat,
                    cols: cols as nat,
                    entry_count: entry_count as nat,
                }) && grid@.valid(),
                Err(ConstructionError::EmptyEntries) => entry_count == 0,
                Err(ConstructionError::ZeroAreaGrid) => entry_count > 0 && rows * cols == 0,
            },
    {
        if entry_count == 0 {
            return Err(ConstructionError::EmptyEntries);
        }
        if rows == 0 || cols == 0 {
            return Err(ConstructionError::ZeroAreaGrid);
        }
        proof {
            lemma_area_positive(rows as nat, cols as nat);
        }
        Ok(GridModel { rows, cols, entry_count })
    }

    /// The number of rows.
    pub fn rows(&self) -> (rows: usize)
        ensures
            rows == self@.rows,
            rows > 0,
    {
        proof {
            use_type_invariant(self);
            lemma_area_positive(self.rows as nat, self.cols as nat);
        }
        self.rows
    }

    /// The number of columns.
    pub fn cols(&self) -> (cols: usize)
        ensures
            cols == self@.cols,
            cols > 0,
    {
        proof {
            use_type_invariant(self);
            lemma_area_positive(self.rows as nat, self.cols as nat);
        }
        self.cols
    }

    /// The number of entries laid out on the grid.
    pub fn entry_count(&self) -> (count: usize)
        ensures
            count == self@.entry_count,
            count > 0,
    {
        proof {
            use_type_invariant(self);
        }
        self.entry_count
    }

    /// The selection one cell to the right, unless that cell is empty or in
    /// the next row.
    pub fn move_right(&self, selected: usize) -> (moved: Option<usize>)
        ensures
            as_index(moved) == self@.target(selected as int, Intent::MoveRight),
    {
        proof {
            use_type_invariant(self);
            lemma_area_positive(self.rows as nat, self.cols as nat);
        }
        if selected < self.entry_count - 1 && (selected + 1) % self.cols != 0 {
            Some(selected + 1)
        } else {
            None
        }
    }

    /// The selection one cell to the left, unless it is in the leftmost
    /// column.
    pub fn move_left(&self, selected: usize) -> (moved: Option<usize>)
        ensures
            as_index(moved) == self@.target(selected as int, Intent::MoveLeft),
    {
        proof {
            use_type_invariant(self);
            lemma_area_positive(self.rows as nat, self.cols as nat);
            lemma_left_edge_at_zero(self.cols as nat);
        }
        if selected % self.cols != 0 {
            Some(selected - 1)
        } else {
            None
        }
    }

    /// The selection one row down, unless the cell below is empty.
    pub fn move_down(&self, selected: usize) -> (moved: Option<usize>)
        ensures
            as_index(moved) == self@.target(selected as int, Intent::MoveDown),
    {
        if selected < self.entry_count && self.cols < self.entry_count - selected {
            Some(selected + self.cols)
        } else {
            None
        }
    }

    /// The selection one row up, unless it is in the top row.
    pub fn move_up(&self, selected: usize) -> (moved: Option<usize>)
        ensures
            as_index(moved) == self@.target(selected as int, Intent::MoveUp),
    {
        if selected >= self.cols {
            Some(selected - self.cols)
        } else {
            None
        }
    }

    /// Where `intent` takes the selection, or `None` where it does not move
    /// it.
    pub fn target(&self, selected: usize, intent: Intent) -> (moved: Option<usize>)
        ensures
            as_index(moved) == self@.target(selected as int, intent),
    {
        match intent {
            Intent::MoveRight => self.move_right(selected),
            Intent::MoveLeft => self.move_left(selected),
            Intent::MoveDown => self.move_down(selected),
            Intent::MoveUp => self.move_up(selected),
            Intent::Nothing | Intent::Activate => None,
        }
    }

    /// The selection after `intent`: moved where the move is valid, unchanged
    /// otherwise.
    pub fn apply(&self, selected: usize, intent: Intent) -> (next: usize)
        ensures
            next == self@.after(selected as int, intent),
    {
        match self.target(selected, intent) {
            Some(moved) => moved,
            None => selected,
        }
    }

    /// The index of the entry shown at `row` and `col`, or `None` for a cell
    /// that is outside the grid or past the last entry.
    pub fn cell_index(&self, row: usize, col: usize) -> (index: Option<usize>)
        ensures
            as_index(index) == self@.cell(row as int, col as int),
    {
        if row >= self.rows || col >= self.cols {
            return None;
        }
        match row.checked_mul(self.cols) {
            Some(base) => match base.checked_add(col) {
                Some(index) => if index < self.entry_count {
                    Some(index)
                } else {
                    None
                },
                None => None,
            },
            None => None,
        }
    }
}

/// A product of naturals is zero exactly when one factor is.
proof fn lemma_area_positive(rows: nat, cols: nat)
    ensures
        rows * cols != 0 <==> rows > 0 && cols > 0,
{
    assert(rows * cols != 0 <==> rows > 0 && cols > 0) by (nonlinear_arith);
}

/// Index zero lies in the leftmost column.
proof fn lemma_left_edge_at_zero(cols: nat)
    requires
        cols > 0,
    ensures
        0int % (cols as int) == 0,
{
    vstd::arithmetic::div_mod::lemma_small_mod(0, cols);
}

/// One valid step keeps the selection on an entry.
pub proof fn step_stays_occupied(grid: GridShape, selected: int, intent: Intent)
    requires
        grid.valid(),
        grid.occupied(selected),
    ensures
        grid.occupied(grid.after(selected, intent)),
{
    lemma_area_positive(grid.rows, grid.cols);
    lemma_left_edge_at_zero(grid.cols);
}

/// From any entry, any sequence of intents leaves the selection on an entry:
/// never out of bounds, never on an empty trailing cell.
pub proof fn selection_stays_occupied(grid: GridShape, selected: int, intents: Seq<Intent>)
    requires
        grid.valid(),
        grid.occupied(selected),
    ensures
        grid.occupied(grid.after_all(selected, intents)),
    decreases intents.len(),
{
    if intents.len() > 0 {
        selection_stays_occupied(grid, selected, intents.drop_last());
        step_stays_occupied(grid, grid.after_all(selected, intents.drop_last()), intents.last());
    }
}

/// Where a move to the right is valid, a move to the left undoes it.
pub proof fn right_then_left_returns(grid: GridShape, selected: int)
    requires
        grid.can_move_right(selected),
    ensures
        grid.after(selected, Intent::MoveRight) == selected + 1,
        grid.after(selected + 1, Intent::MoveLeft) == selected,
{
}

/// From an entry outside the leftmost column, a move to the left is valid and
/// a move to the right undoes it.
pub proof fn left_then_right_returns(grid: GridShape, selected: int)
    requires
        grid.occupied(selected),
        grid.can_move_left(selected),
    ensures
        grid.after(selected, Intent::MoveLeft) == selected - 1,
        grid.after(selected - 1, Intent::MoveRight) == selected,
{
}

/// Where a move down is valid, a move up undoes it.
pub proof fn down_then_up_returns(grid: GridShape, selected: int)
    requires
        0 <= selected,
        grid.can_move_down(selected),
    ensures
        grid.after(selected, Intent::MoveDown) == selected + grid.cols,
        grid.after(selected + grid.cols, Intent::MoveUp) == selected,
{
}

/// From an entry below the top row, a move up is valid and a move down undoes
/// it.
pub proof fn up_then_down_returns(grid: GridShape, selected: int)
    requires
        grid.occupied(selected),
        grid.can_move_up(selected),
    ensures
        grid.after(selected, Intent::MoveUp) == selected - grid.cols,
        grid.after(selected - grid.cols, Intent::MoveDown) == selected,
{
}

} // verus!
