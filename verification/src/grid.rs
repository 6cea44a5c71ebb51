//! What the shell knows of the grid of cells.
use vstd::prelude::*;

verus! {

/// The size of the grid, in cells.
#[derive(Clone, Copy, Debug, PartialEq, Eq, Structural)]
pub struct UiModel {
    pub rows: usize,
    pub columns: usize,
}

impl UiModel {
    /// The grid before neovim has started.
    pub fn empty() -> (model: Self)
        ensures
            model == (UiModel { rows: 0, columns: 0 }),
    {
        UiModel { rows: 0, columns: 0 }
    }

    pub fn new(rows: u64, columns: u64) -> (model: Self)
        ensures
            model == (UiModel { rows: rows as usize, columns: columns as usize }),
    {
        UiModel { rows: rows as usize, columns: columns as usize }
    }
}

/// A rectangle of cells; all four bounds belong to it.
#[derive(Clone, Copy, Debug, PartialEq, Eq, Structural)]
pub struct ModelRect {
    pub top: usize,
    pub bot: usize,
    pub left: usize,
    pub right: usize,
}

impl ModelRect {
    /// The rectangle that holds the one cell in column `x` of row `y`.
    pub fn point(x: usize, y: usize) -> (rect: ModelRect)
        ensures
            rect == (ModelRect { top: y, bot: y, left: x, right: x }),
    {
        ModelRect { top: y, bot: y, left: x, right: x }
    }
}

} // verus!
