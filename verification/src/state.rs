//! What a renderer is shown of a game.

use crate::coordinate::Cell;
use crate::grid::{GameGrid, GridView};
use vstd::prelude::*;

verus! {

/// The mathematical value of a [`GameState`].
pub struct StateView {
    pub grid: GridView,
    pub score: int,
    pub dead: bool,
}

/// A snapshot of a game: the grid as drawn last, the points collected so
/// far, and whether the snake has died.
#[derive(Debug)]
pub struct GameState {
    pub grid: GameGrid,
    pub score: i32,
    pub dead: bool,
}

impl View for GameState {
    type V = StateView;

    open spec fn view(&self) -> StateView {
        StateView { grid: self.grid@, score: self.score as int, dead: self.dead }
    }
}

impl Clone for GameState {
    /// A snapshot: a copy with the same grid, score and death flag.
    fn clone(&self) -> (copy: GameState)
        ensures
            copy.grid.wf() == self.grid.wf(),
            copy.score == self.score,
            copy.dead == self.dead,
            self.grid.wf() ==> copy@ == self@,
    {
        GameState { grid: self.grid.clone(), score: self.score, dead: self.dead }
    }
}

impl GameState {
    /// The state at the start of a game on a grid of the given size: nothing
    /// drawn, no points, alive.
    pub fn new(width: usize, height: usize) -> (state: GameState)
        ensures
            state.grid.wf(),
            state@ == (StateView {
                grid: GridView { width: width as nat, height: height as nat, lit: Set::<Cell>::empty() },
                score: 0,
                dead: false,
            }),
    {
        GameState { grid: GameGrid::new(width, height), score: 0, dead: false }
    }
}

} // verus!
