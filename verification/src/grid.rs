//! The occupancy grid that a renderer draws from.

use crate::coordinate::{Cell, Coordinate};
use vstd::prelude::*;

verus! {

/// The mathematical value of a [`GameGrid`]: its size and the set of cells
/// that are switched on.
pub struct GridView {
    pub width: nat,
    pub height: nat,
    pub lit: Set<Cell>,
}

/// A matrix of switches, stored row by row: `data[y][x]` is the switch of
/// column `x` in row `y`.
#[derive(Debug)]
pub struct GameGrid {
    pub data: Vec<Vec<bool>>,
    pub width: usize,
    pub height: usize,
}

impl GameGrid {
    /// The matrix has `height` rows of `width` switches each.
    pub open spec fn wf(&self) -> bool {
        &&& self.data@.len() == self.height
        &&& forall|y: int| 0 <= y < self.height ==> (#[trigger] self.data@[y])@.len() == self.width
    }

    /// Whether `cell` lies on the grid and its switch is on.
    pub open spec fn is_lit(&self, cell: Cell) -> bool {
        &&& cell.within(self.width as int, self.height as int)
        &&& self.data@[cell.y]@[cell.x]
    }
}

/// The cells that `coordinates` names.
pub open spec fn cells_of(coordinates: Seq<Coordinate>) -> Set<Cell> {
    Set::new(|cell: Cell| exists|k: int| 0 <= k < coordinates.len() && (#[trigger] coordinates[k])@ == cell)
}

impl View for GameGrid {
    type V = GridView;

    open spec fn view(&self) -> GridView {
        GridView {
            width: self.width as nat,
            height: self.height as nat,
            lit: Set::new(|cell: Cell| self.is_lit(cell)),
        }
    }
}

impl Clone for GameGrid {
    /// A copy with the same size and the same switches.
    fn clone(&self) -> (copy: GameGrid)
        ensures
            copy.width == self.width,
            copy.height == self.height,
            copy.data.deep_view() == self.data.deep_view(),
            copy.wf() == self.wf(),
            self.wf() ==> copy@ == self@,
    {
        let copy = GameGrid { data: self.data.clone(), width: self.width, height: self.height };
        proof {
            assert forall|y: int| 0 <= y < self.data@.len() implies (#[trigger] copy.data@[y])@
                == self.data@[y]@ by {
                assert(cloned::<Vec<bool>>(self.data@[y], copy.data@[y]));
            }
            assert(copy.data.deep_view() =~~= self.data.deep_view());
            if self.wf() {
                assert(copy@.lit =~= self@.lit);
            }
        }
        copy
    }
}

impl GameGrid {
    /// A grid of the given size with every switch off.
    pub fn new(width: usize, height: usize) -> (grid: GameGrid)
        ensures
            grid.wf(),
            grid@.width == width,
            grid@.height == height,
            grid@.lit == Set::<Cell>::empty(),
    {
        let mut data: Vec<Vec<bool>> = Vec::new();
        let mut y: usize = 0;
        while y < height
            invariant
                y <= height,
                data@.len() == y,
                forall|j: int| 0 <= j < y ==> (#[trigger] data@[j])@ == Seq::new(width as nat, |i: int| false),
            decreases height - y,
        {
            let mut row: Vec<bool> = Vec::new();
            let mut x: usize = 0;
            while x < width
                invariant
                    x <= width,
                    row@ == Seq::new(x as nat, |i: int| false),
                decreases width - x,
            {
                row.push(false);
                x += 1;
            }
            data.push(row);
            y += 1;
        }
        GameGrid { data, width, height }
    }

    /// Switches every cell off.
    pub fn clear(&mut self)
        requires
            old(self).wf(),
        ensures
            final(self).wf(),
            final(self)@.width == old(self)@.width,
            final(self)@.height == old(self)@.height,
            final(self)@.lit == Set::<Cell>::empty(),
    {
        let mut y: usize = 0;
        while y < self.height
            invariant
                self.wf(),
                self.width == old(self).width,
                self.height == old(self).height,
                y <= self.height,
                forall|j: int, i: int| 0 <= j < y && 0 <= i < self.width ==> !(#[trigger] self.data@[j]@[i]),
            decreases self.height - y,
        {
            let mut x: usize = 0;
            while x < self.width
                invariant
                    self.wf(),
                    self.width == old(self).width,
                    self.height == old(self).height,
                    y < self.height,
                    x <= self.width,
                    forall|j: int, i: int| 0 <= j < y && 0 <= i < self.width ==> !(#[trigger] self.data@[j]@[i]),
                    forall|i: int| 0 <= i < x ==> !(#[trigger] self.data@[y as int]@[i]),
                decreases self.width - x,
            {
                self.data[y][x] = false;
                x += 1;
            }
            y += 1;
        }
    }

    /// Puts the switch of every listed coordinate into `state` and leaves the
    /// other switches as they are. Every listed coordinate must lie on the
    /// grid.
    pub fn set(&mut self, coordinates: &Vec<Coordinate>, state: bool)
        requires
            old(self).wf(),
            forall|k: int| 0 <= k < coordinates@.len() ==> (#[trigger] coordinates@[k])@.within(
                old(self).width as int,
                old(self).height as int,
            ),
        ensures
            final(self).wf(),
            final(self)@.width == old(self)@.width,
            final(self)@.height == old(self)@.height,
            state ==> final(self)@.lit == old(self)@.lit.union(cells_of(coordinates@)),
            !state ==> final(self)@.lit == old(self)@.lit.difference(cells_of(coordinates@)),
    {
        let mut n: usize = 0;
        while n < coordinates.len()
            invariant
                self.wf(),
                self.width == old(self).width,
                self.height == old(self).height,
                n <= coordinates@.len(),
                forall|k: int| 0 <= k < coordinates@.len() ==> (#[trigger] coordinates@[k])@.within(
                    self.width as int,
                    self.height as int,
                ),
                forall|cell: Cell| cell.within(self.width as int, self.height as int) ==> (
                #[trigger] self.data@[cell.y]@[cell.x]) == (if cells_of(coordinates@.take(n as int)).contains(cell) {
                    state
                } else {
                    old(self).data@[cell.y]@[cell.x]
                }),
            decreases coordinates@.len() - n,
        {
            let c = coordinates[n];
            self.data[c.y as usize][c.x as usize] = state;
            proof {
                let done = coordinates@.take(n as int);
                let next = coordinates@.take(n as int + 1);
                assert forall|cell: Cell| cells_of(next).contains(cell) <==> cells_of(done).contains(cell)
                    || cell == c@ by {
                    if cells_of(next).contains(cell) {
                        let k = choose|k: int| 0 <= k < next.len() && (#[trigger] next[k])@ == cell;
                        if k < n {
                            assert(done[k]@ == cell);
                        }
                    }
                    if cells_of(done).contains(cell) {
                        let k = choose|k: int| 0 <= k < done.len() && (#[trigger] done[k])@ == cell;
                        assert(next[k]@ == cell);
                    }
                    if cell == c@ {
                        assert(next[n as int]@ == cell);
                    }
                }
            }
            n += 1;
        }
        proof {
            assert(coordinates@.take(n as int) =~= coordinates@);
            let marked = cells_of(coordinates@);
            if state {
                assert(self@.lit =~= old(self)@.lit.union(marked)) by {
                    assert forall|cell: Cell| marked.contains(cell) implies cell.within(
                        self.width as int,
                        self.height as int,
                    ) by {
                        let k = choose|k: int| 0 <= k < coordinates@.len() && (#[trigger] coordinates@[k])@ == cell;
                    }
                }
            } else {
                assert(self@.lit =~= old(self)@.lit.difference(marked));
            }
        }
    }
}

} // verus!
