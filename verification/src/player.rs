//! The snake: where it is, where it heads, and how it moves.

use crate::coordinate::{Cell, Coordinate};
use vstd::prelude::*;

verus! {

/// A displacement of `dx` columns and `dy` rows.
pub struct Step {
    pub dx: int,
    pub dy: int,
}

impl Step {
    /// One cell up, down, left or right. Rows count downwards, so up is
    /// `dy == -1`.
    pub open spec fn is_unit(self) -> bool {
        ||| self == Step { dx: 0, dy: -1 }
        ||| self == Step { dx: 0, dy: 1 }
        ||| self == Step { dx: -1, dy: 0 }
        ||| self == Step { dx: 1, dy: 0 }
    }

    /// The step that undoes this one.
    pub open spec fn reverse(self) -> Step {
        Step { dx: -self.dx, dy: -self.dy }
    }

    /// Whether the two steps are at a right angle.
    pub open spec fn perpendicular(self, other: Step) -> bool {
        self.dx * other.dx + self.dy * other.dy == 0
    }
}

/// Where one axis of a position ends up on a ring of `bound` cells: a value
/// at or past the bound comes back to 0, a value below 0 goes to the last
/// cell.
pub open spec fn wrap_axis(v: int, bound: int) -> int {
    if v >= bound {
        0
    } else if v < 0 {
        bound - 1
    } else {
        v
    }
}

impl Cell {
    /// The cell that one step leads to on a grid whose edges are joined.
    pub open spec fn step(self, by: Step, width: int, height: int) -> Cell {
        Cell { x: wrap_axis(self.x + by.dx, width), y: wrap_axis(self.y + by.dy, height) }
    }

    /// Whether both of the cell's numbers can be held in an `i32`.
    pub open spec fn fits_i32(self) -> bool {
        i32::MIN <= self.x <= i32::MAX && i32::MIN <= self.y <= i32::MAX
    }
}

/// The direction that a key asks for: `w`, `a`, `s`, `d` for up, left, down,
/// right, in either case. Other keys ask for nothing.
pub open spec fn key_step(key: char) -> Option<Step> {
    if key == 'w' || key == 'W' {
        Some(Step { dx: 0, dy: -1 })
    } else if key == 'a' || key == 'A' {
        Some(Step { dx: -1, dy: 0 })
    } else if key == 's' || key == 'S' {
        Some(Step { dx: 0, dy: 1 })
    } else if key == 'd' || key == 'D' {
        Some(Step { dx: 1, dy: 0 })
    } else {
        None
    }
}

/// The mathematical value of a [`Player`].
pub struct PlayerView {
    /// The leading cell.
    pub head: Cell,
    /// The cells behind the head, the one nearest to the head first.
    pub body: Seq<Cell>,
    /// The step that the next move takes.
    pub direction: Step,
    /// Whether the next move lengthens the body.
    pub growing: bool,
}

impl PlayerView {
    /// The player after a key press. A key that asks for a direction sets it,
    /// unless the snake has a body and the key asks for the reverse of the
    /// current direction: the head would run into the body at once.
    pub open spec fn steer(self, key: char) -> PlayerView {
        match key_step(key) {
            Some(wanted) => if self.body.len() > 0 && wanted == self.direction.reverse() {
                self
            } else {
                PlayerView { direction: wanted, ..self }
            },
            None => self,
        }
    }

    /// The player after all of `keys`, pressed in this order.
    pub open spec fn steer_all(self, keys: Seq<char>) -> PlayerView
        decreases keys.len(),
    {
        if keys.len() == 0 {
            self
        } else {
            self.steer_all(keys.drop_last()).steer(keys.last())
        }
    }

    /// The player with growth scheduled for the next move.
    pub open spec fn grow(self) -> PlayerView {
        PlayerView { growing: true, ..self }
    }

    /// The body after a move. With growth scheduled the old head joins the
    /// front and nothing leaves. Otherwise a snake with a body gets the old
    /// head at the front and loses its last cell, and a bare head leaves no
    /// body behind.
    pub open spec fn trail(self) -> Seq<Cell> {
        if self.growing {
            seq![self.head] + self.body
        } else if self.body.len() > 0 {
            seq![self.head] + self.body.drop_last()
        } else {
            self.body
        }
    }

    /// The player after one move on a grid of the given size.
    pub open spec fn advance(self, width: int, height: int) -> PlayerView {
        PlayerView {
            head: self.head.step(self.direction, width, height),
            body: self.trail(),
            direction: self.direction,
            growing: false,
        }
    }

    /// Whether the head sits on a cell of the body.
    pub open spec fn bites_itself(self) -> bool {
        self.body.contains(self.head)
    }
}

/// The snake. `body` holds the cells behind the head, nearest first;
/// `direction` is the step of the next move as `[dx, dy]`; `extend` says
/// that the next move lengthens the body.
#[derive(Debug)]
pub struct Player {
    pub coordinate: Coordinate,
    pub body: Vec<Coordinate>,
    pub direction: [i8; 2],
    pub extend: bool,
}

impl View for Player {
    type V = PlayerView;

    open spec fn view(&self) -> PlayerView {
        PlayerView {
            head: self.coordinate@,
            body: self.body@.map_values(|c: Coordinate| c@),
            direction: Step { dx: self.direction@[0] as int, dy: self.direction@[1] as int },
            growing: self.extend,
        }
    }
}

impl Clone for Player {
    /// A copy with the same head, body, direction and scheduled growth.
    fn clone(&self) -> (copy: Player)
        ensures
            copy@ == self@,
    {
        Player {
            coordinate: self.coordinate,
            body: self.body.clone(),
            direction: self.direction,
            extend: self.extend,
        }
    }
}

/// One axis of a move, computed without overflow.
fn wrapped(at: i32, by: i8, bound: i32) -> (to: i32)
    requires
        i32::MIN <= wrap_axis(at + by, bound as int),
    ensures
        to == wrap_axis(at + by, bound as int),
{
    let v: i64 = at as i64 + by as i64;
    if v >= bound as i64 {
        0
    } else if v < 0 {
        bound - 1
    } else {
        v as i32
    }
}

impl Player {
    /// The direction is one cell up, down, left or right.
    pub open spec fn wf(&self) -> bool {
        self@.direction.is_unit()
    }

    /// A bare head at column `x` and row `y` that heads right.
    pub fn new(x: i32, y: i32) -> (player: Player)
        ensures
            player.wf(),
            player@ == (PlayerView {
                head: Cell { x: x as int, y: y as int },
                body: Seq::<Cell>::empty(),
                direction: Step { dx: 1, dy: 0 },
                growing: false,
            }),
    {
        let player = Player {
            coordinate: Coordinate::new(x, y),
            body: Vec::new(),
            direction: [1, 0],
            extend: false,
        };
        assert(player@.body =~= Seq::<Cell>::empty());
        player
    }

    /// Moves the snake by one step on a grid of `width` columns and `height`
    /// rows whose edges are joined.
    ///
    /// The cell that the head arrives at must fit in `i32`. It always does on
    /// a grid with at least one column and one row.
    pub fn do_move(&mut self, width: i32, height: i32)
        requires
            old(self)@.advance(width as int, height as int).head.fits_i32(),
        ensures
            final(self).wf() == old(self).wf(),
            final(self)@ == old(self)@.advance(width as int, height as int),
            // Past the right edge of a row lies its first cell,
            old(self)@.head.x == width - 1 && 0 <= old(self)@.head.y < height
                && old(self)@.direction == (Step { dx: 1, dy: 0 })
                ==> final(self)@.head == (Cell { x: 0, y: old(self)@.head.y }),
            // and past the left edge its last.
            old(self)@.head.x == 0 && 0 < width && 0 <= old(self)@.head.y < height
                && old(self)@.direction == (Step { dx: -1, dy: 0 })
                ==> final(self)@.head == (Cell { x: width - 1, y: old(self)@.head.y }),
    {
        if !self.body.is_empty() || self.extend {
            if !self.extend {
                self.body.pop();
            } else {
                self.extend = false;
            }
            self.body.insert(0, self.coordinate);
        }
        self.coordinate.x = wrapped(self.coordinate.x, self.direction[0], width);
        self.coordinate.y = wrapped(self.coordinate.y, self.direction[1], height);
        assert(self@.body =~= old(self)@.trail());
    }

    /// Takes a key press: see [`PlayerView::steer`].
    pub fn handle_keypress(&mut self, key: char)
        requires
            old(self).wf(),
        ensures
            final(self).wf(),
            final(self)@ == old(self)@.steer(key),
            // With a body the snake does not reverse,
            old(self)@.body.len() > 0 && key_step(key) == Some(old(self)@.direction.reverse())
                ==> final(self)@.direction == old(self)@.direction,
            // but it keeps its direction or turns at a right angle as asked.
            forall|wanted: Step|
                key_step(key) == Some(wanted) && (wanted == old(self)@.direction || wanted.perpendicular(
                    old(self)@.direction,
                )) ==> final(self)@.direction == wanted,
    {
        let before = self.direction;
        match key {
            'w' | 'W' => self.direction = [0, -1],
            'a' | 'A' => self.direction = [-1, 0],
            's' | 'S' => self.direction = [0, 1],
            'd' | 'D' => self.direction = [1, 0],
            _ => {},
        }
        if !self.body.is_empty() && ((before[0] != 0 && -before[0] == self.direction[0]) || (before[1]
            != 0 && -before[1] == self.direction[1])) {
            self.direction = before;
        }
        proof {
            assert forall|wanted: Step|
                key_step(key) == Some(wanted) && (wanted == old(self)@.direction || wanted.perpendicular(
                    old(self)@.direction,
                )) implies self@.direction == wanted by {
                lemma_turn_is_no_reversal(wanted, old(self)@.direction);
            }
        }
    }

    /// Whether the head sits on a cell of the body.
    pub fn bites_itself(&self) -> (bitten: bool)
        ensures
            bitten == self@.bites_itself(),
    {
        let mut n: usize = 0;
        while n < self.body.len()
            invariant
                n <= self.body@.len(),
                forall|k: int| 0 <= k < n ==> self@.body[k] != self@.head,
            decreases self.body@.len() - n,
        {
            if self.body[n] == self.coordinate {
                assert(self@.body[n as int] == self@.head);
                return true;
            }
            n += 1;
        }
        false
    }

    /// Schedules growth: the next move lengthens the body by one cell.
    pub fn extend(&mut self)
        ensures
            final(self).wf() == old(self).wf(),
            final(self)@ == old(self)@.grow(),
    {
        self.extend = true;
    }
}

/// The reverse of a step of one cell is neither that step nor at a right
/// angle to it.
proof fn lemma_turn_is_no_reversal(wanted: Step, current: Step)
    requires
        current.is_unit(),
        wanted == current || wanted.perpendicular(current),
    ensures
        wanted != current.reverse(),
{
    if wanted == current.reverse() {
        assert(wanted.dx * current.dx + wanted.dy * current.dy == -1) by (nonlinear_arith)
            requires
                wanted.dx == -current.dx,
                wanted.dy == -current.dy,
                current.dx * current.dx + current.dy * current.dy == 1,
        ;
    }
}

/// While the snake has a body, a key that asks for the reverse of the current
/// direction changes nothing, and a key that asks for the current direction
/// or for one at a right angle to it sets the direction.
pub proof fn lemma_only_reversal_is_refused(player: PlayerView, key: char, wanted: Step)
    requires
        player.direction.is_unit(),
        player.body.len() > 0,
        key_step(key) == Some(wanted),
    ensures
        wanted == player.direction.reverse() ==> player.steer(key) == player,
        wanted == player.direction || wanted.perpendicular(player.direction) ==> player.steer(
            key,
        ).direction == wanted,
        player.steer(key).direction.is_unit(),
{
    if wanted == player.direction || wanted.perpendicular(player.direction) {
        lemma_turn_is_no_reversal(wanted, player.direction);
    }
}

/// Key presses change the direction and nothing else, and a direction of one
/// cell stays one.
pub proof fn lemma_steering_turns_only(player: PlayerView, keys: Seq<char>)
    ensures
        player.steer_all(keys).head == player.head,
        player.steer_all(keys).body == player.body,
        player.steer_all(keys).growing == player.growing,
        player.direction.is_unit() ==> player.steer_all(keys).direction.is_unit(),
    decreases keys.len(),
{
    if keys.len() > 0 {
        lemma_steering_turns_only(player, keys.drop_last());
    }
}

/// A bare head may turn any way, its reverse too.
pub proof fn lemma_bare_head_turns_freely(player: PlayerView, key: char, wanted: Step)
    requires
        player.body.len() == 0,
        key_step(key) == Some(wanted),
    ensures
        player.steer(key) == (PlayerView { direction: wanted, ..player }),
{
}

/// A step to the right from the last column of a row leads to the first
/// column of that row.
pub proof fn lemma_wraps_past_right_edge(width: int, height: int, y: int)
    requires
        (Cell { x: width - 1, y }).within(width, height),
    ensures
        (Cell { x: width - 1, y }).step(Step { dx: 1, dy: 0 }, width, height) == (Cell { x: 0, y }),
{
}

/// A step to the left from the first column of a row leads to the last
/// column of that row.
pub proof fn lemma_wraps_past_left_edge(width: int, height: int, y: int)
    requires
        (Cell { x: 0, y }).within(width, height),
    ensures
        (Cell { x: 0, y }).step(Step { dx: -1, dy: 0 }, width, height) == (Cell { x: width - 1, y }),
{
}

/// On a grid with at least one column and one row a step from anywhere, by
/// any amount, ends on the grid.
pub proof fn lemma_step_lands_on_grid(from: Cell, by: Step, width: int, height: int)
    requires
        0 < width,
        0 < height,
    ensures
        from.step(by, width, height).within(width, height),
{
}

/// A move after growth was scheduled leaves the body one cell longer than the
/// same move without it, which keeps the body's length.
pub proof fn lemma_growth_adds_one_cell(player: PlayerView, width: int, height: int)
    requires
        !player.growing,
    ensures
        player.grow().advance(width, height).body.len() == player.advance(width, height).body.len() + 1,
        player.advance(width, height).body.len() == player.body.len(),
        player.grow().advance(width, height).head == player.advance(width, height).head,
{
}

} // verus!
