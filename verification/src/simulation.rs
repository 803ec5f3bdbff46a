//! The game itself: one tick after another until the snake bites itself.

use crate::coordinate::{Cell, Coordinate};
use crate::grid::{cells_of, GridView};
use crate::player::{lemma_steering_turns_only, lemma_step_lands_on_grid, Player, PlayerView, Step};
use crate::state::{GameState, StateView};
use vstd::prelude::*;

verus! {

/// What one tick is given: the keys pressed since the tick before, in the
/// order in which they came, and the cell that becomes the point if this
/// tick collects the present one.
pub struct Turn {
    pub keys: Seq<char>,
    pub fresh: Cell,
}

/// The mathematical value of a [`Simulation`].
pub struct SimView {
    pub state: StateView,
    pub player: PlayerView,
    pub point: Cell,
}

/// The cells that a drawing of the game switches on: the head, the point and
/// the body.
pub open spec fn drawn(player: PlayerView, point: Cell) -> Set<Cell> {
    Set::new(|cell: Cell| cell == player.head || cell == point || player.body.contains(cell))
}

impl SimView {
    /// The number of columns of the grid.
    pub open spec fn width(self) -> int {
        self.state.grid.width as int
    }

    /// The number of rows of the grid.
    pub open spec fn height(self) -> int {
        self.state.grid.height as int
    }

    /// A game at its start on a grid of the given size: a bare head at the
    /// middle that heads right, no points, nothing drawn.
    pub open spec fn start(width: int, height: int, point: Cell) -> SimView {
        SimView {
            state: StateView {
                grid: GridView { width: width as nat, height: height as nat, lit: Set::<Cell>::empty() },
                score: 0,
                dead: false,
            },
            player: PlayerView {
                head: Cell { x: width / 2, y: height / 2 },
                body: Seq::<Cell>::empty(),
                direction: Step { dx: 1, dy: 0 },
                growing: false,
            },
            point,
        }
    }

    /// The cell that the head moves to in a tick with these keys.
    pub open spec fn target(self, keys: Seq<char>) -> Cell {
        self.player.head.step(self.player.steer_all(keys).direction, self.width(), self.height())
    }

    /// The player after the keys of a tick and its move.
    pub open spec fn moved(self, keys: Seq<char>) -> PlayerView {
        self.player.steer_all(keys).advance(self.width(), self.height())
    }

    /// Whether a tick with these keys brings the head onto the point.
    pub open spec fn collects(self, keys: Seq<char>) -> bool {
        !self.state.dead && self.moved(keys).head == self.point
    }

    /// Whether a tick with these keys brings the head onto the body.
    pub open spec fn dies(self, keys: Seq<char>) -> bool {
        !self.state.dead && self.moved(keys).bites_itself()
    }

    /// The game after one tick.
    ///
    /// A dead game stays as it is. In a live one the keys are taken in order
    /// and the snake moves. If the head then sits on the point, growth is
    /// scheduled, the score goes up by one and `fresh` becomes the point. If
    /// the head sits on the body the game is dead and the grid keeps the last
    /// drawing; otherwise the grid shows the head, the point and the body.
    pub open spec fn tick(self, keys: Seq<char>, fresh: Cell) -> SimView {
        if self.state.dead {
            self
        } else {
            let moved = self.moved(keys);
            let collected = moved.head == self.point;
            let player = if collected {
                moved.grow()
            } else {
                moved
            };
            let point = if collected {
                fresh
            } else {
                self.point
            };
            let score = if collected {
                self.state.score + 1
            } else {
                self.state.score
            };
            let dead = moved.bites_itself();
            let lit = if dead {
                self.state.grid.lit
            } else {
                drawn(player, point)
            };
            SimView {
                state: StateView { grid: GridView { lit, ..self.state.grid }, score, dead },
                player,
                point,
            }
        }
    }

    /// The game after the given turns, one tick each.
    pub open spec fn run(self, turns: Seq<Turn>) -> SimView
        decreases turns.len(),
    {
        if turns.len() == 0 {
            self
        } else {
            self.run(turns.drop_last()).tick(turns.last().keys, turns.last().fresh)
        }
    }
}

/// A game of snake: the snapshot shown to a renderer, the snake, and the
/// point that it is after.
#[derive(Debug)]
pub struct Simulation {
    pub state: GameState,
    pub player: Player,
    pub point: Coordinate,
}

impl View for Simulation {
    type V = SimView;

    open spec fn view(&self) -> SimView {
        SimView { state: self.state@, player: self.player@, point: self.point@ }
    }
}

impl Clone for Simulation {
    /// A copy of the game as it stands.
    fn clone(&self) -> (copy: Simulation)
        ensures
            copy.wf() == self.wf(),
            self.wf() ==> copy@ == self@,
    {
        Simulation { state: self.state.clone(), player: self.player.clone(), point: self.point }
    }
}

impl Simulation {
    /// The grid is a matrix with at least one cell whose width and height fit
    /// in `i32`, the snake heads one cell up, down, left or right, and the
    /// head, the body and the point lie on the grid.
    pub open spec fn wf(&self) -> bool {
        &&& self.state.grid.wf()
        &&& 0 < self.state.grid.width <= i32::MAX
        &&& 0 < self.state.grid.height <= i32::MAX
        &&& self.player.wf()
        &&& self@.player.head.within(self@.width(), self@.height())
        &&& forall|i: int|
            0 <= i < self@.player.body.len() ==> (#[trigger] self@.player.body[i]).within(
                self@.width(),
                self@.height(),
            )
        &&& self@.point.within(self@.width(), self@.height())
    }

    /// A game at its start on a grid of `width` columns and `height` rows,
    /// with the point at `point`.
    pub fn with_point(width: i32, height: i32, point: Coordinate) -> (sim: Simulation)
        requires
            0 < width,
            0 < height,
            point@.within(width as int, height as int),
        ensures
            sim.wf(),
            sim@ == SimView::start(width as int, height as int, point@),
    {
        Simulation {
            state: GameState::new(width as usize, height as usize),
            player: Player::new(width / 2, height / 2),
            point,
        }
    }

    /// A game at its start on a grid of `width` columns and `height` rows,
    /// with the point at a cell of the grid drawn at random.
    pub fn new(width: i32, height: i32) -> (sim: Simulation)
        requires
            0 < width,
            0 < height,
        ensures
            sim.wf(),
            sim@ == SimView::start(width as int, height as int, sim@.point),
    {
        let point = Coordinate::random(width, height);
        Simulation::with_point(width, height, point)
    }

    /// Takes the keys and moves the snake. Tells whether the head has
    /// arrived at the point.
    fn advance(&mut self, keys: &Vec<char>) -> (reached: bool)
        requires
            old(self).wf(),
        ensures
            final(self).wf(),
            final(self)@ == (SimView { player: old(self)@.moved(keys@), ..old(self)@ }),
            reached == (final(self)@.player.head == final(self)@.point),
    {
        let mut n: usize = 0;
        while n < keys.len()
            invariant
                n <= keys@.len(),
                self.wf(),
                self.state == old(self).state,
                self.point == old(self).point,
                self@.player == old(self)@.player.steer_all(keys@.take(n as int)),
            decreases keys@.len() - n,
        {
            self.player.handle_keypress(keys[n]);
            proof {
                assert(keys@.take(n as int + 1).drop_last() =~= keys@.take(n as int));
            }
            n += 1;
        }
        proof {
            assert(keys@.take(n as int) =~= keys@);
            lemma_step_lands_on_grid(self@.player.head, self@.player.direction, self@.width(), self@.height());
        }
        let width: i32 = self.state.grid.width as i32;
        let height: i32 = self.state.grid.height as i32;
        self.player.do_move(width, height);
        self.player.coordinate == self.point
    }

    /// Rewards the snake for the point: growth is scheduled, the score goes
    /// up by one, and `fresh` is the point from now on.
    fn collect(&mut self, fresh: Coordinate)
        requires
            old(self).wf(),
            old(self).state.score < i32::MAX,
            fresh@.within(old(self)@.width(), old(self)@.height()),
        ensures
            final(self).wf(),
            final(self)@ == (SimView {
                state: StateView { score: old(self)@.state.score + 1, ..old(self)@.state },
                player: old(self)@.player.grow(),
                point: fresh@,
            }),
    {
        self.player.extend();
        self.state.score += 1;
        self.point = fresh;
    }

    /// Ends the tick: a snake whose head sits on its body is dead, and the
    /// grid keeps the last drawing. Otherwise the grid is drawn anew. Tells
    /// whether the snake is alive.
    fn settle(&mut self) -> (alive: bool)
        requires
            old(self).wf(),
        ensures
            final(self).wf(),
            alive == !old(self)@.player.bites_itself(),
            final(self).player == old(self).player,
            final(self).point == old(self).point,
            final(self)@.state.score == old(self)@.state.score,
            final(self)@.state.dead == (old(self)@.state.dead || !alive),
            final(self)@.state.grid.width == old(self)@.state.grid.width,
            final(self)@.state.grid.height == old(self)@.state.grid.height,
            !alive ==> final(self)@.state.grid.lit == old(self)@.state.grid.lit,
            alive ==> final(self)@.state.grid.lit == drawn(old(self)@.player, old(self)@.point),
    {
        if self.player.bites_itself() {
            self.state.dead = true;
            return false;
        }
        self.state.grid.clear();
        let marks = vec![self.player.coordinate, self.point];
        self.state.grid.set(&marks, true);
        proof {
            assert forall|k: int| 0 <= k < self.player.body@.len() implies (#[trigger] self.player.body@[k])@.within(
                self@.width(),
                self@.height(),
            ) by {
                assert(self@.player.body[k] == self.player.body@[k]@);
            }
        }
        self.state.grid.set(&self.player.body, true);
        proof {
            let body = self.player.body@;
            assert forall|cell: Cell| cells_of(body).contains(cell) <==> self@.player.body.contains(cell) by {
                if cells_of(body).contains(cell) {
                    let k = choose|k: int| 0 <= k < body.len() && (#[trigger] body[k])@ == cell;
                    assert(self@.player.body[k] == cell);
                }
                if self@.player.body.contains(cell) {
                    let k = choose|k: int| 0 <= k < self@.player.body.len() && self@.player.body[k] == cell;
                    assert(body[k]@ == cell);
                }
            }
            assert forall|cell: Cell| cells_of(marks@).contains(cell) <==> cell == self@.player.head || cell
                == self@.point by {
                if cells_of(marks@).contains(cell) {
                    let k = choose|k: int| 0 <= k < marks@.len() && (#[trigger] marks@[k])@ == cell;
                }
                assert(marks@[0]@ == self@.player.head);
                assert(marks@[1]@ == self@.point);
            }
            assert(self@.state.grid.lit =~= drawn(self@.player, self@.point));
        }
        true
    }

    /// Plays one tick with the given keys, in which `fresh` becomes the point
    /// if the present one is collected. Tells whether the snake is alive
    /// after it.
    ///
    /// `fresh` must lie on the grid, and the score must have room for one
    /// more point.
    pub fn tick_with(&mut self, keys: &Vec<char>, fresh: Coordinate) -> (alive: bool)
        requires
            old(self).wf(),
            old(self).state.score < i32::MAX,
            fresh@.within(old(self)@.width(), old(self)@.height()),
        ensures
            final(self).wf(),
            final(self)@ == old(self)@.tick(keys@, fresh@),
            alive == !final(self)@.state.dead,
            // The score counts the points collected and never falls.
            final(self)@.state.score == old(self)@.state.score + if old(self)@.collects(keys@) {
                1int
            } else {
                0int
            },
            // Death comes from running into the body, and stays.
            final(self)@.state.dead == (old(self)@.state.dead || old(self)@.dies(keys@)),
    {
        if self.state.dead {
            return false;
        }
        if self.advance(keys) {
            self.collect(fresh);
        }
        self.settle()
    }

    /// Plays one tick with the given keys. If the snake collects the point,
    /// the next one is a cell of the grid drawn at random. Tells whether the
    /// snake is alive after the tick.
    ///
    /// The score must have room for one more point.
    pub fn tick(&mut self, keys: &Vec<char>) -> (alive: bool)
        requires
            old(self).wf(),
            old(self).state.score < i32::MAX,
        ensures
            final(self).wf(),
            final(self)@ == old(self)@.tick(keys@, final(self)@.point),
            alive == !final(self)@.state.dead,
            // Only a collected point is replaced.
            !old(self)@.collects(keys@) ==> final(self)@.point == old(self)@.point,
            // The score counts the points collected and never falls.
            final(self)@.state.score == old(self)@.state.score + if old(self)@.collects(keys@) {
                1int
            } else {
                0int
            },
            // Death comes from running into the body, and stays.
            final(self)@.state.dead == (old(self)@.state.dead || old(self)@.dies(keys@)),
    {
        if self.state.dead {
            return false;
        }
        if self.advance(keys) {
            let width = self.state.grid.width as i32;
            let height = self.state.grid.height as i32;
            let fresh = Coordinate::random(width, height);
            self.collect(fresh);
        }
        self.settle()
    }
}

/// A tick that brings the head onto the point raises the score by one, and
/// any other tick leaves the score as it is.
pub proof fn lemma_score_counts_points(sim: SimView, keys: Seq<char>, fresh: Cell)
    ensures
        sim.collects(keys) ==> sim.tick(keys, fresh).state.score == sim.state.score + 1,
        !sim.collects(keys) ==> sim.tick(keys, fresh).state.score == sim.state.score,
{
}

/// Over any number of ticks the score does not fall.
pub proof fn lemma_score_never_falls(sim: SimView, turns: Seq<Turn>)
    ensures
        sim.run(turns).state.score >= sim.state.score,
    decreases turns.len(),
{
    if turns.len() > 0 {
        lemma_score_never_falls(sim, turns.drop_last());
    }
}

/// The snake is as long as its score: in a game played from the start the
/// body has one cell for each point collected, the point whose growth is
/// still to come counted in.
pub proof fn lemma_body_counts_points(width: int, height: int, point: Cell, turns: Seq<Turn>)
    ensures
        ({
            let sim = SimView::start(width, height, point).run(turns);
            sim.state.score == sim.player.body.len() + if sim.player.growing {
                1int
            } else {
                0int
            }
        }),
    decreases turns.len(),
{
    if turns.len() > 0 {
        lemma_body_counts_points(width, height, point, turns.drop_last());
        let before = SimView::start(width, height, point).run(turns.drop_last());
        lemma_steering_turns_only(before.player, turns.last().keys);
    }
}

/// A tick of a live game ends in death exactly if the cell that the head
/// moves to is then a cell of the body: the cell that the head leaves, if
/// the snake has a body or is about to grow, or a cell of the present body
/// other than the last, which moves out of the way unless the snake grows.
pub proof fn lemma_collision_is_fatal(sim: SimView, keys: Seq<char>, fresh: Cell)
    requires
        !sim.state.dead,
    ensures
        sim.tick(keys, fresh).state.dead == sim.dies(keys),
        sim.dies(keys) == sim.player.trail().contains(sim.target(keys)),
        (sim.player.growing || sim.player.body.len() > 0) && sim.target(keys) == sim.player.head
            ==> sim.dies(keys),
        forall|i: int|
            0 <= i < sim.player.body.len() && (sim.player.growing || i + 1 < sim.player.body.len())
                && #[trigger] sim.player.body[i] == sim.target(keys) ==> sim.dies(keys),
        sim.dies(keys) ==> sim.tick(keys, fresh).state.grid == sim.state.grid,
{
    lemma_steering_turns_only(sim.player, keys);
    let trail = sim.player.trail();
    let target = sim.target(keys);
    if (sim.player.growing || sim.player.body.len() > 0) && target == sim.player.head {
        assert(trail[0] == target);
    }
    assert forall|i: int|
        0 <= i < sim.player.body.len() && (sim.player.growing || i + 1 < sim.player.body.len())
            && #[trigger] sim.player.body[i] == target implies trail.contains(target) by {
        assert(trail[i + 1] == target);
    }
}

/// Death is final: whatever the turns, a dead game stays exactly as it is.
pub proof fn lemma_death_is_final(sim: SimView, turns: Seq<Turn>)
    requires
        sim.state.dead,
    ensures
        sim.run(turns) == sim,
    decreases turns.len(),
{
    if turns.len() > 0 {
        lemma_death_is_final(sim, turns.drop_last());
    }
}

} // verus!
