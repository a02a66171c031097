//! The game state machine: the snake, its heading, the food, the score and
//! whether the game is still running.

use vstd::prelude::*;
use crate::food::{Food, covers, food_fits, food_on_grid, growth_spec, room_for_food, spawn_food};
use crate::grid::{Direction, Position, in_bounds, opposite_spec, step, step_spec, GRID_WIDTH, GRID_HEIGHT};

verus! {

/// Whether the game accepts ticks or waits for a restart.
#[derive(Clone, Copy, Debug, PartialEq, Eq, Structural)]
pub enum Status {
    Running,
    Over,
}

/// What one tick did.
#[derive(Clone, Copy, Debug, PartialEq, Eq, Structural)]
pub enum TickOutcome {
    /// The game was over; nothing changed.
    Idle,
    /// The snake moved one cell and its tail followed.
    Moved,
    /// The snake moved onto food, grew and scored.
    Ate,
    /// The next cell was off the grid or part of the body; the game is over.
    Crashed,
}

/// The mathematical picture of a game.
pub ghost struct GameView {
    /// Segments, head first.
    pub snake: Seq<Position>,
    /// Direction of the last move.
    pub heading: Direction,
    /// Direction the next move takes.
    pub pending: Direction,
    pub food: Food,
    pub score: nat,
    pub status: Status,
}

/// The starting body: three cells in row 5, head at column 5, facing right.
pub open spec fn initial_snake() -> Seq<Position> {
    seq![(5i32, 5i32), (4i32, 5i32), (3i32, 5i32)]
}

/// Every segment lies on the grid.
pub open spec fn snake_on_grid(s: Seq<Position>) -> bool {
    forall|i: int| 0 <= i < s.len() ==> in_bounds(#[trigger] s[i])
}

/// A head at `h` ends the game: it is off the grid or on the body.
pub open spec fn fatal(snake: Seq<Position>, h: Position) -> bool {
    !in_bounds(h) || snake.contains(h)
}

/// The body after a plain move: new head in front, last segment gone.
pub open spec fn moved(snake: Seq<Position>, h: Position) -> Seq<Position> {
    seq![h] + snake.drop_last()
}

/// The body after eating: new head in front, the old body kept whole, and `c`
/// copies of the tail appended.
pub open spec fn grown(snake: Seq<Position>, h: Position, c: nat) -> Seq<Position> {
    seq![h] + snake + Seq::new(c, |i: int| snake.last())
}

/// The state invariant.
pub open spec fn view_wf(v: GameView) -> bool {
    &&& v.snake.len() >= 1
    &&& snake_on_grid(v.snake)
    &&& food_on_grid(v.food)
    &&& v.score <= v.snake.len()
    &&& v.pending != opposite_spec(v.heading)
}

/// The head the next tick moves to.
pub open spec fn next_head(v: GameView) -> Position {
    step_spec(v.snake[0], v.pending)
}

/// `b` is a possible state after one tick from `a`, with outcome `out`. The
/// one freedom is where new food lands after a meal.
pub open spec fn ticked(a: GameView, b: GameView, out: TickOutcome) -> bool {
    let h = next_head(a);
    let g = growth_spec(a.food.size);
    if a.status == Status::Over {
        b == a && out == TickOutcome::Idle
    } else if fatal(a.snake, h) {
        &&& out == TickOutcome::Crashed
        &&& b == (GameView { heading: a.pending, status: Status::Over, ..a })
    } else if covers(a.food, h) {
        &&& out == TickOutcome::Ate
        &&& b.snake == grown(a.snake, h, (g - 1) as nat)
        &&& b.score == a.score + g
        &&& b.heading == a.pending
        &&& b.pending == a.pending
        &&& if room_for_food(b.snake) {
            b.status == Status::Running && food_fits(b.snake, b.food)
        } else {
            b.status == Status::Over && b.food == a.food
        }
    } else {
        &&& out == TickOutcome::Moved
        &&& b == (GameView { snake: moved(a.snake, h), heading: a.pending, ..a })
    }
}

/// The direction after a press of `d`: taken unless it points back against `heading`.
pub open spec fn accept(heading: Direction, pending: Direction, pressed: bool, d: Direction) -> Direction {
    if pressed && d != opposite_spec(heading) {
        d
    } else {
        pending
    }
}

/// The direction after one frame's presses, taken in the order up, down,
/// left, right; the last one accepted wins.
pub open spec fn resolve_spec(
    heading: Direction,
    pending: Direction,
    up: bool,
    down: bool,
    left: bool,
    right: bool,
) -> Direction {
    let p1 = accept(heading, pending, up, Direction::Up);
    let p2 = accept(heading, p1, down, Direction::Down);
    let p3 = accept(heading, p2, left, Direction::Left);
    accept(heading, p3, right, Direction::Right)
}

/// The direction after one frame's key presses (`up`, `down`, `left`, `right`
/// freshly pressed), starting from `pending`. A press that points straight
/// back against `heading` is ignored.
pub fn resolve_direction(
    heading: Direction,
    pending: Direction,
    up: bool,
    down: bool,
    left: bool,
    right: bool,
) -> (r: Direction)
    ensures
        r == resolve_spec(heading, pending, up, down, left, right),
        pending != opposite_spec(heading) ==> r != opposite_spec(heading),
{
    let back = heading.opposite();
    let mut d = pending;
    if up && back != Direction::Up {
        d = Direction::Up;
    }
    if down && back != Direction::Down {
        d = Direction::Down;
    }
    if left && back != Direction::Left {
        d = Direction::Left;
    }
    if right && back != Direction::Right {
        d = Direction::Right;
    }
    d
}

/// True when `p` is one of the segments of `snake`.
pub fn occupies(snake: &Vec<Position>, p: Position) -> (r: bool)
    ensures
        r == snake@.contains(p),
{
    let mut i: usize = 0;
    while i < snake.len()
        invariant
            0 <= i <= snake@.len(),
            forall|j: int| 0 <= j < i ==> snake@[j] != p,
        decreases snake@.len() - i,
    {
        let q = snake[i];
        if q.0 == p.0 && q.1 == p.1 {
            return true;
        }
        i = i + 1;
    }
    false
}

/// True when `p` lies on the grid.
pub fn on_grid(p: Position) -> (r: bool)
    ensures
        r == in_bounds(p),
{
    0 <= p.0 && p.0 < GRID_WIDTH && 0 <= p.1 && p.1 < GRID_HEIGHT
}

/// The starting body as a vector.
fn start_snake() -> (r: Vec<Position>)
    ensures
        r@ == initial_snake(),
{
    let r = vec![(5i32, 5i32), (4i32, 5i32), (3i32, 5i32)];
    assert(r@ =~= initial_snake());
    r
}

/// Fresh food beside the starting body; there is always room for it.
fn start_food(snake: &Vec<Position>) -> (r: Food)
    requires
        snake@ == initial_snake(),
    ensures
        food_fits(snake@, r),
{
    let probe = Food { x: 0, y: 0, size: 1 };
    assert(food_fits(snake@, probe));
    match spawn_food(snake) {
        Some(f) => f,
        None => {
            proof {
                assert(room_for_food(snake@));
            }
            probe
        },
    }
}

/// A game: owned state, changed only through its methods.
pub struct GameState {
    snake: Vec<Position>,
    heading: Direction,
    pending: Direction,
    food: Food,
    score: usize,
    status: Status,
}

impl View for GameState {
    type V = GameView;

    closed spec fn view(&self) -> GameView {
        GameView {
            snake: self.snake@,
            heading: self.heading,
            pending: self.pending,
            food: self.food,
            score: self.score as nat,
            status: self.status,
        }
    }
}

impl GameState {
    /// The state invariant.
    pub open spec fn wf(&self) -> bool {
        view_wf(self@)
    }

    /// A running game in its starting position.
    pub open spec fn is_fresh(&self) -> bool {
        &&& self@.snake == initial_snake()
        &&& self@.heading == Direction::Right
        &&& self@.pending == Direction::Right
        &&& self@.score == 0
        &&& self@.status == Status::Running
        &&& food_fits(self@.snake, self@.food)
    }

    /// A new game: the starting body facing right, score zero, food placed
    /// on free cells.
    pub fn new() -> (r: GameState)
        ensures
            r.wf(),
            r.is_fresh(),
    {
        let snake = start_snake();
        let food = start_food(&snake);
        GameState {
            snake,
            heading: Direction::Right,
            pending: Direction::Right,
            food,
            score: 0,
            status: Status::Running,
        }
    }

    /// A running game with the given body (head first), heading and food, and
    /// score zero. `None` when the body is empty or leaves the grid, or the food
    /// has a size outside 1..=3 or leaves the grid.
    pub fn with_snake(snake: Vec<Position>, heading: Direction, food: Food) -> (r: Option<GameState>)
        ensures
            r is Some <==> (snake@.len() >= 1 && snake_on_grid(snake@) && food_on_grid(food)),
            r matches Some(g) ==> {
                &&& g.wf()
                &&& g@ == (GameView {
                    snake: snake@,
                    heading,
                    pending: heading,
                    food,
                    score: 0,
                    status: Status::Running,
                })
            },
    {
        if snake.len() == 0 {
            return None;
        }
        if food.size < 1 || food.size > 3 || food.x < 0 || food.y < 0 || food.x > GRID_WIDTH
            - food.size || food.y > GRID_HEIGHT - food.size {
            return None;
        }
        let mut i: usize = 0;
        while i < snake.len()
            invariant
                0 <= i <= snake@.len(),
                forall|j: int| 0 <= j < i ==> in_bounds(#[trigger] snake@[j]),
            decreases snake@.len() - i,
        {
            if !on_grid(snake[i]) {
                return None;
            }
            i = i + 1;
        }
        Some(GameState { snake, heading, pending: heading, food, score: 0, status: Status::Running })
    }

    /// Takes one frame's key presses: each of up, down, left, right (in that
    /// order) that was freshly pressed and does not point back against the
    /// heading becomes the direction of the next move.
    pub fn steer(&mut self, up: bool, down: bool, left: bool, right: bool)
        requires
            old(self).wf(),
        ensures
            final(self).wf(),
            final(self)@ == (GameView {
                pending: resolve_spec(old(self)@.heading, old(self)@.pending, up, down, left, right),
                ..old(self)@
            }),
            final(self)@.pending != opposite_spec(final(self)@.heading),
    {
        self.pending = resolve_direction(self.heading, self.pending, up, down, left, right);
    }

    /// Advances the game by one step. While running, the head moves one cell
    /// in the pending direction. Off the grid or onto the body the game ends
    /// and nothing else changes. Onto food, the snake keeps its tail and grows
    /// by three segments (food of size 2 or more) or one (size 1): the new head
    /// plus that many less one copies of its tail. It scores as many points,
    /// and new food is placed off the body; when
    /// no food fits anywhere the board is full and the game ends. Otherwise
    /// the tail moves up.
    pub fn tick(&mut self) -> (out: TickOutcome)
        requires
            old(self).wf(),
            old(self)@.snake.len() + 4 <= usize::MAX,
        ensures
            final(self).wf(),
            ticked(old(self)@, final(self)@, out),
            out == TickOutcome::Moved ==> final(self)@.snake.len() == old(self)@.snake.len(),
            out == TickOutcome::Ate ==> {
                &&& final(self)@.snake.len() == old(self)@.snake.len() + growth_spec(old(self)@.food.size)
                &&& final(self)@.score == old(self)@.score + growth_spec(old(self)@.food.size)
            },
    {
        if let Status::Over = self.status {
            return TickOutcome::Idle;
        }
        let ghost a = self@;
        let h = step(self.snake[0], self.pending);
        self.heading = self.pending;
        if !on_grid(h) || occupies(&self.snake, h) {
            self.status = Status::Over;
            assert(self@ == (GameView { heading: a.pending, status: Status::Over, ..a }));
            return TickOutcome::Crashed;
        }
        let ate = self.food.covers_cell(h);
        self.snake.insert(0, h);
        if ate {
            let g = self.food.growth();
            let copies = g - 1;
            let tail = self.snake[self.snake.len() - 1];
            assert(tail == a.snake.last());
            let mut k: usize = 0;
            while k < copies
                invariant
                    0 <= k <= copies,
                    copies + 1 == g <= 3,
                    g == growth_spec(a.food.size),
                    view_wf(a),
                    a.snake.len() + 4 <= usize::MAX,
                    self@ == (GameView { snake: self@.snake, heading: a.pending, ..a }),
                    tail == a.snake.last(),
                    self.snake@ == grown(a.snake, h, k as nat),
                decreases copies - k,
            {
                self.snake.push(tail);
                k = k + 1;
                assert(self.snake@ =~= grown(a.snake, h, k as nat));
            }
            self.score = self.score + g;
            proof {
                let s = self.snake@;
                assert forall|i: int| 0 <= i < s.len() implies in_bounds(#[trigger] s[i]) by {
                    if i > a.snake.len() {
                        assert(s[i] == a.snake[a.snake.len() - 1]);
                    } else if i > 0 {
                        assert(s[i] == a.snake[i - 1]);
                    }
                }
            }
            match spawn_food(&self.snake) {
                Some(f) => {
                    self.food = f;
                },
                None => {
                    self.status = Status::Over;
                },
            }
            TickOutcome::Ate
        } else {
            self.snake.pop();
            proof {
                let s = self.snake@;
                assert(s =~= moved(a.snake, h));
                assert forall|i: int| 0 <= i < s.len() implies in_bounds(#[trigger] s[i]) by {
                    if i > 0 {
                        assert(s[i] == a.snake[i - 1]);
                    }
                }
            }
            TickOutcome::Moved
        }
    }

    /// After the game is over, starts a fresh game (see `new`); while running,
    /// changes nothing.
    pub fn restart(&mut self)
        requires
            old(self).wf(),
        ensures
            final(self).wf(),
            old(self)@.status == Status::Over ==> final(self).is_fresh(),
            old(self)@.status == Status::Running ==> final(self)@ == old(self)@,
    {
        if let Status::Over = self.status {
            let snake = start_snake();
            self.food = start_food(&snake);
            self.snake = snake;
            self.heading = Direction::Right;
            self.pending = Direction::Right;
            self.score = 0;
            self.status = Status::Running;
        }
    }

    /// The body, head first.
    pub fn snake(&self) -> (r: &Vec<Position>)
        ensures
            r@ == self@.snake,
    {
        &self.snake
    }

    /// The head segment.
    pub fn head(&self) -> (r: Position)
        requires
            self.wf(),
        ensures
            r == self@.snake[0],
    {
        self.snake[0]
    }

    /// Direction of the last move.
    pub fn heading(&self) -> (r: Direction)
        ensures
            r == self@.heading,
    {
        self.heading
    }

    /// Direction the next move takes.
    pub fn pending(&self) -> (r: Direction)
        ensures
            r == self@.pending,
    {
        self.pending
    }

    /// The food on the board.
    pub fn food(&self) -> (r: Food)
        ensures
            r == self@.food,
    {
        self.food
    }

    /// Points scored so far.
    pub fn score(&self) -> (r: usize)
        ensures
            r == self@.score,
    {
        self.score
    }

    /// Whether the game is running or over.
    pub fn status(&self) -> (r: Status)
        ensures
            r == self@.status,
    {
        self.status
    }
}

} // verus!
