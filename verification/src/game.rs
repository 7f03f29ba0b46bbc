//! The game: one snake on a walled grid, one piece of food, a clock, and the
//! two phases `Playing` and `Over`.
//!
//! Time is counted in whole microseconds. Nothing here draws or reads input:
//! a host hands in key presses and elapsed time, and takes a `Frame` to paint.

use crate::snake::{cell_of, cells_of, Direction, Snake, SnakeModel};
use rand::rngs::StdRng;
use rand::RngExt;
use vstd::prelude::*;

verus! {

/// Microseconds between two moves made by the clock.
pub const MOVING_PERIOD: u64 = 200_000;

/// Microseconds a finished game waits before it starts again.
pub const RESTART_TIME: u64 = 2_000_000;

/// The least width and height of a grid: with a wall one cell thick on each
/// side, the start cell is then inside.
pub const MIN_SIDE: i32 = 4;

/// Column of the cell where every game starts.
pub const START_X: i32 = 2;

/// Row of the cell where every game starts.
pub const START_Y: i32 = 2;

/// Column of the food that a new game holds.
pub const FIRST_FOOD_X: i32 = 6;

/// Row of the food that a new game holds.
pub const FIRST_FOOD_Y: i32 = 4;

/// How many cells are drawn at most in one attempt to place food.
pub const PLACEMENT_TRIES: u32 = 1000;

/// A key press as the game sees it: one of the four arrows, or any other key.
#[derive(Clone, Copy, Debug, PartialEq, Eq, Structural)]
pub enum Key {
    Up,
    Down,
    Left,
    Right,
    Other,
}

/// The two modes of a game.
#[derive(Clone, Copy, Debug, PartialEq, Eq, Structural)]
pub enum Phase {
    /// Keys and the clock move the snake.
    Playing,
    /// The snake has hit a wall or itself; keys are ignored and the clock
    /// runs towards a new start.
    Over,
}

/// What a renderer needs to paint one picture of the game.
#[derive(Debug)]
pub struct Frame {
    /// The snake's cells from tail to head.
    pub segments: Vec<(i32, i32)>,
    /// The food's cell, if food lies on the grid.
    pub food: Option<(i32, i32)>,
    /// Grid width in cells, walls included.
    pub width: i32,
    /// Grid height in cells, walls included.
    pub height: i32,
    /// The current phase.
    pub phase: Phase,
}

/// What a game is.
pub struct GameModel {
    pub snake: SnakeModel,
    /// Whether food lies on the grid.
    pub food_present: bool,
    /// Where the food lies, or lay last.
    pub food_position: (int, int),
    pub width: int,
    pub height: int,
    pub phase: Phase,
    /// Microseconds since the last move or start.
    pub elapsed: int,
}

impl GameModel {
    /// Whether `cell` is strictly inside the walls.
    pub open spec fn interior(self, cell: (int, int)) -> bool {
        &&& 0 < cell.0 < self.width - 1
        &&& 0 < cell.1 < self.height - 1
    }

    /// The longest that `elapsed` can stand at in the given phase.
    pub open spec fn patience(phase: Phase) -> int {
        match phase {
            Phase::Playing => MOVING_PERIOD as int,
            Phase::Over => RESTART_TIME as int,
        }
    }

    /// Whether food may lie on `cell`: it is inside the walls and no part of
    /// the snake lies on it, the tail included.
    pub open spec fn free_cell(self, cell: (int, int)) -> bool {
        self.interior(cell) && !self.snake.occupies(cell)
    }

    /// What holds of every game between two calls: the grid has an inside,
    /// the snake lies inside the walls and on no cell twice, food lies
    /// inside the walls and not under the snake, and the clock has not run
    /// past its period.
    pub open spec fn wf(self) -> bool {
        &&& self.snake.wf()
        &&& MIN_SIDE <= self.width
        &&& MIN_SIDE <= self.height
        &&& forall|i: int| 0 <= i < self.snake.cells.len() ==> self.interior(#[trigger] self.snake.cells[i])
        &&& self.snake.cells.no_duplicates()
        &&& self.food_present ==> self.free_cell(self.food_position)
        &&& 0 <= self.elapsed <= Self::patience(self.phase)
    }

    /// A new game on a grid of the given size: the snake is one cell long, at
    /// `(START_X, START_Y)`, facing right; food lies at
    /// `(FIRST_FOOD_X, FIRST_FOOD_Y)` where the grid is large enough for
    /// that cell to be inside the walls, and nowhere on a smaller grid.
    pub open spec fn initial(width: int, height: int) -> GameModel {
        GameModel {
            snake: SnakeModel {
                cells: seq![(START_X as int, START_Y as int)],
                facing: Direction::Right,
                growing: false,
            },
            food_present: FIRST_FOOD_X < width - 1 && FIRST_FOOD_Y < height - 1,
            food_position: (FIRST_FOOD_X as int, FIRST_FOOD_Y as int),
            width,
            height,
            phase: Phase::Playing,
            elapsed: 0,
        }
    }

    /// Whether a move asked for with `dir` keeps the snake alive: the cell
    /// ahead is inside the walls and is none of the cells that stay.
    pub open spec fn alive(self, dir: Option<Direction>) -> bool {
        let next = self.snake.next_head(dir);
        self.interior(next) && !self.snake.overlap(next)
    }

    /// The game after the snake has looked under its head: food found there
    /// is taken off the grid, and the snake grows on its next move.
    pub open spec fn fed(self) -> GameModel {
        if self.food_present && self.food_position == self.snake.head() {
            GameModel { snake: self.snake.grow_on_next_advance(), food_present: false, ..self }
        } else {
            self
        }
    }

    /// The game after one move of the snake asked for with `dir`. A move that
    /// keeps the snake alive is made and the head's cell is searched for
    /// food; any other ends the game and leaves the snake where it is. The
    /// clock starts again at zero either way.
    pub open spec fn step(self, dir: Option<Direction>) -> GameModel {
        if self.alive(dir) {
            (GameModel { snake: self.snake.advance(dir), elapsed: 0, ..self }).fed()
        } else {
            GameModel { phase: Phase::Over, elapsed: 0, ..self }
        }
    }

    /// The direction that a key asks for: its own for an arrow, the current
    /// facing for any other key.
    pub open spec fn wish(self, key: Key) -> Direction {
        match key {
            Key::Up => Direction::Up,
            Key::Down => Direction::Down,
            Key::Left => Direction::Left,
            Key::Right => Direction::Right,
            Key::Other => self.snake.facing,
        }
    }

    /// The game after a key press. A finished game ignores keys. So does a
    /// running game where the key asks for the exact reverse of the facing.
    /// Any other press moves the snake at once.
    pub open spec fn key_pressed(self, key: Key) -> GameModel {
        if self.phase != Phase::Playing {
            self
        } else if self.wish(key) == self.snake.facing.spec_opposite() {
            self
        } else {
            self.step(Some(self.wish(key)))
        }
    }

    /// The game started again on the same grid: the snake as at the first
    /// start, no food on the grid, the clock at zero.
    pub open spec fn restart(self) -> GameModel {
        GameModel {
            snake: SnakeModel {
                cells: seq![(START_X as int, START_Y as int)],
                facing: Direction::Right,
                growing: false,
            },
            food_present: false,
            phase: Phase::Playing,
            elapsed: 0,
            ..self
        }
    }

    /// The game after `delta` more microseconds. A finished game starts again
    /// once more than `RESTART_TIME` has gone by. A running game moves the
    /// snake towards its facing once more than `MOVING_PERIOD` has gone by.
    /// Until then the time is only added up.
    pub open spec fn elapse(self, delta: int) -> GameModel {
        if self.elapsed + delta > Self::patience(self.phase) {
            match self.phase {
                Phase::Over => self.restart(),
                Phase::Playing => self.step(None),
            }
        } else {
            GameModel { elapsed: self.elapsed + delta, ..self }
        }
    }

    /// Whether the game is running and has no food on the grid.
    pub open spec fn wants_food(self) -> bool {
        self.phase == Phase::Playing && !self.food_present
    }

    /// The game with food on `cell`.
    pub open spec fn with_food(self, cell: (int, int)) -> GameModel {
        GameModel { food_present: true, food_position: cell, ..self }
    }
}

/// `rand`'s standard generator. The game hands it on to the draws and looks
/// at nothing inside it.
#[verifier::external_type_specification]
#[verifier::external_body]
pub struct ExStdRng(rand::rngs::StdRng);

/// A draw from `rand`'s `RngExt::random_range` over the half-open range
/// `low..high`. The range must not be empty, or the call panics. All that is
/// claimed of the number drawn is that it lies in the range.
#[verifier::external_body]
fn random_between(rng: &mut StdRng, low: i32, high: i32) -> (r: i32)
    requires
        low < high,
    ensures
        low <= r < high,
{
    rng.random_range(low..high)
}

/// A game of snake.
pub struct Game {
    snake: Snake,
    food_exist: bool,
    food_coord: (i32, i32),
    width: i32,
    height: i32,
    phase: Phase,
    waiting_time: u64,
}

impl View for Game {
    type V = GameModel;

    closed spec fn view(&self) -> GameModel {
        GameModel {
            snake: self.snake@,
            food_present: self.food_exist,
            food_position: cell_of(self.food_coord),
            width: self.width as int,
            height: self.height as int,
            phase: self.phase,
            elapsed: self.waiting_time as int,
        }
    }
}

impl Game {
    /// What holds of every game between two calls: see `GameModel::wf`.
    pub open spec fn wf(&self) -> bool {
        self@.wf()
    }

    /// A new game on a grid of `width` by `height` cells, the outermost cells
    /// being wall. The snake is one cell long, at `(START_X, START_Y)`,
    /// facing right. Food lies at `(FIRST_FOOD_X, FIRST_FOOD_Y)` where that
    /// cell is inside the walls; a smaller grid starts without food.
    pub fn new(width: i32, height: i32) -> (r: Game)
        requires
            MIN_SIDE <= width,
            MIN_SIDE <= height,
        ensures
            r.wf(),
            r@ == GameModel::initial(width as int, height as int),
    {
        Game {
            snake: Snake::new(START_X, START_Y),
            food_exist: FIRST_FOOD_X < width - 1 && FIRST_FOOD_Y < height - 1,
            food_coord: (FIRST_FOOD_X, FIRST_FOOD_Y),
            width,
            height,
            phase: Phase::Playing,
            waiting_time: 0,
        }
    }

    /// The snake.
    pub fn snake(&self) -> (r: &Snake)
        ensures
            r@ == self@.snake,
            self.wf() ==> r.wf(),
    {
        &self.snake
    }

    /// The food's cell, if food lies on the grid.
    pub fn food(&self) -> (r: Option<(i32, i32)>)
        ensures
            r.is_some() == self@.food_present,
            r.is_some() ==> cell_of(r.unwrap()) == self@.food_position,
    {
        if self.food_exist {
            Some(self.food_coord)
        } else {
            None
        }
    }

    /// Grid width in cells, walls included.
    pub fn width(&self) -> (r: i32)
        ensures
            r == self@.width,
    {
        self.width
    }

    /// Grid height in cells, walls included.
    pub fn height(&self) -> (r: i32)
        ensures
            r == self@.height,
    {
        self.height
    }

    /// The current phase.
    pub fn phase(&self) -> (r: Phase)
        ensures
            r == self@.phase,
    {
        self.phase
    }

    /// Microseconds since the last move or start.
    pub fn elapsed(&self) -> (r: u64)
        ensures
            r == self@.elapsed,
    {
        self.waiting_time
    }

    /// Takes a key press. A finished game ignores it. A running game ignores
    /// a press that asks for the exact reverse of the snake's facing; any
    /// other press moves the snake one cell at once: towards the arrow, or
    /// towards the facing for a key that is no arrow.
    pub fn key_pressed(&mut self, key: Key)
        requires
            old(self).wf(),
        ensures
            final(self).wf(),
            final(self)@ == old(self)@.key_pressed(key),
            old(self)@.wish(key) == old(self)@.snake.facing.spec_opposite() ==> final(self)@ == old(
                self,
            )@,
    {
        if self.phase != Phase::Playing {
            return ;
        }
        let facing = self.snake.head_direction();
        let dir = match key {
            Key::Up => Direction::Up,
            Key::Down => Direction::Down,
            Key::Left => Direction::Left,
            Key::Right => Direction::Right,
            Key::Other => facing,
        };
        if dir == facing.opposite() {
            return ;
        }
        self.update_snake(Some(dir));
    }

    /// What a renderer needs to paint the game as it stands. Nothing is
    /// changed.
    pub fn draw(&self) -> (frame: Frame)
        ensures
            cells_of(frame.segments@) == self@.snake.cells,
            frame.food.is_some() == self@.food_present,
            frame.food.is_some() ==> cell_of(frame.food.unwrap()) == self@.food_position,
            frame.width == self@.width,
            frame.height == self@.height,
            frame.phase == self@.phase,
    {
        Frame {
            segments: self.snake.segments(),
            food: if self.food_exist {
                Some(self.food_coord)
            } else {
                None
            },
            width: self.width,
            height: self.height,
            phase: self.phase,
        }
    }

    /// Lets `delta_time` microseconds go by. A running game without food
    /// first tries to place some, on cells drawn from `rng`; whether it
    /// finds a free cell, and which, is up to the draws. Then the clock is
    /// moved on as `elapse` does.
    pub fn update(&mut self, delta_time: u64, rng: &mut StdRng)
        requires
            old(self).wf(),
        ensures
            final(self).wf(),
            !old(self)@.wants_food() ==> final(self)@ == old(self)@.elapse(delta_time as int),
            old(self)@.wants_food() ==> final(self)@ == old(self)@.elapse(delta_time as int)
                || exists|cell: (int, int)| #[trigger]
                old(self)@.free_cell(cell) && final(self)@ == old(self)@.with_food(cell).elapse(
                    delta_time as int,
                ),
    {
        if self.phase == Phase::Playing && !self.food_exist {
            self.add_food(rng);
            assert(self@.food_present ==> old(self)@.free_cell(self@.food_position) && self@
                == old(self)@.with_food(self@.food_position));
        }
        self.elapse(delta_time);
    }

    /// Moves the clock on by `delta_time` microseconds. A finished game
    /// starts again once more than `RESTART_TIME` has gone by since it
    /// ended. A running game moves the snake one cell towards its facing
    /// once more than `MOVING_PERIOD` has gone by since the last move.
    pub fn elapse(&mut self, delta_time: u64)
        requires
            old(self).wf(),
        ensures
            final(self).wf(),
            final(self)@ == old(self)@.elapse(delta_time as int),
    {
        match self.phase {
            Phase::Over => {
                if delta_time > RESTART_TIME - self.waiting_time {
                    self.restart();
                } else {
                    self.waiting_time = self.waiting_time + delta_time;
                }
            },
            Phase::Playing => {
                if delta_time > MOVING_PERIOD - self.waiting_time {
                    self.update_snake(None);
                } else {
                    self.waiting_time = self.waiting_time + delta_time;
                }
            },
        }
    }

    /// Puts food on `(x, y)` if the game is running, has no food, and the
    /// cell is inside the walls with no part of the snake on it. Says
    /// whether it did.
    pub fn place_food(&mut self, x: i32, y: i32) -> (placed: bool)
        requires
            old(self).wf(),
        ensures
            final(self).wf(),
            placed == (old(self)@.wants_food() && old(self)@.free_cell((x as int, y as int))),
            placed ==> final(self)@ == old(self)@.with_food((x as int, y as int)),
            !placed ==> final(self)@ == old(self)@,
    {
        if self.phase != Phase::Playing || self.food_exist {
            return false;
        }
        if !(0 < x && x < self.width - 1 && 0 < y && y < self.height - 1) {
            return false;
        }
        if self.snake.occupies(x, y) {
            return false;
        }
        self.food_coord = (x, y);
        self.food_exist = true;
        true
    }

    /// If food lies under the head, takes it off the grid and makes the
    /// snake grow on its next move.
    fn check_eating(&mut self)
        requires
            old(self).snake.wf(),
        ensures
            final(self)@ == old(self)@.fed(),
    {
        let (head_x, head_y) = self.snake.head_position();
        if self.food_exist && self.food_coord.0 == head_x && self.food_coord.1 == head_y {
            self.food_exist = false;
            self.snake.grow_on_next_advance();
        }
    }

    /// Whether a move asked for with `dir` keeps the snake alive.
    fn check_snake_alive(&self, dir: Option<Direction>) -> (r: bool)
        requires
            self.wf(),
        ensures
            r == self@.alive(dir),
    {
        assert(self@.interior(self@.snake.head())) by {
            assert(self@.snake.head() == self@.snake.cells[self@.snake.cells.len() - 1]);
        }
        let (next_x, next_y) = self.snake.next_head(dir);
        if self.snake.overlap(next_x, next_y) {
            return false;
        }
        next_x > 0 && next_y > 0 && next_x < self.width - 1 && next_y < self.height - 1
    }

    /// Draws cells inside the walls from `rng` until one is free, and puts
    /// food there. Gives up after `PLACEMENT_TRIES` draws and leaves the
    /// grid without food.
    fn add_food(&mut self, rng: &mut StdRng)
        requires
            old(self).wf(),
            old(self)@.wants_food(),
        ensures
            final(self).wf(),
            !final(self)@.food_present ==> final(self)@ == old(self)@,
            final(self)@.food_present ==> old(self)@.free_cell(final(self)@.food_position)
                && final(self)@ == old(self)@.with_food(final(self)@.food_position),
    {
        let mut tries: u32 = 0;
        while tries < PLACEMENT_TRIES
            invariant
                self.wf(),
                self@ == old(self)@,
                self@.wants_food(),
            decreases PLACEMENT_TRIES - tries,
        {
            let nx = random_between(rng, 1, self.width - 1);
            let ny = random_between(rng, 1, self.height - 1);
            if self.place_food(nx, ny) {
                return ;
            }
            tries += 1;
        }
    }

    /// Makes one move of the snake asked for with `dir`, which is not the
    /// reverse of its facing: the move itself where it keeps the snake
    /// alive, the end of the game where it does not.
    fn update_snake(&mut self, dir: Option<Direction>)
        requires
            old(self).wf(),
            dir != Some(old(self)@.snake.facing.spec_opposite()),
        ensures
            final(self).wf(),
            final(self)@ == old(self)@.step(dir),
    {
        proof {
            lemma_step_keeps_wf(self@, dir);
        }
        if self.check_snake_alive(dir) {
            self.snake.advance(dir);
            self.check_eating();
        } else {
            self.phase = Phase::Over;
        }
        self.waiting_time = 0;
    }

    /// Starts the game again: the snake as at the first start, no food on
    /// the grid, the clock at zero.
    fn restart(&mut self)
        requires
            old(self).wf(),
        ensures
            final(self).wf(),
            final(self)@ == old(self)@.restart(),
    {
        self.snake = Snake::new(START_X, START_Y);
        self.waiting_time = 0;
        self.food_exist = false;
        self.phase = Phase::Playing;
    }
}

/// A move that is no reverse keeps a game well-formed: the snake stays
/// inside the walls and on no cell twice, and food never lies under it.
pub proof fn lemma_step_keeps_wf(g: GameModel, dir: Option<Direction>)
    requires
        g.wf(),
        dir != Some(g.snake.facing.spec_opposite()),
    ensures
        g.step(dir).wf(),
{
    if g.alive(dir) {
        let next = g.snake.next_head(dir);
        let stay = g.snake.staying();
        let off: int = if g.snake.growing {
            0
        } else {
            1
        };
        let after = g.step(dir);
        let cells = after.snake.cells;
        assert(cells == stay.push(next));
        assert forall|k: int| 0 <= k < stay.len() implies stay[k] == g.snake.cells[k + off] by {}
        assert forall|k: int| 0 <= k < stay.len() implies stay[k] != next by {
            if stay[k] == next {
                assert(stay.contains(next));
            }
        }
        assert forall|i: int| 0 <= i < cells.len() implies after.interior(#[trigger] cells[i]) by {
            if i < stay.len() {
                assert(cells[i] == g.snake.cells[i + off]);
            }
        }
        assert forall|i: int, j: int| 0 <= i < cells.len() && 0 <= j < cells.len() && i != j implies cells[i]
            != cells[j] by {
            if i < stay.len() && j < stay.len() {
                assert(cells[i] == g.snake.cells[i + off]);
                assert(cells[j] == g.snake.cells[j + off]);
            }
        }
        if after.food_present {
            assert(after.food_position == g.food_position);
            assert(g.food_position != next);
            if cells.contains(g.food_position) {
                let i = choose|i: int| 0 <= i < cells.len() && cells[i] == g.food_position;
                assert(i < stay.len());
                assert(g.snake.cells[i + off] == g.food_position);
                assert(g.snake.cells.contains(g.food_position));
            }
        }
    }
}

/// A key that asks for the exact reverse of the snake's facing changes
/// nothing: the snake keeps its facing and its cells, the clock runs on.
pub proof fn lemma_reverse_key_is_ignored(g: GameModel, key: Key)
    requires
        g.wish(key) == g.snake.facing.spec_opposite(),
    ensures
        g.key_pressed(key) == g,
{
}

/// A move that puts the head on the food takes the food off the grid, and
/// the snake's next move, whatever it is asked for, makes it exactly one
/// cell longer.
pub proof fn lemma_eating_grows(g: GameModel, dir: Option<Direction>, later: Option<Direction>)
    requires
        g.wf(),
        g.food_present,
        g.alive(dir),
        g.snake.advance(dir).head() == g.food_position,
    ensures
        !g.step(dir).food_present,
        g.step(dir).snake.growing,
        g.step(dir).snake.advance(later).cells.len() == g.step(dir).snake.cells.len() + 1,
{
}

/// A move whose cell ahead is not strictly inside the walls ends the game
/// and sets the clock to zero. The snake stays where it was.
pub proof fn lemma_leaving_the_interior_ends_the_game(g: GameModel, dir: Option<Direction>)
    requires
        !g.interior(g.snake.next_head(dir)),
    ensures
        g.step(dir).phase == Phase::Over,
        g.step(dir).elapsed == 0,
        g.step(dir).snake == g.snake,
{
}

/// A key press keeps a game well-formed.
pub proof fn lemma_key_pressed_keeps_wf(g: GameModel, key: Key)
    requires
        g.wf(),
    ensures
        g.key_pressed(key).wf(),
{
    if g.phase == Phase::Playing && g.wish(key) != g.snake.facing.spec_opposite() {
        lemma_step_keeps_wf(g, Some(g.wish(key)));
    }
}

/// Time going by keeps a game well-formed.
pub proof fn lemma_elapse_keeps_wf(g: GameModel, delta: int)
    requires
        g.wf(),
        0 <= delta,
    ensures
        g.elapse(delta).wf(),
{
    lemma_restart_is_a_fresh_start(g);
    if g.phase == Phase::Playing {
        lemma_step_keeps_wf(g, None);
    }
}

/// A game that starts again is a running game with a snake of one cell at
/// the start cell, facing right, with no food on the grid and the clock at
/// zero, on the grid it had.
pub proof fn lemma_restart_is_a_fresh_start(g: GameModel)
    requires
        MIN_SIDE <= g.width,
        MIN_SIDE <= g.height,
    ensures
        g.restart().wf(),
        g.restart().snake == GameModel::initial(g.width, g.height).snake,
        g.restart().phase == Phase::Playing,
        g.restart().elapsed == 0,
        !g.restart().food_present,
        g.restart().width == g.width,
        g.restart().height == g.height,
{
    let cells = g.restart().snake.cells;
    assert(cells.len() == 1);
    assert(cells[0] == (START_X as int, START_Y as int));
}

/// Putting food on a free cell of a game that wants some keeps the game
/// well-formed.
pub proof fn lemma_with_food_keeps_wf(g: GameModel, cell: (int, int))
    requires
        g.wf(),
        g.free_cell(cell),
    ensures
        g.with_food(cell).wf(),
{
}

/// A running game moves its snake as soon as the time added up since the
/// last move passes `MOVING_PERIOD`, and not before.
pub proof fn lemma_playing_moves_after_the_period(g: GameModel, delta: int)
    requires
        g.phase == Phase::Playing,
    ensures
        g.elapsed + delta > MOVING_PERIOD ==> g.elapse(delta) == g.step(None),
        g.elapsed + delta <= MOVING_PERIOD ==> g.elapse(delta) == (GameModel {
            elapsed: g.elapsed + delta,
            ..g
        }),
{
}

/// Once a game is over, it runs again as soon as the time added up since
/// its end passes `RESTART_TIME`, and not before.
pub proof fn lemma_over_restarts_after_cool_down(g: GameModel, delta: int)
    requires
        g.phase == Phase::Over,
    ensures
        g.elapsed + delta > RESTART_TIME ==> g.elapse(delta) == g.restart(),
        g.elapsed + delta <= RESTART_TIME ==> g.elapse(delta).phase == Phase::Over && g.elapse(
            delta,
        ).snake == g.snake && g.elapse(delta).elapsed == g.elapsed + delta,
{
}

} // verus!
