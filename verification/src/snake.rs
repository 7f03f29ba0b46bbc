//! The snake: a chain of grid cells with a facing, that moves one cell at a
//! time and may grow by one cell on its next move.
//!
//! The snake reports overlap with its own cells; it does not prevent it. The
//! rules of the game decide what an overlap means.

use std::collections::VecDeque;
use vstd::prelude::*;

verus! {

/// One of the four ways a snake can face on the grid.
#[derive(Clone, Copy, Debug, PartialEq, Eq, Structural)]
pub enum Direction {
    Up,
    Down,
    Left,
    Right,
}

impl Direction {
    /// The direction that points the other way: up and down swap, left and
    /// right swap.
    pub open spec fn spec_opposite(self) -> Direction {
        match self {
            Direction::Up => Direction::Down,
            Direction::Down => Direction::Up,
            Direction::Left => Direction::Right,
            Direction::Right => Direction::Left,
        }
    }

    /// Returns the direction that points the other way.
    #[verifier::when_used_as_spec(spec_opposite)]
    pub fn opposite(self) -> (r: Direction)
        ensures
            r == self.spec_opposite(),
    {
        match self {
            Direction::Up => Direction::Down,
            Direction::Down => Direction::Up,
            Direction::Left => Direction::Right,
            Direction::Right => Direction::Left,
        }
    }
}

/// The cell one step away from `cell` towards `d`. Rows are counted
/// downwards, so `Up` lowers `y`.
pub open spec fn step(cell: (int, int), d: Direction) -> (int, int) {
    match d {
        Direction::Up => (cell.0, cell.1 - 1),
        Direction::Down => (cell.0, cell.1 + 1),
        Direction::Left => (cell.0 - 1, cell.1),
        Direction::Right => (cell.0 + 1, cell.1),
    }
}

/// Whether both coordinates of `cell` can be held in an `i32`.
pub open spec fn cell_fits(cell: (int, int)) -> bool {
    &&& i32::MIN <= cell.0 <= i32::MAX
    &&& i32::MIN <= cell.1 <= i32::MAX
}

/// A stored cell as a pair of mathematical integers.
pub open spec fn cell_of(c: (i32, i32)) -> (int, int) {
    (c.0 as int, c.1 as int)
}

/// A sequence of stored cells as a sequence of pairs of mathematical integers.
pub open spec fn cells_of(s: Seq<(i32, i32)>) -> Seq<(int, int)> {
    Seq::new(s.len(), |i: int| cell_of(s[i]))
}

/// What a snake is: its cells from tail (first) to head (last), its facing,
/// and whether its next move keeps the tail.
pub struct SnakeModel {
    pub cells: Seq<(int, int)>,
    pub facing: Direction,
    pub growing: bool,
}

impl SnakeModel {
    /// A snake always has a head.
    pub open spec fn wf(self) -> bool {
        self.cells.len() > 0
    }

    /// The head: the cell written last.
    pub open spec fn head(self) -> (int, int) {
        self.cells.last()
    }

    /// The cells that will still be occupied once the next move has been
    /// made: all of them while growth is pending, all but the tail otherwise.
    pub open spec fn staying(self) -> Seq<(int, int)> {
        if self.growing {
            self.cells
        } else {
            self.cells.skip(1)
        }
    }

    /// The cell the head would reach by one step towards `dir`, or towards
    /// the current facing where `dir` is `None`.
    pub open spec fn next_head(self, dir: Option<Direction>) -> (int, int) {
        step(
            self.head(),
            match dir {
                Some(d) => d,
                None => self.facing,
            },
        )
    }

    /// The facing that a move asked for with `dir` takes: `dir` itself,
    /// unless it is missing or is the exact reverse of the current facing.
    pub open spec fn steered(self, dir: Option<Direction>) -> Direction {
        match dir {
            Some(d) => if d == self.facing.spec_opposite() {
                self.facing
            } else {
                d
            },
            None => self.facing,
        }
    }

    /// Whether `cell` is one of the snake's cells.
    pub open spec fn occupies(self, cell: (int, int)) -> bool {
        self.cells.contains(cell)
    }

    /// Whether a head moving into `cell` would run into the snake: `cell` is
    /// one of the cells that stay. The tail is left out when the move is
    /// about to vacate it.
    pub open spec fn overlap(self, cell: (int, int)) -> bool {
        self.staying().contains(cell)
    }

    /// The snake after one move asked for with `dir`.
    pub open spec fn advance(self, dir: Option<Direction>) -> SnakeModel {
        let d = self.steered(dir);
        SnakeModel { cells: self.staying().push(step(self.head(), d)), facing: d, growing: false }
    }

    /// The snake with growth pending: its next move keeps the tail.
    pub open spec fn grow_on_next_advance(self) -> SnakeModel {
        SnakeModel { growing: true, ..self }
    }
}

/// A snake on a grid of `i32` coordinates.
pub struct Snake {
    segments: VecDeque<(i32, i32)>,
    direction: Direction,
    growing: bool,
}

impl View for Snake {
    type V = SnakeModel;

    closed spec fn view(&self) -> SnakeModel {
        SnakeModel {
            cells: cells_of(self.segments@),
            facing: self.direction,
            growing: self.growing,
        }
    }
}

impl Snake {
    /// The snake has at least one cell.
    pub open spec fn wf(&self) -> bool {
        self@.wf()
    }

    /// A snake of one cell at `(x, y)`, facing right, with no growth pending.
    pub fn new(x: i32, y: i32) -> (r: Snake)
        ensures
            r.wf(),
            r@ == (SnakeModel {
                cells: seq![(x as int, y as int)],
                facing: Direction::Right,
                growing: false,
            }),
    {
        let mut segments: VecDeque<(i32, i32)> = VecDeque::new();
        segments.push_back((x, y));
        let r = Snake { segments, direction: Direction::Right, growing: false };
        assert(r@.cells =~= seq![(x as int, y as int)]);
        r
    }

    /// The number of cells.
    pub fn len(&self) -> (n: usize)
        ensures
            n == self@.cells.len(),
    {
        self.segments.len()
    }

    /// The head's cell.
    pub fn head_position(&self) -> (r: (i32, i32))
        requires
            self.wf(),
        ensures
            cell_of(r) == self@.head(),
    {
        let n = self.segments.len();
        self.segments[n - 1]
    }

    /// The current facing.
    pub fn head_direction(&self) -> (r: Direction)
        ensures
            r == self@.facing,
    {
        self.direction
    }

    /// Whether the next move keeps the tail.
    pub fn is_growing(&self) -> (r: bool)
        ensures
            r == self@.growing,
    {
        self.growing
    }

    /// The cells from tail to head.
    pub fn segments(&self) -> (r: Vec<(i32, i32)>)
        ensures
            cells_of(r@) == self@.cells,
    {
        let mut out: Vec<(i32, i32)> = Vec::new();
        let n = self.segments.len();
        let mut i: usize = 0;
        while i < n
            invariant
                n == self.segments@.len(),
                i <= n,
                out@ == self.segments@.take(i as int),
            decreases n - i,
        {
            out.push(self.segments[i]);
            assert(self.segments@.take(i as int).push(self.segments@[i as int])
                =~= self.segments@.take(i as int + 1));
            i += 1;
        }
        assert(out@ =~= self.segments@);
        out
    }

    /// The cell the head would reach by one step towards `dir`, or towards
    /// the current facing where `dir` is `None`. Nothing is changed.
    ///
    /// A reverse `dir` is taken as it is here, although `advance` would not
    /// follow it.
    pub fn next_head(&self, dir: Option<Direction>) -> (r: (i32, i32))
        requires
            self.wf(),
            cell_fits(self@.next_head(dir)),
        ensures
            cell_of(r) == self@.next_head(dir),
    {
        let (x, y) = self.head_position();
        let d = match dir {
            Some(d) => d,
            None => self.direction,
        };
        match d {
            Direction::Up => (x, y - 1),
            Direction::Down => (x, y + 1),
            Direction::Left => (x - 1, y),
            Direction::Right => (x + 1, y),
        }
    }

    /// Whether `(x, y)` is one of the snake's cells, the tail included.
    pub fn occupies(&self, x: i32, y: i32) -> (r: bool)
        ensures
            r == self@.occupies((x as int, y as int)),
    {
        let r = self.found_from(0, x, y);
        assert(self@.cells.skip(0) =~= self@.cells);
        r
    }

    /// Whether a head moving into `(x, y)` would run into the snake. The tail
    /// does not count unless growth is pending, since the move vacates it.
    pub fn overlap(&self, x: i32, y: i32) -> (r: bool)
        requires
            self.wf(),
        ensures
            r == self@.overlap((x as int, y as int)),
    {
        if self.growing {
            let r = self.found_from(0, x, y);
            assert(self@.cells.skip(0) =~= self@.cells);
            r
        } else {
            self.found_from(1, x, y)
        }
    }

    /// Whether `(x, y)` is among the cells from position `start` on.
    fn found_from(&self, start: usize, x: i32, y: i32) -> (r: bool)
        requires
            start <= self@.cells.len(),
        ensures
            r == self@.cells.skip(start as int).contains((x as int, y as int)),
    {
        let ghost cell = (x as int, y as int);
        let ghost rest = self@.cells.skip(start as int);
        let n = self.segments.len();
        let mut i: usize = start;
        while i < n
            invariant
                n == self.segments@.len(),
                start <= i <= n,
                cell == (x as int, y as int),
                rest == self@.cells.skip(start as int),
                forall|j: int| 0 <= j < i - start ==> rest[j] != cell,
            decreases n - i,
        {
            let c = self.segments[i];
            if c.0 == x && c.1 == y {
                assert(rest[i - start] == cell);
                return true;
            }
            i += 1;
        }
        false
    }

    /// Makes one move. Where `dir` is given and is not the exact reverse of
    /// the current facing, it becomes the facing; a reverse is not followed.
    /// The head moves one cell towards the facing. The tail is dropped,
    /// unless growth is pending: then it stays for this one move, and no
    /// growth is pending afterwards.
    pub fn advance(&mut self, dir: Option<Direction>)
        requires
            old(self).wf(),
            cell_fits(old(self)@.advance(dir).head()),
        ensures
            final(self).wf(),
            final(self)@ == old(self)@.advance(dir),
            final(self)@.cells.len() == old(self)@.cells.len() + (if old(self)@.growing {
                1int
            } else {
                0int
            }),
    {
        let d = match dir {
            Some(d) => if d == self.direction.opposite() {
                self.direction
            } else {
                d
            },
            None => self.direction,
        };
        let (x, y) = self.head_position();
        let head = match d {
            Direction::Up => (x, y - 1),
            Direction::Down => (x, y + 1),
            Direction::Left => (x - 1, y),
            Direction::Right => (x + 1, y),
        };
        self.direction = d;
        self.segments.push_back(head);
        if self.growing {
            self.growing = false;
        } else {
            self.segments.pop_front();
        }
        assert(final(self)@.cells =~= old(self)@.advance(dir).cells);
    }

    /// Makes growth pending: the next move keeps the tail, so the snake ends
    /// up one cell longer.
    pub fn grow_on_next_advance(&mut self)
        ensures
            final(self)@ == old(self)@.grow_on_next_advance(),
            final(self).wf() == old(self).wf(),
    {
        self.growing = true;
    }
}

/// Reversing a direction twice gives the direction back.
pub proof fn lemma_opposite_is_involution(d: Direction)
    ensures
        d.spec_opposite().spec_opposite() == d,
{
}

/// A move leaves the number of cells as it was, unless growth was pending:
/// then there is exactly one more. No growth is pending after a move.
pub proof fn lemma_advance_length(s: SnakeModel, dir: Option<Direction>)
    requires
        s.wf(),
    ensures
        s.advance(dir).wf(),
        !s.advance(dir).growing,
        s.growing ==> s.advance(dir).cells.len() == s.cells.len() + 1,
        !s.growing ==> s.advance(dir).cells.len() == s.cells.len(),
{
}

/// A reverse request does not turn the snake: it moves on as if no direction
/// had been given.
pub proof fn lemma_advance_ignores_reversal(s: SnakeModel)
    ensures
        s.advance(Some(s.facing.spec_opposite())) == s.advance(None),
{
}

/// Where the request is not a reverse, the head lands on the cell that
/// `next_head` gave for the same request.
pub proof fn lemma_advance_reaches_next_head(s: SnakeModel, dir: Option<Direction>)
    requires
        s.wf(),
        dir != Some(s.facing.spec_opposite()),
    ensures
        s.advance(dir).head() == s.next_head(dir),
{
}

} // verus!
