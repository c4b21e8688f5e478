//! The snake itself: its body on the grid, its heading, and the rules for
//! turning, moving and self-collision.

use std::collections::VecDeque;
use vstd::prelude::*;

verus! {

/// Number of columns of the fixed play field.
pub const GRID_COLS: u32 = 30;

/// Number of rows of the fixed play field.
pub const GRID_ROWS: u32 = 30;

/// One grid coordinate occupied by part of the snake: column, then row.
/// Row 0 is the top of the screen, so moving up decreases the row.
#[derive(Clone, Copy, Debug, PartialEq, Eq, Structural)]
pub struct Cell {
    pub col: u32,
    pub row: u32,
}

/// The heading of the snake.
#[derive(Clone, Copy, Debug, PartialEq, Eq, Structural)]
pub enum Direction {
    Right,
    Left,
    Up,
    Down,
}

impl Direction {
    /// The direction exactly opposite to `self`.
    pub open spec fn spec_opposite(self) -> Direction {
        match self {
            Direction::Right => Direction::Left,
            Direction::Left => Direction::Right,
            Direction::Up => Direction::Down,
            Direction::Down => Direction::Up,
        }
    }

    /// The direction exactly opposite to `self`.
    #[verifier::when_used_as_spec(spec_opposite)]
    pub fn opposite(self) -> (r: Direction)
        ensures
            r == self.spec_opposite(),
    {
        match self {
            Direction::Right => Direction::Left,
            Direction::Left => Direction::Right,
            Direction::Up => Direction::Down,
            Direction::Down => Direction::Up,
        }
    }
}

/// The mathematical model of a snake: the cells of its body from head to
/// tail, and its current heading.
pub struct SnakeView {
    pub body: Seq<Cell>,
    pub dir: Direction,
}

/// Whether a cell lies on the play field.
pub open spec fn cell_on_grid(c: Cell) -> bool {
    c.col < GRID_COLS && c.row < GRID_ROWS
}

impl SnakeView {
    /// A snake is well formed when its body holds at least one cell and
    /// every cell lies on the play field.
    pub open spec fn wf(&self) -> bool {
        &&& self.body.len() >= 1
        &&& forall|i: int| 0 <= i < self.body.len() ==> cell_on_grid(#[trigger] self.body[i])
    }
}

/// The coordinates the head would move to, as unbounded integers, so that a
/// step off the left or top edge of the grid is representable.
pub open spec fn next_head_of(s: SnakeView) -> (int, int) {
    let h = s.body[0];
    match s.dir {
        Direction::Left => (h.col - 1, h.row as int),
        Direction::Right => (h.col + 1, h.row as int),
        Direction::Up => (h.col as int, h.row - 1),
        Direction::Down => (h.col as int, h.row + 1),
    }
}

/// Whether signed coordinates lie on the play field.
pub open spec fn on_grid(c: int, r: int) -> bool {
    0 <= c < GRID_COLS && 0 <= r < GRID_ROWS
}

/// Whether the snake can take a step: the cell the head would move to lies
/// on the grid and is not occupied by the body. The grid edge acts as a
/// wall: a step off the grid is refused exactly like a self-collision, and
/// the game ends there.
pub open spec fn can_advance(s: SnakeView) -> bool {
    let (c, r) = next_head_of(s);
    on_grid(c, r) && !s.body.contains(Cell { col: c as u32, row: r as u32 })
}

/// The body after a successful step: the new head pushed at the front and
/// the tail cell dropped, so the length never changes.
pub open spec fn advanced_body(s: SnakeView) -> Seq<Cell> {
    let (c, r) = next_head_of(s);
    seq![Cell { col: c as u32, row: r as u32 }] + s.body.drop_last()
}

/// The anti-reversal invariant: whatever direction is requested, the heading
/// that `set_direction` leaves behind — the requested one, or the old one
/// where the request was its exact opposite — is never the exact opposite of
/// the heading before the call.
pub proof fn lemma_no_reversal(before: Direction, requested: Direction)
    ensures
        (if requested == before.spec_opposite() {
            before
        } else {
            requested
        }) != before.spec_opposite(),
{
}

/// The boundary policy, stated once for every state: a step that would
/// leave the play field is refused. Whenever the head stands on the left
/// edge with the heading Left — and likewise for the top, right and bottom
/// edges — the snake cannot advance, so `advance` returns `false` and
/// changes nothing, deterministically.
pub proof fn lemma_boundary_step_refused(s: SnakeView)
    requires
        s.wf(),
        (s.dir == Direction::Left && s.body[0].col == 0) || (s.dir == Direction::Up
            && s.body[0].row == 0) || (s.dir == Direction::Right && s.body[0].col == GRID_COLS - 1)
            || (s.dir == Direction::Down && s.body[0].row == GRID_ROWS - 1),
    ensures
        !can_advance(s),
{
}

/// Rendering is idempotent: any two snapshots of the same snake state are
/// identical, since `render_cells` leaves the snake untouched and promises
/// that each snapshot equals the body itself.
pub proof fn lemma_render_idempotent(s: SnakeView, first: Seq<Cell>, second: Seq<Cell>)
    requires
        first == s.body,
        second == s.body,
    ensures
        first == second,
{
}

/// The snake: an ordered body of grid cells, front = head and back = tail,
/// and the current heading.
pub struct Snake {
    body: VecDeque<Cell>,
    dir: Direction,
}

impl View for Snake {
    type V = SnakeView;

    closed spec fn view(&self) -> SnakeView {
        SnakeView { body: self.body@, dir: self.dir }
    }
}

impl Snake {
    /// A snake is well formed when its body holds at least one cell; the
    /// starting snake has two.
    pub open spec fn wf(&self) -> bool {
        self@.wf()
    }

    /// The snake a new game starts with: head in the top left corner, one
    /// tail cell below it, heading right.
    pub fn new() -> (s: Snake)
        ensures
            s.wf(),
            s@.body == seq![(Cell { col: 0, row: 0 }), (Cell { col: 0, row: 1 })],
            s@.dir == Direction::Right,
    {
        let mut body: VecDeque<Cell> = VecDeque::new();
        body.push_back(Cell { col: 0, row: 0 });
        body.push_back(Cell { col: 0, row: 1 });
        let s = Snake { body, dir: Direction::Right };
        proof {
            assert(s@.body =~= seq![(Cell { col: 0u32, row: 0u32 }), (Cell { col: 0u32, row: 1u32 })]);
        }
        s
    }

    /// A snake with the given body (front = head) and heading. An empty body
    /// is no snake: construction demands at least one cell, and every cell
    /// must lie on the play field.
    pub fn with_body(body: Vec<Cell>, dir: Direction) -> (s: Snake)
        requires
            body@.len() >= 1,
            forall|i: int| 0 <= i < body@.len() ==> cell_on_grid(#[trigger] body@[i]),
        ensures
            s.wf(),
            s@.body == body@,
            s@.dir == dir,
    {
        let mut cells: VecDeque<Cell> = VecDeque::new();
        let mut i: usize = 0;
        while i < body.len()
            invariant
                i <= body@.len(),
                cells@ == body@.subrange(0, i as int),
            decreases body@.len() - i,
        {
            cells.push_back(body[i]);
            proof {
                assert(cells@ =~= body@.subrange(0, i + 1 as int));
            }
            i += 1;
        }
        proof {
            assert(cells@ =~= body@);
        }
        Snake { body: cells, dir }
    }

    /// The current heading.
    pub fn direction(&self) -> (d: Direction)
        ensures
            d == self@.dir,
    {
        self.dir
    }

    /// The number of cells of the body.
    pub fn len(&self) -> (n: usize)
        ensures
            n == self@.body.len(),
    {
        self.body.len()
    }

    /// Point the snake at `requested`, unless that is the exact opposite of
    /// the current heading: a reversal request is silently ignored and the
    /// heading kept, so the snake can never be turned straight back onto
    /// itself. The body is untouched either way.
    pub fn set_direction(&mut self, requested: Direction)
        ensures
            final(self)@.body == old(self)@.body,
            final(self)@.dir == (if requested == old(self)@.dir.spec_opposite() {
                old(self)@.dir
            } else {
                requested
            }),
    {
        if !(requested == self.dir.opposite()) {
            self.dir = requested;
        }
    }

    /// True exactly when `cell` is one of the cells the body occupies now.
    pub fn is_self_colliding(&self, cell: Cell) -> (r: bool)
        ensures
            r == self@.body.contains(cell),
    {
        let mut i: usize = 0;
        while i < self.body.len()
            invariant
                i <= self@.body.len(),
                forall|j: int| 0 <= j < i ==> self@.body[j] != cell,
            decreases self@.body.len() - i,
        {
            if self.body[i] == cell {
                proof {
                    assert(self@.body[i as int] == cell);
                }
                return true;
            }
            i += 1;
        }
        false
    }

    /// One step of the simulation. The head shifts one cell along the
    /// current heading (left and right change the column, up and down the
    /// row, with row 0 at the top). If that cell lies off the grid or on the
    /// body itself, nothing moves and the result is `false`: the caller must
    /// treat this as the end of the game. Otherwise the new head is pushed
    /// at the front, the tail cell is dropped in the same step, and the
    /// result is `true`. The body length and the heading never change.
    pub fn advance(&mut self) -> (moved: bool)
        requires
            old(self).wf(),
        ensures
            final(self).wf(),
            final(self)@.dir == old(self)@.dir,
            final(self)@.body.len() == old(self)@.body.len(),
            moved == can_advance(old(self)@),
            moved ==> final(self)@.body == advanced_body(old(self)@),
            !moved ==> final(self)@.body == old(self)@.body,
    {
        let head: Cell = self.body[0];
        let new_head: Cell;
        match self.dir {
            Direction::Left => {
                if head.col == 0 {
                    return false;
                }
                new_head = Cell { col: head.col - 1, row: head.row };
            }
            Direction::Right => {
                if head.col >= GRID_COLS - 1 {
                    return false;
                }
                new_head = Cell { col: head.col + 1, row: head.row };
            }
            Direction::Up => {
                if head.row == 0 {
                    return false;
                }
                new_head = Cell { col: head.col, row: head.row - 1 };
            }
            Direction::Down => {
                if head.row >= GRID_ROWS - 1 {
                    return false;
                }
                new_head = Cell { col: head.col, row: head.row + 1 };
            }
        }
        if self.is_self_colliding(new_head) {
            return false;
        }
        self.body.push_front(new_head);
        self.body.pop_back();
        proof {
            assert(self@.body =~= advanced_body(old(self)@));
            assert forall|i: int| 0 <= i < self@.body.len() implies cell_on_grid(
                #[trigger] self@.body[i],
            ) by {
                if i >= 1 {
                    assert(self@.body[i] == old(self)@.body[i - 1]);
                }
            }
        }
        true
    }

    /// A snapshot of the body for the presentation layer, head first. It
    /// equals the body and the snake is untouched, so repeated snapshots
    /// without an intervening `advance` are identical.
    pub fn render_cells(&self) -> (cells: Vec<Cell>)
        ensures
            cells@ == self@.body,
    {
        let mut cells: Vec<Cell> = Vec::new();
        let mut i: usize = 0;
        while i < self.body.len()
            invariant
                i <= self@.body.len(),
                cells@ == self@.body.subrange(0, i as int),
            decreases self@.body.len() - i,
        {
            cells.push(self.body[i]);
            proof {
                assert(cells@ =~= self@.body.subrange(0, i + 1 as int));
            }
            i += 1;
        }
        proof {
            assert(cells@ =~= self@.body);
        }
        cells
    }
}

} // verus!
