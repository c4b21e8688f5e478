//! The game loop logic: input-to-direction mapping and tick dispatch.

use crate::snake::advanced_body;
use crate::snake::can_advance;
use crate::snake::Cell;
use crate::snake::Direction;
use crate::snake::Snake;
use crate::snake::SnakeView;
use vstd::prelude::*;

verus! {

/// Whether the loop is still simulating or has reached its terminal state.
#[derive(Clone, Copy, Debug, PartialEq, Eq, Structural)]
pub enum LoopState {
    Running,
    Stopped,
}

/// One key press as the loop sees it: one of the four directional keys, or
/// any other key, which the game ignores.
#[derive(Clone, Copy, Debug, PartialEq, Eq, Structural)]
pub enum InputKey {
    Up,
    Down,
    Left,
    Right,
    Other,
}

/// The direction a key requests, if any: each of the four directional keys
/// maps to its direction, every other key to nothing.
pub open spec fn key_direction(key: InputKey) -> Option<Direction> {
    match key {
        InputKey::Up => Some(Direction::Up),
        InputKey::Down => Some(Direction::Down),
        InputKey::Left => Some(Direction::Left),
        InputKey::Right => Some(Direction::Right),
        InputKey::Other => None,
    }
}

/// The model of the whole game: the snake and whether the loop still runs.
pub struct GameView {
    pub snake: SnakeView,
    pub state: LoopState,
}

/// The game: the single snake of the process and the loop state driving it.
/// The loop starts in `Running` and moves to `Stopped` exactly when the
/// snake cannot advance; `Stopped` is terminal.
pub struct Game {
    snake: Snake,
    state: LoopState,
}

impl View for Game {
    type V = GameView;

    closed spec fn view(&self) -> GameView {
        GameView { snake: self.snake@, state: self.state }
    }
}

impl Game {
    /// A game is well formed when its snake is.
    pub open spec fn wf(&self) -> bool {
        self@.snake.wf()
    }

    /// A new game: the fixed starting snake and a running loop.
    pub fn new() -> (g: Game)
        ensures
            g.wf(),
            g@.state == LoopState::Running,
            g@.snake.dir == Direction::Right,
            g@.snake.body == seq![(Cell { col: 0, row: 0 }), (Cell { col: 0, row: 1 })],
    {
        Game { snake: Snake::new(), state: LoopState::Running }
    }

    /// A game over a caller-chosen starting snake, with the loop running.
    pub fn with_snake(snake: Snake) -> (g: Game)
        requires
            snake.wf(),
        ensures
            g.wf(),
            g@.state == LoopState::Running,
            g@.snake == snake@,
    {
        Game { snake, state: LoopState::Running }
    }

    /// One update tick. While the loop runs, the snake advances one step; if
    /// it cannot (the next head cell lies off the grid or on the body), the
    /// snake stays as it is and the loop stops for good. A tick on a stopped
    /// loop changes nothing. Returns whether the loop still runs afterwards.
    pub fn on_update_tick(&mut self) -> (running: bool)
        requires
            old(self).wf(),
        ensures
            final(self).wf(),
            running == (final(self)@.state == LoopState::Running),
            final(self)@.snake.dir == old(self)@.snake.dir,
            final(self)@.snake.body.len() == old(self)@.snake.body.len(),
            old(self)@.state == LoopState::Stopped ==> final(self)@ == old(self)@,
            old(self)@.state == LoopState::Running && can_advance(old(self)@.snake) ==> {
                &&& final(self)@.state == LoopState::Running
                &&& final(self)@.snake.body == advanced_body(old(self)@.snake)
            },
            old(self)@.state == LoopState::Running && !can_advance(old(self)@.snake) ==> {
                &&& final(self)@.state == LoopState::Stopped
                &&& final(self)@.snake.body == old(self)@.snake.body
            },
    {
        match self.state {
            LoopState::Stopped => false,
            LoopState::Running => {
                if self.snake.advance() {
                    true
                } else {
                    self.state = LoopState::Stopped;
                    false
                }
            },
        }
    }

    /// One input tick. A directional key asks for its direction, which the
    /// snake takes unless it is the exact opposite of the current heading;
    /// that request, and any other key, is silently ignored. The body and
    /// the loop state are untouched.
    pub fn on_input(&mut self, key: InputKey)
        ensures
            final(self)@.state == old(self)@.state,
            final(self)@.snake.body == old(self)@.snake.body,
            final(self)@.snake.dir == (match key_direction(key) {
                Some(d) => if d == old(self)@.snake.dir.spec_opposite() {
                    old(self)@.snake.dir
                } else {
                    d
                },
                None => old(self)@.snake.dir,
            }),
    {
        match key {
            InputKey::Up => self.snake.set_direction(Direction::Up),
            InputKey::Down => self.snake.set_direction(Direction::Down),
            InputKey::Left => self.snake.set_direction(Direction::Left),
            InputKey::Right => self.snake.set_direction(Direction::Right),
            InputKey::Other => (),
        }
    }

    /// One render tick: a snapshot of the body for the renderer, head first.
    /// Purely observational: the game is untouched, and without an
    /// intervening update tick every snapshot is the same sequence.
    pub fn on_render_tick(&self) -> (cells: Vec<Cell>)
        ensures
            cells@ == self@.snake.body,
    {
        self.snake.render_cells()
    }

    /// Whether the loop still runs.
    pub fn state(&self) -> (s: LoopState)
        ensures
            s == self@.state,
    {
        self.state
    }

    /// The snake's current heading.
    pub fn direction(&self) -> (d: Direction)
        ensures
            d == self@.snake.dir,
    {
        self.snake.direction()
    }
}

} // verus!
