//! The mathematical model of the game: cells with unbounded coordinates and
//! the state of a game as a value, with every transition as a function.

use vstd::prelude::*;

use crate::game_context::{GameState, PlayerDirection};
use crate::{GRID_X_SIZE, GRID_Y_SIZE};

verus! {

/// One cell of the plane, by column and row. Rows grow downwards.
pub struct Cell {
    pub x: int,
    pub y: int,
}

impl Cell {
    /// The cell lies on the grid: `0 <= x < GRID_X_SIZE` and `0 <= y < GRID_Y_SIZE`.
    pub open spec fn in_grid(self) -> bool {
        0 <= self.x < GRID_X_SIZE && 0 <= self.y < GRID_Y_SIZE
    }

    /// The cell lies strictly inside the grid's left and top edges: a head on
    /// column 0 or on row 0 already counts as having left the grid.
    pub open spec fn inside(self) -> bool {
        0 < self.x < GRID_X_SIZE && 0 < self.y < GRID_Y_SIZE
    }

    /// The cell is one that a snake's head can come to stand on: a cell of
    /// the grid, or one just beyond its right or lower edge.
    pub open spec fn within_reach(self) -> bool {
        0 <= self.x <= GRID_X_SIZE && 0 <= self.y <= GRID_Y_SIZE
    }

    /// Component-wise sum.
    pub open spec fn plus(self, other: Cell) -> Cell {
        Cell { x: self.x + other.x, y: self.y + other.y }
    }
}

impl PlayerDirection {
    /// The unit displacement of one step in this direction.
    pub open spec fn delta(self) -> Cell {
        match self {
            PlayerDirection::Up => Cell { x: 0, y: -1 },
            PlayerDirection::Down => Cell { x: 0, y: 1 },
            PlayerDirection::Right => Cell { x: 1, y: 0 },
            PlayerDirection::Left => Cell { x: -1, y: 0 },
        }
    }
}

/// The state of a game as a mathematical value.
pub struct GameView {
    /// The cells that the snake covers, head first.
    pub body: Seq<Cell>,
    /// The direction of the next step.
    pub direction: PlayerDirection,
    /// The cell that holds the food.
    pub food: Cell,
    /// What the game is doing.
    pub state: GameState,
}

impl GameView {
    /// A fresh game with the food on `food`: a snake of three cells on row 1
    /// that looks to the right, and the game paused.
    pub open spec fn initial(food: Cell) -> GameView {
        GameView {
            body: seq![Cell { x: 3, y: 1 }, Cell { x: 2, y: 1 }, Cell { x: 1, y: 1 }],
            direction: PlayerDirection::Right,
            food,
            state: GameState::Paused,
        }
    }

    /// The snake has a head.
    pub open spec fn well_formed(self) -> bool {
        self.body.len() > 0
    }

    /// Every cell of the snake is within reach of a head (see
    /// `Cell::within_reach`).
    pub open spec fn within_reach(self) -> bool {
        forall|i: int| 0 <= i < self.body.len() ==> (#[trigger] self.body[i]).within_reach()
    }

    /// The snake's head: the first cell of the body.
    pub open spec fn head(self) -> Cell {
        self.body[0]
    }

    /// The game-over menu is shown.
    pub open spec fn in_menu(self) -> bool {
        self.state == GameState::OverYes || self.state == GameState::OverNo
    }

    /// A tick acts on this state: the game is neither paused nor in the
    /// game-over menu.
    pub open spec fn ticking(self) -> bool {
        self.state != GameState::Paused && !self.in_menu()
    }

    /// The head is strictly inside the grid (see `Cell::inside`).
    pub open spec fn head_inside(self) -> bool {
        self.head().inside()
    }

    /// The cell that the head would step onto.
    pub open spec fn next_head(self) -> Cell {
        self.head().plus(self.direction.delta())
    }

    /// A tick takes a step: it acts on this state and the head is inside.
    pub open spec fn steps(self) -> bool {
        self.ticking() && self.head_inside()
    }

    /// A tick takes a step onto the food.
    pub open spec fn eats(self) -> bool {
        self.steps() && self.next_head() == self.food
    }

    /// The cells of the body that outlive a step: all of them when the step
    /// leads onto the food, all but the tail otherwise.
    pub open spec fn trail(self) -> Seq<Cell> {
        if self.next_head() == self.food {
            self.body
        } else {
            self.body.drop_last()
        }
    }

    /// A step would run the head into the snake itself.
    pub open spec fn collides(self) -> bool {
        self.trail().contains(self.next_head())
    }

    /// The state after one tick, where `fresh` is the cell that the food
    /// moves to if it is eaten.
    ///
    /// A paused game and one in the game-over menu stay as they are. A head
    /// that is not inside the grid ends the game and nothing else changes.
    /// Otherwise the tail is dropped, or the food is moved if the step leads
    /// onto it; then a step into the snake ends the game, and any other step
    /// puts the new head in front of the body.
    pub open spec fn tick(self, fresh: Cell) -> GameView {
        if !self.ticking() {
            self
        } else if !self.head_inside() {
            GameView { state: GameState::OverYes, ..self }
        } else {
            let food = if self.next_head() == self.food { fresh } else { self.food };
            if self.collides() {
                GameView { body: self.trail(), food, state: GameState::OverYes, ..self }
            } else {
                GameView { body: seq![self.next_head()] + self.trail(), food, ..self }
            }
        }
    }

    /// The state after the direction was set to `direction`.
    pub open spec fn turn(self, direction: PlayerDirection) -> GameView {
        GameView { direction, ..self }
    }

    /// The state after the "right" key: in the game-over menu it selects
    /// "No", elsewhere it turns the snake to the right.
    pub open spec fn right(self) -> GameView {
        if self.in_menu() {
            GameView { state: GameState::OverNo, ..self }
        } else {
            self.turn(PlayerDirection::Right)
        }
    }

    /// The state after the "left" key: in the game-over menu it selects
    /// "Yes", elsewhere it turns the snake to the left.
    pub open spec fn left(self) -> GameView {
        if self.in_menu() {
            GameView { state: GameState::OverYes, ..self }
        } else {
            self.turn(PlayerDirection::Left)
        }
    }

    /// The state after the menu's selection was confirmed: "Yes" asks for a
    /// restart, "No" for the end; outside the menu nothing happens.
    pub open spec fn select(self) -> GameView {
        match self.state {
            GameState::OverYes => GameView { state: GameState::Restart, ..self },
            GameState::OverNo => GameView { state: GameState::Quit, ..self },
            _ => self,
        }
    }

    /// The state after the pause switch: a running game pauses, a paused one
    /// runs, any other state stays.
    pub open spec fn toggle_pause(self) -> GameView {
        match self.state {
            GameState::Playing => GameView { state: GameState::Paused, ..self },
            GameState::Paused => GameView { state: GameState::Playing, ..self },
            _ => self,
        }
    }
}

} // verus!
