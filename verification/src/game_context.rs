//! The game state and the operations that the player and the clock apply to it.

use vstd::prelude::*;

use crate::model::{Cell, GameView};
use crate::random::gen_range;
use crate::theorems::tick_keeps_head;
use crate::{GRID_X_SIZE, GRID_Y_SIZE};

verus! {

/// What the game is doing. `OverYes` and `OverNo` are the two positions of
/// the game-over menu's selection; `Quit` and `Restart` tell the owner of the
/// context to stop or to start over.
#[derive(Copy, Clone, PartialEq, Eq, Debug, Structural)]
pub enum GameState {
    Playing,
    Paused,
    OverYes,
    OverNo,
    Quit,
    Restart,
}

/// The direction in which the snake's head moves at the next tick.
#[derive(Copy, Clone, PartialEq, Eq, Debug, Structural)]
pub enum PlayerDirection {
    Up,
    Down,
    Right,
    Left,
}

/// A grid cell, by column and row.
#[derive(Copy, Clone, PartialEq, Eq, Debug, Structural)]
pub struct Point(pub i32, pub i32);

impl View for Point {
    type V = Cell;

    open spec fn view(&self) -> Cell {
        Cell { x: self.0 as int, y: self.1 as int }
    }
}

impl core::ops::Add<Point> for Point {
    type Output = Point;

    /// Component-wise sum. Both sums must fit in an `i32`.
    fn add(self, rhs: Point) -> (sum: Point) {
        Point(self.0 + rhs.0, self.1 + rhs.1)
    }
}

impl vstd::std_specs::ops::AddSpecImpl<Point> for Point {
    open spec fn obeys_add_spec() -> bool {
        true
    }

    open spec fn add_req(self, rhs: Point) -> bool {
        &&& i32::MIN <= self.0 + rhs.0 <= i32::MAX
        &&& i32::MIN <= self.1 + rhs.1 <= i32::MAX
    }

    open spec fn add_spec(self, rhs: Point) -> Point {
        Point((self.0 + rhs.0) as i32, (self.1 + rhs.1) as i32)
    }
}

impl Point {
    /// A cell of the grid, drawn at random: the column from
    /// `0..GRID_X_SIZE`, then the row from `0..GRID_Y_SIZE`.
    pub fn new() -> (p: Point)
        ensures
            p@.in_grid(),
    {
        let mut rng = rand::thread_rng();
        let x = gen_range(&mut rng, 0, GRID_X_SIZE);
        let y = gen_range(&mut rng, 0, GRID_Y_SIZE);
        Point(x, y)
    }
}

impl PlayerDirection {
    /// The unit vector of this direction.
    pub fn vector(&self) -> (v: Point)
        ensures
            v@ == self.delta(),
    {
        match self {
            PlayerDirection::Up => Point(0, -1),
            PlayerDirection::Down => Point(0, 1),
            PlayerDirection::Right => Point(1, 0),
            PlayerDirection::Left => Point(-1, 0),
        }
    }
}

/// The whole game: the snake, the food and what the game is doing.
pub struct GameContext {
    /// The cells that the snake covers, head first.
    pub player_position: Vec<Point>,
    /// The direction of the next step.
    pub player_direction: PlayerDirection,
    /// The cell that holds the food.
    pub food: Point,
    /// What the game is doing.
    pub state: GameState,
}

/// The cells that a sequence of points stands for, in the same order.
pub open spec fn cells(points: Seq<Point>) -> Seq<Cell> {
    points.map_values(|p: Point| p@)
}

impl View for GameContext {
    type V = GameView;

    open spec fn view(&self) -> GameView {
        GameView {
            body: cells(self.player_position@),
            direction: self.player_direction,
            food: self.food@,
            state: self.state,
        }
    }
}

impl GameContext {
    /// A fresh game with the food on `food`.
    pub fn with_food(food: Point) -> (context: GameContext)
        ensures
            context@ == GameView::initial(food@),
            context@.well_formed(),
    {
        let context = GameContext {
            player_position: vec![Point(3, 1), Point(2, 1), Point(1, 1)],
            player_direction: PlayerDirection::Right,
            state: GameState::Paused,
            food,
        };
        assert(context@.body =~= GameView::initial(food@).body);
        context
    }

    /// A fresh game with the food on a cell of the grid drawn at random.
    pub fn new() -> (context: GameContext)
        ensures
            context@ == GameView::initial(context@.food),
            context@.food.in_grid(),
            context@.well_formed(),
    {
        GameContext::with_food(Point::new())
    }

    /// Whether `cell` is one of the snake's cells.
    pub fn occupies(&self, cell: Point) -> (found: bool)
        ensures
            found == self@.body.contains(cell@),
    {
        let mut i: usize = 0;
        while i < self.player_position.len()
            invariant
                i <= self.player_position.len(),
                forall|j: int| 0 <= j < i ==> self@.body[j] != cell@,
            decreases self.player_position.len() - i,
        {
            if self.player_position[i] == cell {
                assert(self@.body[i as int] == cell@);
                return true;
            }
            i += 1;
        }
        false
    }

    /// Whether the head is strictly inside the grid: column 0 and row 0
    /// count as outside, like every cell beyond the grid.
    pub fn in_bounds(&self) -> (inside: bool)
        requires
            self@.well_formed(),
        ensures
            inside == self@.head_inside(),
    {
        let head_position = self.player_position.first().unwrap();
        head_position.0 > 0 && head_position.0 < GRID_X_SIZE && head_position.1 > 0
            && head_position.1 < GRID_Y_SIZE
    }

    /// Whether the next tick moves the head onto the food.
    pub fn will_eat(&self) -> (eats: bool)
        requires
            self@.well_formed(),
        ensures
            eats == self@.eats(),
    {
        if let GameState::Paused | GameState::OverYes | GameState::OverNo = self.state {
            return false;
        }
        if !self.in_bounds() {
            return false;
        }
        let head_position = self.player_position.first().unwrap();
        self.food == *head_position + self.player_direction.vector()
    }

    /// One tick of the game, with `fresh` as the cell that the food moves to
    /// if it is eaten at this tick.
    pub fn next_tick_with_food(&mut self, fresh: Point)
        requires
            old(self)@.well_formed(),
        ensures
            final(self)@ == old(self)@.tick(fresh@),
            final(self)@.well_formed(),
    {
        proof {
            tick_keeps_head(old(self)@, fresh@);
        }
        if let GameState::Paused | GameState::OverYes | GameState::OverNo = self.state {
            return ;
        }
        if !self.in_bounds() {
            self.state = GameState::OverYes;
            return ;
        }
        let head_position = self.player_position.first().unwrap();
        let next_head_position = *head_position + self.player_direction.vector();

        if self.food != next_head_position {
            self.player_position.pop();
        } else {
            self.food = fresh;
        }
        assert(self@.body =~= old(self)@.trail());

        if self.occupies(next_head_position) {
            self.state = GameState::OverYes;
            return ;
        }
        self.player_position.insert(0, next_head_position);
        assert(self@.body =~= seq![old(self)@.next_head()] + old(self)@.trail());
    }

    /// One tick of the game. If the head steps onto the food, the food moves
    /// to a cell of the grid drawn at random; no number is drawn otherwise.
    ///
    /// The state afterwards is that of `next_tick_with_food` for the cell
    /// that was drawn, which is then where the food is.
    pub fn next_tick(&mut self)
        requires
            old(self)@.well_formed(),
        ensures
            final(self)@ == old(self)@.tick(final(self)@.food),
            old(self)@.eats() ==> final(self)@.food.in_grid(),
            !old(self)@.eats() ==> final(self)@.food == old(self)@.food,
            final(self)@.well_formed(),
    {
        let fresh = if self.will_eat() {
            Point::new()
        } else {
            self.food
        };
        self.next_tick_with_food(fresh);
    }

    /// Sets the direction of the next step, whatever the game is doing. A
    /// turn back onto the snake's neck is taken like any other.
    pub fn set_direction(&mut self, direction: PlayerDirection)
        ensures
            final(self)@ == old(self)@.turn(direction),
    {
        self.player_direction = direction;
    }

    /// Turns the snake upwards.
    pub fn move_up(&mut self)
        ensures
            final(self)@ == old(self)@.turn(PlayerDirection::Up),
    {
        self.set_direction(PlayerDirection::Up);
    }

    /// Turns the snake downwards.
    pub fn move_down(&mut self)
        ensures
            final(self)@ == old(self)@.turn(PlayerDirection::Down),
    {
        self.set_direction(PlayerDirection::Down);
    }

    /// In the game-over menu, selects "No"; elsewhere, turns the snake to
    /// the right.
    pub fn move_right(&mut self)
        ensures
            final(self)@ == old(self)@.right(),
    {
        if let GameState::OverNo | GameState::OverYes = self.state {
            self.state = GameState::OverNo;
        } else {
            self.set_direction(PlayerDirection::Right);
        }
    }

    /// In the game-over menu, selects "Yes"; elsewhere, turns the snake to
    /// the left.
    pub fn move_left(&mut self)
        ensures
            final(self)@ == old(self)@.left(),
    {
        if let GameState::OverNo | GameState::OverYes = self.state {
            self.state = GameState::OverYes;
        } else {
            self.set_direction(PlayerDirection::Left);
        }
    }

    /// Confirms the selection of the game-over menu: "Yes" asks for a
    /// restart, "No" for the end. Outside the menu nothing happens.
    pub fn select(&mut self)
        ensures
            final(self)@ == old(self)@.select(),
    {
        if let GameState::OverYes = self.state {
            self.state = GameState::Restart;
        } else if let GameState::OverNo = self.state {
            self.state = GameState::Quit;
        }
    }

    /// Pauses a running game and resumes a paused one. Any other state stays.
    pub fn toggle_pause(&mut self)
        ensures
            final(self)@ == old(self)@.toggle_pause(),
    {
        self.state = match self.state {
            GameState::Playing => GameState::Paused,
            GameState::Paused => GameState::Playing,
            _ => self.state,
        }
    }
}

} // verus!
