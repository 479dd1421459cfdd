//! The decisions of the game loop: what a key does to the game, and what the
//! end of a frame does. The loop itself, which polls for keys, waits and
//! draws, belongs to the program that owns the window.

use vstd::prelude::*;

use crate::game_context::{GameContext, GameState, PlayerDirection, Point};
use crate::model::{Cell, GameView};

verus! {

/// A key of the keyboard, as far as the game tells keys apart.
#[derive(Copy, Clone, PartialEq, Eq, Debug, Structural)]
pub enum Key {
    W,
    A,
    S,
    D,
    Up,
    Left,
    Down,
    Right,
    Space,
    Return,
    /// Any other key.
    Other,
}

/// The clock ticks once in this many frames.
pub const FRAMES_PER_TICK: u32 = 10;

/// The game after `key` went down: W, A, S, D and the arrows steer (left and
/// right also move the selection of the game-over menu), the space bar is the
/// pause switch, the return key confirms the menu's selection, and any other
/// key does nothing.
pub open spec fn press(game: GameView, key: Key) -> GameView {
    match key {
        Key::W | Key::Up => game.turn(PlayerDirection::Up),
        Key::A | Key::Left => game.left(),
        Key::S | Key::Down => game.turn(PlayerDirection::Down),
        Key::D | Key::Right => game.right(),
        Key::Space => game.toggle_pause(),
        Key::Return => game.select(),
        Key::Other => game,
    }
}

/// How a frame ends: the game, the frame counter, and whether the loop goes
/// on.
pub struct FrameEnd {
    pub game: GameView,
    pub frame_counter: int,
    pub running: bool,
}

/// The end of a frame that began with `game` and `frame_counter`, where
/// `fresh` is the cell for the food of a new game or for food that is eaten.
///
/// A game that asked for the end stops the loop and nothing changes. One that
/// asked for a restart is replaced by a fresh game. Then the frame is
/// counted, and every `FRAMES_PER_TICK`-th frame ticks the clock and starts
/// the count again.
pub open spec fn frame_end(game: GameView, frame_counter: int, fresh: Cell) -> FrameEnd {
    if game.state == GameState::Quit {
        FrameEnd { game, frame_counter, running: false }
    } else {
        let game = if game.state == GameState::Restart {
            GameView::initial(fresh)
        } else {
            game
        };
        if (frame_counter + 1) % (FRAMES_PER_TICK as int) == 0 {
            FrameEnd { game: game.tick(fresh), frame_counter: 0, running: true }
        } else {
            FrameEnd { game, frame_counter: frame_counter + 1, running: true }
        }
    }
}

/// The end of the frame draws a cell at random: it starts a new game, or it
/// ticks the clock and the snake eats.
pub open spec fn frame_draws(game: GameView, frame_counter: int) -> bool {
    ||| game.state == GameState::Restart
    ||| game.state != GameState::Quit && (frame_counter + 1) % (FRAMES_PER_TICK as int) == 0
        && game.eats()
}

/// Applies a key that went down to the game.
pub fn key_down(context: &mut GameContext, key: Key)
    ensures
        final(context)@ == press(old(context)@, key),
{
    match key {
        Key::W | Key::Up => context.move_up(),
        Key::A | Key::Left => context.move_left(),
        Key::S | Key::Down => context.move_down(),
        Key::D | Key::Right => context.move_right(),
        Key::Space => context.toggle_pause(),
        Key::Return => context.select(),
        Key::Other => {},
    }
}

/// Ends a frame, with `fresh` as the cell for the food of a new game or for
/// food that is eaten. Returns whether the loop goes on.
pub fn end_frame_with_food(
    context: &mut GameContext,
    frame_counter: &mut u32,
    fresh: Point,
) -> (running: bool)
    requires
        old(context)@.well_formed(),
        *old(frame_counter) < u32::MAX,
    ensures
        final(context)@ == frame_end(old(context)@, *old(frame_counter) as int, fresh@).game,
        *final(frame_counter) == frame_end(
            old(context)@,
            *old(frame_counter) as int,
            fresh@,
        ).frame_counter,
        running == frame_end(old(context)@, *old(frame_counter) as int, fresh@).running,
        final(context)@.well_formed(),
{
    if let GameState::Restart = context.state {
        *context = GameContext::with_food(fresh);
    } else if let GameState::Quit = context.state {
        return false;
    }
    *frame_counter += 1;
    if *frame_counter % FRAMES_PER_TICK == 0 {
        context.next_tick_with_food(fresh);
        *frame_counter = 0;
    }
    true
}

/// Ends a frame. A new game gets its food, and eaten food its new place, on
/// a cell of the grid drawn at random; no number is drawn otherwise. Returns
/// whether the loop goes on.
///
/// The outcome is that of `end_frame_with_food` for the cell that was drawn,
/// which is then where the food is.
pub fn end_frame(context: &mut GameContext, frame_counter: &mut u32) -> (running: bool)
    requires
        old(context)@.well_formed(),
        *old(frame_counter) < u32::MAX,
    ensures
        final(context)@ == frame_end(
            old(context)@,
            *old(frame_counter) as int,
            final(context)@.food,
        ).game,
        *final(frame_counter) == frame_end(
            old(context)@,
            *old(frame_counter) as int,
            final(context)@.food,
        ).frame_counter,
        running == frame_end(
            old(context)@,
            *old(frame_counter) as int,
            final(context)@.food,
        ).running,
        frame_draws(old(context)@, *old(frame_counter) as int) ==> final(context)@.food.in_grid(),
        final(context)@.well_formed(),
{
    let draws = match context.state {
        GameState::Restart => true,
        GameState::Quit => false,
        _ => (*frame_counter + 1) % FRAMES_PER_TICK == 0 && context.will_eat(),
    };
    let fresh = if draws {
        Point::new()
    } else {
        context.food
    };
    end_frame_with_food(context, frame_counter, fresh)
}

} // verus!
