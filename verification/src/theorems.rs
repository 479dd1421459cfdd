//! What holds of every game: theorems about the transitions of the model,
//! each proved from the definitions in `model`.

use vstd::prelude::*;

use crate::game_context::{GameState, PlayerDirection};
use crate::game_loop::{frame_end, press, Key, FRAMES_PER_TICK};
use crate::model::{Cell, GameView};
use crate::scene::{board_fits, fits};
use crate::{GRID_X_SIZE, GRID_Y_SIZE};

verus! {

/// A fresh game is sound wherever its food lies: the snake has a head,
/// covers no cell twice and is within reach.
pub proof fn initial_game_is_sound(food: Cell)
    ensures
        GameView::initial(food).well_formed(),
        GameView::initial(food).body.no_duplicates(),
        GameView::initial(food).within_reach(),
{
}

/// A tick never takes the snake's head away: a body that is not empty before
/// a tick is not empty after it.
pub proof fn tick_keeps_head(game: GameView, fresh: Cell)
    requires
        game.well_formed(),
    ensures
        game.tick(fresh).well_formed(),
{
    if game.steps() && game.collides() {
        assert(game.trail().len() > 0);
    }
}

/// A tick never folds the snake onto itself: if no cell occurs twice in the
/// body before a tick, none does after it.
pub proof fn tick_keeps_body_distinct(game: GameView, fresh: Cell)
    requires
        game.well_formed(),
        game.body.no_duplicates(),
    ensures
        game.tick(fresh).body.no_duplicates(),
{
    let after = game.tick(fresh).body;
    let trail = game.trail();
    assert(trail.no_duplicates());
    if game.steps() && !game.collides() {
        assert forall|i: int, j: int| 0 <= i < after.len() && 0 <= j < after.len() && i != j
            implies after[i] != after[j] by {
            if i > 0 {
                assert(after[i] == trail[i - 1]);
            }
            if j > 0 {
                assert(after[j] == trail[j - 1]);
            }
        }
    }
}

/// A tick never takes the snake out of reach: the head steps only from
/// strictly inside the grid, so it comes to stand on the grid or just beyond
/// its right or lower edge, and there the next tick ends the game.
pub proof fn tick_keeps_snake_within_reach(game: GameView, fresh: Cell)
    requires
        game.well_formed(),
        game.within_reach(),
    ensures
        game.tick(fresh).within_reach(),
{
    let after = game.tick(fresh).body;
    let trail = game.trail();
    assert forall|i: int| 0 <= i < trail.len() implies (#[trigger] trail[i]).within_reach() by {
        assert(trail[i] == game.body[i]);
    }
    if game.steps() && !game.collides() {
        assert forall|i: int| 0 <= i < after.len() implies (#[trigger] after[i]).within_reach() by {
            if i > 0 {
                assert(after[i] == trail[i - 1]);
            }
        }
    }
}

/// A game whose snake is within reach and whose food lies on the grid can be
/// shown: each of its cells has a square on the screen.
pub proof fn game_within_reach_has_board(game: GameView)
    requires
        game.within_reach(),
        game.food.in_grid(),
    ensures
        board_fits(game),
{
    assert forall|i: int| 0 <= i < game.body.len() implies fits(#[trigger] game.body[i]) by {
        assert(game.body[i].within_reach());
    }
}

/// The fresh cell matters only to a tick at which the snake eats: any other
/// tick leads to the same state whatever the fresh cell is, and leaves the
/// food where it was.
pub proof fn fresh_cell_matters_only_when_eating(game: GameView, fresh: Cell, other: Cell)
    requires
        !game.eats(),
    ensures
        game.tick(fresh) == game.tick(other),
        game.tick(fresh).food == game.food,
{
}

/// A tick does nothing to a game that is paused or in the game-over menu.
pub proof fn idle_game_ignores_tick(game: GameView, fresh: Cell)
    requires
        game.state == GameState::Paused || game.state == GameState::OverYes || game.state
            == GameState::OverNo,
    ensures
        game.tick(fresh) == game,
{
}

/// The last turn wins: of two directions set one after the other, only the
/// second is left.
pub proof fn last_turn_wins(game: GameView, first: PlayerDirection, second: PlayerDirection)
    ensures
        game.turn(first).turn(second) == game.turn(second),
{
}

/// The clock ticks on every `FRAMES_PER_TICK`-th frame. While the game asks
/// neither for the end nor for a restart, a frame counter that is below
/// `FRAMES_PER_TICK` stays there: the frame that would bring it to `FRAMES_PER_TICK` ticks the
/// clock and starts the count at 0, and every other frame only counts.
pub proof fn frames_count_up_to_the_tick(game: GameView, frame_counter: int, fresh: Cell)
    requires
        game.state != GameState::Quit,
        game.state != GameState::Restart,
        0 <= frame_counter < FRAMES_PER_TICK,
    ensures
        0 <= frame_end(game, frame_counter, fresh).frame_counter < FRAMES_PER_TICK,
        frame_end(game, frame_counter, fresh).running,
        frame_counter + 1 < FRAMES_PER_TICK ==> frame_end(game, frame_counter, fresh).game == game
            && frame_end(game, frame_counter, fresh).frame_counter == frame_counter + 1,
        frame_counter + 1 == FRAMES_PER_TICK ==> frame_end(game, frame_counter, fresh).game
            == game.tick(fresh) && frame_end(game, frame_counter, fresh).frame_counter == 0,
{
}

/// A restart gives a fresh game that waits: the frame that follows the
/// request replaces the game by a paused fresh one with the food on the
/// fresh cell, whether or not the clock ticks on that frame.
pub proof fn restart_gives_fresh_game(game: GameView, frame_counter: int, fresh: Cell)
    requires
        game.state == GameState::Restart,
    ensures
        frame_end(game, frame_counter, fresh).game == GameView::initial(fresh),
        frame_end(game, frame_counter, fresh).running,
{
}

/// No key moves the snake or the food: keys change the direction and the
/// state only.
pub proof fn keys_leave_snake_and_food(game: GameView, key: Key)
    ensures
        press(game, key).body == game.body,
        press(game, key).food == game.food,
{
}

/// Shift and prepend. A step that leads neither onto the food nor into the
/// snake keeps the snake's length: the new head is the cell in front of the
/// old head, and every other segment takes the place of the one before it.
/// Direction, food and state stay as they were.
pub proof fn plain_step_shifts_body(game: GameView, fresh: Cell)
    requires
        game.well_formed(),
        game.steps(),
        game.next_head() != game.food,
        !game.collides(),
    ensures
        game.tick(fresh).body.len() == game.body.len(),
        game.tick(fresh).body[0] == game.head().plus(game.direction.delta()),
        forall|i: int|
            1 <= i < game.body.len() ==> #[trigger] game.tick(fresh).body[i] == game.body[i - 1],
        game.tick(fresh).direction == game.direction,
        game.tick(fresh).food == game.food,
        game.tick(fresh).state == game.state,
{
}

/// Eating. A step onto the food that does not run into the snake makes the
/// snake one cell longer, with the food's old cell as the new head and the
/// whole old body behind it, and moves the food to the fresh cell: a cell of
/// the grid if the fresh cell is one, and another cell than before if the
/// fresh cell is another.
pub proof fn eating_grows_and_moves_food(game: GameView, fresh: Cell)
    requires
        game.well_formed(),
        game.eats(),
        !game.collides(),
        fresh.in_grid(),
        fresh != game.food,
    ensures
        game.tick(fresh).body.len() == game.body.len() + 1,
        game.tick(fresh).body == seq![game.food] + game.body,
        game.tick(fresh).food != game.food,
        game.tick(fresh).food.in_grid(),
        game.tick(fresh).food == fresh,
        game.tick(fresh).state == game.state,
{
}

/// Leaving the grid. If, at the start of a tick that acts, the head stands
/// on column 0, on row 0, at or beyond the grid's right or lower edge, or
/// left of or above the grid, the tick ends the game and leaves the body,
/// the food and the direction alone. (In the game-over menu with "Yes"
/// selected the tick does nothing, which leaves the same state.)
pub proof fn head_outside_ends_game(game: GameView, fresh: Cell)
    requires
        game.well_formed(),
        game.state != GameState::Paused,
        game.state != GameState::OverNo,
        game.head().x <= 0 || game.head().x >= GRID_X_SIZE || game.head().y <= 0
            || game.head().y >= GRID_Y_SIZE,
    ensures
        game.tick(fresh).state == GameState::OverYes,
        game.tick(fresh).body == game.body,
        game.tick(fresh).food == game.food,
        game.tick(fresh).direction == game.direction,
{
}

/// Running into the snake. A step onto a cell that the snake still covers
/// after the step ends the game, and the head does not move: the body is
/// what outlives the step, which is the whole body when the step leads onto
/// the food and the body without its tail otherwise.
pub proof fn collision_ends_game(game: GameView, fresh: Cell)
    requires
        game.well_formed(),
        game.steps(),
        game.collides(),
    ensures
        game.tick(fresh).state == GameState::OverYes,
        game.tick(fresh).body == game.trail(),
        game.next_head() == game.food ==> game.tick(fresh).body == game.body,
        game.next_head() != game.food ==> game.tick(fresh).body == game.body.drop_last(),
        game.tick(fresh).direction == game.direction,
{
}

/// Running into the snake on the food. A step onto the food, where the food
/// lies on one of the snake's cells, ends the game and leaves the body
/// unchanged.
pub proof fn collision_on_food_keeps_body(game: GameView, fresh: Cell)
    requires
        game.well_formed(),
        game.steps(),
        game.body.contains(game.next_head()),
        game.next_head() == game.food,
    ensures
        game.tick(fresh).state == GameState::OverYes,
        game.tick(fresh).body == game.body,
{
}

/// Following the tail. A step onto the cell that the tail is about to leave
/// is no collision when no cell occurs twice in the body and the food is
/// elsewhere: the snake moves on and the game goes on.
pub proof fn step_onto_tail_is_free(game: GameView, fresh: Cell)
    requires
        game.well_formed(),
        game.steps(),
        game.body.no_duplicates(),
        game.next_head() == game.body.last(),
        game.next_head() != game.food,
    ensures
        game.tick(fresh).state == game.state,
        game.tick(fresh).body == seq![game.body.last()] + game.body.drop_last(),
{
    let trail = game.body.drop_last();
    if trail.contains(game.next_head()) {
        let i = choose|i: int| 0 <= i < trail.len() && trail[i] == game.next_head();
        assert(game.body[i] == game.body[game.body.len() - 1]);
    }
}

/// A paused game ignores the clock and the confirm key, and setting the
/// direction that the snake already has changes nothing either: each leaves
/// the whole state as it was.
pub proof fn paused_game_stays(game: GameView, fresh: Cell, direction: PlayerDirection)
    requires
        game.state == GameState::Paused,
        direction == game.direction,
    ensures
        game.tick(fresh) == game,
        game.select() == game,
        game.turn(direction) == game,
{
}

/// The game-over menu. With "Yes" selected the right key selects "No"; with
/// "No" selected the left key selects "Yes"; confirming "Yes" asks for a
/// restart and confirming "No" for the end. Snake, food and direction stay
/// as they were throughout.
pub proof fn menu_navigation(game: GameView)
    ensures
        game.state == GameState::OverYes ==> game.right() == (GameView {
            state: GameState::OverNo,
            ..game
        }),
        game.state == GameState::OverNo ==> game.left() == (GameView {
            state: GameState::OverYes,
            ..game
        }),
        game.state == GameState::OverYes ==> game.select() == (GameView {
            state: GameState::Restart,
            ..game
        }),
        game.state == GameState::OverNo ==> game.select() == (GameView {
            state: GameState::Quit,
            ..game
        }),
{
}

} // verus!
