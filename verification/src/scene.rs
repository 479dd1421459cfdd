//! What a frame shows, as plain values in pixels: where the squares of the
//! snake and of the food go, which colour lies behind them, and how the
//! game-over box is laid out. The program that owns the window paints them.

use vstd::prelude::*;

use crate::game_context::{GameContext, GameState, Point};
use crate::model::{Cell, GameView};
use crate::{GRID_X_SIZE, GRID_Y_SIZE};

verus! {

/// The side of one grid cell on the screen, in pixels.
pub const DOT_SIZE_IN_PXS: i32 = 20;

/// The colours that the game paints with.
#[derive(Copy, Clone, PartialEq, Eq, Debug, Structural)]
pub enum Color {
    Black,
    Gray,
    Magenta,
    Green,
    Red,
    Blue,
}

/// The square of a grid cell on the screen: its upper left corner and the
/// length of its side, in pixels.
#[derive(Copy, Clone, PartialEq, Eq, Debug, Structural)]
pub struct Dot {
    pub x: i32,
    pub y: i32,
    pub size: u32,
}

/// A rectangle of the screen, by its centre and its size in pixels.
#[derive(Copy, Clone, PartialEq, Eq, Debug, Structural)]
pub struct Rect {
    pub center_x: i32,
    pub center_y: i32,
    pub width: u32,
    pub height: u32,
}

/// A line of text in a rectangle that is filled with a colour.
#[derive(Copy, Clone, PartialEq, Eq, Debug)]
pub struct TextBox {
    pub text: &'static str,
    pub rect: Rect,
    pub background_color: Color,
    pub text_color: Color,
    pub bold: bool,
}

/// The game-over box: a filled rectangle with three lines of text on it.
#[derive(Copy, Clone, PartialEq, Eq, Debug)]
pub struct GameOverBox {
    /// The rectangle behind the text.
    pub rect: Rect,
    /// The colour of that rectangle.
    pub color: Color,
    /// The heading.
    pub title: TextBox,
    /// The question.
    pub question: TextBox,
    /// The two answers, with brackets round the selected one.
    pub answers: TextBox,
}

/// The board as it is painted: the colour behind it, then the squares of the
/// snake, head first, then the square of the food.
#[derive(PartialEq, Eq, Debug)]
pub struct Board {
    pub background: Color,
    pub player: Vec<Dot>,
    pub player_color: Color,
    pub food: Dot,
    pub food_color: Color,
}

/// What a frame shows: the board, or the game-over box in its place.
#[derive(PartialEq, Eq, Debug)]
pub enum Scene {
    Board(Board),
    GameOver(GameOverBox),
}

/// The corner of the cell's square fits in a pair of `i32`.
pub open spec fn fits(cell: Cell) -> bool {
    &&& i32::MIN <= cell.x * DOT_SIZE_IN_PXS <= i32::MAX
    &&& i32::MIN <= cell.y * DOT_SIZE_IN_PXS <= i32::MAX
}

/// The square of a cell on the screen: the cell's column and row, each
/// multiplied by the side of a square, give its upper left corner.
pub open spec fn square(cell: Cell) -> Dot {
    Dot {
        x: (cell.x * DOT_SIZE_IN_PXS) as i32,
        y: (cell.y * DOT_SIZE_IN_PXS) as i32,
        size: DOT_SIZE_IN_PXS as u32,
    }
}

/// The colour behind the board: black while the game runs, gray while it is
/// paused, magenta in any other state.
pub open spec fn background_of(state: GameState) -> Color {
    match state {
        GameState::Playing => Color::Black,
        GameState::Paused => Color::Gray,
        _ => Color::Magenta,
    }
}

/// Every cell of the snake and the cell of the food have a square.
pub open spec fn board_fits(game: GameView) -> bool {
    &&& forall|i: int| 0 <= i < game.body.len() ==> fits(#[trigger] game.body[i])
    &&& fits(game.food)
}

/// `board` is the board of `game`: the background of its state, a green
/// square for each cell of the snake in the order of the body, and a red
/// square for the food.
pub open spec fn is_board_of(board: Board, game: GameView) -> bool {
    &&& board.background == background_of(game.state)
    &&& board.player@ == game.body.map_values(|cell: Cell| square(cell))
    &&& board.player_color == Color::Green
    &&& board.food == square(game.food)
    &&& board.food_color == Color::Red
}

/// The centre of the screen, in pixels: the upper left corner of the cell in
/// the middle of the grid.
pub open spec fn screen_center() -> (int, int) {
    ((GRID_X_SIZE / 2) * DOT_SIZE_IN_PXS, (GRID_Y_SIZE / 2) * DOT_SIZE_IN_PXS)
}

/// A rectangle of `columns` by `rows` cells whose centre lies `rows_below`
/// cells under the centre of the screen.
pub open spec fn centered(rows_below: int, columns: int, rows: int) -> Rect {
    Rect {
        center_x: screen_center().0 as i32,
        center_y: (screen_center().1 + rows_below * DOT_SIZE_IN_PXS) as i32,
        width: (columns * DOT_SIZE_IN_PXS) as u32,
        height: (rows * DOT_SIZE_IN_PXS) as u32,
    }
}

/// The text of the answers when the selection is on `state`: the brackets
/// are round "No" in `OverNo` and round "Yes" in any other state.
pub open spec fn answers_text(state: GameState) -> &'static str {
    if state == GameState::OverNo {
        " Yes  [No]"
    } else {
        "[Yes]  No "
    }
}

impl TextBox {
    /// A text box in regular type.
    pub fn new(text: &'static str, rect: Rect, background_color: Color, text_color: Color) -> (text_box:
        TextBox)
        ensures
            text_box == (TextBox { text, rect, background_color, text_color, bold: false }),
    {
        TextBox { text, rect, background_color, text_color, bold: false }
    }

    /// A text box in bold type.
    pub fn new_bold(
        text: &'static str,
        rect: Rect,
        background_color: Color,
        text_color: Color,
    ) -> (text_box: TextBox)
        ensures
            text_box == (TextBox { text, rect, background_color, text_color, bold: true }),
    {
        TextBox { text, rect, background_color, text_color, bold: true }
    }
}

impl GameOverBox {
    /// The layout of the game-over box when the game is in `state`.
    ///
    /// A blue rectangle of 8 by 7 cells lies on the centre of the screen.
    /// On it, from the top: the heading, 8 by 4 cells, two cells above the
    /// centre; the question, 6 by 2 cells, one cell below; the answers in
    /// bold, 4 by 1 cells, three cells below. All text is on blue.
    pub open spec fn layout(state: GameState) -> GameOverBox {
        GameOverBox {
            rect: centered(0, 8, 7),
            color: Color::Blue,
            title: TextBox {
                text: "Game Over!",
                rect: centered(-2, 8, 4),
                background_color: Color::Blue,
                text_color: Color::Red,
                bold: false,
            },
            question: TextBox {
                text: "Play Again",
                rect: centered(1, 6, 2),
                background_color: Color::Blue,
                text_color: Color::Red,
                bold: false,
            },
            answers: TextBox {
                text: answers_text(state),
                rect: centered(3, 4, 1),
                background_color: Color::Blue,
                text_color: Color::Red,
                bold: true,
            },
        }
    }
}

/// The size of the window that shows the whole grid: width and height, in
/// pixels.
pub fn window_size() -> (size: (u32, u32))
    ensures
        size.0 == GRID_X_SIZE * DOT_SIZE_IN_PXS,
        size.1 == GRID_Y_SIZE * DOT_SIZE_IN_PXS,
{
    ((GRID_X_SIZE * DOT_SIZE_IN_PXS) as u32, (GRID_Y_SIZE * DOT_SIZE_IN_PXS) as u32)
}

/// Whether the game-over box is shown in place of the board: it is while
/// the game-over menu is open.
pub fn shows_game_over_box(state: GameState) -> (shown: bool)
    ensures
        shown == (state == GameState::OverYes || state == GameState::OverNo),
{
    if let GameState::OverYes | GameState::OverNo = state {
        true
    } else {
        false
    }
}

/// The colour behind the board.
pub fn background(state: GameState) -> (color: Color)
    ensures
        color == background_of(state),
{
    match state {
        GameState::Playing => Color::Black,
        GameState::Paused => Color::Gray,
        _ => Color::Magenta,
    }
}

/// The square of the cell `point` on the screen, or `None` if a coordinate
/// of its corner does not fit in an `i32`.
pub fn dot(point: &Point) -> (dot: Option<Dot>)
    ensures
        dot == if fits(point@) {
            Some(square(point@))
        } else {
            None
        },
{
    match (point.0.checked_mul(DOT_SIZE_IN_PXS), point.1.checked_mul(DOT_SIZE_IN_PXS)) {
        (Some(x), Some(y)) => Some(Dot { x, y, size: DOT_SIZE_IN_PXS as u32 }),
        _ => None,
    }
}

/// The board of the game, or `None` if a cell of the snake or the cell of
/// the food has no square.
pub fn board(context: &GameContext) -> (board: Option<Board>)
    ensures
        board is Some <==> board_fits(context@),
        board matches Some(b) ==> is_board_of(b, context@),
{
    let mut player: Vec<Dot> = Vec::new();
    let mut i: usize = 0;
    while i < context.player_position.len()
        invariant
            i <= context.player_position.len(),
            player@.len() == i,
            forall|j: int| 0 <= j < i ==> fits(#[trigger] context@.body[j]),
            forall|j: int| 0 <= j < i ==> player@[j] == square(#[trigger] context@.body[j]),
        decreases context.player_position.len() - i,
    {
        match dot(&context.player_position[i]) {
            Some(d) => player.push(d),
            None => {
                assert(!fits(context@.body[i as int]));
                return None;
            },
        }
        i += 1;
    }
    match dot(&context.food) {
        Some(food) => {
            assert(player@ =~= context@.body.map_values(|cell: Cell| square(cell)));
            Some(
                Board {
                    background: background(context.state),
                    player,
                    player_color: Color::Green,
                    food,
                    food_color: Color::Red,
                },
            )
        },
        None => None,
    }
}

/// What the frame shows for the game: the game-over box while the game-over
/// menu is open, the board otherwise; `None` if the board is due and a cell
/// on it has no square.
pub fn scene(context: &GameContext) -> (scene: Option<Scene>)
    ensures
        context@.in_menu() ==> scene == Some(Scene::GameOver(GameOverBox::layout(context@.state))),
        !context@.in_menu() ==> (scene is Some <==> board_fits(context@)),
        !context@.in_menu() ==> (scene matches Some(s) ==> s matches Scene::Board(b) && is_board_of(
            b,
            context@,
        )),
{
    if shows_game_over_box(context.state) {
        Some(Scene::GameOver(game_over_box(context.state)))
    } else {
        match board(context) {
            Some(b) => Some(Scene::Board(b)),
            None => None,
        }
    }
}

/// Lays out the game-over box for a game in `state`.
pub fn game_over_box(state: GameState) -> (layout: GameOverBox)
    ensures
        layout == GameOverBox::layout(state),
{
    let center_x = (GRID_X_SIZE / 2) * DOT_SIZE_IN_PXS;
    let center_y = (GRID_Y_SIZE / 2) * DOT_SIZE_IN_PXS;

    let bg_rect = Rect {
        center_x,
        center_y,
        width: (8 * DOT_SIZE_IN_PXS) as u32,
        height: (7 * DOT_SIZE_IN_PXS) as u32,
    };
    let go_rect = Rect {
        center_x,
        center_y: center_y - 2 * DOT_SIZE_IN_PXS,
        width: (8 * DOT_SIZE_IN_PXS) as u32,
        height: (4 * DOT_SIZE_IN_PXS) as u32,
    };
    let pa_rect = Rect {
        center_x,
        center_y: center_y + 1 * DOT_SIZE_IN_PXS,
        width: (6 * DOT_SIZE_IN_PXS) as u32,
        height: (2 * DOT_SIZE_IN_PXS) as u32,
    };
    let yn_rect = Rect {
        center_x,
        center_y: center_y + 3 * DOT_SIZE_IN_PXS,
        width: (4 * DOT_SIZE_IN_PXS) as u32,
        height: (1 * DOT_SIZE_IN_PXS) as u32,
    };
    let yn_text = if let GameState::OverNo = state {
        " Yes  [No]"
    } else {
        "[Yes]  No "
    };
    GameOverBox {
        rect: bg_rect,
        color: Color::Blue,
        title: TextBox::new("Game Over!", go_rect, Color::Blue, Color::Red),
        question: TextBox::new("Play Again", pa_rect, Color::Blue, Color::Red),
        answers: TextBox::new_bold(yn_text, yn_rect, Color::Blue, Color::Red),
    }
}

} // verus!
