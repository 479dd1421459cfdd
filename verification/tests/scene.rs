use snake_game::game_context::{GameContext, GameState, PlayerDirection, Point};
use snake_game::scene::{
    background, board, dot, game_over_box, scene, shows_game_over_box, window_size, Board, Color,
    Dot, Rect, Scene, TextBox, DOT_SIZE_IN_PXS,
};

#[test]
fn a_cell_is_twenty_pixels_wide() {
    assert_eq!(DOT_SIZE_IN_PXS, 20);
}

#[test]
fn dot_scales_the_cell() {
    assert_eq!(dot(&Point(3, 1)), Some(Dot { x: 60, y: 20, size: 20 }));
    assert_eq!(dot(&Point(0, 0)), Some(Dot { x: 0, y: 0, size: 20 }));
    assert_eq!(dot(&Point(39, 29)), Some(Dot { x: 780, y: 580, size: 20 }));
    assert_eq!(dot(&Point(-2, 5)), Some(Dot { x: -40, y: 100, size: 20 }));
}

#[test]
fn dot_stops_where_the_corner_does_not_fit() {
    assert_eq!(
        dot(&Point(107_374_182, -107_374_182)),
        Some(Dot { x: 2_147_483_640, y: -2_147_483_640, size: 20 })
    );
    assert_eq!(dot(&Point(107_374_183, 0)), None);
    assert_eq!(dot(&Point(0, 107_374_183)), None);
    assert_eq!(dot(&Point(-107_374_183, 0)), None);
    assert_eq!(dot(&Point(i32::MAX, 1)), None);
    assert_eq!(dot(&Point(1, i32::MIN)), None);
}

#[test]
fn background_follows_the_state() {
    assert_eq!(background(GameState::Playing), Color::Black);
    assert_eq!(background(GameState::Paused), Color::Gray);
    assert_eq!(background(GameState::OverYes), Color::Magenta);
    assert_eq!(background(GameState::OverNo), Color::Magenta);
    assert_eq!(background(GameState::Quit), Color::Magenta);
    assert_eq!(background(GameState::Restart), Color::Magenta);
}

#[test]
fn game_over_box_is_shown_in_the_menu_only() {
    assert!(shows_game_over_box(GameState::OverYes));
    assert!(shows_game_over_box(GameState::OverNo));
    assert!(!shows_game_over_box(GameState::Playing));
    assert!(!shows_game_over_box(GameState::Paused));
    assert!(!shows_game_over_box(GameState::Quit));
    assert!(!shows_game_over_box(GameState::Restart));
}

#[test]
fn game_over_box_layout() {
    let b = game_over_box(GameState::OverYes);
    assert_eq!(b.rect, Rect { center_x: 400, center_y: 300, width: 160, height: 140 });
    assert_eq!(b.color, Color::Blue);
    assert_eq!(
        b.title,
        TextBox {
            text: "Game Over!",
            rect: Rect { center_x: 400, center_y: 260, width: 160, height: 80 },
            background_color: Color::Blue,
            text_color: Color::Red,
            bold: false,
        }
    );
    assert_eq!(
        b.question,
        TextBox {
            text: "Play Again",
            rect: Rect { center_x: 400, center_y: 320, width: 120, height: 40 },
            background_color: Color::Blue,
            text_color: Color::Red,
            bold: false,
        }
    );
    assert_eq!(
        b.answers,
        TextBox {
            text: "[Yes]  No ",
            rect: Rect { center_x: 400, center_y: 360, width: 80, height: 20 },
            background_color: Color::Blue,
            text_color: Color::Red,
            bold: true,
        }
    );
}

#[test]
fn brackets_follow_the_selection() {
    assert_eq!(game_over_box(GameState::OverYes).answers.text, "[Yes]  No ");
    assert_eq!(game_over_box(GameState::OverNo).answers.text, " Yes  [No]");
    assert_eq!(game_over_box(GameState::Playing).answers.text, "[Yes]  No ");
    let yes = game_over_box(GameState::OverYes);
    let no = game_over_box(GameState::OverNo);
    assert_eq!(yes.rect, no.rect);
    assert_eq!(yes.title, no.title);
    assert_eq!(yes.question, no.question);
    assert_eq!(yes.answers.rect, no.answers.rect);
}

#[test]
fn text_boxes_differ_in_weight_only() {
    let rect = Rect { center_x: 1, center_y: 2, width: 3, height: 4 };
    let plain = TextBox::new("abc", rect, Color::Green, Color::Black);
    let bold = TextBox::new_bold("abc", rect, Color::Green, Color::Black);
    assert_eq!(
        plain,
        TextBox {
            text: "abc",
            rect,
            background_color: Color::Green,
            text_color: Color::Black,
            bold: false
        }
    );
    assert_eq!(bold, TextBox { bold: true, ..plain });
}

#[test]
fn window_shows_the_whole_grid() {
    assert_eq!(window_size(), (800, 600));
}

#[test]
fn board_of_a_fresh_game() {
    let c = GameContext::with_food(Point(10, 20));
    let expected = || Board {
        background: Color::Gray,
        player: vec![
            Dot { x: 60, y: 20, size: 20 },
            Dot { x: 40, y: 20, size: 20 },
            Dot { x: 20, y: 20, size: 20 },
        ],
        player_color: Color::Green,
        food: Dot { x: 200, y: 400, size: 20 },
        food_color: Color::Red,
    };
    assert_eq!(board(&c), Some(expected()));
    assert_eq!(scene(&c), Some(Scene::Board(expected())));
}

#[test]
fn board_follows_the_game() {
    let mut c = GameContext::with_food(Point(4, 1));
    c.toggle_pause();
    c.next_tick_with_food(Point(0, 29));
    let b = board(&c).unwrap();
    assert_eq!(b.background, Color::Black);
    assert_eq!(
        b.player,
        vec![
            Dot { x: 80, y: 20, size: 20 },
            Dot { x: 60, y: 20, size: 20 },
            Dot { x: 40, y: 20, size: 20 },
            Dot { x: 20, y: 20, size: 20 },
        ]
    );
    assert_eq!(b.food, Dot { x: 0, y: 580, size: 20 });
}

#[test]
fn board_of_a_snake_without_cells_has_the_food_only() {
    let c = GameContext {
        player_position: vec![],
        player_direction: PlayerDirection::Up,
        food: Point(1, 1),
        state: GameState::Quit,
    };
    let b = board(&c).unwrap();
    assert_eq!(b.background, Color::Magenta);
    assert_eq!(b.player, vec![]);
    assert_eq!(b.food, Dot { x: 20, y: 20, size: 20 });
}

#[test]
fn no_board_where_a_cell_has_no_square() {
    let mut c = GameContext::with_food(Point(10, 20));
    c.player_position.push(Point(0, i32::MIN));
    assert_eq!(board(&c), None);
    assert_eq!(scene(&c), None);
    c.player_position.pop();
    assert!(board(&c).is_some());
    c.food = Point(200_000_000, 0);
    assert_eq!(board(&c), None);
    assert_eq!(scene(&c), None);
}

#[test]
fn scene_is_the_game_over_box_while_the_menu_is_open() {
    for state in [GameState::OverYes, GameState::OverNo] {
        let mut c = GameContext::with_food(Point(10, 20));
        c.state = state;
        assert_eq!(scene(&c), Some(Scene::GameOver(game_over_box(state))));
        c.food = Point(i32::MAX, i32::MAX);
        assert_eq!(scene(&c), Some(Scene::GameOver(game_over_box(state))));
    }
}

#[test]
fn scene_is_the_board_in_every_other_state() {
    for state in [GameState::Playing, GameState::Paused, GameState::Quit, GameState::Restart] {
        let mut c = GameContext::with_food(Point(10, 20));
        c.state = state;
        assert_eq!(scene(&c), Some(Scene::Board(board(&c).unwrap())));
    }
}
