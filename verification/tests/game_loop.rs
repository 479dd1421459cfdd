use snake_game::game_context::{GameContext, GameState, PlayerDirection, Point};
use snake_game::game_loop::{end_frame, end_frame_with_food, key_down, Key, FRAMES_PER_TICK};

#[test]
fn clock_ticks_every_tenth_frame() {
    assert_eq!(FRAMES_PER_TICK, 10);
}

#[test]
fn steering_keys_come_in_pairs() {
    let pairs = [
        (Key::W, Key::Up, PlayerDirection::Up),
        (Key::A, Key::Left, PlayerDirection::Left),
        (Key::S, Key::Down, PlayerDirection::Down),
        (Key::D, Key::Right, PlayerDirection::Right),
    ];
    for (letter, arrow, direction) in pairs {
        for key in [letter, arrow] {
            for start in [PlayerDirection::Up, PlayerDirection::Left] {
                let mut c = GameContext::with_food(Point(20, 20));
                c.player_direction = start;
                key_down(&mut c, key);
                assert_eq!(c.player_direction, direction);
                assert_eq!(c.state, GameState::Paused);
                assert_eq!(c.player_position, vec![Point(3, 1), Point(2, 1), Point(1, 1)]);
                assert_eq!(c.food, Point(20, 20));
            }
        }
    }
}

#[test]
fn space_is_the_pause_switch() {
    let mut c = GameContext::with_food(Point(20, 20));
    key_down(&mut c, Key::Space);
    assert_eq!(c.state, GameState::Playing);
    key_down(&mut c, Key::Space);
    assert_eq!(c.state, GameState::Paused);
}

#[test]
fn keys_work_the_game_over_menu() {
    let mut c = GameContext::with_food(Point(20, 20));
    c.state = GameState::OverYes;
    key_down(&mut c, Key::D);
    assert_eq!(c.state, GameState::OverNo);
    key_down(&mut c, Key::Left);
    assert_eq!(c.state, GameState::OverYes);
    key_down(&mut c, Key::Right);
    assert_eq!(c.state, GameState::OverNo);
    key_down(&mut c, Key::A);
    assert_eq!(c.state, GameState::OverYes);
    assert_eq!(c.player_direction, PlayerDirection::Right);
    key_down(&mut c, Key::Return);
    assert_eq!(c.state, GameState::Restart);

    c.state = GameState::OverNo;
    key_down(&mut c, Key::Return);
    assert_eq!(c.state, GameState::Quit);
}

#[test]
fn other_keys_do_nothing() {
    for state in [GameState::Playing, GameState::Paused, GameState::OverYes, GameState::OverNo] {
        let mut c = GameContext::with_food(Point(20, 20));
        c.state = state;
        key_down(&mut c, Key::Other);
        assert_eq!(c.state, state);
        assert_eq!(c.player_direction, PlayerDirection::Right);
        assert_eq!(c.player_position, vec![Point(3, 1), Point(2, 1), Point(1, 1)]);
        assert_eq!(c.food, Point(20, 20));
    }
}

#[test]
fn nine_frames_count_and_the_tenth_ticks() {
    let mut c = GameContext::with_food(Point(20, 20));
    c.toggle_pause();
    let mut frames: u32 = 0;
    for n in 1..10 {
        assert!(end_frame_with_food(&mut c, &mut frames, Point(1, 1)));
        assert_eq!(frames, n);
        assert_eq!(c.player_position, vec![Point(3, 1), Point(2, 1), Point(1, 1)]);
    }
    assert!(end_frame_with_food(&mut c, &mut frames, Point(1, 1)));
    assert_eq!(frames, 0);
    assert_eq!(c.player_position, vec![Point(4, 1), Point(3, 1), Point(2, 1)]);
    assert_eq!(c.food, Point(20, 20));
}

#[test]
fn tenth_frame_of_a_paused_game_only_restarts_the_count() {
    let mut c = GameContext::with_food(Point(20, 20));
    let mut frames: u32 = 9;
    assert!(end_frame(&mut c, &mut frames));
    assert_eq!(frames, 0);
    assert_eq!(c.player_position, vec![Point(3, 1), Point(2, 1), Point(1, 1)]);
    assert_eq!(c.state, GameState::Paused);
    assert_eq!(c.food, Point(20, 20));
}

#[test]
fn count_goes_on_past_a_multiple_of_ten_that_was_missed() {
    let mut c = GameContext::with_food(Point(20, 20));
    c.toggle_pause();
    let mut frames: u32 = 10;
    assert!(end_frame_with_food(&mut c, &mut frames, Point(1, 1)));
    assert_eq!(frames, 11);
    assert_eq!(c.player_position, vec![Point(3, 1), Point(2, 1), Point(1, 1)]);
    frames = 19;
    assert!(end_frame_with_food(&mut c, &mut frames, Point(1, 1)));
    assert_eq!(frames, 0);
    assert_eq!(c.player_position, vec![Point(4, 1), Point(3, 1), Point(2, 1)]);
}

#[test]
fn quit_stops_the_loop_and_changes_nothing() {
    let mut c = GameContext::with_food(Point(4, 1));
    c.state = GameState::Quit;
    let mut frames: u32 = 9;
    assert!(!end_frame_with_food(&mut c, &mut frames, Point(7, 7)));
    assert_eq!(frames, 9);
    assert_eq!(c.state, GameState::Quit);
    assert_eq!(c.player_position, vec![Point(3, 1), Point(2, 1), Point(1, 1)]);
    assert_eq!(c.food, Point(4, 1));
    assert!(!end_frame(&mut c, &mut frames));
    assert_eq!(frames, 9);
    assert_eq!(c.food, Point(4, 1));
}

#[test]
fn restart_replaces_the_game() {
    let mut c = GameContext {
        player_position: vec![Point(0, 7), Point(1, 7), Point(2, 7), Point(3, 7)],
        player_direction: PlayerDirection::Left,
        food: Point(30, 3),
        state: GameState::Restart,
    };
    let mut frames: u32 = 4;
    assert!(end_frame_with_food(&mut c, &mut frames, Point(12, 13)));
    assert_eq!(frames, 5);
    assert_eq!(c.player_position, vec![Point(3, 1), Point(2, 1), Point(1, 1)]);
    assert_eq!(c.player_direction, PlayerDirection::Right);
    assert_eq!(c.state, GameState::Paused);
    assert_eq!(c.food, Point(12, 13));
}

#[test]
fn restart_on_a_tenth_frame_leaves_the_new_game_paused_and_still() {
    let mut c = GameContext::with_food(Point(30, 3));
    c.state = GameState::Restart;
    let mut frames: u32 = 9;
    assert!(end_frame_with_food(&mut c, &mut frames, Point(4, 1)));
    assert_eq!(frames, 0);
    assert_eq!(c.player_position, vec![Point(3, 1), Point(2, 1), Point(1, 1)]);
    assert_eq!(c.state, GameState::Paused);
    assert_eq!(c.food, Point(4, 1));
}

#[test]
fn restart_draws_food_on_the_grid() {
    for _ in 0..200 {
        let mut c = GameContext::with_food(Point(100, 100));
        c.state = GameState::Restart;
        let mut frames: u32 = 0;
        assert!(end_frame(&mut c, &mut frames));
        assert_eq!(frames, 1);
        assert_eq!(c.state, GameState::Paused);
        assert!(0 <= c.food.0 && c.food.0 < 40 && 0 <= c.food.1 && c.food.1 < 30);
    }
}

#[test]
fn eating_on_a_tenth_frame_draws_food_on_the_grid() {
    for _ in 0..200 {
        let mut c = GameContext::with_food(Point(4, 1));
        c.toggle_pause();
        let mut frames: u32 = 9;
        assert!(end_frame(&mut c, &mut frames));
        assert_eq!(frames, 0);
        assert_eq!(c.player_position, vec![Point(4, 1), Point(3, 1), Point(2, 1), Point(1, 1)]);
        assert!(0 <= c.food.0 && c.food.0 < 40 && 0 <= c.food.1 && c.food.1 < 30);
    }
}

#[test]
fn food_stays_when_no_number_is_drawn() {
    let mut c = GameContext::with_food(Point(100, 100));
    c.toggle_pause();
    let mut frames: u32 = 0;
    for _ in 0..30 {
        assert!(end_frame(&mut c, &mut frames));
        assert_eq!(c.food, Point(100, 100));
    }
    assert_eq!(c.player_position, vec![Point(6, 1), Point(5, 1), Point(4, 1)]);
}

#[test]
fn game_over_comes_at_the_tick_after_the_edge() {
    let mut c = GameContext::with_food(Point(20, 20));
    c.toggle_pause();
    key_down(&mut c, Key::Up);
    let mut frames: u32 = 0;
    for _ in 0..10 {
        assert!(end_frame(&mut c, &mut frames));
    }
    assert_eq!(c.player_position, vec![Point(3, 0), Point(3, 1), Point(2, 1)]);
    assert_eq!(c.state, GameState::Playing);
    for _ in 0..10 {
        assert!(end_frame(&mut c, &mut frames));
    }
    assert_eq!(c.state, GameState::OverYes);
    key_down(&mut c, Key::Right);
    key_down(&mut c, Key::Return);
    assert_eq!(c.state, GameState::Quit);
    assert!(!end_frame(&mut c, &mut frames));
}
