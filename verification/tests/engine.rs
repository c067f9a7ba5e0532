use snake_game::game_context::{GameContext, GameState, PlayerDirection, GRID_X_SIZE, GRID_Y_SIZE};
use snake_game::point::Point;

fn square_game(
    size: i32,
    body: Vec<Point>,
    direction: PlayerDirection,
    food: Point,
    state: GameState,
) -> GameContext {
    GameContext::from_parts(size, size, body, direction, food, state).unwrap()
}

fn on_grid(game: &GameContext, p: Point) -> bool {
    0 <= p.0 && p.0 < game.grid_width() && 0 <= p.1 && p.1 < game.grid_height()
}

#[test]
fn new_game_starts_in_the_fixed_state() {
    let game = GameContext::new();
    assert_eq!(game.player_position(), &vec![Point(3, 1), Point(2, 1), Point(1, 1)]);
    assert_eq!(game.player_direction(), PlayerDirection::Right);
    assert_eq!(game.food(), Point(3, 3));
    assert_eq!(game.state(), GameState::Playing);
    assert_eq!(game.grid_width(), 20);
    assert_eq!(game.grid_height(), 20);
    assert_eq!((GRID_X_SIZE, GRID_Y_SIZE), (20, 20));
    assert_eq!(game.head(), Point(3, 1));
}

#[test]
fn with_grid_keeps_the_given_size() {
    let game = GameContext::with_grid(5, 7);
    assert_eq!(game.grid_width(), 5);
    assert_eq!(game.grid_height(), 7);
    assert_eq!(game.player_position(), &vec![Point(3, 1), Point(2, 1), Point(1, 1)]);
    assert_eq!(game.food(), Point(3, 3));
}

#[test]
fn from_parts_needs_a_head() {
    let none = GameContext::from_parts(
        5,
        5,
        Vec::new(),
        PlayerDirection::Up,
        Point(0, 0),
        GameState::Playing,
    );
    assert!(none.is_none());
    let some = GameContext::from_parts(
        5,
        6,
        vec![Point(4, 4)],
        PlayerDirection::Up,
        Point(0, 1),
        GameState::Paused,
    )
    .unwrap();
    assert_eq!(some.player_position(), &vec![Point(4, 4)]);
    assert_eq!(some.player_direction(), PlayerDirection::Up);
    assert_eq!(some.food(), Point(0, 1));
    assert_eq!(some.state(), GameState::Paused);
    assert_eq!((some.grid_width(), some.grid_height()), (5, 6));
}

#[test]
fn body_is_never_empty() {
    let mut game = square_game(
        3,
        vec![Point(1, 1)],
        PlayerDirection::Right,
        Point(0, 0),
        GameState::Playing,
    );
    for _ in 0..5 {
        game.update();
        assert_eq!(game.player_position().len(), 1);
        game.move_down();
        game.pause_toggle();
        game.pause_toggle();
    }
    game.check_game_over_conditions();
    assert_eq!(game.state(), GameState::Over);
    assert_eq!(game.player_position(), &vec![Point(2, 5)]);
}

#[test]
fn reverse_request_is_dropped() {
    let mut game = GameContext::new();
    game.move_left();
    assert_eq!(game.player_direction(), PlayerDirection::Right);
    game.move_up();
    assert_eq!(game.player_direction(), PlayerDirection::Up);
    game.move_down();
    assert_eq!(game.player_direction(), PlayerDirection::Up);
    game.move_left();
    assert_eq!(game.player_direction(), PlayerDirection::Left);
    game.move_right();
    assert_eq!(game.player_direction(), PlayerDirection::Left);
    game.move_down();
    assert_eq!(game.player_direction(), PlayerDirection::Down);
    game.move_up();
    assert_eq!(game.player_direction(), PlayerDirection::Down);
    game.move_right();
    assert_eq!(game.player_direction(), PlayerDirection::Right);
}

#[test]
fn set_direction_agrees_with_the_four_moves() {
    let all = [
        PlayerDirection::Up,
        PlayerDirection::Down,
        PlayerDirection::Right,
        PlayerDirection::Left,
    ];
    for current in all {
        for asked in all {
            let mut game = square_game(5, vec![Point(2, 2)], current, Point(0, 0), GameState::Playing);
            game.set_direction(asked);
            let expected = if asked == current.reversed() { current } else { asked };
            assert_eq!(game.player_direction(), expected);
        }
    }
}

#[test]
fn last_request_before_a_tick_wins() {
    let mut game = GameContext::new();
    game.move_up();
    game.move_left();
    game.update();
    assert_eq!(game.head(), Point(2, 1));
}

#[test]
fn direction_changes_while_paused_but_not_when_over() {
    let mut game = GameContext::new();
    game.pause_toggle();
    game.move_down();
    assert_eq!(game.player_direction(), PlayerDirection::Down);
    let mut over = square_game(
        5,
        vec![Point(2, 2)],
        PlayerDirection::Right,
        Point(0, 0),
        GameState::Over,
    );
    over.move_down();
    assert_eq!(over.player_direction(), PlayerDirection::Right);
}

#[test]
fn pause_toggle_swaps_playing_and_paused() {
    let mut game = GameContext::new();
    game.pause_toggle();
    assert_eq!(game.state(), GameState::Paused);
    game.pause_toggle();
    assert_eq!(game.state(), GameState::Playing);
}

#[test]
fn pause_toggle_leaves_a_finished_game_alone() {
    let mut game = square_game(
        5,
        vec![Point(2, 2)],
        PlayerDirection::Right,
        Point(0, 0),
        GameState::Over,
    );
    game.pause_toggle();
    assert_eq!(game.state(), GameState::Over);
    game.pause_toggle();
    assert_eq!(game.state(), GameState::Over);
}

#[test]
fn tick_moves_without_growing() {
    let mut game = GameContext::new();
    game.update();
    assert_eq!(game.player_position(), &vec![Point(4, 1), Point(3, 1), Point(2, 1)]);
    assert_eq!(game.food(), Point(3, 3));
    assert_eq!(game.state(), GameState::Playing);
    game.move_down();
    game.update_with(Some(Point(9, 9)));
    assert_eq!(game.player_position(), &vec![Point(4, 2), Point(4, 1), Point(3, 1)]);
    assert_eq!(game.food(), Point(3, 3));
}

#[test]
fn tick_moves_in_each_heading() {
    let cases = [
        (PlayerDirection::Up, Point(2, 1)),
        (PlayerDirection::Down, Point(2, 3)),
        (PlayerDirection::Right, Point(3, 2)),
        (PlayerDirection::Left, Point(1, 2)),
    ];
    for (direction, expected) in cases {
        let mut game = square_game(5, vec![Point(2, 2)], direction, Point(0, 0), GameState::Playing);
        game.update();
        assert_eq!(game.player_position(), &vec![expected]);
    }
}

#[test]
fn tick_grows_by_one_when_the_head_is_on_the_food() {
    let mut game = square_game(
        5,
        vec![Point(3, 2), Point(2, 2), Point(1, 2)],
        PlayerDirection::Right,
        Point(3, 2),
        GameState::Playing,
    );
    game.update_with(Some(Point(0, 4)));
    assert_eq!(
        game.player_position(),
        &vec![Point(4, 2), Point(3, 2), Point(2, 2), Point(1, 2)]
    );
    assert_eq!(game.food(), Point(0, 4));
    assert_eq!(game.state(), GameState::Playing);
}

#[test]
fn eating_on_a_full_board_ends_the_game() {
    let mut game = square_game(
        2,
        vec![Point(1, 0), Point(1, 1), Point(0, 1), Point(0, 0)],
        PlayerDirection::Right,
        Point(1, 0),
        GameState::Playing,
    );
    assert!(game.free_cells().is_empty());
    game.update();
    assert_eq!(game.state(), GameState::Over);
    assert_eq!(game.food(), Point(1, 0));
    assert_eq!(
        game.player_position(),
        &vec![Point(2, 0), Point(1, 0), Point(1, 1), Point(0, 1), Point(0, 0)]
    );
}

#[test]
fn update_with_none_ends_the_game_when_eating() {
    let mut game = square_game(
        5,
        vec![Point(1, 1)],
        PlayerDirection::Down,
        Point(1, 1),
        GameState::Playing,
    );
    game.update_with(None);
    assert_eq!(game.state(), GameState::Over);
    assert_eq!(game.player_position(), &vec![Point(1, 2), Point(1, 1)]);
    assert_eq!(game.food(), Point(1, 1));
}

#[test]
fn random_food_lands_on_a_cell_that_was_free() {
    for _ in 0..200 {
        let body = vec![Point(1, 0), Point(1, 1), Point(0, 1)];
        let mut game = square_game(2, body, PlayerDirection::Up, Point(1, 0), GameState::Playing);
        game.update();
        assert_eq!(game.food(), Point(0, 0));
        assert_eq!(game.state(), GameState::Playing);
        assert_eq!(game.player_position().len(), 4);
    }
}

#[test]
fn random_food_reaches_every_free_cell() {
    let body = vec![Point(0, 0), Point(1, 0)];
    let mut seen = Vec::new();
    for _ in 0..400 {
        let mut game = square_game(2, body.clone(), PlayerDirection::Left, Point(0, 0), GameState::Playing);
        game.update();
        let food = game.food();
        assert!(food == Point(0, 1) || food == Point(1, 1));
        if !seen.contains(&food) {
            seen.push(food);
        }
    }
    assert_eq!(seen.len(), 2);
}

#[test]
fn place_food_moves_the_food_or_ends_the_game() {
    let mut game = GameContext::new();
    game.place_food(Some(Point(7, 8)));
    assert_eq!(game.food(), Point(7, 8));
    assert_eq!(game.state(), GameState::Playing);
    game.place_food(None);
    assert_eq!(game.food(), Point(7, 8));
    assert_eq!(game.state(), GameState::Over);
    assert_eq!(game.player_position(), &vec![Point(3, 1), Point(2, 1), Point(1, 1)]);
}

#[test]
fn free_cells_come_column_by_column() {
    let game = square_game(
        3,
        vec![Point(1, 1), Point(0, 1), Point(0, 0), Point(5, 5)],
        PlayerDirection::Right,
        Point(2, 2),
        GameState::Playing,
    );
    assert_eq!(
        game.free_cells(),
        vec![Point(0, 2), Point(1, 0), Point(1, 2), Point(2, 0), Point(2, 1), Point(2, 2)]
    );
}

#[test]
fn free_cells_of_a_grid_without_cells() {
    let flat = GameContext::from_parts(
        0,
        4,
        vec![Point(0, 0)],
        PlayerDirection::Up,
        Point(0, 0),
        GameState::Playing,
    )
    .unwrap();
    assert!(flat.free_cells().is_empty());
    let negative = GameContext::with_grid(-3, -3);
    assert!(negative.free_cells().is_empty());
}

#[test]
fn free_cells_of_a_new_game() {
    let game = GameContext::new();
    let cells = game.free_cells();
    assert_eq!(cells.len(), 397);
    assert_eq!(cells[0], Point(0, 0));
    assert_eq!(cells[396], Point(19, 19));
    assert!(!cells.contains(&Point(3, 1)));
    assert!(!cells.contains(&Point(2, 1)));
    assert!(!cells.contains(&Point(1, 1)));
    assert!(cells.contains(&Point(3, 3)));
}

#[test]
fn occupies_finds_the_cells_of_the_snake() {
    let game = GameContext::new();
    assert!(game.occupies(Point(3, 1)));
    assert!(game.occupies(Point(2, 1)));
    assert!(game.occupies(Point(1, 1)));
    assert!(!game.occupies(Point(0, 1)));
    assert!(!game.occupies(Point(3, 3)));
}

#[test]
fn paused_game_does_not_move() {
    let mut game = square_game(
        5,
        vec![Point(2, 2), Point(1, 2)],
        PlayerDirection::Right,
        Point(2, 2),
        GameState::Paused,
    );
    for _ in 0..10 {
        game.update();
        game.update_with(Some(Point(4, 4)));
        game.update_with(None);
        assert_eq!(game.player_position(), &vec![Point(2, 2), Point(1, 2)]);
        assert_eq!(game.food(), Point(2, 2));
        assert_eq!(game.player_direction(), PlayerDirection::Right);
        assert_eq!(game.state(), GameState::Paused);
    }
}

#[test]
fn finished_game_does_not_move() {
    let mut game = square_game(
        5,
        vec![Point(2, 2), Point(1, 2)],
        PlayerDirection::Right,
        Point(2, 2),
        GameState::Over,
    );
    game.update();
    game.update_with(Some(Point(4, 4)));
    assert_eq!(game.player_position(), &vec![Point(2, 2), Point(1, 2)]);
    assert_eq!(game.food(), Point(2, 2));
    assert_eq!(game.state(), GameState::Over);
}

#[test]
fn terminal_check_is_idempotent() {
    let bodies = [
        vec![Point(2, 2), Point(1, 2)],
        vec![Point(5, 2), Point(4, 2)],
        vec![Point(2, 2), Point(2, 1), Point(2, 2)],
    ];
    let states = [GameState::Playing, GameState::Paused, GameState::Over];
    for body in bodies {
        for state in states {
            let mut game = square_game(5, body.clone(), PlayerDirection::Right, Point(0, 0), state);
            game.check_game_over_conditions();
            let first = game.state();
            game.check_game_over_conditions();
            assert_eq!(game.state(), first);
            assert_eq!(game.player_position(), &body);
        }
    }
}

#[test]
fn terminal_check_leaves_a_sound_game_alone() {
    let mut game = GameContext::new();
    game.check_game_over_conditions();
    assert_eq!(game.state(), GameState::Playing);
    game.pause_toggle();
    game.check_game_over_conditions();
    assert_eq!(game.state(), GameState::Paused);
}

#[test]
fn wall_check_covers_all_four_sides() {
    let outside = [Point(-1, 2), Point(5, 2), Point(2, -1), Point(2, 5)];
    for head in outside {
        let mut game = square_game(5, vec![head], PlayerDirection::Up, Point(0, 0), GameState::Playing);
        game.check_wall_collition();
        assert_eq!(game.state(), GameState::Over);
    }
    let inside = [Point(0, 0), Point(4, 0), Point(0, 4), Point(4, 4)];
    for head in inside {
        let mut game = square_game(5, vec![head], PlayerDirection::Up, Point(0, 0), GameState::Playing);
        game.check_wall_collition();
        assert_eq!(game.state(), GameState::Playing);
    }
}

#[test]
fn self_check_compares_the_head_with_the_rest() {
    let mut apart = square_game(
        5,
        vec![Point(2, 2), Point(2, 1), Point(2, 1)],
        PlayerDirection::Up,
        Point(0, 0),
        GameState::Playing,
    );
    apart.check_self_collition();
    assert_eq!(apart.state(), GameState::Playing);
    let mut single = square_game(5, vec![Point(9, 9)], PlayerDirection::Up, Point(0, 0), GameState::Paused);
    single.check_self_collition();
    assert_eq!(single.state(), GameState::Paused);
    let mut bitten = square_game(
        5,
        vec![Point(2, 2), Point(2, 1), Point(1, 1), Point(2, 2)],
        PlayerDirection::Up,
        Point(0, 0),
        GameState::Paused,
    );
    bitten.check_self_collition();
    assert_eq!(bitten.state(), GameState::Over);
}

#[test]
fn can_update_guards_the_ends_of_the_range() {
    let edge = |head: Point, direction: PlayerDirection, state: GameState| {
        GameContext::from_parts(5, 5, vec![head], direction, Point(0, 0), state)
            .unwrap()
            .can_update()
    };
    assert!(!edge(Point(i32::MAX, 0), PlayerDirection::Right, GameState::Playing));
    assert!(!edge(Point(i32::MIN, 0), PlayerDirection::Left, GameState::Playing));
    assert!(!edge(Point(0, i32::MIN), PlayerDirection::Up, GameState::Playing));
    assert!(!edge(Point(0, i32::MAX), PlayerDirection::Down, GameState::Playing));
    assert!(edge(Point(i32::MAX, 0), PlayerDirection::Left, GameState::Playing));
    assert!(edge(Point(i32::MAX, 0), PlayerDirection::Up, GameState::Playing));
    assert!(edge(Point(i32::MAX, 0), PlayerDirection::Right, GameState::Paused));
    assert!(edge(Point(i32::MAX, 0), PlayerDirection::Right, GameState::Over));
    assert!(edge(Point(i32::MAX - 1, 0), PlayerDirection::Right, GameState::Playing));
}

#[test]
fn scenario_eat_and_grow_on_five_by_five() {
    let mut game = square_game(
        5,
        vec![Point(2, 2), Point(1, 2), Point(0, 2)],
        PlayerDirection::Right,
        Point(3, 2),
        GameState::Playing,
    );
    game.update();
    assert_eq!(game.head(), Point(3, 2));
    assert_eq!(game.head(), game.food());
    assert_eq!(game.player_position(), &vec![Point(3, 2), Point(2, 2), Point(1, 2)]);
    let covered = game.player_position().clone();
    game.update();
    assert_eq!(game.player_position().len(), 4);
    assert_eq!(
        game.player_position(),
        &vec![Point(4, 2), Point(3, 2), Point(2, 2), Point(1, 2)]
    );
    assert!(on_grid(&game, game.food()));
    assert!(!covered.contains(&game.food()));
    assert_eq!(game.state(), GameState::Playing);
}

#[test]
fn scenario_wall_on_the_left() {
    let mut game = square_game(
        5,
        vec![Point(0, 2), Point(1, 2), Point(2, 2)],
        PlayerDirection::Left,
        Point(4, 4),
        GameState::Playing,
    );
    game.update();
    assert_eq!(game.head(), Point(-1, 2));
    assert_eq!(game.state(), GameState::Playing);
    game.check_game_over_conditions();
    assert_eq!(game.state(), GameState::Over);
}

#[test]
fn scenario_overlapping_body() {
    let mut game = square_game(
        5,
        vec![Point(2, 2), Point(2, 1), Point(2, 2)],
        PlayerDirection::Right,
        Point(4, 4),
        GameState::Playing,
    );
    game.check_game_over_conditions();
    assert_eq!(game.state(), GameState::Over);
    assert_eq!(game.player_position(), &vec![Point(2, 2), Point(2, 1), Point(2, 2)]);
}
