use snake_game::food::first_free_cell;
use snake_game::game::PLACEMENT_ATTEMPTS;
use snake_game::{
    Block, Direction, Game, Key, Screen, Snake, BOARD_HEIGHT, BOARD_WIDTH, INTERIOR_CELLS,
    MOVING_PERIOD,
};

/// Time of a tick that makes the snake move.
const LONG: u64 = 250_000;

fn body_of(game: &Game) -> Vec<(i32, i32)> {
    game.snake().body().iter().map(|b| (b.x, b.y)).collect()
}

fn food_of(game: &Game) -> Option<(i32, i32)> {
    game.food().map(|b| (b.x, b.y))
}

fn tick(game: &mut Game) {
    assert!(game.is_well_formed());
    assert!(game.has_room());
    game.update(LONG);
}

/// Drives a new game until the snake has eaten the first food, which lies
/// ten cells below and ten cells right of the head.
fn game_after_first_meal() -> Game {
    let mut game = Game::new();
    for _ in 0..10 {
        tick(&mut game);
    }
    game.handle_keypress(Key::Right);
    for _ in 0..10 {
        tick(&mut game);
    }
    game
}

#[test]
fn new_game_is_the_initial_state() {
    let game = Game::new();
    assert_eq!(body_of(&game), vec![(5, 5), (4, 5), (3, 5)]);
    assert_eq!(game.snake().direction(), Direction::Down);
    assert_eq!(food_of(&game), Some((15, 15)));
    assert_eq!(game.score(), 0);
    assert!(!game.is_game_over());
    assert!(!game.is_stopped());
    assert_eq!(game.refresh_time(), 0);
    assert_eq!(game.last_block_removed(), None);
    assert!(game.has_room());
}

#[test]
fn new_snake_is_three_cells_heading_down() {
    let snake = Snake::new();
    assert_eq!(
        snake.body().clone(),
        vec![Block::new(5, 5), Block::new(4, 5), Block::new(3, 5)]
    );
    assert_eq!(snake.direction(), Direction::Down);
}

#[test]
fn board_constants() {
    assert_eq!(BOARD_WIDTH, 25);
    assert_eq!(BOARD_HEIGHT, 25);
    assert_eq!(INTERIOR_CELLS, 23 * 23);
    assert_eq!(MOVING_PERIOD, 200_000);
    assert_eq!(PLACEMENT_ATTEMPTS, u64::MAX);
}

#[test]
fn first_tick_moves_the_snake_down() {
    let mut game = Game::new();
    game.update(LONG);
    assert_eq!(body_of(&game), vec![(5, 6), (5, 5), (4, 5)]);
    assert_eq!(game.last_block_removed(), Some(Block::new(3, 5)));
    assert_eq!(food_of(&game), Some((15, 15)));
    assert!(!game.is_game_over());
    assert_eq!(game.score(), 0);
    assert_eq!(game.refresh_time(), 0);
}

#[test]
fn tick_of_exactly_the_period_only_gathers_time() {
    let mut game = Game::new();
    game.update(MOVING_PERIOD);
    assert_eq!(body_of(&game), vec![(5, 5), (4, 5), (3, 5)]);
    assert_eq!(game.refresh_time(), MOVING_PERIOD);
    game.update(1);
    assert_eq!(body_of(&game), vec![(5, 6), (5, 5), (4, 5)]);
    assert_eq!(game.refresh_time(), 0);
}

#[test]
fn time_gathers_over_several_ticks() {
    let mut game = Game::new();
    game.update(90_000);
    game.update(90_000);
    assert_eq!(game.refresh_time(), 180_000);
    assert_eq!(body_of(&game), vec![(5, 5), (4, 5), (3, 5)]);
    game.update(90_000);
    assert_eq!(game.refresh_time(), 0);
    assert_eq!(body_of(&game), vec![(5, 6), (5, 5), (4, 5)]);
}

#[test]
fn long_tick_makes_one_move_only() {
    let mut game = Game::new();
    game.update(10 * MOVING_PERIOD);
    assert_eq!(body_of(&game), vec![(5, 6), (5, 5), (4, 5)]);
    assert_eq!(game.refresh_time(), 0);
}

#[test]
fn longest_tick_does_not_overflow() {
    let mut game = Game::new();
    game.update(150_000);
    game.update(u64::MAX);
    assert_eq!(body_of(&game), vec![(5, 6), (5, 5), (4, 5)]);
    assert_eq!(game.refresh_time(), 0);
}

#[test]
fn directional_key_sets_heading() {
    let mut game = Game::new();
    game.handle_keypress(Key::Right);
    assert_eq!(game.snake().direction(), Direction::Right);
    game.handle_keypress(Key::Down);
    assert_eq!(game.snake().direction(), Direction::Down);
    game.handle_keypress(Key::Left);
    assert_eq!(game.snake().direction(), Direction::Left);
    game.handle_keypress(Key::Up);
    assert_eq!(game.snake().direction(), Direction::Up);
    assert_eq!(body_of(&game), vec![(5, 5), (4, 5), (3, 5)]);
}

#[test]
fn reversing_key_is_ignored() {
    let mut game = Game::new();
    game.handle_keypress(Key::Up);
    assert_eq!(game.snake().direction(), Direction::Down);
    game.handle_keypress(Key::Right);
    game.handle_keypress(Key::Left);
    assert_eq!(game.snake().direction(), Direction::Right);
    game.handle_keypress(Key::Up);
    game.handle_keypress(Key::Down);
    assert_eq!(game.snake().direction(), Direction::Up);
    game.handle_keypress(Key::Left);
    game.handle_keypress(Key::Right);
    assert_eq!(game.snake().direction(), Direction::Left);
}

#[test]
fn other_key_changes_nothing() {
    let mut game = Game::new();
    game.update(50_000);
    game.handle_keypress(Key::Other);
    assert_eq!(body_of(&game), vec![(5, 5), (4, 5), (3, 5)]);
    assert_eq!(game.snake().direction(), Direction::Down);
    assert_eq!(game.refresh_time(), 50_000);
    assert!(!game.is_stopped());
    assert!(!game.is_game_over());
}

#[test]
fn return_does_nothing_while_the_game_runs() {
    let mut game = Game::new();
    tick(&mut game);
    game.handle_keypress(Key::Return);
    assert_eq!(body_of(&game), vec![(5, 6), (5, 5), (4, 5)]);
}

#[test]
fn direction_opposites() {
    assert_eq!(Direction::Up.opposite(), Direction::Down);
    assert_eq!(Direction::Down.opposite(), Direction::Up);
    assert_eq!(Direction::Left.opposite(), Direction::Right);
    assert_eq!(Direction::Right.opposite(), Direction::Left);
    assert!(Direction::Up.is_opposite(Direction::Down));
    assert!(!Direction::Up.is_opposite(Direction::Up));
    assert!(!Direction::Up.is_opposite(Direction::Left));
    assert_eq!(Direction::Up.turn(Direction::Down), Direction::Up);
    assert_eq!(Direction::Up.turn(Direction::Left), Direction::Left);
    assert_eq!(Direction::Up.turn(Direction::Up), Direction::Up);
}

#[test]
fn block_steps() {
    let b = Block::new(7, 9);
    assert_eq!(b.step(Direction::Up), Block::new(7, 8));
    assert_eq!(b.step(Direction::Down), Block::new(7, 10));
    assert_eq!(b.step(Direction::Left), Block::new(6, 9));
    assert_eq!(b.step(Direction::Right), Block::new(8, 9));
}

#[test]
fn interior_excludes_the_wall_ring() {
    assert!(Block::new(1, 1).is_interior());
    assert!(Block::new(23, 23).is_interior());
    assert!(!Block::new(0, 5).is_interior());
    assert!(!Block::new(24, 5).is_interior());
    assert!(!Block::new(5, 0).is_interior());
    assert!(!Block::new(5, 24).is_interior());
    assert!(!Block::new(-1, 5).is_interior());
}

#[test]
fn random_block_is_inside_the_wall_ring() {
    let mut seen: Vec<Block> = Vec::new();
    for _ in 0..2000 {
        let b = Block::random();
        assert!(1 <= b.x && b.x <= 23);
        assert!(1 <= b.y && b.y <= 23);
        assert!(b.is_interior());
        if !seen.contains(&b) {
            seen.push(b);
        }
    }
    assert!(seen.len() > 1);
}

#[test]
fn moves_without_meal_keep_length_and_advance_head() {
    let mut game = Game::new();
    for _ in 0..4 {
        tick(&mut game);
    }
    game.handle_keypress(Key::Right);
    for _ in 0..3 {
        tick(&mut game);
    }
    game.handle_keypress(Key::Up);
    for _ in 0..2 {
        tick(&mut game);
    }
    assert_eq!(body_of(&game), vec![(8, 7), (8, 8), (8, 9)]);
    assert_eq!(game.score(), 0);
    assert_eq!(food_of(&game), Some((15, 15)));
    assert!(!game.is_game_over());
}

#[test]
fn meal_grows_snake_and_moves_food() {
    let mut game = Game::new();
    for _ in 0..10 {
        tick(&mut game);
    }
    game.handle_keypress(Key::Right);
    for _ in 0..9 {
        tick(&mut game);
    }
    assert_eq!(body_of(&game), vec![(14, 15), (13, 15), (12, 15)]);
    assert_eq!(game.score(), 0);
    tick(&mut game);
    assert_eq!(game.score(), 1);
    assert_eq!(body_of(&game), vec![(15, 15), (14, 15), (13, 15), (12, 15)]);
    assert_eq!(game.last_block_removed(), Some(Block::new(12, 15)));
    assert!(!game.is_game_over());
    let food = game.food().unwrap();
    assert!(food.is_interior());
    assert!(![(15, 15), (14, 15), (13, 15)].contains(&(food.x, food.y)));
}

#[test]
fn meal_happens_every_time() {
    for _ in 0..50 {
        let game = game_after_first_meal();
        assert_eq!(game.score(), 1);
        assert_eq!(game.snake().body().len(), 4);
        let food = game.food().unwrap();
        assert!(food.is_interior());
        let body = body_of(&game);
        assert!(!body[..3].contains(&(food.x, food.y)));
    }
}

#[test]
fn bottom_wall_ends_the_game() {
    let mut game = Game::new();
    for _ in 0..18 {
        tick(&mut game);
        assert!(!game.is_game_over());
    }
    assert_eq!(body_of(&game)[0], (5, 23));
    tick(&mut game);
    assert_eq!(body_of(&game)[0], (5, 24));
    assert!(game.is_game_over());
}

#[test]
fn right_wall_ends_the_game() {
    let mut game = Game::new();
    game.handle_keypress(Key::Right);
    for _ in 0..18 {
        tick(&mut game);
        assert!(!game.is_game_over());
    }
    assert_eq!(body_of(&game)[0], (23, 5));
    tick(&mut game);
    assert_eq!(body_of(&game)[0], (24, 5));
    assert!(game.is_game_over());
}

#[test]
fn left_wall_ends_the_game() {
    let mut game = Game::new();
    tick(&mut game);
    game.handle_keypress(Key::Left);
    for _ in 0..4 {
        tick(&mut game);
        assert!(!game.is_game_over());
    }
    assert_eq!(body_of(&game)[0], (1, 6));
    tick(&mut game);
    assert_eq!(body_of(&game)[0], (0, 6));
    assert!(game.is_game_over());
}

#[test]
fn top_wall_ends_the_game() {
    let mut game = Game::new();
    game.handle_keypress(Key::Right);
    tick(&mut game);
    game.handle_keypress(Key::Up);
    for _ in 0..4 {
        tick(&mut game);
        assert!(!game.is_game_over());
    }
    assert_eq!(body_of(&game)[0], (6, 1));
    tick(&mut game);
    assert_eq!(body_of(&game)[0], (6, 0));
    assert!(game.is_game_over());
}

#[test]
fn running_into_the_body_ends_the_game() {
    let mut game = Game::new();
    game.handle_keypress(Key::Left);
    tick(&mut game);
    assert_eq!(body_of(&game), vec![(4, 5), (5, 5), (4, 5)]);
    assert!(game.is_game_over());
}

#[test]
fn two_turns_within_a_tick_can_reverse_the_snake() {
    let mut game = Game::new();
    tick(&mut game);
    game.handle_keypress(Key::Right);
    game.handle_keypress(Key::Up);
    tick(&mut game);
    assert_eq!(body_of(&game), vec![(5, 5), (5, 6), (5, 5)]);
    assert!(game.is_game_over());
}

#[test]
fn game_over_freezes_the_game() {
    let mut game = Game::new();
    game.handle_keypress(Key::Left);
    tick(&mut game);
    assert!(game.is_game_over());
    let body = body_of(&game);
    for _ in 0..10 {
        game.update(LONG);
    }
    assert_eq!(body_of(&game), body);
    assert_eq!(game.refresh_time(), 0);
    assert!(game.is_game_over());
    game.handle_keypress(Key::Space);
    assert!(game.is_stopped());
    assert!(game.is_game_over());
    game.handle_keypress(Key::Space);
    game.update(LONG);
    assert_eq!(body_of(&game), body);
}

#[test]
fn restart_resets_the_game() {
    let mut game = game_after_first_meal();
    assert_eq!(game.score(), 1);
    game.handle_keypress(Key::Space);
    for _ in 0..8 {
        game.handle_keypress(Key::Space);
        tick(&mut game);
        game.handle_keypress(Key::Space);
    }
    game.handle_keypress(Key::Space);
    tick(&mut game);
    assert!(game.is_game_over());
    assert_eq!(game.score(), 1);
    game.handle_keypress(Key::Space);
    game.handle_keypress(Key::Return);
    assert_eq!(body_of(&game), vec![(5, 5), (4, 5), (3, 5)]);
    assert_eq!(game.snake().direction(), Direction::Down);
    assert_eq!(food_of(&game), Some((15, 15)));
    assert_eq!(game.score(), 0);
    assert!(!game.is_game_over());
    assert!(!game.is_stopped());
    assert_eq!(game.refresh_time(), 0);
    assert_eq!(game.last_block_removed(), None);
}

#[test]
fn pause_freezes_the_time_gathered() {
    let mut game = Game::new();
    game.update(150_000);
    game.handle_keypress(Key::Space);
    assert!(game.is_stopped());
    for _ in 0..10 {
        game.update(LONG);
    }
    assert_eq!(body_of(&game), vec![(5, 5), (4, 5), (3, 5)]);
    assert_eq!(game.refresh_time(), 150_000);
    game.handle_keypress(Key::Space);
    assert!(!game.is_stopped());
    game.update(50_000);
    assert_eq!(body_of(&game), vec![(5, 5), (4, 5), (3, 5)]);
    assert_eq!(game.refresh_time(), 200_000);
    game.update(1);
    assert_eq!(body_of(&game), vec![(5, 6), (5, 5), (4, 5)]);
    assert_eq!(game.refresh_time(), 0);
    game.update(1);
    assert_eq!(body_of(&game), vec![(5, 6), (5, 5), (4, 5)]);
}

#[test]
fn draw_board_shows_the_field_while_the_game_runs() {
    let mut game = Game::new();
    assert_eq!(game.draw_board(), Screen::Playing { score: 0, paused: false });
    game.handle_keypress(Key::Space);
    assert_eq!(game.draw_board(), Screen::Playing { score: 0, paused: true });
    assert_eq!(body_of(&game), vec![(5, 5), (4, 5), (3, 5)]);
    assert_eq!(food_of(&game), Some((15, 15)));
}

#[test]
fn draw_board_clears_the_board_when_the_game_is_over() {
    let mut game = game_after_first_meal();
    game.handle_keypress(Key::Up);
    game.handle_keypress(Key::Left);
    tick(&mut game);
    assert!(game.is_game_over());
    assert_eq!(game.draw_board(), Screen::GameOver { score: 1 });
    assert!(body_of(&game).is_empty());
    assert_eq!(game.food(), None);
    assert_eq!(game.score(), 1);
    assert!(game.is_game_over());
    game.update(LONG);
    assert!(body_of(&game).is_empty());
    assert_eq!(game.draw_board(), Screen::GameOver { score: 1 });
    game.handle_keypress(Key::Return);
    assert_eq!(game.draw_board(), Screen::Playing { score: 0, paused: false });
    assert_eq!(body_of(&game), vec![(5, 5), (4, 5), (3, 5)]);
}

#[test]
fn occupies_finds_each_part_of_the_snake() {
    let snake = Snake::new();
    assert!(snake.occupies(Block::new(5, 5)));
    assert!(snake.occupies(Block::new(4, 5)));
    assert!(snake.occupies(Block::new(3, 5)));
    assert!(!snake.occupies(Block::new(2, 5)));
    assert!(!snake.occupies(Block::new(5, 4)));
    assert!(!snake.head_in_body());
}

#[test]
fn first_free_cell_reads_the_board_row_by_row() {
    assert_eq!(first_free_cell(&Snake::new()), Some(Block::new(1, 1)));
    let mut game = Game::new();
    game.handle_keypress(Key::Right);
    tick(&mut game);
    game.handle_keypress(Key::Up);
    for _ in 0..4 {
        tick(&mut game);
    }
    game.handle_keypress(Key::Left);
    for _ in 0..5 {
        tick(&mut game);
    }
    assert_eq!(body_of(&game), vec![(1, 1), (2, 1), (3, 1)]);
    assert_eq!(first_free_cell(game.snake()), Some(Block::new(4, 1)));
}

#[test]
fn place_food_takes_free_cells_only() {
    let mut game = Game::new();
    assert!(!game.place_food(Block::new(4, 5)));
    assert_eq!(food_of(&game), Some((15, 15)));
    assert!(!game.place_food(Block::new(0, 7)));
    assert!(!game.place_food(Block::new(7, 24)));
    assert_eq!(food_of(&game), Some((15, 15)));
    assert!(game.place_food(Block::new(7, 8)));
    assert_eq!(food_of(&game), Some((7, 8)));
    assert_eq!(body_of(&game), vec![(5, 5), (4, 5), (3, 5)]);
}

#[test]
fn generated_food_lies_on_a_free_cell() {
    let mut game = Game::new();
    let mut seen: Vec<(i32, i32)> = Vec::new();
    for _ in 0..500 {
        game.generate_random_food();
        let food = game.food().unwrap();
        assert!(food.is_interior());
        assert!(!game.snake().occupies(food));
        if !seen.contains(&(food.x, food.y)) {
            seen.push((food.x, food.y));
        }
    }
    assert!(seen.len() > 1);
    assert_eq!(body_of(&game), vec![(5, 5), (4, 5), (3, 5)]);
    assert_eq!(game.score(), 0);
}

#[test]
fn steps_of_a_move_one_by_one() {
    let mut game = Game::new();
    game.move_snake();
    assert_eq!(body_of(&game), vec![(5, 6), (5, 5), (4, 5)]);
    assert_eq!(game.last_block_removed(), Some(Block::new(3, 5)));
    assert!(!game.is_eating());
    assert_eq!(game.score(), 0);
    game.restore_tail();
    assert_eq!(body_of(&game), vec![(5, 6), (5, 5), (4, 5), (3, 5)]);
    game.check_if_snake_alive();
    assert!(!game.is_game_over());
    assert!(game.place_food(Block::new(5, 7)));
    game.move_snake();
    assert!(game.is_eating());
    assert_eq!(game.score(), 1);
    assert_eq!(food_of(&game), Some((5, 7)));
}

#[test]
fn restore_tail_without_a_move_changes_nothing() {
    let mut game = Game::new();
    game.restore_tail();
    assert_eq!(body_of(&game), vec![(5, 5), (4, 5), (3, 5)]);
}

#[test]
fn check_if_snake_alive_sees_wall_and_body() {
    let mut game = Game::new();
    game.handle_keypress(Key::Left);
    game.move_snake();
    assert!(game.snake().head_in_body());
    assert!(!game.is_game_over());
    game.check_if_snake_alive();
    assert!(game.is_game_over());

    let mut game = Game::new();
    game.handle_keypress(Key::Right);
    for _ in 0..19 {
        game.move_snake();
    }
    assert_eq!(body_of(&game)[0], (24, 5));
    game.check_if_snake_alive();
    assert!(game.is_game_over());
}

#[test]
fn play_keeps_the_game_well_formed() {
    let mut game = game_after_first_meal();
    assert!(game.is_well_formed());
    game.handle_keypress(Key::Space);
    assert!(game.is_well_formed());
    game.handle_keypress(Key::Space);
    game.handle_keypress(Key::Up);
    for _ in 0..15 {
        tick(&mut game);
    }
    assert!(game.is_game_over());
    assert!(game.is_well_formed());
    game.draw_board();
    assert!(game.is_well_formed());
    assert!(game.has_room());
    game.handle_keypress(Key::Return);
    assert!(game.is_well_formed());
}

#[test]
fn loose_steps_can_break_well_formedness() {
    let mut game = Game::new();
    game.move_snake();
    assert!(game.is_well_formed());
    game.restore_tail();
    assert_eq!(game.snake().body().len(), 4);
    assert!(!game.is_well_formed());

    let mut game = Game::new();
    assert!(game.place_food(Block::new(5, 5)) == false);
    assert!(game.place_food(Block::new(3, 6)));
    assert!(game.is_well_formed());
    game.handle_keypress(Key::Left);
    game.move_snake();
    assert!(!game.is_well_formed());
    assert!(!game.snake().is_simple());
    assert!(game.snake().is_inside());
    assert!(game.snake().is_connected());
}

#[test]
fn snake_shape_checks() {
    let snake = Snake::new();
    assert!(snake.is_inside());
    assert!(snake.is_simple());
    assert!(snake.is_connected());
    assert!(snake.occupies_before_tail(Block::new(5, 5)));
    assert!(snake.occupies_before_tail(Block::new(4, 5)));
    assert!(!snake.occupies_before_tail(Block::new(3, 5)));

    let mut game = Game::new();
    game.handle_keypress(Key::Right);
    for _ in 0..19 {
        game.move_snake();
    }
    assert_eq!(body_of(&game), vec![(24, 5), (23, 5), (22, 5)]);
    assert!(!game.snake().is_inside());
    assert!(game.snake().is_simple());
    assert!(game.snake().is_connected());
}

#[test]
fn adjacency_is_one_step_along_one_axis() {
    let b = Block::new(4, 4);
    assert!(b.is_adjacent(Block::new(4, 5)));
    assert!(b.is_adjacent(Block::new(4, 3)));
    assert!(b.is_adjacent(Block::new(3, 4)));
    assert!(b.is_adjacent(Block::new(5, 4)));
    assert!(!b.is_adjacent(Block::new(4, 4)));
    assert!(!b.is_adjacent(Block::new(5, 5)));
    assert!(!b.is_adjacent(Block::new(4, 6)));
    assert!(!Block::new(i32::MIN, 0).is_adjacent(Block::new(i32::MAX, 0)));
}

#[test]
fn gathered_time_up_to_the_period_is_well_formed() {
    let mut game = Game::new();
    game.update(MOVING_PERIOD);
    assert!(game.is_well_formed());
    assert_eq!(game.refresh_time(), MOVING_PERIOD);
}
