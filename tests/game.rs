use snake_game::food::{first_free_cell, overlaps, spawn_location, Food, SPAWN_ATTEMPTS};
use snake_game::game::{App, Key, GRID_COLS, GRID_ROWS, TICK_WINDOW};
use snake_game::grid::{normalize_pixel, Location, SCALE, SCREEN_HEIGHT, SCREEN_WIDTH};
use snake_game::snake::{Direction, Snake};

fn one_segment(x: i32, y: i32, direction: Direction) -> Snake {
    Snake { location: vec![Location(x, y)], direction }
}

#[test]
fn normalize_scales_by_ten() {
    assert_eq!(normalize_pixel(1), 10);
    assert_eq!(normalize_pixel(0), 0);
    assert_eq!(normalize_pixel(-3), -30);
    assert_eq!(normalize_pixel(96), 960);
    assert_eq!(SCALE, 10);
}

#[test]
fn grid_matches_screen() {
    assert_eq!(GRID_COLS, (SCREEN_WIDTH / 10) as i32);
    assert_eq!(GRID_ROWS, (SCREEN_HEIGHT / 10) as i32);
}

#[test]
fn new_snake_sits_at_centre() {
    let s = Snake::new();
    assert_eq!(s.location, vec![Location(480, 270)]);
    assert_eq!(s.direction, Direction::Idle);
}

#[test]
fn new_food_is_off_screen() {
    assert_eq!(Food::new().location, Location(-10, -10));
}

#[test]
fn advance_up() {
    let mut s = one_segment(100, 100, Direction::Up);
    s.move_self();
    assert_eq!(s.location, vec![Location(100, 90)]);
}

#[test]
fn advance_down() {
    let mut s = one_segment(100, 100, Direction::Down);
    s.move_self();
    assert_eq!(s.location, vec![Location(100, 110)]);
}

#[test]
fn advance_left() {
    let mut s = one_segment(100, 100, Direction::Left);
    s.move_self();
    assert_eq!(s.location, vec![Location(90, 100)]);
}

#[test]
fn advance_right() {
    let mut s = one_segment(100, 100, Direction::Right);
    s.move_self();
    assert_eq!(s.location, vec![Location(110, 100)]);
}

#[test]
fn advance_idle_stays() {
    let mut s = one_segment(100, 100, Direction::Idle);
    s.move_self();
    assert_eq!(s.location, vec![Location(100, 100)]);
    assert_eq!(s.direction, Direction::Idle);
}

#[test]
fn advance_moves_last_segment_to_front() {
    let mut s = Snake {
        location: vec![Location(0, 0), Location(10, 0), Location(20, 0)],
        direction: Direction::Right,
    };
    s.move_self();
    assert_eq!(s.location, vec![Location(30, 0), Location(0, 0), Location(10, 0)]);
}

#[test]
fn updates_filling_one_tick_step_once() {
    let mut app = App::new();
    app.press(Key::D);
    for _ in 0..5 {
        app.update(10_000);
    }
    assert_eq!(app.snake.location, vec![Location(490, 270)]);
    assert_eq!(app.current_tick, 0);
}

#[test]
fn single_update_of_a_whole_tick_steps_once() {
    let mut app = App::new();
    app.press(Key::S);
    app.update(TICK_WINDOW);
    assert_eq!(app.snake.location, vec![Location(480, 280)]);
    assert_eq!(app.current_tick, 0);
}

#[test]
fn short_update_does_not_step() {
    let mut app = App::new();
    app.press(Key::D);
    app.update(49_999);
    assert_eq!(app.snake.location, vec![Location(480, 270)]);
    assert_eq!(app.current_tick, 49_999);
}

#[test]
fn accumulator_stays_below_window() {
    let mut app = App::new();
    app.press(Key::W);
    let dts: [u64; 8] = [0, 30_000, 50_000, 20_000, 1, 49_999, 50_000, 7];
    for dt in dts {
        app.update(dt);
        assert!(app.current_tick < TICK_WINDOW);
    }
}

#[test]
fn long_update_steps_only_once() {
    let mut app = App::new();
    app.press(Key::A);
    app.update(200_000);
    assert_eq!(app.snake.location, vec![Location(470, 270)]);
    assert_eq!(app.current_tick, 150_000);
}

#[test]
fn six_hundredths_step_once_and_carry_remainder() {
    let mut app = App::new();
    app.press(Key::D);
    for _ in 0..6 {
        app.update(10_000);
    }
    assert_eq!(app.snake.location.len(), 1);
    assert_eq!(app.snake.location[0].0, 490);
    assert_eq!(app.snake.location[0].1, 270);
    assert_eq!(app.current_tick, 10_000);
}

#[test]
fn keys_set_heading() {
    let mut app = App::new();
    app.press(Key::W);
    assert_eq!(app.snake.direction, Direction::Up);
    app.press(Key::S);
    assert_eq!(app.snake.direction, Direction::Down);
    app.press(Key::A);
    assert_eq!(app.snake.direction, Direction::Left);
    app.press(Key::D);
    assert_eq!(app.snake.direction, Direction::Right);
    app.press(Key::Other);
    assert_eq!(app.snake.direction, Direction::Right);
    app.press(Key::Space);
    assert_eq!(app.snake.direction, Direction::Idle);
}

#[test]
fn squares_list_snake_then_food() {
    let mut app = App::new();
    app.snake.location = vec![Location(1, 2), Location(3, 4)];
    assert_eq!(app.squares(), vec![Location(1, 2), Location(3, 4), Location(-10, -10)]);
}

#[test]
fn can_update_refuses_overflow() {
    let mut app = App::new();
    assert!(app.can_update(10));
    app.current_tick = 5;
    assert!(!app.can_update(u64::MAX));
    app.snake.location = vec![Location(i32::MAX - 5, 0)];
    app.press(Key::D);
    assert!(app.can_update(49_995 - 1));
    assert!(!app.can_update(49_995));
    app.press(Key::Space);
    assert!(app.can_update(49_995));
    app.snake.location = Vec::new();
    assert!(!app.can_update(49_995));
    assert!(app.can_update(1));
}

#[test]
fn overlap_compares_both_axes() {
    let segs = vec![Location(3, 4), Location(5, 6)];
    assert!(overlaps(&segs, &Location(5, 6)));
    assert!(!overlaps(&segs, &Location(3, 6)));
    assert!(!overlaps(&Vec::new(), &Location(0, 0)));
    let mut app = App::new();
    assert!(app.location_overlaps_player(&Location(480, 270)));
    assert!(!app.location_overlaps_player(&Location(-10, -10)));
    app.snake.location.push(Location(-10, -10));
    assert!(app.location_overlaps_player(&Location(-10, -10)));
}

#[test]
fn first_free_cell_scans_rows() {
    assert_eq!(first_free_cell(2, 2, &vec![Location(0, 0)]), Some(Location(1, 0)));
    assert_eq!(
        first_free_cell(2, 2, &vec![Location(0, 0), Location(1, 0)]),
        Some(Location(0, 1))
    );
    assert_eq!(first_free_cell(3, 3, &Vec::new()), Some(Location(0, 0)));
    let full = vec![Location(0, 0), Location(1, 0), Location(0, 1), Location(1, 1)];
    assert_eq!(first_free_cell(2, 2, &full), None);
    assert_eq!(first_free_cell(0, 5, &Vec::new()), None);
}

#[test]
fn spawn_never_lands_on_the_snake() {
    let segs = vec![Location(0, 0)];
    for _ in 0..2000 {
        let l = spawn_location(2, 2, &segs).unwrap();
        assert_ne!(l, Location(0, 0));
        assert!(l.0 >= 0 && l.0 < 2 && l.1 >= 0 && l.1 < 2);
    }
}

#[test]
fn spawn_finds_the_one_free_cell() {
    let segs = vec![Location(0, 0), Location(1, 0), Location(0, 1)];
    for _ in 0..50 {
        assert_eq!(spawn_location(2, 2, &segs), Some(Location(1, 1)));
    }
}

#[test]
fn spawn_on_full_or_empty_grid_is_none() {
    let full = vec![Location(1, 1), Location(0, 1), Location(1, 0), Location(0, 0)];
    assert_eq!(spawn_location(2, 2, &full), None);
    assert_eq!(spawn_location(0, 0, &Vec::new()), None);
    assert_eq!(spawn_location(4, -1, &Vec::new()), None);
}

#[test]
fn spawn_stays_within_the_grid() {
    assert!(SPAWN_ATTEMPTS > 0);
    for _ in 0..500 {
        let l = spawn_location(3, 1, &Vec::new()).unwrap();
        assert!(l.0 >= 0 && l.0 < 3);
        assert_eq!(l.1, 0);
    }
}

#[test]
fn new_food_spawn_location_is_free_grid_cell() {
    let mut app = App::new();
    app.snake.location = vec![Location(0, 0), Location(1, 0)];
    for _ in 0..200 {
        let l = app.new_food_spawn_location().unwrap();
        assert!(l.0 >= 0 && l.0 < GRID_COLS && l.1 >= 0 && l.1 < GRID_ROWS);
        assert!(!app.location_overlaps_player(&l));
    }
}
