use snakey::border::Border;
use snakey::config::{RECT_SIZE, SCREEN_HEIGHT, SCREEN_WIDTH};
use snakey::food::Food;
use snakey::game::step_frame;
use snakey::geometry::Point;
use snakey::input::{event_handler, GameInput};
use snakey::player::{Direction, Player};

fn player_at(x: i32, y: i32) -> Player {
    Player::new(Point { x, y })
}

#[test]
fn new_player_is_a_bare_head() {
    let p = player_at(300, 400);
    assert_eq!(p.position, Point { x: 300, y: 400 });
    assert_eq!(p.previous_position, Point { x: 300, y: 400 });
    assert_eq!(p.current_direction, Direction::Up);
    assert_eq!(p.length, 1);
    assert_eq!(p.speed, 10);
    assert!(p.tail_positions.is_empty());
}

#[test]
fn new_food_is_spawned_at_fixed_position() {
    let f = Food::new();
    assert_eq!(f.pos, Point { x: 30, y: 30 });
    assert!(f.is_spawned);
}

#[test]
fn new_border_covers_the_screen() {
    let b = Border::new();
    assert_eq!(b.position, Point { x: 0, y: 0 });
    assert_eq!(b.width, SCREEN_WIDTH);
    assert_eq!(b.height, SCREEN_HEIGHT);
}

#[test]
fn opposite_direction_is_locked() {
    let cases = [
        (Direction::Up, GameInput::PressDown),
        (Direction::Down, GameInput::PressUp),
        (Direction::Left, GameInput::PressRight),
        (Direction::Right, GameInput::PressLeft),
    ];
    for (current, request) in cases {
        let mut p = player_at(300, 400);
        p.current_direction = current;
        let quit = event_handler(request, &mut p);
        assert!(!quit);
        assert_eq!(p.current_direction, current);
    }
}

#[test]
fn non_opposite_direction_is_taken() {
    let cases = [
        (Direction::Up, GameInput::PressLeft, Direction::Left),
        (Direction::Up, GameInput::PressRight, Direction::Right),
        (Direction::Up, GameInput::PressUp, Direction::Up),
        (Direction::Left, GameInput::PressUp, Direction::Up),
        (Direction::Right, GameInput::PressDown, Direction::Down),
        (Direction::Down, GameInput::PressLeft, Direction::Left),
    ];
    for (current, request, expected) in cases {
        let mut p = player_at(300, 400);
        p.current_direction = current;
        let quit = event_handler(request, &mut p);
        assert!(!quit);
        assert_eq!(p.current_direction, expected);
    }
}

#[test]
fn quit_and_escape_stop_the_loop() {
    let mut p = player_at(300, 400);
    assert!(event_handler(GameInput::Quit, &mut p));
    assert!(event_handler(GameInput::PressEscape, &mut p));
    assert!(!event_handler(GameInput::Other, &mut p));
    assert_eq!(p.position, Point { x: 300, y: 400 });
    assert_eq!(p.current_direction, Direction::Up);
    assert_eq!(p.length, 1);
    assert_eq!(p.speed, 10);
}

#[test]
fn grow_key_lengthens_without_speeding_up() {
    let mut p = player_at(300, 400);
    let quit = event_handler(GameInput::PressGrow, &mut p);
    assert!(!quit);
    assert_eq!(p.length, 2);
    assert_eq!(p.speed, 10);
}

#[test]
fn eating_grows_length_and_speed_by_one_each() {
    let mut p = player_at(300, 400);
    for _ in 0..5 {
        p.eat_food();
    }
    assert_eq!(p.length, 6);
    assert_eq!(p.speed, 15);
}

#[test]
fn border_death_on_every_edge() {
    let b = Border::new();
    // Strictly inside: alive.
    assert!(!player_at(300, 400).check_hit(&b));
    // The head's box reaches the right edge: 580 + 20 >= 600.
    assert!(player_at(580, 400).check_hit(&b));
    assert!(player_at(581, 400).check_hit(&b));
    assert!(!player_at(579, 400).check_hit(&b));
    // The head's box reaches the bottom edge: 780 + 20 >= 800.
    assert!(player_at(300, 780).check_hit(&b));
    assert!(!player_at(300, 779).check_hit(&b));
    // Touching either zero axis is death.
    assert!(player_at(0, 400).check_hit(&b));
    assert!(player_at(-1, 400).check_hit(&b));
    assert!(player_at(300, 0).check_hit(&b));
    assert!(!player_at(1, 1).check_hit(&b));
}

#[test]
fn intersection_tolerance_is_a_closed_square() {
    let head = Point { x: 100, y: 100 };
    let half = RECT_SIZE / 2;
    assert!(head.is_intersected(&Point { x: 105, y: 105 }, half));
    assert!(!head.is_intersected(&Point { x: 115, y: 100 }, half));
    // Boundary case: a distance of exactly 10 still intersects.
    assert!(head.is_intersected(&Point { x: 110, y: 100 }, half));
    assert!(head.is_intersected(&Point { x: 90, y: 110 }, half));
    assert!(!head.is_intersected(&Point { x: 100, y: 111 }, half));
}

#[test]
fn check_food_marks_a_hit_unspawned() {
    let p = player_at(100, 100);
    let mut near = Food { pos: Point { x: 105, y: 105 }, is_spawned: true };
    assert!(p.check_food(&mut near));
    assert!(!near.is_spawned);
    assert_eq!(near.pos, Point { x: 105, y: 105 });

    let mut far = Food { pos: Point { x: 115, y: 100 }, is_spawned: true };
    assert!(!p.check_food(&mut far));
    assert!(far.is_spawned);
}

#[test]
fn respawn_stays_on_the_grid_inside_the_playfield() {
    for _ in 0..200 {
        let mut f = Food { pos: Point { x: 30, y: 30 }, is_spawned: false };
        f.spawn();
        assert!(f.is_spawned);
        assert!(20 <= f.pos.x && f.pos.x <= 550, "x out of range: {}", f.pos.x);
        assert!(20 <= f.pos.y && f.pos.y <= 750, "y out of range: {}", f.pos.y);
        assert_eq!(f.pos.x % 10, 0);
        assert_eq!(f.pos.y % 10, 0);
    }
}

#[test]
fn spawned_food_is_left_alone() {
    let mut f = Food { pos: Point { x: 250, y: 330 }, is_spawned: true };
    f.spawn();
    assert!(f.is_spawned);
    assert_eq!(f.pos, Point { x: 250, y: 330 });
}

#[test]
fn update_position_steps_once_in_each_direction() {
    let cases = [
        (Direction::Up, Point { x: 300, y: 390 }),
        (Direction::Down, Point { x: 300, y: 410 }),
        (Direction::Left, Point { x: 290, y: 400 }),
        (Direction::Right, Point { x: 310, y: 400 }),
    ];
    for (dir, expected) in cases {
        let mut p = player_at(300, 400);
        p.current_direction = dir;
        p.update_position();
        assert_eq!(p.position, expected);
        assert_eq!(p.previous_position, Point { x: 300, y: 400 });
    }
}

#[test]
fn advance_with_length_one_keeps_no_tail() {
    let mut p = player_at(300, 400);
    p.advance();
    assert_eq!(p.position, Point { x: 300, y: 390 });
    assert_eq!(p.previous_position, Point { x: 300, y: 400 });
    assert!(p.tail_positions.is_empty());
}

#[test]
fn segment_lag_two_meals_two_frames() {
    let mut p = player_at(300, 400);
    p.eat_food();
    p.eat_food();
    assert_eq!(p.length, 3);
    p.advance();
    let head_one_frame_prior = p.position;
    p.advance();
    // The tail holds exactly 2 positions, one step behind per frame.
    assert_eq!(p.tail_positions.len(), 2);
    assert_eq!(p.tail_positions[0], head_one_frame_prior);
    assert_eq!(p.tail_positions[0], Point { x: 300, y: 390 });
    assert_eq!(p.tail_positions[1], Point { x: 300, y: 400 });
    assert_eq!(p.position, Point { x: 300, y: 380 });
}

#[test]
fn tail_is_capped_at_length_minus_one() {
    let mut p = player_at(300, 400);
    p.eat_food();
    assert_eq!(p.length, 2);
    for _ in 0..5 {
        p.advance();
    }
    assert_eq!(p.tail_positions.len(), 1);
    // The single segment still lags the head by exactly one frame.
    assert_eq!(p.tail_positions[0], p.previous_position);
}

#[test]
fn frame_delay_is_a_tenth_of_a_second_at_speed_ten() {
    assert_eq!(snakey::pacing::frame_delay_ns(10), 100_000_000);
}

#[test]
fn frame_delay_strictly_shrinks_as_speed_grows() {
    let mut previous = snakey::pacing::frame_delay_ns(10);
    for speed in 11..=100 {
        let delay = snakey::pacing::frame_delay_ns(speed);
        assert!(delay < previous, "delay did not shrink at speed {}", speed);
        previous = delay;
    }
}

#[test]
fn step_frame_stops_on_a_border_hit_and_changes_nothing() {
    let b = Border::new();
    let mut p = player_at(590, 400);
    let mut f = Food::new();
    let game_over = step_frame(&mut p, &mut f, &b);
    assert!(game_over);
    assert_eq!(p.position, Point { x: 590, y: 400 });
    assert_eq!(p.length, 1);
    assert_eq!(p.speed, 10);
    assert!(f.is_spawned);
    assert_eq!(f.pos, Point { x: 30, y: 30 });
}

#[test]
fn step_frame_eats_grows_and_advances() {
    let b = Border::new();
    let mut p = player_at(300, 400);
    let mut f = Food { pos: Point { x: 305, y: 395 }, is_spawned: true };
    let game_over = step_frame(&mut p, &mut f, &b);
    assert!(!game_over);
    assert!(!f.is_spawned);
    assert_eq!(p.length, 2);
    assert_eq!(p.speed, 11);
    assert_eq!(p.position, Point { x: 300, y: 390 });
    assert_eq!(p.tail_positions.len(), 1);
    assert_eq!(p.tail_positions[0], Point { x: 300, y: 400 });
}

#[test]
fn step_frame_without_food_or_border_just_moves() {
    let b = Border::new();
    let mut p = player_at(300, 400);
    p.current_direction = Direction::Right;
    let mut f = Food::new();
    let game_over = step_frame(&mut p, &mut f, &b);
    assert!(!game_over);
    assert!(f.is_spawned);
    assert_eq!(p.length, 1);
    assert_eq!(p.speed, 10);
    assert_eq!(p.position, Point { x: 310, y: 400 });
    assert!(p.tail_positions.is_empty());
}
