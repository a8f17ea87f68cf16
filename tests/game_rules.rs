use snake::color::{hex_to_color, Rgb};
use snake::commands::CommandsQueue;
use snake::direction::Direction;
use snake::food::{first_free_draw, free_cells, is_free, spawn_apple};
use snake::game::Game;
use snake::point::Point;
use snake::snake::{Keys, Snake};
use snake::{FIELD_CELLS, TICK_MS};
use std::collections::VecDeque;

const ALL: [Direction; 4] = [Direction::UP, Direction::RIGHT, Direction::DOWN, Direction::LEFT];

fn keys(up: bool, right: bool, left: bool, down: bool) -> Keys {
    Keys { up, right, left, down }
}

fn body_of(s: &Snake) -> Vec<Point> {
    s.body.iter().copied().collect()
}

#[test]
fn fresh_queue_holds_right() {
    let mut q = CommandsQueue::new();
    assert_eq!(q.get_last(), Direction::RIGHT);
    assert_eq!(q.get_direction(), Direction::RIGHT);
    assert_eq!(q.get_direction(), Direction::RIGHT);
}

#[test]
fn queue_ignores_repeated_direction() {
    let mut q = CommandsQueue::new();
    q.push_direction(Direction::RIGHT);
    q.push_direction(Direction::UP);
    q.push_direction(Direction::UP);
    assert_eq!(q.get_direction(), Direction::RIGHT);
    assert_eq!(q.get_direction(), Direction::UP);
    assert_eq!(q.get_direction(), Direction::UP);
}

#[test]
fn queued_turns_come_out_in_order() {
    for d2 in ALL {
        if d2 == Direction::LEFT {
            continue;
        }
        let mut q = CommandsQueue::new();
        q.push_direction(Direction::RIGHT);
        q.push_direction(d2);
        assert_eq!(q.get_direction(), Direction::RIGHT);
        assert_eq!(q.get_direction(), d2);
        assert_eq!(q.get_direction(), d2);
    }
}

#[test]
fn queue_is_first_in_first_out() {
    let mut q = CommandsQueue::new();
    q.push_direction(Direction::UP);
    q.push_direction(Direction::LEFT);
    assert_eq!(q.get_last(), Direction::LEFT);
    assert_eq!(q.get_direction(), Direction::RIGHT);
    assert_eq!(q.get_direction(), Direction::UP);
    assert_eq!(q.get_direction(), Direction::LEFT);
    assert_eq!(q.get_direction(), Direction::LEFT);
}

#[test]
fn opposite_directions() {
    assert_eq!(Direction::UP.opposite(), Direction::DOWN);
    assert_eq!(Direction::DOWN.opposite(), Direction::UP);
    assert_eq!(Direction::LEFT.opposite(), Direction::RIGHT);
    assert_eq!(Direction::RIGHT.opposite(), Direction::LEFT);
}

#[test]
fn reversing_key_is_rejected() {
    let mut s = Snake::new();
    s.process_commands(keys(false, false, true, false));
    assert_eq!(s.commands_queue.get_last(), Direction::RIGHT);
    s.turn_snake();
    assert_eq!(s.direction, Direction::RIGHT);
}

#[test]
fn committed_direction_never_reverses() {
    for first in [keys(true, false, false, false), keys(false, false, false, true)] {
        for second in [
            keys(true, false, false, false),
            keys(false, true, false, false),
            keys(false, false, true, false),
            keys(false, false, false, true),
        ] {
            let mut s = Snake::new();
            s.process_commands(first);
            s.process_commands(second);
            for _ in 0..4 {
                let before = s.direction;
                s.turn_snake();
                assert_ne!(s.direction, before.opposite());
            }
        }
    }
}

#[test]
fn keys_are_read_up_right_left_down() {
    let mut s = Snake::new();
    s.process_commands(keys(true, true, true, true));
    assert_eq!(s.commands_queue.get_last(), Direction::UP);
    let mut s = Snake::new();
    s.process_commands(keys(false, false, true, true));
    assert_eq!(s.commands_queue.get_last(), Direction::DOWN);
    let mut s = Snake::new();
    s.process_commands(Keys::none());
    assert_eq!(s.commands_queue.get_last(), Direction::RIGHT);
}

#[test]
fn new_snake_layout() {
    let s = Snake::new();
    assert_eq!(body_of(&s), vec![Point::new(5, 5), Point::new(5, 6)]);
    assert_eq!(*s.head(), Point::new(5, 5));
    assert_eq!(s.direction, Direction::RIGHT);
    assert!(s.is_hungry);
}

#[test]
fn move_keeps_length_when_hungry() {
    let mut s = Snake::new();
    s.move_body();
    assert_eq!(body_of(&s), vec![Point::new(6, 5), Point::new(5, 5)]);
}

#[test]
fn move_grows_after_eating_and_stays_grown() {
    let mut s = Snake::new();
    s.is_hungry = false;
    s.move_body();
    assert_eq!(body_of(&s), vec![Point::new(6, 5), Point::new(5, 5), Point::new(5, 6)]);
    s.is_hungry = true;
    s.move_body();
    s.move_body();
    assert_eq!(body_of(&s), vec![Point::new(8, 5), Point::new(7, 5), Point::new(6, 5)]);
}

#[test]
fn move_in_each_direction() {
    let cases = [
        (Direction::UP, Point::new(5, 6)),
        (Direction::DOWN, Point::new(5, 4)),
        (Direction::LEFT, Point::new(4, 5)),
        (Direction::RIGHT, Point::new(6, 5)),
    ];
    for (d, head) in cases {
        let mut s = Snake::new();
        s.direction = d;
        s.move_body();
        assert_eq!(*s.head(), head);
        assert_eq!(s.body.len(), 2);
    }
}

#[test]
fn head_on_second_cell_collides() {
    let mut s = Snake::new();
    s.body = VecDeque::from(vec![Point::new(5, 5), Point::new(5, 5)]);
    assert!(s.check_collision());
}

#[test]
fn in_bounds_body_without_overlap_does_not_collide() {
    let mut s = Snake::new();
    assert!(!s.check_collision());
    s.body = VecDeque::from(vec![
        Point::new(15, 15),
        Point::new(14, 15),
        Point::new(14, 14),
        Point::new(15, 14),
    ]);
    for d in ALL {
        s.direction = d;
        assert!(!s.check_collision());
    }
}

#[test]
fn leading_edge_collisions() {
    let cases = [
        (Direction::UP, Point::new(3, FIELD_CELLS), true),
        (Direction::RIGHT, Point::new(FIELD_CELLS, 3), true),
        (Direction::DOWN, Point::new(3, -1), true),
        (Direction::LEFT, Point::new(-1, 3), true),
        (Direction::RIGHT, Point::new(-1, 3), false),
        (Direction::LEFT, Point::new(FIELD_CELLS, 3), false),
    ];
    for (d, head, expected) in cases {
        let mut s = Snake::new();
        s.body = VecDeque::from(vec![head, Point::new(7, 7)]);
        s.direction = d;
        assert_eq!(s.check_collision(), expected);
    }
}

#[test]
fn body_bites_its_tail() {
    let mut s = Snake::new();
    s.body = VecDeque::from(vec![
        Point::new(2, 2),
        Point::new(2, 3),
        Point::new(3, 3),
        Point::new(3, 2),
        Point::new(2, 2),
    ]);
    assert!(s.check_collision());
}

fn all_cells_but(free: Option<Point>) -> VecDeque<Point> {
    let mut cells = VecDeque::new();
    for x in 0..FIELD_CELLS {
        for y in 0..FIELD_CELLS {
            let p = Point::new(x, y);
            if Some(p) != free {
                cells.push_back(p);
            }
        }
    }
    cells
}

#[test]
fn spawn_avoids_occupied_cells() {
    let occupied = VecDeque::from(vec![Point::new(5, 5), Point::new(5, 6), Point::new(0, 0)]);
    for _ in 0..200 {
        let p = spawn_apple(&occupied).unwrap();
        assert!(!occupied.contains(&p));
        assert!(0 <= p.x && p.x < FIELD_CELLS && 0 <= p.y && p.y < FIELD_CELLS);
    }
}

#[test]
fn spawn_finds_the_only_free_cell() {
    for free in [Point::new(0, 0), Point::new(7, 9), Point::new(15, 15)] {
        let occupied = all_cells_but(Some(free));
        assert_eq!(spawn_apple(&occupied), Some(free));
    }
}

#[test]
fn spawn_on_full_grid_gives_none() {
    let occupied = all_cells_but(None);
    assert_eq!(spawn_apple(&occupied), None);
    assert!(free_cells(&occupied).is_empty());
}

#[test]
fn free_cells_in_scan_order() {
    let all = free_cells(&VecDeque::new());
    assert_eq!(all.len(), 256);
    assert_eq!(all[0], Point::new(0, 0));
    assert_eq!(all[1], Point::new(0, 1));
    assert_eq!(all[16], Point::new(1, 0));
    assert_eq!(all[255], Point::new(15, 15));
    let occupied = VecDeque::from(vec![Point::new(0, 0), Point::new(0, 1)]);
    let some = free_cells(&occupied);
    assert_eq!(some.len(), 254);
    assert_eq!(some[0], Point::new(0, 2));
    assert_eq!(free_cells(&all_cells_but(Some(Point::new(4, 9)))), vec![Point::new(4, 9)]);
}

#[test]
fn first_free_draw_skips_taken_and_outside_cells() {
    let occupied = VecDeque::from(vec![Point::new(5, 5), Point::new(5, 6)]);
    let draws = vec![Point::new(5, 5), Point::new(16, 2), Point::new(-1, 0), Point::new(5, 6), Point::new(3, 3), Point::new(4, 4)];
    assert_eq!(first_free_draw(&occupied, &draws), Some(4));
    assert_eq!(first_free_draw(&occupied, &draws[..4].to_vec()), None);
    assert_eq!(first_free_draw(&occupied, &Vec::new()), None);
}

#[test]
fn free_cell_check() {
    let occupied = VecDeque::from(vec![Point::new(1, 2)]);
    assert!(!is_free(&occupied, Point::new(1, 2)));
    assert!(is_free(&occupied, Point::new(2, 1)));
}

#[test]
fn cell_pixels() {
    assert_eq!(Point::new(0, 0).pixel_origin(), (200, 380));
    assert_eq!(Point::new(15, 15).pixel_origin(), (500, 80));
    assert_eq!(Point::new(3, 2).step(Direction::UP), Point::new(3, 3));
}

#[test]
fn colors_parse() {
    assert_eq!(hex_to_color("FCF0C8"), Some(Rgb { r: 252, g: 240, b: 200 }));
    assert_eq!(hex_to_color("911F27"), Some(Rgb { r: 145, g: 31, b: 39 }));
    assert_eq!(hex_to_color("#630a10"), Some(Rgb { r: 99, g: 10, b: 16 }));
    assert_eq!(hex_to_color("fecee9"), Some(Rgb { r: 254, g: 206, b: 233 }));
}

#[test]
fn bad_colors_are_refused() {
    assert_eq!(hex_to_color("FCF0C"), None);
    assert_eq!(hex_to_color("FCF0C8A"), None);
    assert_eq!(hex_to_color("GG0000"), None);
    assert_eq!(hex_to_color("#12345"), None);
    assert_eq!(hex_to_color(""), None);
}

#[test]
fn new_game_starts_playing() {
    let g = Game::new();
    assert_eq!(g.score, 0);
    assert!(!g.is_over);
    assert!(!g.snake.body.contains(&g.apple));
    assert!(0 <= g.apple.x && g.apple.x < FIELD_CELLS && 0 <= g.apple.y && g.apple.y < FIELD_CELLS);
}

#[test]
fn one_tick_moves_right() {
    let mut g = Game::with_apple(Point::new(0, 0));
    g.tick(TICK_MS + 1, Keys::none());
    assert_eq!(body_of(&g.snake), vec![Point::new(6, 5), Point::new(5, 5)]);
    assert_eq!(g.score, 0);
    assert_eq!(g.last_tick_ms, TICK_MS + 1);
    assert!(!g.is_over);
}

#[test]
fn no_step_before_tick_is_due() {
    let mut g = Game::with_apple(Point::new(0, 0));
    g.tick(TICK_MS, Keys::none());
    assert_eq!(body_of(&g.snake), vec![Point::new(5, 5), Point::new(5, 6)]);
    g.tick(TICK_MS + 1, keys(true, false, false, false));
    assert_eq!(*g.snake.head(), Point::new(6, 5));
    assert_eq!(g.snake.direction, Direction::RIGHT);
    g.tick(2 * TICK_MS + 2, Keys::none());
    assert_eq!(body_of(&g.snake), vec![Point::new(6, 6), Point::new(6, 5)]);
}

#[test]
fn right_edge_ends_game() {
    let mut g = Game::with_apple(Point::new(0, 0));
    let mut now = 0;
    for _ in 0..10 {
        now += TICK_MS + 1;
        g.tick(now, Keys::none());
        assert!(!g.is_over);
    }
    assert_eq!(*g.snake.head(), Point::new(15, 5));
    now += TICK_MS + 1;
    g.tick(now, Keys::none());
    assert!(g.is_over);
    assert_eq!(*g.snake.head(), Point::new(16, 5));
    let last = g.last_tick_ms;
    g.tick(now + 10 * TICK_MS, keys(true, false, false, false));
    assert_eq!(*g.snake.head(), Point::new(16, 5));
    assert_eq!(g.last_tick_ms, last);
}

#[test]
fn eating_scores_and_grows() {
    let mut g = Game::with_apple(Point::new(5, 5));
    g.tick(TICK_MS + 1, Keys::none());
    assert_eq!(g.score, 1);
    assert_eq!(body_of(&g.snake), vec![Point::new(6, 5), Point::new(5, 5), Point::new(5, 6)]);
    assert!(g.apple != Point::new(5, 5) && g.apple != Point::new(5, 6));
    g.tick(2 * TICK_MS + 2, Keys::none());
    assert_eq!(g.snake.body.len(), 3);
}

#[test]
fn step_with_given_food() {
    let mut g = Game::with_apple(Point::new(5, 5));
    g.step_with(Some(Point::new(9, 9)));
    assert_eq!(g.apple, Point::new(9, 9));
    assert_eq!(g.score, 1);
    assert_eq!(g.snake.body.len(), 3);
    let mut g = Game::with_apple(Point::new(5, 5));
    g.step_with(None);
    assert!(!g.is_over);
    assert_eq!(g.apple, Point::new(5, 5));
    assert_eq!(g.score, 1);
    assert_eq!(body_of(&g.snake), vec![Point::new(6, 5), Point::new(5, 5), Point::new(5, 6)]);
    let mut g = Game::with_apple(Point::new(1, 1));
    g.step_with(Some(Point::new(9, 9)));
    assert_eq!(g.apple, Point::new(1, 1));
    assert_eq!(g.score, 0);
}

#[test]
fn turning_into_own_body_ends_game() {
    let mut g = Game::with_apple(Point::new(0, 0));
    g.snake.body = VecDeque::from(vec![
        Point::new(5, 5),
        Point::new(5, 4),
        Point::new(6, 4),
        Point::new(7, 4),
        Point::new(8, 4),
    ]);
    g.score = 3;
    g.snake.process_commands(keys(false, false, false, true));
    g.step();
    assert!(!g.is_over);
    assert_eq!(*g.snake.head(), Point::new(6, 5));
    g.step();
    assert!(g.is_over);
    assert_eq!(*g.snake.head(), Point::new(6, 4));
}

#[test]
fn eating_on_a_full_field_still_moves_then_ends() {
    let mut path = Vec::new();
    for x in 0..FIELD_CELLS {
        for k in 0..FIELD_CELLS {
            let y = if x % 2 == 0 { k } else { FIELD_CELLS - 1 - k };
            path.push(Point::new(x, y));
        }
    }
    path.reverse();
    let mut g = Game::with_apple(Point::new(15, 0));
    g.snake.body = VecDeque::from(path);
    g.snake.direction = Direction::DOWN;
    g.score = 254;
    assert_eq!(*g.snake.head(), Point::new(15, 0));
    g.tick(TICK_MS + 1, Keys::none());
    assert!(g.is_over);
    assert_eq!(g.score, 255);
    assert_eq!(g.apple, Point::new(15, 0));
    assert_eq!(*g.snake.head(), Point::new(16, 0));
    assert_eq!(g.snake.body.len(), 257);
    assert_eq!(g.last_tick_ms, 0);
}

#[test]
fn keys_are_queued_after_game_over() {
    let mut g = Game::with_apple(Point::new(0, 0));
    g.is_over = true;
    g.tick(TICK_MS + 1, keys(true, false, false, false));
    assert!(g.is_over);
    assert_eq!(g.snake.commands_queue.get_last(), Direction::UP);
    assert_eq!(body_of(&g.snake), vec![Point::new(5, 5), Point::new(5, 6)]);
    assert_eq!(g.last_tick_ms, 0);
}
