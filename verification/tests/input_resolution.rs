use snek::direction::{Direction, Key};
use snek::game::Game;
use snek::grid::{Grid, Pos};
use snek::input::{poll_due, InputBuffer, POLL_MS};
use snek::snake::{Health, Snake};

fn p(x: u32, y: u32) -> Pos {
    Pos { x, y }
}

fn snake_with(body: Vec<Pos>, direction: Direction) -> Snake {
    Snake { health: Health::Alive, body, direction, needs_to_grow: false }
}

#[test]
fn buffer_keeps_newest_press_at_the_front() {
    let mut buf = InputBuffer::new();
    buf.push(Key::Up, 1);
    buf.push(Key::Down, 2);
    assert_eq!(buf.events.len(), 2);
    assert_eq!(buf.events[0].key, Key::Down);
    assert_eq!(buf.events[0].time_ms, 2);
    assert_eq!(buf.events[1].key, Key::Up);
    buf.clear();
    assert_eq!(buf.events.len(), 0);
}

#[test]
fn first_safe_direction_wins_and_newer_presses_wait() {
    let g = Grid::new(20, 10);
    let mut rng = rand::thread_rng();
    let mut s = snake_with(vec![p(10, 5)], Direction::Still);
    let mut apple = p(0, 0);
    let mut buf = InputBuffer::new();

    buf.push(Key::Right, 0);
    buf.resolve(&mut s, &g, 100);
    assert_eq!(s.direction, Direction::Right);
    assert_eq!(buf.events.len(), 0);
    s.tick(&g, &mut apple, &mut rng);
    assert_eq!(s.body, vec![p(11, 5)]);

    buf.push(Key::Up, 300);
    buf.push(Key::Down, 350);
    buf.resolve(&mut s, &g, 400);
    assert_eq!(s.direction, Direction::Up);
    assert_eq!(buf.events.len(), 1);
    assert_eq!(buf.events[0].key, Key::Down);
    s.tick(&g, &mut apple, &mut rng);
    assert_eq!(s.body, vec![p(11, 4)]);
}

#[test]
fn one_cell_snake_may_reverse() {
    let g = Grid::new(20, 10);
    let mut s = snake_with(vec![p(10, 5)], Direction::Up);
    let mut buf = InputBuffer::new();
    buf.push(Key::Down, 10);
    buf.resolve(&mut s, &g, 20);
    assert_eq!(s.direction, Direction::Down);
}

#[test]
fn longer_snake_may_not_reverse() {
    let g = Grid::new(20, 10);
    let mut s = snake_with(vec![p(10, 5), p(10, 6)], Direction::Up);
    let mut buf = InputBuffer::new();
    buf.push(Key::Down, 10);
    buf.resolve(&mut s, &g, 20);
    assert_eq!(s.direction, Direction::Up);
    assert_eq!(buf.events.len(), 0);
}

#[test]
fn repeated_direction_is_rejected() {
    let g = Grid::new(20, 10);
    let mut s = snake_with(vec![p(10, 5), p(10, 6)], Direction::Up);
    let mut buf = InputBuffer::new();
    buf.push(Key::Up, 10);
    buf.resolve(&mut s, &g, 20);
    assert_eq!(s.direction, Direction::Up);
    assert_eq!(buf.events.len(), 0);
}

#[test]
fn stale_presses_are_discarded_unread() {
    let g = Grid::new(20, 10);
    let mut s = snake_with(vec![p(10, 5)], Direction::Still);
    let mut buf = InputBuffer::new();
    buf.push(Key::Right, 0);
    buf.resolve(&mut s, &g, 3 * POLL_MS + 1);
    assert_eq!(s.direction, Direction::Still);
    assert_eq!(buf.events.len(), 0);
}

#[test]
fn press_on_the_staleness_boundary_still_counts() {
    let g = Grid::new(20, 10);
    let mut s = snake_with(vec![p(10, 5)], Direction::Still);
    let mut buf = InputBuffer::new();
    buf.push(Key::Right, 0);
    buf.resolve(&mut s, &g, 3 * POLL_MS);
    assert_eq!(s.direction, Direction::Right);
}

#[test]
fn unsafe_first_acceptance_blocks_later_candidates() {
    let g = Grid::new(20, 10);
    // Moving left; Up from the head runs into an interior segment, Down
    // would be safe, but Up is scanned first and locks the tick.
    let mut s = snake_with(
        vec![p(5, 5), p(6, 5), p(6, 4), p(5, 4), p(4, 4)],
        Direction::Left,
    );
    let mut buf = InputBuffer::new();
    buf.push(Key::Up, 10);
    buf.push(Key::Down, 20);
    buf.resolve(&mut s, &g, 30);
    assert_eq!(s.direction, Direction::Up);
    assert_eq!(buf.events.len(), 0);
}

#[test]
fn non_directional_keys_are_skipped() {
    let g = Grid::new(20, 10);
    let mut s = snake_with(vec![p(10, 5)], Direction::Still);
    let mut buf = InputBuffer::new();
    buf.push(Key::Other, 10);
    buf.push(Key::Left, 20);
    buf.resolve(&mut s, &g, 30);
    assert_eq!(s.direction, Direction::Left);
}

#[test]
fn poll_due_fires_strictly_after_the_interval() {
    assert!(!poll_due(0, POLL_MS));
    assert!(poll_due(0, POLL_MS + 1));
    assert!(!poll_due(1000, 1000));
}

#[test]
fn game_new_places_the_apple_off_the_snake() {
    let game = Game::new(Grid::new(20, 10));
    assert_eq!(game.snake.body, vec![p(10, 5)]);
    assert_eq!(game.snake.health, Health::Alive);
    assert_eq!(game.snake.direction, Direction::Still);
    assert!(game.apple != p(10, 5));
    assert!(game.apple.x < 20 && game.apple.y < 10);
}

#[test]
fn game_new_on_a_two_cell_grid_is_forced() {
    // With only one free cell the sampler must land there.
    let game = Game::new(Grid::new(2, 1));
    assert_eq!(game.snake.body, vec![p(1, 0)]);
    assert_eq!(game.apple, p(0, 0));
}
