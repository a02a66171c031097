use snake::clock::{Clock, EatAnimation};
use snake::food::{first_free_cell, fits, spawn_food, Food};
use snake::game::{occupies, resolve_direction, GameState, Status, TickOutcome};
use snake::grid::{step, Direction, Position, GRID_HEIGHT, GRID_WIDTH};

fn far_food() -> Food {
    Food { x: 15, y: 15, size: 1 }
}

fn game(body: &[Position], heading: Direction, food: Food) -> GameState {
    GameState::with_snake(body.to_vec(), heading, food).expect("valid game")
}

fn footprint_is_free(snake: &[Position], f: &Food) -> bool {
    for dx in 0..f.size {
        for dy in 0..f.size {
            let c = (f.x + dx, f.y + dy);
            if c.0 < 0 || c.0 >= GRID_WIDTH || c.1 < 0 || c.1 >= GRID_HEIGHT {
                return false;
            }
            if snake.contains(&c) {
                return false;
            }
        }
    }
    (1..=3).contains(&f.size)
}

#[test]
fn new_game_starts_in_fixed_position() {
    let g = GameState::new();
    assert_eq!(g.snake().as_slice(), &[(5, 5), (4, 5), (3, 5)]);
    assert_eq!(g.heading(), Direction::Right);
    assert_eq!(g.pending(), Direction::Right);
    assert_eq!(g.score(), 0);
    assert_eq!(g.status(), Status::Running);
    assert!(footprint_is_free(g.snake(), &g.food()));
}

#[test]
fn one_tick_moves_head_and_pops_tail() {
    let mut g = game(&[(5, 5), (4, 5), (3, 5)], Direction::Right, far_food());
    assert_eq!(g.tick(), TickOutcome::Moved);
    assert_eq!(g.snake().as_slice(), &[(6, 5), (5, 5), (4, 5)]);
    assert_eq!(g.score(), 0);
    assert_eq!(g.status(), Status::Running);
    assert_eq!(g.food(), far_food());
}

#[test]
fn leaving_the_grid_ends_the_game() {
    let mut g = game(&[(1, 5), (2, 5), (3, 5)], Direction::Left, far_food());
    assert_eq!(g.tick(), TickOutcome::Moved);
    assert_eq!(g.head(), (0, 5));
    assert_eq!(g.tick(), TickOutcome::Crashed);
    assert_eq!(g.status(), Status::Over);
    assert_eq!(g.snake().as_slice(), &[(0, 5), (1, 5), (2, 5)]);
    assert_eq!(g.tick(), TickOutcome::Idle);
    assert_eq!(g.snake().as_slice(), &[(0, 5), (1, 5), (2, 5)]);
}

#[test]
fn leaving_through_each_edge_ends_the_game() {
    let cases = [
        ((0, 7), Direction::Left),
        ((19, 7), Direction::Right),
        ((7, 0), Direction::Up),
        ((7, 19), Direction::Down),
    ];
    for (head, dir) in cases {
        let mut g = game(&[head], dir, far_food());
        assert_eq!(g.tick(), TickOutcome::Crashed);
        assert_eq!(g.status(), Status::Over);
    }
}

#[test]
fn running_into_the_body_ends_the_game() {
    let body = [(5, 5), (5, 6), (4, 6), (4, 5), (3, 5)];
    let mut g = game(&body, Direction::Up, far_food());
    g.steer(false, false, true, false);
    assert_eq!(g.pending(), Direction::Left);
    assert_eq!(g.tick(), TickOutcome::Crashed);
    assert_eq!(g.status(), Status::Over);
    assert_eq!(g.snake().as_slice(), &body);
}

#[test]
fn restart_after_game_over_resets_everything() {
    let mut g = game(&[(0, 5), (1, 5)], Direction::Left, far_food());
    assert_eq!(g.tick(), TickOutcome::Crashed);
    g.restart();
    assert_eq!(g.snake().as_slice(), &[(5, 5), (4, 5), (3, 5)]);
    assert_eq!(g.heading(), Direction::Right);
    assert_eq!(g.pending(), Direction::Right);
    assert_eq!(g.score(), 0);
    assert_eq!(g.status(), Status::Running);
    assert!(footprint_is_free(g.snake(), &g.food()));
}

#[test]
fn restart_while_running_changes_nothing() {
    let mut g = game(&[(9, 9), (9, 10)], Direction::Up, far_food());
    g.restart();
    assert_eq!(g.snake().as_slice(), &[(9, 9), (9, 10)]);
    assert_eq!(g.heading(), Direction::Up);
    assert_eq!(g.status(), Status::Running);
}

#[test]
fn reversal_is_ignored() {
    let mut g = game(&[(5, 5), (4, 5), (3, 5)], Direction::Right, far_food());
    g.steer(false, false, true, false);
    assert_eq!(g.pending(), Direction::Right);
    assert_eq!(resolve_direction(Direction::Right, Direction::Right, false, false, true, false), Direction::Right);
    assert_eq!(resolve_direction(Direction::Up, Direction::Up, false, true, false, false), Direction::Up);
    assert_eq!(resolve_direction(Direction::Down, Direction::Down, true, false, false, false), Direction::Down);
    assert_eq!(resolve_direction(Direction::Left, Direction::Left, false, false, false, true), Direction::Left);
}

#[test]
fn reversal_is_ignored_across_frames() {
    let mut g = game(&[(5, 5), (4, 5), (3, 5)], Direction::Right, far_food());
    g.steer(true, false, false, false);
    assert_eq!(g.pending(), Direction::Up);
    g.steer(false, false, true, false);
    assert_eq!(g.pending(), Direction::Up);
    assert_eq!(g.tick(), TickOutcome::Moved);
    assert_eq!(g.head(), (5, 4));
}

#[test]
fn later_keys_win_in_one_frame() {
    assert_eq!(resolve_direction(Direction::Up, Direction::Up, false, true, true, false), Direction::Left);
    assert_eq!(resolve_direction(Direction::Up, Direction::Up, false, false, true, true), Direction::Right);
    assert_eq!(resolve_direction(Direction::Right, Direction::Right, true, true, false, false), Direction::Down);
    assert_eq!(resolve_direction(Direction::Right, Direction::Right, true, false, true, false), Direction::Up);
    assert_eq!(resolve_direction(Direction::Left, Direction::Down, false, false, false, false), Direction::Down);
}

#[test]
fn straight_run_offsets_head() {
    let mut g = game(&[(2, 10), (1, 10), (0, 10)], Direction::Right, Food { x: 0, y: 0, size: 1 });
    for _ in 0..10 {
        assert_eq!(g.tick(), TickOutcome::Moved);
    }
    assert_eq!(g.head(), (12, 10));
    assert_eq!(g.snake().len(), 3);
    let mut g = game(&[(7, 18), (7, 19)], Direction::Up, Food { x: 0, y: 0, size: 1 });
    for _ in 0..6 {
        assert_eq!(g.tick(), TickOutcome::Moved);
    }
    assert_eq!(g.head(), (7, 12));
}

#[test]
fn eating_large_food_scores_three() {
    let mut g = game(&[(5, 5), (4, 5), (3, 5)], Direction::Right, Food { x: 6, y: 4, size: 2 });
    assert_eq!(g.tick(), TickOutcome::Ate);
    assert_eq!(g.score(), 3);
    assert_eq!(g.snake().as_slice(), &[(6, 5), (5, 5), (4, 5), (3, 5), (3, 5), (3, 5)]);
    assert_eq!(g.status(), Status::Running);
    assert!(footprint_is_free(g.snake(), &g.food()));
}

#[test]
fn eating_size_three_food_scores_three() {
    let mut g = game(&[(5, 5), (4, 5)], Direction::Right, Food { x: 6, y: 3, size: 3 });
    assert_eq!(g.tick(), TickOutcome::Ate);
    assert_eq!(g.score(), 3);
    assert_eq!(g.snake().as_slice(), &[(6, 5), (5, 5), (4, 5), (4, 5), (4, 5)]);
}

#[test]
fn eating_small_food_scores_one() {
    let mut g = game(&[(5, 5), (4, 5), (3, 5)], Direction::Right, Food { x: 6, y: 5, size: 1 });
    assert_eq!(g.tick(), TickOutcome::Ate);
    assert_eq!(g.score(), 1);
    assert_eq!(g.snake().as_slice(), &[(6, 5), (5, 5), (4, 5), (3, 5)]);
    assert!(footprint_is_free(g.snake(), &g.food()));
}

#[test]
fn tail_copies_leave_one_per_tick() {
    let body = [(6, 5), (5, 5), (4, 5), (3, 5), (3, 5), (3, 5)];
    let mut g = game(&body, Direction::Right, far_food());
    g.steer(false, true, false, false);
    assert_eq!(g.tick(), TickOutcome::Moved);
    assert_eq!(g.snake().as_slice(), &[(6, 6), (6, 5), (5, 5), (4, 5), (3, 5), (3, 5)]);
    assert_eq!(g.tick(), TickOutcome::Moved);
    assert_eq!(g.snake().as_slice(), &[(6, 7), (6, 6), (6, 5), (5, 5), (4, 5), (3, 5)]);
    assert_eq!(g.tick(), TickOutcome::Moved);
    assert_eq!(g.snake().as_slice(), &[(6, 8), (6, 7), (6, 6), (6, 5), (5, 5), (4, 5)]);
}

#[test]
fn free_cell_scan_ignores_order_and_repeats() {
    let a = vec![(0, 0), (1, 0), (2, 0), (2, 0)];
    let b = vec![(2, 0), (0, 0), (1, 0)];
    assert_eq!(first_free_cell(&a), Some(Food { x: 3, y: 0, size: 1 }));
    assert_eq!(first_free_cell(&a), first_free_cell(&b));
    let row: Vec<Position> = (0..20).map(|x| (x, 0)).collect();
    assert_eq!(first_free_cell(&row), Some(Food { x: 0, y: 1, size: 1 }));
}

#[test]
fn with_snake_rejects_bad_input() {
    assert!(GameState::with_snake(vec![], Direction::Up, far_food()).is_none());
    assert!(GameState::with_snake(vec![(20, 0)], Direction::Up, far_food()).is_none());
    assert!(GameState::with_snake(vec![(0, -1)], Direction::Up, far_food()).is_none());
    assert!(GameState::with_snake(vec![(1, 1)], Direction::Up, Food { x: 1, y: 1, size: 0 }).is_none());
    assert!(GameState::with_snake(vec![(1, 1)], Direction::Up, Food { x: 1, y: 1, size: 4 }).is_none());
    assert!(GameState::with_snake(vec![(1, 1)], Direction::Up, Food { x: 18, y: 1, size: 3 }).is_none());
    assert!(GameState::with_snake(vec![(1, 1)], Direction::Up, Food { x: 17, y: 17, size: 3 }).is_some());
}

#[test]
fn spawned_food_avoids_the_snake() {
    let snake: Vec<Position> = (0..20).map(|x| (x, 10)).collect();
    for _ in 0..200 {
        let f = spawn_food(&snake).expect("room left");
        assert!(footprint_is_free(&snake, &f));
    }
}

#[test]
fn full_grid_has_no_room() {
    let mut snake: Vec<Position> = Vec::new();
    for y in 0..GRID_HEIGHT {
        for x in 0..GRID_WIDTH {
            snake.push((x, y));
        }
    }
    assert!(spawn_food(&snake).is_none());
    assert!(first_free_cell(&snake).is_none());
}

#[test]
fn one_free_cell_is_found() {
    let mut snake: Vec<Position> = Vec::new();
    for y in 0..GRID_HEIGHT {
        for x in 0..GRID_WIDTH {
            if (x, y) != (13, 7) {
                snake.push((x, y));
            }
        }
    }
    assert_eq!(spawn_food(&snake), Some(Food { x: 13, y: 7, size: 1 }));
    assert_eq!(first_free_cell(&snake), Some(Food { x: 13, y: 7, size: 1 }));
}

#[test]
fn fits_checks_bounds_and_overlap() {
    let snake = vec![(5, 5)];
    assert!(fits(&snake, 0, 0, 3));
    assert!(!fits(&snake, 4, 4, 2));
    assert!(!fits(&snake, 5, 5, 1));
    assert!(fits(&snake, 6, 5, 1));
    assert!(!fits(&snake, 18, 0, 3));
    assert!(fits(&snake, 17, 17, 3));
    assert!(!fits(&snake, -1, 0, 1));
    assert!(!fits(&snake, 0, 0, 0));
    assert!(!fits(&snake, 0, 0, 4));
}

#[test]
fn food_tiers() {
    assert_eq!(Food { x: 0, y: 0, size: 1 }.growth(), 1);
    assert_eq!(Food { x: 0, y: 0, size: 2 }.growth(), 3);
    assert_eq!(Food { x: 0, y: 0, size: 3 }.growth(), 3);
    assert!(!Food { x: 0, y: 0, size: 1 }.is_large());
    assert!(Food { x: 0, y: 0, size: 2 }.is_large());
    assert!(Food { x: 2, y: 2, size: 2 }.covers_cell((3, 3)));
    assert!(!Food { x: 2, y: 2, size: 2 }.covers_cell((4, 3)));
}

#[test]
fn grid_helpers() {
    assert_eq!(step((3, 3), Direction::Up), (3, 2));
    assert_eq!(step((3, 3), Direction::Down), (3, 4));
    assert_eq!(step((0, 3), Direction::Left), (-1, 3));
    assert_eq!(step((3, 3), Direction::Right), (4, 3));
    assert_eq!(Direction::Up.opposite(), Direction::Down);
    assert_eq!(Direction::Left.opposite(), Direction::Right);
    assert!(occupies(&vec![(1, 2), (3, 4)], (3, 4)));
    assert!(!occupies(&vec![(1, 2), (3, 4)], (4, 3)));
}

#[test]
fn clock_fires_once_per_interval() {
    let mut c = Clock::new(150_000);
    assert!(!c.advance(100_000));
    assert_eq!(c.elapsed(), 100_000);
    assert!(c.advance(50_000));
    assert_eq!(c.elapsed(), 0);
    assert!(!c.advance(0));
    assert!(c.advance(10_000_000));
    assert_eq!(c.elapsed(), 0);
    assert_eq!(c.interval(), 150_000);
    assert!(c.advance(u64::MAX));
}

#[test]
fn eat_animation_counts_down() {
    let mut a = EatAnimation::new();
    assert!(!a.is_active());
    a.start(150_000);
    assert!(a.is_active());
    a.advance(100_000);
    assert!(a.is_active());
    a.advance(60_000);
    assert!(!a.is_active());
}

#[test]
fn spawned_food_varies() {
    let snake: Vec<Position> = vec![(5, 5), (4, 5), (3, 5)];
    let first = spawn_food(&snake).expect("room left");
    let mut differs = false;
    for _ in 0..100 {
        let f = spawn_food(&snake).expect("room left");
        assert!(footprint_is_free(&snake, &f));
        if f != first {
            differs = true;
        }
    }
    assert!(differs);
}
