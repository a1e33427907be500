use snake_game::game::{EndReason, Game, FOOD_COUNT, TIME_LIMIT_MS, WIN_SCORE};
use snake_game::geometry::{Direction, Point, HEIGHT, WIDTH};
use snake_game::play::{clock_face, end_choice, key_direction, tick_due, EndChoice, Key, FRAME_MS};
use snake_game::render::Cell;

fn interior(p: Point) -> bool {
    p.x >= 1 && p.x < WIDTH && p.y >= 1 && p.y < HEIGHT
}

#[test]
fn new_game_layout() {
    let g = Game::new(1000);
    assert_eq!(g.snake().body().clone(), vec![Point { x: 20, y: 10 }]);
    assert_eq!(g.snake().direction(), Direction::Right);
    assert_eq!(g.score(), 0);
    assert!(!g.is_over() && !g.is_won() && !g.is_paused());
    assert_eq!(g.food().len(), FOOD_COUNT);
    let food = g.food().clone();
    for (i, p) in food.iter().enumerate() {
        assert!(interior(*p));
        assert_ne!(*p, Point { x: 20, y: 10 });
        for q in &food[i + 1..] {
            assert_ne!(p, q);
        }
    }
}

#[test]
fn generated_food_is_free_and_interior() {
    for _ in 0..50 {
        let mut g = Game::with_food(vec![Point { x: 21, y: 10 }, Point { x: 5, y: 5 }], 0);
        g.generate_food();
        assert_eq!(g.food().len(), 3);
        let p = g.food()[2];
        assert!(interior(p));
        assert_ne!(p, Point { x: 20, y: 10 });
        assert_ne!(p, Point { x: 21, y: 10 });
        assert_ne!(p, Point { x: 5, y: 5 });
    }
}

#[test]
fn eating_food_scores_and_grows() {
    let mut g = Game::with_food(vec![Point { x: 21, y: 10 }], 0);
    g.update(0);
    assert_eq!(g.score(), 1);
    assert_eq!(g.snake().len(), 2);
    assert_eq!(g.snake().body().clone(), vec![Point { x: 21, y: 10 }, Point { x: 21, y: 10 }]);
    assert_eq!(g.food().len(), 1);
    let p = g.food()[0];
    assert!(interior(p));
    assert_ne!(p, Point { x: 21, y: 10 });
    assert!(!g.is_over());
    if p != (Point { x: 22, y: 10 }) {
        g.update(0);
        assert_eq!(g.snake().body().clone(), vec![Point { x: 22, y: 10 }, Point { x: 21, y: 10 }]);
        assert!(!g.is_over());
    }
}

#[test]
fn twenty_points_win_and_freeze() {
    let mut food = Vec::new();
    for x in 21..=38 {
        food.push(Point { x, y: 10 });
    }
    food.push(Point { x: 38, y: 11 });
    food.push(Point { x: 38, y: 12 });
    let mut g = Game::with_food(food, 0);
    for _ in 0..18 {
        g.update(0);
    }
    assert_eq!(g.score(), 18);
    g.change_direction(Direction::Down);
    g.update(0);
    assert!(!g.is_won());
    g.update(0);
    assert_eq!(g.score(), WIN_SCORE);
    assert!(g.is_won());
    assert!(g.is_finished());
    let body = g.snake().body().clone();
    let food = g.food().clone();
    for t in 0..5 {
        g.update(t * 1000);
    }
    assert_eq!(g.snake().body().clone(), body);
    assert_eq!(g.food().clone(), food);
    assert_eq!(g.score(), WIN_SCORE);
}

#[test]
fn wall_hit_loses_and_frame_is_stable() {
    let mut g = Game::with_food(Vec::new(), 0);
    g.change_direction(Direction::Up);
    g.change_direction(Direction::Left);
    for _ in 0..19 {
        g.update(0);
        assert!(!g.is_over());
    }
    g.update(0);
    assert!(g.is_over());
    assert_eq!(g.end_reason(), Some(EndReason::Wall));
    assert_eq!(g.snake().head(), Point { x: 0, y: 10 });
    let first = g.frame();
    let second = g.frame();
    assert_eq!(first, second);
    assert_eq!(first[10][0], 'O');
    assert_eq!(g.snake().head(), Point { x: 0, y: 10 });
    g.update(0);
    assert_eq!(g.snake().head(), Point { x: 0, y: 10 });
}

#[test]
fn self_hit_loses() {
    let food = vec![
        Point { x: 21, y: 10 },
        Point { x: 22, y: 10 },
        Point { x: 23, y: 10 },
        Point { x: 24, y: 10 },
    ];
    let mut g = Game::with_food(food, 0);
    for _ in 0..4 {
        g.update(0);
    }
    assert_eq!(g.snake().len(), 5);
    g.change_direction(Direction::Down);
    g.update(0);
    g.change_direction(Direction::Left);
    g.update(0);
    g.change_direction(Direction::Up);
    g.update(0);
    assert!(g.is_over());
    assert_eq!(g.end_reason(), Some(EndReason::SelfHit));
}

#[test]
fn time_runs_out_on_active_time_only() {
    let mut g = Game::with_food(Vec::new(), 0);
    g.update(1000);
    g.toggle_pause(10_000);
    g.update(20_000);
    assert_eq!(g.snake().head(), Point { x: 21, y: 10 });
    g.toggle_pause(40_000);
    assert_eq!(g.paused_total(), 30_000);
    g.update(65_000);
    assert!(!g.is_over());
    assert_eq!(g.snake().head(), Point { x: 22, y: 10 });
    g.update(89_999);
    assert!(!g.is_over());
    g.update(90_000);
    assert!(g.is_over());
    assert_eq!(g.end_reason(), Some(EndReason::TimeUp));
    assert_eq!(g.snake().head(), Point { x: 23, y: 10 });
}

#[test]
fn pause_twice_adds_the_gap() {
    let mut g = Game::with_food(Vec::new(), 500);
    g.toggle_pause(2_000);
    assert!(g.is_paused());
    g.toggle_pause(7_250);
    assert!(!g.is_paused());
    assert_eq!(g.paused_total(), 5_250);
    assert_eq!(g.clock_floor(), 5_750);
}

#[test]
fn time_left_freezes_while_paused() {
    let mut g = Game::with_food(Vec::new(), 0);
    assert_eq!(g.time_left(15_000), TIME_LIMIT_MS - 15_000);
    g.toggle_pause(20_000);
    assert_eq!(g.time_left(50_000), 40_000);
    assert_eq!(g.active_elapsed(50_000), 20_000);
    g.toggle_pause(50_000);
    assert_eq!(g.time_left(60_000), 30_000);
    assert_eq!(g.time_left(200_000), 0);
}

#[test]
fn frame_shape_and_cells() {
    let g = Game::with_food(vec![Point { x: 3, y: 4 }], 0);
    let rows = g.frame();
    assert_eq!(rows.len(), HEIGHT as usize + 1);
    for row in &rows {
        assert_eq!(row.len(), WIDTH as usize + 1);
    }
    assert_eq!(rows[10][20], 'O');
    assert_eq!(rows[4][3], '*');
    assert_eq!(rows[0][0], '#');
    assert_eq!(rows[HEIGHT as usize][7], '#');
    assert_eq!(rows[5][5], ' ');
    assert_eq!(g.cell_at(20, 10), Cell::Snake);
    assert_eq!(g.cell_at(3, 4), Cell::Food);
    assert_eq!(g.cell_at(WIDTH, 3), Cell::Wall);
    assert_eq!(g.cell_at(6, 6), Cell::Empty);
}

#[test]
fn play_pass_escape_pause_and_tick() {
    let mut g = Game::with_food(Vec::new(), 0);
    let out = g.play_pass(Some(Key::Escape), Some(Direction::Up), 1000, 0);
    assert!(out.quit && !out.ticked);
    assert_eq!(g.snake().direction(), Direction::Right);
    let out = g.play_pass(None, Some(Direction::Up), 299, 0);
    assert!(!out.quit && !out.ticked);
    assert_eq!(g.snake().head(), Point { x: 20, y: 10 });
    let out = g.play_pass(None, None, 300, 0);
    assert!(out.ticked && !out.quit);
    assert_eq!(g.snake().head(), Point { x: 20, y: 9 });
    let out = g.play_pass(Some(Key::Pause), None, 700, 300);
    assert!(out.ticked && !out.quit);
    assert!(g.is_paused());
    assert_eq!(g.snake().head(), Point { x: 20, y: 9 });
}

#[test]
fn play_pass_quits_when_finished() {
    let mut g = Game::with_food(Vec::new(), 0);
    let out = g.play_pass(None, None, TIME_LIMIT_MS, 0);
    assert!(out.ticked && out.quit);
    assert_eq!(g.end_reason(), Some(EndReason::TimeUp));
}

#[test]
fn keys_and_clock() {
    assert_eq!(key_direction(Key::Left), Some(Direction::Left));
    assert_eq!(key_direction(Key::Pause), None);
    assert_eq!(end_choice(Key::Retry), EndChoice::Retry);
    assert_eq!(end_choice(Key::Enter), EndChoice::Exit);
    assert_eq!(end_choice(Key::Up), EndChoice::Wait);
    assert!(tick_due(100, 100 + FRAME_MS));
    assert!(!tick_due(100, 399));
    assert!(!tick_due(500, 100));
    assert_eq!(clock_face(60_000), (1, 0));
    assert_eq!(clock_face(59_999), (0, 59));
    assert_eq!(clock_face(125_500), (2, 5));
}
