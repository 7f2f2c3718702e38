use snake_game::event::{parse_key, same_text, Key, Tick};
use snake_game::grid::{step2, wrap_axis, CELL, HEIGHT, WIDTH};
use snake_game::planar::{cell_in_grid, unit_step, Game2D};
use snake_game::render::{backdrop, cell_rect, Color, Rect};

fn game(cells: Vec<(i32, i32)>, dir: (i32, i32), food: (i32, i32)) -> Game2D {
    Game2D::from_parts(cells, dir, food).expect("valid parts")
}

#[test]
fn wrap_axis_keeps_inner_values() {
    for v in 0..20 {
        assert_eq!(wrap_axis(v, 20), v);
    }
}

#[test]
fn wrap_axis_wraps_one_step_off_either_edge() {
    assert_eq!(wrap_axis(-1, 20), 19);
    assert_eq!(wrap_axis(20, 20), 0);
    assert_eq!(wrap_axis(-20, 20), 0);
    assert_eq!(wrap_axis(-1, 7), 6);
    assert_eq!(wrap_axis(7, 7), 0);
}

#[test]
fn wrap_result_lies_on_the_axis_for_every_step() {
    for x in 0..WIDTH {
        for y in 0..HEIGHT {
            for d in [(1, 0), (-1, 0), (0, 1), (0, -1)] {
                let r = step2((x, y), d);
                assert!(0 <= r.0 && r.0 < WIDTH && 0 <= r.1 && r.1 < HEIGHT);
                assert_eq!(r.0, (x + d.0 + WIDTH) % WIDTH);
                assert_eq!(r.1, (y + d.1 + HEIGHT) % HEIGHT);
            }
        }
    }
}

#[test]
fn step_wraps_round_each_edge() {
    assert_eq!(step2((19, 10), (1, 0)), (0, 10));
    assert_eq!(step2((0, 10), (-1, 0)), (19, 10));
    assert_eq!(step2((3, 19), (0, 1)), (3, 0));
    assert_eq!(step2((3, 0), (0, -1)), (3, 19));
    assert_eq!(step2((3, 4), (1, 0)), (4, 4));
}

#[test]
fn grid_and_step_tests() {
    assert!(cell_in_grid((0, 0)));
    assert!(cell_in_grid((19, 19)));
    assert!(!cell_in_grid((20, 0)));
    assert!(!cell_in_grid((0, 20)));
    assert!(!cell_in_grid((-1, 0)));
    assert!(!cell_in_grid((0, -1)));
    assert!(unit_step((1, 0)) && unit_step((-1, 0)) && unit_step((0, 1)) && unit_step((0, -1)));
    assert!(!unit_step((0, 0)));
    assert!(!unit_step((1, 1)));
    assert!(!unit_step((2, 0)));
    assert!(!unit_step((-1, 1)));
}

#[test]
fn key_names_are_read() {
    assert_eq!(parse_key("ArrowUp"), Key::Up);
    assert_eq!(parse_key("ArrowDown"), Key::Down);
    assert_eq!(parse_key("ArrowLeft"), Key::Left);
    assert_eq!(parse_key("ArrowRight"), Key::Right);
    assert_eq!(parse_key("Enter"), Key::Other);
    assert_eq!(parse_key(""), Key::Other);
    assert_eq!(parse_key("arrowup"), Key::Other);
    assert_eq!(parse_key("ArrowUp "), Key::Other);
    assert_eq!(parse_key("ArrowU"), Key::Other);
}

#[test]
fn same_text_compares_characters() {
    assert!(same_text("", ""));
    assert!(same_text("abc", "abc"));
    assert!(!same_text("abc", "abd"));
    assert!(!same_text("abc", "ab"));
    assert!(same_text("h\u{e9}", "h\u{e9}"));
    assert!(!same_text("h\u{e9}", "he"));
}

#[test]
fn new_game_starts_at_the_middle() {
    let g = Game2D::new();
    assert_eq!(g.snake(), vec![(10, 10)]);
    assert_eq!(g.head(), (10, 10));
    assert_eq!(g.len(), 1);
    assert_eq!(g.dir(), (1, 0));
    assert_eq!(g.food(), (5, 5));
    assert!(g.alive());
    assert_eq!(g.score(), 0);
}

#[test]
fn eating_grows_scores_and_moves_the_food() {
    let mut g = game(vec![(10, 10)], (1, 0), (11, 10));
    let t = g.update((3, 4));
    assert_eq!(t, Tick::Ate);
    assert_eq!(g.snake(), vec![(11, 10), (10, 10)]);
    assert_eq!(g.score(), 1);
    assert_eq!(g.food(), (3, 4));
    assert_ne!(g.food(), (11, 10));
    assert!(g.alive());
}

#[test]
fn head_wraps_round_the_right_edge() {
    let mut g = game(vec![(19, 10)], (1, 0), (5, 5));
    let t = g.update((0, 0));
    assert_eq!(t, Tick::Moved);
    assert_eq!(g.head(), (0, 10));
    assert_eq!(g.snake(), vec![(0, 10)]);
}

#[test]
fn length_is_kept_when_nothing_is_eaten() {
    let mut g = game(vec![(4, 4), (3, 4), (2, 4)], (1, 0), (15, 15));
    for i in 0..30 {
        let before = g.len();
        let t = g.update((1, 1));
        assert_eq!(t, Tick::Moved);
        assert_eq!(g.len(), before);
        assert_eq!(g.head(), ((5 + i) % 20, 4));
    }
    assert_eq!(g.score(), 2);
    assert_eq!(g.food(), (15, 15));
}

#[test]
fn length_grows_by_one_when_the_food_is_eaten() {
    let mut g = game(vec![(4, 4), (3, 4), (2, 4)], (1, 0), (5, 4));
    let before = g.len();
    assert_eq!(g.update((6, 4)), Tick::Ate);
    assert_eq!(g.len(), before + 1);
    assert_eq!(g.snake(), vec![(5, 4), (4, 4), (3, 4), (2, 4)]);
    assert_eq!(g.score(), 3);
    assert_eq!(g.update((9, 9)), Tick::Ate);
    assert_eq!(g.len(), before + 2);
    assert_eq!(g.score(), 4);
    assert_eq!(g.food(), (9, 9));
}

#[test]
fn moving_drops_the_tail() {
    let mut g = game(vec![(4, 4), (3, 4), (2, 4)], (0, 1), (15, 15));
    assert_eq!(g.update((1, 1)), Tick::Moved);
    assert_eq!(g.snake(), vec![(4, 5), (4, 4), (3, 4)]);
}

#[test]
fn running_into_the_body_ends_the_game() {
    // A hook: the head at (5, 5) looks down at a cell of its own body.
    let cells = vec![(5, 5), (4, 5), (4, 6), (5, 6), (6, 6)];
    let mut g = game(cells.clone(), (0, 1), (15, 15));
    let t = g.update((1, 1));
    assert_eq!(t, Tick::Crashed);
    assert!(!g.alive());
    assert_eq!(g.snake(), cells);
    assert_eq!(g.dir(), (0, 1));
    assert_eq!(g.food(), (15, 15));
    assert_eq!(g.score(), 4);
}

#[test]
fn a_snake_of_two_cells_can_run_into_itself() {
    let mut g = game(vec![(10, 10), (9, 10)], (-1, 0), (5, 5));
    assert_eq!(g.update((1, 1)), Tick::Crashed);
    assert!(!g.alive());
    assert_eq!(g.snake(), vec![(10, 10), (9, 10)]);
    assert_eq!(g.score(), 1);
}

#[test]
fn the_tail_cell_still_counts_as_occupied() {
    // The head would enter the cell that the tail is about to leave.
    let mut g = game(vec![(5, 5), (5, 6), (6, 6), (6, 5)], (1, 0), (15, 15));
    assert_eq!(g.update((1, 1)), Tick::Crashed);
    assert!(!g.alive());
}

#[test]
fn a_finished_game_does_not_move() {
    let mut g = game(vec![(10, 10), (9, 10)], (-1, 0), (5, 5));
    assert_eq!(g.update((1, 1)), Tick::Crashed);
    g.change_dir("ArrowUp");
    assert_eq!(g.dir(), (0, -1));
    for _ in 0..3 {
        assert_eq!(g.update((2, 2)), Tick::Idle);
        assert!(!g.alive());
        assert_eq!(g.snake(), vec![(10, 10), (9, 10)]);
        assert_eq!(g.food(), (5, 5));
        assert_eq!(g.score(), 1);
    }
}

#[test]
fn a_reversing_key_is_not_obeyed() {
    let cases = [
        ((1, 0), "ArrowLeft"),
        ((-1, 0), "ArrowRight"),
        ((0, 1), "ArrowUp"),
        ((0, -1), "ArrowDown"),
    ];
    for (dir, key) in cases {
        let mut g = game(vec![(10, 10)], dir, (5, 5));
        g.change_dir(key);
        assert_eq!(g.dir(), dir);
    }
}

#[test]
fn keys_turn_the_snake() {
    let keys = [("ArrowUp", (0, -1)), ("ArrowDown", (0, 1)), ("ArrowLeft", (-1, 0)), ("ArrowRight", (1, 0))];
    for dir in [(1, 0), (-1, 0), (0, 1), (0, -1)] {
        for (key, step) in keys {
            let mut g = game(vec![(10, 10), (10, 11)], dir, (5, 5));
            g.change_dir(key);
            let expected = if step == (-dir.0, -dir.1) { dir } else { step };
            assert_eq!(g.dir(), expected);
            assert_eq!(g.snake(), vec![(10, 10), (10, 11)]);
            assert_eq!(g.food(), (5, 5));
            assert_eq!(g.score(), 1);
            assert!(g.alive());
        }
    }
}

#[test]
fn other_keys_change_nothing() {
    let mut g = Game2D::new();
    g.change_dir("Enter");
    assert_eq!(g.dir(), (1, 0));
    g.change_dir("a");
    assert_eq!(g.dir(), (1, 0));
    g.steer(Key::Other);
    assert_eq!(g.dir(), (1, 0));
    g.steer(Key::Down);
    assert_eq!(g.dir(), (0, 1));
}

#[test]
fn a_key_pressed_before_the_tick_counts_in_it() {
    let mut g = Game2D::new();
    g.change_dir("ArrowUp");
    assert_eq!(g.update((1, 1)), Tick::Moved);
    assert_eq!(g.head(), (10, 9));
}

#[test]
fn fresh_food_may_lie_under_the_snake() {
    let mut g = game(vec![(10, 10), (9, 10)], (1, 0), (11, 10));
    assert_eq!(g.update((10, 10)), Tick::Ate);
    assert_eq!(g.food(), (10, 10));
    assert_eq!(g.snake(), vec![(11, 10), (10, 10), (9, 10)]);
    // The food under the body is not eaten until the head comes to it.
    assert_eq!(g.update((0, 0)), Tick::Moved);
    assert_eq!(g.food(), (10, 10));
}

#[test]
fn fresh_food_may_be_the_old_cell() {
    let mut g = game(vec![(10, 10)], (1, 0), (11, 10));
    assert_eq!(g.update((11, 10)), Tick::Ate);
    assert_eq!(g.food(), (11, 10));
}

#[test]
fn parts_that_make_no_game_are_refused() {
    assert!(Game2D::from_parts(vec![], (1, 0), (5, 5)).is_none());
    assert!(Game2D::from_parts(vec![(20, 0)], (1, 0), (5, 5)).is_none());
    assert!(Game2D::from_parts(vec![(0, -1)], (1, 0), (5, 5)).is_none());
    assert!(Game2D::from_parts(vec![(1, 1), (2, 1), (1, 1)], (1, 0), (5, 5)).is_none());
    assert!(Game2D::from_parts(vec![(1, 1)], (0, 0), (5, 5)).is_none());
    assert!(Game2D::from_parts(vec![(1, 1)], (1, 1), (5, 5)).is_none());
    assert!(Game2D::from_parts(vec![(1, 1)], (2, 0), (5, 5)).is_none());
    assert!(Game2D::from_parts(vec![(1, 1)], (1, 0), (20, 5)).is_none());
    assert!(Game2D::from_parts(vec![(1, 1)], (1, 0), (5, -1)).is_none());
}

#[test]
fn parts_that_make_a_game_are_kept() {
    let g = Game2D::from_parts(vec![(1, 1), (2, 1), (2, 2)], (0, -1), (1, 1)).expect("valid parts");
    assert_eq!(g.snake(), vec![(1, 1), (2, 1), (2, 2)]);
    assert_eq!(g.dir(), (0, -1));
    assert_eq!(g.food(), (1, 1));
    assert!(g.alive());
    assert_eq!(g.score(), 2);
    assert_eq!(g.len(), 3);
}

#[test]
fn a_snake_can_fill_the_grid() {
    let mut cells = Vec::new();
    for y in 0..HEIGHT {
        for x in 0..WIDTH {
            cells.push(if y % 2 == 0 { (x, y) } else { (WIDTH - 1 - x, y) });
        }
    }
    let mut g = game(cells, (0, -1), (5, 5));
    assert_eq!(g.len(), 400);
    assert_eq!(g.score(), 399);
    assert_eq!(g.update((1, 1)), Tick::Crashed);
}

#[test]
fn backdrop_covers_the_canvas() {
    assert_eq!(backdrop(), Rect { color: Color::Black, x: 0, y: 0, w: 400, h: 400 });
}

#[test]
fn a_cell_is_drawn_as_a_square_of_cell_size() {
    assert_eq!(cell_rect((3, 7), Color::Green), Rect { color: Color::Green, x: 60, y: 140, w: 20, h: 20 });
    assert_eq!(cell_rect((0, 19), Color::Red), Rect { color: Color::Red, x: 0, y: 380, w: CELL, h: CELL });
}

#[test]
fn frame_shows_backdrop_snake_and_food() {
    let g = game(vec![(4, 4), (3, 4), (2, 4)], (1, 0), (15, 16));
    let f = g.draw();
    assert_eq!(
        f.rects,
        vec![
            Rect { color: Color::Black, x: 0, y: 0, w: 400, h: 400 },
            Rect { color: Color::Green, x: 80, y: 80, w: 20, h: 20 },
            Rect { color: Color::Green, x: 60, y: 80, w: 20, h: 20 },
            Rect { color: Color::Green, x: 40, y: 80, w: 20, h: 20 },
            Rect { color: Color::Red, x: 300, y: 320, w: 20, h: 20 },
        ]
    );
    assert_eq!(f.score, 2);
}

#[test]
fn drawing_changes_nothing() {
    let g = game(vec![(4, 4), (3, 4)], (1, 0), (15, 16));
    let a = g.draw();
    let b = g.draw();
    assert_eq!(a.rects, b.rects);
    assert_eq!(g.snake(), vec![(4, 4), (3, 4)]);
    assert_eq!(g.score(), 1);
}

#[test]
fn peek_tells_the_next_tick_and_changes_nothing() {
    let mut g = game(vec![(10, 10), (9, 10)], (1, 0), (11, 10));
    assert_eq!(g.peek(), Tick::Ate);
    assert_eq!(g.snake(), vec![(10, 10), (9, 10)]);
    assert_eq!(g.update((12, 10)), Tick::Ate);
    assert_eq!(g.peek(), Tick::Ate);
    assert_eq!(g.update((0, 0)), Tick::Ate);
    assert_eq!(g.peek(), Tick::Moved);
    g.change_dir("ArrowUp");
    g.change_dir("ArrowLeft");
    g.change_dir("ArrowDown");
    assert_eq!(g.dir(), (0, 1));
    assert_eq!(g.update((0, 0)), Tick::Moved);
    g.change_dir("ArrowLeft");
    assert_eq!(g.update((0, 0)), Tick::Moved);
    g.change_dir("ArrowUp");
    assert_eq!(g.peek(), Tick::Crashed);
    assert_eq!(g.update((0, 0)), Tick::Crashed);
    assert_eq!(g.peek(), Tick::Idle);
}

#[test]
fn colours_have_their_canvas_names() {
    assert_eq!(snake_game::render::color_name(Color::Black), "black");
    assert_eq!(snake_game::render::color_name(Color::Green), "green");
    assert_eq!(snake_game::render::color_name(Color::Red), "red");
}
