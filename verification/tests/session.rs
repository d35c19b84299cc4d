use snake::{Button, Cell, Direction, Grid, Input, Outcome, Phase, Session, Square, Tint};

const SPARE: Cell = Cell { col: 0, row: 9 };

fn cells(list: &[(i32, i32)]) -> Vec<Cell> {
    list.iter().map(|&(col, row)| Cell { col, row }).collect()
}

fn idle() -> Input {
    Input {
        up: false,
        right: false,
        left: false,
        down: false,
        confirm: false,
        click: false,
        pointer_x: 0,
        pointer_y: 0,
    }
}

fn click(x: i32, y: i32) -> Input {
    Input { click: true, pointer_x: x, pointer_y: y, ..idle() }
}

fn pointer(x: i32, y: i32) -> Input {
    Input { pointer_x: x, pointer_y: y, ..idle() }
}

fn up() -> Input {
    Input { up: true, ..idle() }
}

fn down() -> Input {
    Input { down: true, ..idle() }
}

fn left() -> Input {
    Input { left: true, ..idle() }
}

fn right() -> Input {
    Input { right: true, ..idle() }
}

fn confirm() -> Input {
    Input { confirm: true, ..idle() }
}

/// A ten by ten field. The start button covers x in (30, 170), y in (105, 135);
/// the exit button covers x in (45, 155), y in (125, 155).
fn opened(first: Cell, second: Cell, on_web: bool) -> Session {
    let grid = Grid::new(200, 200, 20);
    let start = Button::start(&grid, 120, 10);
    let exit = Button::exit(&grid, 90, 10);
    Session::with_food(grid, start, exit, on_web, 1000, first, second)
}

fn playing(first: Cell, second: Cell) -> Session {
    let mut session = opened(first, second, false);
    assert_eq!(session.frame_with(click(100, 110), 1000, 150, SPARE, SPARE), Outcome::Continue);
    assert_eq!(session.phase, Phase::Playing);
    session
}

/// Steps the game once with the keys of `input`, `interval` after its last step.
fn step(session: &mut Session, input: Input) {
    let now = session.last_move + 150;
    assert_eq!(session.frame_with(input, now, 150, SPARE, SPARE), Outcome::Continue);
    assert_eq!(session.last_move, now);
}

#[test]
fn session_opens_in_the_menu() {
    let session = opened(Cell { col: 1, row: 2 }, Cell { col: 3, row: 4 }, false);
    assert_eq!(session.phase, Phase::Menu);
    assert_eq!(session.score, 0);
    assert_eq!(session.last_move, 1000);
    assert_eq!(session.grid, Grid { width: 200, height: 200, cell_size: 20 });
    assert_eq!(session.snake.squares, cells(&[(3, 5), (4, 5), (5, 5)]));
    assert_eq!(session.snake.current_direction, Direction::Right);
    assert!(session.snake.collided_squares.is_empty());
    assert_eq!(session.apples.apples, cells(&[(1, 2), (3, 4)]));
    assert_eq!(session.apples.grid, session.grid);
    assert!(session.direction_queue.is_empty());
    assert_eq!(session.start_button.y, 120);
    assert_eq!(session.exit_button.y, 140);
    assert!(!session.on_web);
}

#[test]
fn new_session_has_two_pieces_of_food_inside_the_grid() {
    let grid = Grid::new(200, 100, 20);
    let session = Session::new(grid, Button::start(&grid, 120, 10), Button::exit(&grid, 90, 10), true, 7);
    assert_eq!(session.phase, Phase::Menu);
    assert_eq!(session.score, 0);
    assert_eq!(session.last_move, 7);
    assert!(session.on_web);
    assert_eq!(session.snake.squares, cells(&[(3, 2), (4, 2), (5, 2)]));
    assert_eq!(session.apples.apples.len(), 2);
    for cell in &session.apples.apples {
        assert!(0 <= cell.col && cell.col < 10);
        assert!(0 <= cell.row && cell.row < 5);
    }
}

#[test]
fn click_on_start_begins_the_game() {
    let mut session = opened(SPARE, SPARE, false);
    let out = session.frame_with(click(100, 110), 5000, 150, SPARE, SPARE);
    assert_eq!(out, Outcome::Continue);
    assert_eq!(session.phase, Phase::Playing);
    assert_eq!(session.snake.squares, cells(&[(3, 5), (4, 5), (5, 5)]));
    assert_eq!(session.score, 0);
    assert_eq!(session.last_move, 1000);
    assert!(!session.start_button.hover);
}

#[test]
fn click_beside_the_buttons_changes_nothing() {
    let mut session = opened(SPARE, SPARE, false);
    let out = session.frame_with(click(10, 10), 5000, 150, SPARE, SPARE);
    assert_eq!(out, Outcome::Continue);
    assert_eq!(session.phase, Phase::Menu);
    assert_eq!(session.snake.squares, cells(&[(3, 5), (4, 5), (5, 5)]));
    assert_eq!(session.last_move, 1000);
}

#[test]
fn click_on_exit_ends_the_program() {
    let mut session = opened(SPARE, SPARE, false);
    let out = session.frame_with(click(100, 150), 5000, 150, SPARE, SPARE);
    assert_eq!(out, Outcome::Exit);
    assert_eq!(session.phase, Phase::Menu);
}

#[test]
fn on_the_web_there_is_no_exit() {
    let mut session = opened(SPARE, SPARE, true);
    let out = session.frame_with(click(100, 150), 5000, 150, SPARE, SPARE);
    assert_eq!(out, Outcome::Continue);
    assert_eq!(session.phase, Phase::Menu);
}

#[test]
fn click_where_the_buttons_overlap_starts_and_exits() {
    let mut session = opened(SPARE, SPARE, false);
    let out = session.frame_with(click(100, 130), 5000, 150, SPARE, SPARE);
    assert_eq!(out, Outcome::Exit);
    assert_eq!(session.phase, Phase::Playing);
}

#[test]
fn pointer_lights_the_button_under_it() {
    let mut session = opened(SPARE, SPARE, false);
    assert_eq!(session.frame_with(pointer(100, 110), 0, 0, SPARE, SPARE), Outcome::Continue);
    assert!(session.start_button.hover);
    assert!(!session.exit_button.hover);
    assert_eq!(session.frame_with(pointer(100, 150), 0, 0, SPARE, SPARE), Outcome::Continue);
    assert!(!session.start_button.hover);
    assert!(session.exit_button.hover);
    assert_eq!(session.frame_with(pointer(100, 130), 0, 0, SPARE, SPARE), Outcome::Continue);
    assert!(session.start_button.hover);
    assert!(session.exit_button.hover);
    assert_eq!(session.frame_with(pointer(0, 0), 0, 0, SPARE, SPARE), Outcome::Continue);
    assert!(!session.start_button.hover);
    assert!(!session.exit_button.hover);
    assert_eq!(session.phase, Phase::Menu);
}

#[test]
fn click_leaves_the_lighting_as_it_was() {
    let mut session = opened(SPARE, SPARE, false);
    session.frame_with(pointer(100, 110), 0, 0, SPARE, SPARE);
    session.frame_with(click(10, 10), 0, 0, SPARE, SPARE);
    assert!(session.start_button.hover);
    assert_eq!(session.phase, Phase::Menu);
}

#[test]
fn menu_answers_like_a_frame_in_the_menu() {
    let mut session = opened(SPARE, SPARE, false);
    assert_eq!(session.menu(click(100, 150)), Outcome::Exit);
    assert_eq!(session.menu(pointer(100, 150)), Outcome::Continue);
    assert!(session.exit_button.hover);
    assert_eq!(session.menu(click(100, 110)), Outcome::Continue);
    assert_eq!(session.phase, Phase::Playing);
}

#[test]
fn keys_in_the_menu_are_not_queued_and_nothing_moves() {
    let mut session = opened(SPARE, SPARE, false);
    session.frame_with(up(), 9000, 150, SPARE, SPARE);
    assert!(session.direction_queue.is_empty());
    assert_eq!(session.snake.squares, cells(&[(3, 5), (4, 5), (5, 5)]));
    assert_eq!(session.last_move, 1000);
}

#[test]
fn queued_up_turns_the_snake_up() {
    let mut session = playing(SPARE, SPARE);
    step(&mut session, up());
    assert_eq!(session.snake.current_direction, Direction::Up);
    assert_eq!(session.snake.squares, cells(&[(4, 5), (5, 5), (5, 4)]));
    assert!(session.direction_queue.is_empty());
    assert_eq!(session.phase, Phase::Playing);
    assert_eq!(session.score, 0);
}

#[test]
fn down_after_right_is_taken_and_right_while_moving_left_is_dropped() {
    let mut session = playing(SPARE, SPARE);
    step(&mut session, down());
    assert_eq!(session.snake.current_direction, Direction::Down);
    assert_eq!(session.snake.squares, cells(&[(4, 5), (5, 5), (5, 6)]));
    step(&mut session, left());
    assert_eq!(session.snake.current_direction, Direction::Left);
    assert_eq!(session.snake.squares, cells(&[(5, 5), (5, 6), (4, 6)]));
    step(&mut session, right());
    assert_eq!(session.snake.current_direction, Direction::Left);
    assert_eq!(session.snake.squares, cells(&[(5, 6), (4, 6), (3, 6)]));
    assert!(session.direction_queue.is_empty());
    assert_eq!(session.phase, Phase::Playing);
}

#[test]
fn left_while_moving_right_is_dropped() {
    let mut session = playing(SPARE, SPARE);
    step(&mut session, left());
    assert_eq!(session.snake.current_direction, Direction::Right);
    assert_eq!(session.snake.squares, cells(&[(4, 5), (5, 5), (6, 5)]));
    assert!(session.direction_queue.is_empty());
}

#[test]
fn step_without_a_request_goes_straight_on() {
    let mut session = playing(SPARE, SPARE);
    step(&mut session, idle());
    assert_eq!(session.snake.current_direction, Direction::Right);
    assert_eq!(session.snake.squares, cells(&[(4, 5), (5, 5), (6, 5)]));
    assert_eq!(session.apples.apples, vec![SPARE, SPARE]);
    assert_eq!(session.score, 0);
}

#[test]
fn snake_eats_the_food_its_head_lands_on() {
    let mut session = playing(Cell { col: 6, row: 5 }, Cell { col: 2, row: 2 });
    let fresh = Cell { col: 8, row: 1 };
    assert_eq!(session.frame_with(idle(), 1150, 150, fresh, SPARE), Outcome::Continue);
    assert_eq!(session.snake.squares, cells(&[(3, 5), (4, 5), (5, 5), (6, 5)]));
    assert_eq!(session.apples.apples, cells(&[(2, 2), (8, 1)]));
    assert_eq!(session.score, 1);
    assert_eq!(session.phase, Phase::Playing);
    assert!(session.snake.collided_squares.is_empty());
}

#[test]
fn food_under_any_segment_is_eaten() {
    let mut session = playing(Cell { col: 2, row: 2 }, Cell { col: 4, row: 5 });
    let fresh = Cell { col: 8, row: 1 };
    session.frame_with(idle(), 1150, 150, fresh, SPARE);
    assert_eq!(session.snake.squares, cells(&[(3, 5), (4, 5), (5, 5), (6, 5)]));
    assert_eq!(session.apples.apples, cells(&[(2, 2), (8, 1)]));
    assert_eq!(session.score, 1);
}

#[test]
fn one_piece_of_food_is_eaten_per_step() {
    let mut session = playing(Cell { col: 6, row: 5 }, Cell { col: 5, row: 5 });
    step(&mut session, idle());
    assert_eq!(session.apples.apples, vec![Cell { col: 5, row: 5 }, SPARE]);
    assert_eq!(session.score, 1);
    assert_eq!(session.snake.squares.len(), 4);
    step(&mut session, idle());
    assert_eq!(session.apples.apples, vec![SPARE, SPARE]);
    assert_eq!(session.score, 2);
    assert_eq!(session.snake.squares, cells(&[(3, 5), (4, 5), (5, 5), (6, 5), (7, 5)]));
}

#[test]
fn snake_waits_until_the_interval_has_passed() {
    let mut session = playing(SPARE, SPARE);
    session.frame_with(up(), 1149, 150, SPARE, SPARE);
    assert_eq!(session.snake.squares, cells(&[(3, 5), (4, 5), (5, 5)]));
    assert_eq!(session.direction_queue, vec![Direction::Up]);
    assert_eq!(session.last_move, 1000);
    session.frame_with(idle(), 1150, 150, SPARE, SPARE);
    assert_eq!(session.snake.squares, cells(&[(4, 5), (5, 5), (5, 4)]));
    assert!(session.direction_queue.is_empty());
    assert_eq!(session.last_move, 1150);
}

#[test]
fn with_no_interval_the_snake_steps_every_frame() {
    let mut session = playing(SPARE, SPARE);
    session.frame_with(idle(), 1000, 0, SPARE, SPARE);
    session.frame_with(idle(), 1000, 0, SPARE, SPARE);
    assert_eq!(session.snake.squares, cells(&[(5, 5), (6, 5), (7, 5)]));
}

#[test]
fn clock_that_ran_backwards_is_not_due() {
    let mut session = playing(SPARE, SPARE);
    session.frame_with(idle(), 999, 0, SPARE, SPARE);
    assert_eq!(session.snake.squares, cells(&[(3, 5), (4, 5), (5, 5)]));
    assert_eq!(session.last_move, 1000);
}

#[test]
fn is_due_compares_the_time_passed_with_the_interval() {
    let session = opened(SPARE, SPARE, false);
    assert!(session.is_due(1150, 150));
    assert!(session.is_due(u64::MAX, 150));
    assert!(!session.is_due(1149, 150));
    assert!(session.is_due(1000, 0));
    assert!(!session.is_due(999, 0));
    assert!(!session.is_due(1000, u64::MAX));
}

#[test]
fn record_queues_one_turn_by_priority() {
    let mut session = opened(SPARE, SPARE, false);
    session.record(Input { up: true, down: true, left: true, ..idle() });
    session.record(idle());
    session.record(Input { down: true, left: true, ..idle() });
    session.record(down());
    session.record(right());
    assert_eq!(
        session.direction_queue,
        vec![Direction::Up, Direction::Left, Direction::Down, Direction::Right]
    );
}

#[test]
fn requests_are_taken_oldest_first_one_per_step() {
    let mut session = playing(SPARE, SPARE);
    session.frame_with(up(), 1001, 150, SPARE, SPARE);
    session.frame_with(left(), 1002, 150, SPARE, SPARE);
    session.frame_with(down(), 1003, 150, SPARE, SPARE);
    assert_eq!(session.direction_queue, vec![Direction::Up, Direction::Left, Direction::Down]);
    step(&mut session, idle());
    assert_eq!(session.snake.current_direction, Direction::Up);
    assert_eq!(session.direction_queue, vec![Direction::Left, Direction::Down]);
    step(&mut session, idle());
    assert_eq!(session.snake.current_direction, Direction::Left);
    step(&mut session, idle());
    assert_eq!(session.snake.current_direction, Direction::Down);
    assert!(session.direction_queue.is_empty());
    assert_eq!(session.snake.squares, cells(&[(5, 4), (4, 4), (4, 5)]));
    assert_eq!(session.phase, Phase::Playing);
}

#[test]
fn hitting_the_wall_ends_the_game() {
    let mut session = playing(SPARE, SPARE);
    for head in 6..10 {
        step(&mut session, idle());
        assert_eq!(session.phase, Phase::Playing);
        assert_eq!(session.snake.squares[2], Cell { col: head, row: 5 });
    }
    step(&mut session, idle());
    assert_eq!(session.phase, Phase::GameOver);
    assert_eq!(session.snake.squares, cells(&[(8, 5), (9, 5), (10, 5)]));
    assert_eq!(session.snake.collided_squares, vec![2]);
    assert_eq!(session.score, 0);
}

#[test]
fn running_into_itself_ends_the_game() {
    let mut session = playing(Cell { col: 6, row: 5 }, Cell { col: 7, row: 5 });
    step(&mut session, idle());
    step(&mut session, idle());
    assert_eq!(session.score, 2);
    assert_eq!(session.snake.squares, cells(&[(3, 5), (4, 5), (5, 5), (6, 5), (7, 5)]));
    step(&mut session, down());
    step(&mut session, left());
    assert_eq!(session.phase, Phase::Playing);
    assert_eq!(session.score, 2);
    step(&mut session, up());
    assert_eq!(session.snake.squares, cells(&[(6, 5), (7, 5), (7, 6), (6, 6), (6, 5)]));
    assert_eq!(session.phase, Phase::GameOver);
    assert_eq!(session.snake.collided_squares, vec![0, 4]);
    assert_eq!(session.score, 0);
    assert_eq!(session.apples.apples, vec![SPARE, SPARE]);
}

#[test]
fn eating_and_leaving_the_field_in_one_step() {
    let grid = Grid::new(60, 20, 20);
    let mut session = Session::with_food(
        grid,
        Button::start(&grid, 20, 10),
        Button::exit(&grid, 20, 10),
        true,
        0,
        Cell { col: 2, row: 0 },
        Cell { col: 1, row: 7 },
    );
    assert_eq!(session.snake.squares, cells(&[(-1, 0), (0, 0), (1, 0)]));
    session.frame_with(click(30, 12), 0, 150, SPARE, SPARE);
    assert_eq!(session.phase, Phase::Playing);
    let fresh = Cell { col: 1, row: 0 };
    session.frame_with(idle(), 150, 150, fresh, SPARE);
    assert_eq!(session.snake.squares, cells(&[(-1, 0), (0, 0), (1, 0), (2, 0)]));
    assert_eq!(session.apples.apples, cells(&[(1, 7), (1, 0)]));
    assert_eq!(session.phase, Phase::GameOver);
    assert_eq!(session.snake.collided_squares, vec![0]);
    assert_eq!(session.score, 0);
}

#[test]
fn self_collision_is_reported_before_a_wall() {
    let grid = Grid::new(200, 200, 20);
    let mut session = Session::with_food(
        grid,
        Button::start(&grid, 120, 10),
        Button::exit(&grid, 90, 10),
        false,
        0,
        Cell { col: 6, row: 5 },
        Cell { col: 5, row: 5 },
    );
    session.frame_with(click(100, 110), 0, 0, SPARE, SPARE);
    let on_the_way = Cell { col: 9, row: 5 };
    session.tick_with(on_the_way, 1);
    session.tick_with(SPARE, 2);
    session.tick_with(SPARE, 3);
    session.tick_with(SPARE, 4);
    assert_eq!(session.phase, Phase::Playing);
    assert_eq!(session.score, 3);
    assert_eq!(
        session.snake.squares,
        cells(&[(4, 5), (5, 5), (6, 5), (7, 5), (8, 5), (9, 5)])
    );
    session.tick_with(SPARE, 5);
    assert_eq!(session.phase, Phase::GameOver);
    assert_eq!(session.snake.squares, cells(&[(5, 5), (6, 5), (7, 5), (8, 5), (9, 5), (10, 5)]));
    assert_eq!(session.snake.collided_squares, vec![5]);
}

#[test]
fn after_a_collision_nothing_moves_and_no_turn_is_queued() {
    let mut session = playing(SPARE, SPARE);
    for _ in 0..5 {
        step(&mut session, idle());
    }
    assert_eq!(session.phase, Phase::GameOver);
    let last = session.last_move;
    assert_eq!(session.frame_with(up(), last + 1000, 150, SPARE, SPARE), Outcome::Continue);
    assert_eq!(session.frame_with(click(100, 150), last + 2000, 150, SPARE, SPARE), Outcome::Continue);
    assert_eq!(session.phase, Phase::GameOver);
    assert_eq!(session.snake.squares, cells(&[(8, 5), (9, 5), (10, 5)]));
    assert_eq!(session.snake.collided_squares, vec![2]);
    assert!(session.direction_queue.is_empty());
    assert_eq!(session.last_move, last);
}

#[test]
fn confirm_after_a_collision_leads_back_to_the_menu() {
    let mut session = playing(Cell { col: 6, row: 5 }, SPARE);
    for _ in 0..5 {
        step(&mut session, idle());
    }
    assert_eq!(session.phase, Phase::GameOver);
    assert_eq!(session.snake.squares.len(), 4);
    let first = Cell { col: 1, row: 1 };
    let second = Cell { col: 2, row: 2 };
    assert_eq!(session.frame_with(confirm(), 9000, 150, first, second), Outcome::Continue);
    assert_eq!(session.phase, Phase::Menu);
    assert_eq!(session.snake.squares, cells(&[(3, 5), (4, 5), (5, 5)]));
    assert_eq!(session.snake.current_direction, Direction::Right);
    assert!(session.snake.collided_squares.is_empty());
    assert_eq!(session.apples.apples, vec![first, second]);
    assert_eq!(session.score, 0);
    assert_eq!(session.last_move, 9000);
    session.frame_with(idle(), 99000, 150, SPARE, SPARE);
    assert_eq!(session.snake.squares, cells(&[(3, 5), (4, 5), (5, 5)]));
    session.frame_with(click(100, 110), 99000, 150, SPARE, SPARE);
    assert_eq!(session.phase, Phase::Playing);
}

#[test]
fn requests_left_in_the_queue_outlast_a_restart() {
    let mut session = playing(SPARE, SPARE);
    for n in 0..7 {
        session.frame_with(down(), 1001 + n, 150, SPARE, SPARE);
    }
    assert_eq!(session.direction_queue.len(), 7);
    step(&mut session, idle());
    assert_eq!(session.snake.current_direction, Direction::Down);
    for _ in 0..4 {
        step(&mut session, idle());
    }
    assert_eq!(session.phase, Phase::GameOver);
    assert_eq!(session.snake.squares, cells(&[(5, 8), (5, 9), (5, 10)]));
    assert_eq!(session.direction_queue, vec![Direction::Down, Direction::Down]);
    session.restart_with(SPARE, SPARE, 0);
    assert_eq!(session.phase, Phase::Menu);
    assert_eq!(session.direction_queue, vec![Direction::Down, Direction::Down]);
}

#[test]
fn random_restart_puts_two_pieces_of_food_inside_the_grid() {
    let mut session = playing(SPARE, SPARE);
    for _ in 0..5 {
        step(&mut session, idle());
    }
    assert_eq!(session.phase, Phase::GameOver);
    session.restart(77);
    assert_eq!(session.phase, Phase::Menu);
    assert_eq!(session.last_move, 77);
    assert_eq!(session.snake.squares, cells(&[(3, 5), (4, 5), (5, 5)]));
    assert_eq!(session.apples.apples.len(), 2);
    for cell in &session.apples.apples {
        assert!(!session.grid.overflows(*cell));
    }
}

#[test]
fn random_step_replaces_eaten_food_inside_the_grid() {
    for _ in 0..50 {
        let mut session = playing(Cell { col: 6, row: 5 }, Cell { col: 2, row: 2 });
        session.tick(1150);
        assert_eq!(session.snake.squares, cells(&[(3, 5), (4, 5), (5, 5), (6, 5)]));
        assert_eq!(session.score, 1);
        assert_eq!(session.last_move, 1150);
        assert_eq!(session.apples.apples.len(), 2);
        assert_eq!(session.apples.apples[0], Cell { col: 2, row: 2 });
        let fresh = session.apples.apples[1];
        assert!(0 <= fresh.col && fresh.col < 10);
        assert!(0 <= fresh.row && fresh.row < 10);
    }
}

#[test]
fn random_step_without_food_draws_nothing() {
    let mut session = playing(SPARE, SPARE);
    session.tick(1150);
    assert_eq!(session.apples.apples, vec![SPARE, SPARE]);
    assert_eq!(session.snake.squares, cells(&[(4, 5), (5, 5), (6, 5)]));
}

#[test]
fn random_frames_play_a_whole_round() {
    let grid = Grid::new(200, 200, 20);
    let mut session =
        Session::new(grid, Button::start(&grid, 120, 10), Button::exit(&grid, 90, 10), false, 0);
    assert_eq!(session.frame(pointer(100, 110), 10, 150), Outcome::Continue);
    assert!(session.start_button.hover);
    assert_eq!(session.frame(click(100, 110), 20, 150), Outcome::Continue);
    assert_eq!(session.phase, Phase::Playing);
    let mut now = 20;
    let mut steps = 0;
    while session.phase == Phase::Playing {
        now += 150;
        let length = session.snake.squares.len();
        let score = session.score;
        assert_eq!(session.frame(idle(), now, 150), Outcome::Continue);
        steps += 1;
        assert_eq!(session.apples.apples.len(), 2);
        for cell in &session.apples.apples {
            assert!(!grid.overflows(*cell));
        }
        if session.phase == Phase::Playing {
            assert_eq!(session.snake.squares.len() as u64, session.score + 3);
            assert!(session.snake.squares.len() == length || session.snake.squares.len() == length + 1);
            assert!(session.score == score || session.score == score + 1);
        }
        assert!(steps <= 5);
    }
    assert_eq!(steps, 5);
    assert_eq!(session.phase, Phase::GameOver);
    assert_eq!(session.score, 0);
    assert_eq!(session.frame(confirm(), now, 150), Outcome::Continue);
    assert_eq!(session.phase, Phase::Menu);
    assert_eq!(session.frame(click(100, 150), now, 150), Outcome::Exit);
}

#[test]
fn scene_of_the_menu_shows_the_buttons_and_hides_the_field() {
    let session = opened(SPARE, SPARE, false);
    let scene = session.scene(Phase::Menu);
    assert!(scene.menu);
    assert!(scene.exit_button);
    assert!(!scene.notice);
    assert!(scene.snake.is_empty());
    assert!(scene.apples.is_empty());
    assert_eq!(scene.score, None);
}

#[test]
fn scene_on_the_web_has_no_exit_button() {
    let session = opened(SPARE, SPARE, true);
    let scene = session.scene(Phase::Menu);
    assert!(scene.menu);
    assert!(!scene.exit_button);
}

#[test]
fn scene_of_the_frame_that_starts_the_game_shows_menu_and_field() {
    let mut session = opened(Cell { col: 1, row: 2 }, SPARE, false);
    let shown = session.phase;
    session.frame_with(click(100, 110), 1000, 150, SPARE, SPARE);
    let scene = session.scene(shown);
    assert!(scene.menu);
    assert!(scene.exit_button);
    assert!(!scene.notice);
    assert_eq!(
        scene.snake,
        vec![
            Square { x: 60, y: 100, color: Tint::Green },
            Square { x: 80, y: 100, color: Tint::Green },
            Square { x: 100, y: 100, color: Tint::Green },
        ]
    );
    assert_eq!(
        scene.apples,
        vec![Square { x: 20, y: 40, color: Tint::Red }, Square { x: 0, y: 180, color: Tint::Red }]
    );
    assert_eq!(scene.score, Some(0));
}

#[test]
fn scene_while_playing_shows_the_field_alone() {
    let mut session = playing(Cell { col: 6, row: 5 }, SPARE);
    step(&mut session, idle());
    let scene = session.scene(Phase::Playing);
    assert!(!scene.menu);
    assert!(!scene.exit_button);
    assert!(!scene.notice);
    assert_eq!(scene.snake.len(), 4);
    assert_eq!(scene.apples.len(), 2);
    assert_eq!(scene.score, Some(1));
}

#[test]
fn scene_after_a_collision_highlights_and_shows_the_notice() {
    let mut session = playing(SPARE, SPARE);
    for _ in 0..5 {
        step(&mut session, idle());
    }
    let scene = session.scene(session.phase);
    assert!(!scene.menu);
    assert!(scene.notice);
    assert_eq!(
        scene.snake,
        vec![
            Square { x: 160, y: 100, color: Tint::Green },
            Square { x: 180, y: 100, color: Tint::Green },
            Square { x: 200, y: 100, color: Tint::Orange },
        ]
    );
    assert_eq!(scene.score, Some(0));
}

#[test]
fn scene_of_the_frame_that_restarts_shows_the_notice_alone() {
    let mut session = playing(SPARE, SPARE);
    for _ in 0..5 {
        step(&mut session, idle());
    }
    let shown = session.phase;
    session.frame_with(confirm(), 9000, 150, SPARE, SPARE);
    let scene = session.scene(shown);
    assert!(scene.notice);
    assert!(!scene.menu);
    assert!(scene.snake.is_empty());
    assert!(scene.apples.is_empty());
    assert_eq!(scene.score, None);
}
