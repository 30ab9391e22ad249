use snake_grid::fruit::{free_columns, free_rows, pick_free_cell, Fruit};
use snake_grid::geometry::{max, step, Direction, Pos, GAME_FIELD_SIZE};
use snake_grid::grid::{reset_map, Grid};
use snake_grid::input::{
    cursor_input, game_input, get_hover, Button, Cursor, InputEvent, InputResult, Key, Polled, NONE,
};
use snake_grid::session::{
    field_cell, menu_hover, poll_budget, EditAction, MenuAction, Screen, Session, TickOutcome,
    BUTTON_EDIT, BUTTON_EXIT, BUTTON_PLAY, BUTTON_RESET,
};
use snake_grid::snake::Snake;

fn body_of(snake: &Snake) -> Vec<(u16, u16)> {
    snake.body.iter().map(|p| (p.x, p.y)).collect()
}

fn game_session(map: Grid) -> Session {
    let mut s = Session::new(map);
    s.start_game();
    s
}

fn key(k: Key) -> Polled {
    Polled::Event(InputEvent::Key(k))
}

#[test]
fn spawn_moves_right_and_drops_tail() {
    let mut s = game_session(Grid::canonical());
    s.fruit.pos = Pos { x: 10, y: 10 };
    assert_eq!(s.snake.pos, Pos { x: 4, y: 2 });
    assert_eq!(body_of(&s.snake), vec![(2, 2), (3, 2)]);
    assert_eq!(s.game_tick(), TickOutcome::Moved);
    assert_eq!(s.snake.pos, Pos { x: 5, y: 2 });
    assert_eq!(body_of(&s.snake), vec![(3, 2), (4, 2)]);
    assert!(s.snake.alive);
    assert_eq!(s.score, 0);
}

#[test]
fn eating_grows_body_and_scores() {
    let mut s = game_session(Grid::canonical());
    s.fruit.pos = Pos { x: 5, y: 2 };
    assert_eq!(s.game_tick(), TickOutcome::Ate);
    assert_eq!(s.snake.pos, Pos { x: 5, y: 2 });
    assert_eq!(body_of(&s.snake), vec![(2, 2), (3, 2), (4, 2)]);
    assert_eq!(s.score, 1);
    let f = s.fruit.pos;
    assert!(!s.snake.is_in_point(f.x, f.y));
    assert!(!s.map.is_wall(f));
}

#[test]
fn head_wraps_past_right_edge() {
    let mut s = game_session(Grid::new_open());
    s.fruit.pos = Pos { x: 10, y: 10 };
    s.snake.pos = Pos { x: 19, y: 2 };
    assert_eq!(s.game_tick(), TickOutcome::Moved);
    assert_eq!(s.snake.pos, Pos { x: 0, y: 2 });
    assert!(s.snake.alive);
}

#[test]
fn head_wraps_at_every_edge() {
    let last = GAME_FIELD_SIZE - 1;
    assert_eq!(step(Pos { x: last, y: 7 }, Direction::Right), Pos { x: 0, y: 7 });
    assert_eq!(step(Pos { x: 0, y: 7 }, Direction::Left), Pos { x: last, y: 7 });
    assert_eq!(step(Pos { x: 7, y: last }, Direction::Down), Pos { x: 7, y: 0 });
    assert_eq!(step(Pos { x: 7, y: 0 }, Direction::Up), Pos { x: 7, y: last });
    assert_eq!(step(Pos { x: 7, y: 7 }, Direction::Up), Pos { x: 7, y: 6 });
}

#[test]
fn wall_kills_until_abort() {
    let mut s = game_session(Grid::canonical());
    s.fruit.pos = Pos { x: 10, y: 10 };
    s.snake.direction = Direction::Up;
    s.snake.last_input = Direction::Up;
    s.snake.prev_move = Direction::Up;
    assert_eq!(s.game_tick(), TickOutcome::Moved);
    assert!(s.snake.alive);
    assert_eq!(s.game_tick(), TickOutcome::Moved);
    assert_eq!(s.snake.pos, Pos { x: 4, y: 0 });
    assert!(!s.snake.alive);
    let body = body_of(&s.snake);
    assert_eq!(s.game_tick(), TickOutcome::Dead);
    let frame = s.game_frame(Polled::Timeout, true);
    assert_eq!(frame.tick, Some(TickOutcome::Dead));
    assert!(!frame.left);
    assert!(!s.snake.alive);
    assert_eq!(s.snake.pos, Pos { x: 4, y: 0 });
    assert_eq!(body_of(&s.snake), body);
    let frame = s.game_frame(key(Key::Esc), false);
    assert!(frame.left);
    assert_eq!(s.screen, Screen::MainMenu);
    assert_eq!(s.score, 0);
}

#[test]
fn self_collision_kills() {
    let mut s = game_session(Grid::new_open());
    s.fruit.pos = Pos { x: 10, y: 10 };
    s.snake.pos = Pos { x: 5, y: 5 };
    s.snake.body.clear();
    for p in [(4, 4), (5, 4), (6, 4), (6, 5), (6, 6), (5, 6), (4, 6), (4, 5)] {
        s.snake.body.push_back(Pos { x: p.0, y: p.1 });
    }
    s.score = 6;
    s.snake.direction = Direction::Left;
    s.snake.last_input = Direction::Left;
    s.snake.prev_move = Direction::Down;
    assert_eq!(s.game_tick(), TickOutcome::Moved);
    assert_eq!(s.snake.pos, Pos { x: 4, y: 5 });
    assert!(!s.snake.alive);
}

#[test]
fn drag_over_same_cell_toggles_once() {
    let mut s = Session::new(Grid::canonical());
    s.screen = Screen::Edit;
    let before = s.cursor;
    let r = cursor_input(&mut s.cursor, Polled::Event(InputEvent::Drag { column: 6, row: 6, left: true }));
    assert_eq!(r, InputResult::Draw);
    assert_eq!(s.edit_input(before, r), EditAction::Toggled);
    assert!(s.map.is_wall(Pos { x: 5, y: 5 }));
    let before = s.cursor;
    let r = cursor_input(&mut s.cursor, Polled::Event(InputEvent::Drag { column: 6, row: 6, left: true }));
    assert_eq!(r, InputResult::Draw);
    assert_eq!(s.edit_input(before, r), EditAction::Stay);
    assert!(s.map.is_wall(Pos { x: 5, y: 5 }));
}

#[test]
fn reversal_is_suppressed() {
    let mut snake = Snake::new();
    snake.last_input = Direction::Left;
    assert_eq!(snake.buffered_direction(), Direction::Right);
    for d in [Direction::Up, Direction::Down, Direction::Right] {
        snake.last_input = d;
        assert_eq!(snake.buffered_direction(), d);
    }
}

#[test]
fn game_input_keys() {
    let mut snake = Snake::new();
    assert_eq!(game_input(&mut snake, key(Key::Left)), InputResult::Continue);
    assert_eq!(snake.last_input, Direction::Left);
    assert_eq!(snake.direction, Direction::Right);
    assert_eq!(game_input(&mut snake, key(Key::Up)), InputResult::Continue);
    assert_eq!(snake.last_input, Direction::Up);
    assert_eq!(snake.direction, Direction::Up);
    assert_eq!(game_input(&mut snake, key(Key::Other)), InputResult::Continue);
    assert_eq!(snake.last_input, Direction::Up);
    assert_eq!(game_input(&mut snake, key(Key::Esc)), InputResult::Abort);
    assert_eq!(game_input(&mut snake, Polled::Failed), InputResult::Abort);
    assert_eq!(game_input(&mut snake, Polled::Timeout), InputResult::Continue);
    assert_eq!(snake.direction, Direction::Up);
}

#[test]
fn turn_taken_on_next_tick() {
    let mut s = game_session(Grid::canonical());
    s.fruit.pos = Pos { x: 10, y: 10 };
    let frame = s.game_frame(key(Key::Down), true);
    assert_eq!(frame.tick, Some(TickOutcome::Moved));
    assert_eq!(s.snake.pos, Pos { x: 4, y: 3 });
    assert_eq!(s.snake.prev_move, Direction::Down);
}

#[test]
fn toggle_twice_restores() {
    let mut g = Grid::canonical();
    let p = Pos { x: 7, y: 9 };
    assert!(!g.is_wall(p));
    g.toggle(p);
    assert!(g.is_wall(p));
    g.toggle(p);
    assert!(!g.is_wall(p));
    let b = Pos { x: 0, y: 3 };
    g.toggle(b);
    g.toggle(b);
    assert!(g.is_wall(b));
}

#[test]
fn reset_gives_border_walls() {
    let mut g = Grid::new_open();
    g.set_wall(Pos { x: 5, y: 5 }, true);
    reset_map(&mut g);
    for y in 0..GAME_FIELD_SIZE {
        for x in 0..GAME_FIELD_SIZE {
            let border = x == 0 || y == 0 || x == GAME_FIELD_SIZE - 1 || y == GAME_FIELD_SIZE - 1;
            assert_eq!(g.is_wall(Pos { x, y }), border);
        }
    }
}

#[test]
fn fruit_lands_on_only_free_cell() {
    let mut g = Grid::new_open();
    for y in 0..GAME_FIELD_SIZE {
        for x in 0..GAME_FIELD_SIZE {
            g.set_wall(Pos { x, y }, true);
        }
    }
    g.set_wall(Pos { x: 13, y: 17 }, false);
    g.set_wall(Pos { x: 3, y: 2 }, false);
    let snake = Snake::new();
    for _ in 0..20 {
        let mut f = Fruit { pos: Pos { x: 0, y: 0 } };
        f.respawn(&g, &snake);
        assert_eq!(f.pos, Pos { x: 13, y: 17 });
    }
    assert_eq!(free_rows(&g, &snake), vec![17]);
    assert_eq!(free_columns(&g, &snake, 17), vec![13]);
    assert_eq!(free_columns(&g, &snake, 2), Vec::<u16>::new());
}

#[test]
fn fruit_avoids_snake_and_walls() {
    let g = Grid::canonical();
    let snake = Snake::new();
    for _ in 0..200 {
        let f = Fruit::new(&g);
        assert!(!g.is_wall(f.pos));
        assert!(!snake.is_in_point(f.pos.x, f.pos.y));
    }
    assert_eq!(free_rows(&g, &snake), (1..19).collect::<Vec<u16>>());
    assert_eq!(free_columns(&g, &snake, 2), vec![1, 5, 6, 7, 8, 9, 10, 11, 12, 13, 14, 15, 16, 17, 18]);
}

#[test]
fn full_board_falls_back_to_origin() {
    let mut g = Grid::new_open();
    for y in 0..GAME_FIELD_SIZE {
        for x in 0..GAME_FIELD_SIZE {
            g.set_wall(Pos { x, y }, true);
        }
    }
    let mut f = Fruit { pos: Pos { x: 9, y: 9 } };
    f.respawn(&g, &Snake::new());
    assert_eq!(f.pos, Pos { x: 0, y: 0 });
}

#[test]
fn hover_is_inclusive_and_never_underflows() {
    let b = Button { x: 3, y: 4, width: 2, height: 1, return_code: 7 };
    assert_eq!(get_hover(3, 4, &b), 7);
    assert_eq!(get_hover(5, 5, &b), 7);
    assert_eq!(get_hover(6, 5, &b), NONE);
    assert_eq!(get_hover(5, 6, &b), NONE);
    assert_eq!(get_hover(2, 4, &b), NONE);
    let wide = Button { x: 3, y: 4, width: u16::MAX, height: u16::MAX, return_code: 7 };
    assert_eq!(get_hover(0, 0, &wide), NONE);
    assert_eq!(get_hover(100, 100, &wide), 7);
}

#[test]
fn menu_controls_in_priority_order() {
    assert_eq!(menu_hover(1, 13), BUTTON_PLAY);
    assert_eq!(menu_hover(11, 16), BUTTON_PLAY);
    assert_eq!(menu_hover(5, 18), BUTTON_EDIT);
    assert_eq!(menu_hover(5, 23), BUTTON_EXIT);
    assert_eq!(menu_hover(5, 17), NONE);
    assert_eq!(menu_hover(0, 13), NONE);
    assert_eq!(menu_hover(12, 13), NONE);
}

#[test]
fn menu_transitions() {
    let mut s = Session::new(Grid::canonical());
    s.cursor = Cursor { x: 2, y: 14, hover: NONE };
    assert_eq!(s.menu_input(InputResult::Continue), MenuAction::Stay);
    assert_eq!(s.cursor.hover, BUTTON_PLAY);
    assert_eq!(s.menu_input(InputResult::Click), MenuAction::StartGame);
    assert_eq!(s.screen, Screen::Game);
    assert_eq!(s.score, 0);
    s.leave_game();
    s.cursor = Cursor { x: 2, y: 19, hover: BUTTON_EDIT };
    assert_eq!(s.menu_input(InputResult::Click), MenuAction::OpenEditor);
    assert_eq!(s.screen, Screen::Edit);
    assert_eq!(s.edit_input(s.cursor, InputResult::Abort), EditAction::BackToMenu);
    assert_eq!(s.screen, Screen::MainMenu);
    s.cursor = Cursor { x: 2, y: 24, hover: BUTTON_EXIT };
    assert_eq!(s.menu_input(InputResult::Click), MenuAction::Exit);
    assert_eq!(s.menu_input(InputResult::Abort), MenuAction::Exit);
}

#[test]
fn editor_click_toggles_and_reset() {
    let mut s = Session::new(Grid::canonical());
    s.screen = Screen::Edit;
    s.cursor = Cursor { x: 9, y: 9, hover: NONE };
    assert_eq!(s.edit_input(s.cursor, InputResult::Click), EditAction::Toggled);
    assert!(s.map.is_wall(Pos { x: 8, y: 8 }));
    s.cursor = Cursor { x: 4, y: 3, hover: NONE };
    assert_eq!(s.edit_input(s.cursor, InputResult::Click), EditAction::Stay);
    assert!(!s.map.is_wall(Pos { x: 3, y: 2 }));
    s.cursor = Cursor { x: 32, y: 10, hover: NONE };
    assert_eq!(s.edit_input(s.cursor, InputResult::Continue), EditAction::Stay);
    assert_eq!(s.cursor.hover, BUTTON_RESET);
    assert_eq!(s.edit_input(s.cursor, InputResult::Click), EditAction::MapReset);
    assert!(!s.map.is_wall(Pos { x: 8, y: 8 }));
    assert!(s.map.is_wall(Pos { x: 0, y: 8 }));
}

#[test]
fn cursor_follows_events() {
    let mut c = Cursor { x: 0, y: 0, hover: 5 };
    assert_eq!(cursor_input(&mut c, key(Key::Left)), InputResult::Continue);
    assert_eq!((c.x, c.y), (0, 0));
    assert_eq!(cursor_input(&mut c, key(Key::Right)), InputResult::Continue);
    assert_eq!(cursor_input(&mut c, key(Key::Down)), InputResult::Continue);
    assert_eq!((c.x, c.y), (1, 1));
    assert_eq!(cursor_input(&mut c, key(Key::Up)), InputResult::Continue);
    assert_eq!((c.x, c.y), (1, 0));
    let moved = Polled::Event(InputEvent::Moved { column: 12, row: 8 });
    assert_eq!(cursor_input(&mut c, moved), InputResult::Continue);
    assert_eq!((c.x, c.y, c.hover), (12, 8, 5));
    assert_eq!(cursor_input(&mut c, Polled::Event(InputEvent::Down { left: true })), InputResult::Click);
    assert_eq!(cursor_input(&mut c, Polled::Event(InputEvent::Down { left: false })), InputResult::Continue);
    let right_drag = Polled::Event(InputEvent::Drag { column: 3, row: 4, left: false });
    assert_eq!(cursor_input(&mut c, right_drag), InputResult::Continue);
    assert_eq!((c.x, c.y), (3, 4));
    assert_eq!(cursor_input(&mut c, key(Key::Enter)), InputResult::Click);
    assert_eq!(cursor_input(&mut c, key(Key::Esc)), InputResult::Abort);
    assert_eq!(cursor_input(&mut c, Polled::Failed), InputResult::Abort);
    assert_eq!(cursor_input(&mut c, Polled::Timeout), InputResult::Continue);
}

#[test]
fn field_cell_off_field() {
    assert_eq!(field_cell(0, 5), Pos { x: GAME_FIELD_SIZE, y: 4 });
    assert_eq!(field_cell(6, 0), Pos { x: 5, y: GAME_FIELD_SIZE });
    assert_eq!(field_cell(6, 6), Pos { x: 5, y: 5 });
}

#[test]
fn poll_budget_saturates() {
    assert_eq!(poll_budget(250, 100), 150);
    assert_eq!(poll_budget(250, 250), 0);
    assert_eq!(poll_budget(250, 400), 0);
    assert_eq!(max(3, 9), 9);
    assert_eq!(max(9, 3), 9);
}

#[test]
fn title_color_cycles() {
    let mut s = Session::new(Grid::canonical());
    s.advance_title_color(3);
    assert_eq!(s.title_color, 1);
    s.advance_title_color(3);
    assert_eq!(s.title_color, 2);
    s.advance_title_color(3);
    assert_eq!(s.title_color, 0);
}

#[test]
fn map_text_round_trip() {
    let rows: Vec<Vec<char>> = vec!["0110".chars().collect(), "1".chars().collect(), Vec::new(), "x1".chars().collect()];
    let g = Grid::from_rows(&rows);
    assert!(!g.is_wall(Pos { x: 0, y: 0 }));
    assert!(g.is_wall(Pos { x: 1, y: 0 }));
    assert!(g.is_wall(Pos { x: 2, y: 0 }));
    assert!(g.is_wall(Pos { x: 0, y: 1 }));
    assert!(!g.is_wall(Pos { x: 0, y: 2 }));
    assert!(g.is_wall(Pos { x: 1, y: 3 }));
    assert!(!g.is_wall(Pos { x: 1, y: 4 }));
    let text: String = Grid::canonical().to_text().into_iter().collect();
    let lines: Vec<&str> = text.lines().collect();
    assert_eq!(lines.len(), 20);
    assert_eq!(lines[0], "11111111111111111111");
    assert_eq!(lines[5], "10000000000000000001");
    assert!(text.ends_with("1\n"));
    let back: Vec<Vec<char>> = text.lines().map(|l| l.chars().collect()).collect();
    let again = Grid::from_rows(&back);
    assert_eq!(again.to_text(), Grid::canonical().to_text());
}

#[test]
fn dead_snake_ignores_arrow_keys() {
    let mut snake = Snake::new();
    snake.alive = false;
    for k in [Key::Up, Key::Down, Key::Left, Key::Right, Key::Other, Key::Enter] {
        assert_eq!(game_input(&mut snake, key(k)), InputResult::Continue);
        assert_eq!(snake.direction, Direction::Right);
        assert_eq!(snake.last_input, Direction::Right);
        assert!(!snake.alive);
    }
    assert_eq!(game_input(&mut snake, key(Key::Esc)), InputResult::Abort);
    assert_eq!(game_input(&mut snake, Polled::Failed), InputResult::Abort);
}

#[test]
fn dead_snake_stays_frozen_across_frames() {
    let mut s = game_session(Grid::canonical());
    s.fruit.pos = Pos { x: 10, y: 10 };
    s.snake.alive = false;
    let frame = s.game_frame(key(Key::Down), true);
    assert_eq!(frame.tick, Some(TickOutcome::Dead));
    assert_eq!(s.snake.pos, Pos { x: 4, y: 2 });
    assert_eq!(s.snake.direction, Direction::Right);
    assert_eq!(s.snake.last_input, Direction::Right);
    assert_eq!(body_of(&s.snake), vec![(2, 2), (3, 2)]);
    assert_eq!(s.fruit.pos, Pos { x: 10, y: 10 });
    assert_eq!(s.score, 0);
    assert_eq!(s.screen, Screen::Game);
}

#[test]
fn abort_skips_due_tick() {
    let mut s = game_session(Grid::canonical());
    s.fruit.pos = Pos { x: 5, y: 2 };
    let frame = s.game_frame(key(Key::Esc), true);
    assert!(frame.left);
    assert_eq!(frame.tick, None);
    assert_eq!(s.snake.pos, Pos { x: 4, y: 2 });
    assert_eq!(body_of(&s.snake), vec![(2, 2), (3, 2)]);
    assert_eq!(s.fruit.pos, Pos { x: 5, y: 2 });
    assert_eq!(s.screen, Screen::MainMenu);
    assert_eq!(s.score, 0);
}

#[test]
fn draws_pick_row_then_column() {
    let g = Grid::canonical();
    let snake = Snake::new();
    assert_eq!(pick_free_cell(&g, &snake, 0, 0), Pos { x: 1, y: 1 });
    assert_eq!(pick_free_cell(&g, &snake, 1, 0), Pos { x: 1, y: 2 });
    assert_eq!(pick_free_cell(&g, &snake, 1, 1), Pos { x: 5, y: 2 });
    assert_eq!(pick_free_cell(&g, &snake, 17, 17), Pos { x: 18, y: 18 });
}

#[test]
fn play_click_places_fruit_on_free_cell() {
    let mut s = Session::new(Grid::canonical());
    s.cursor = Cursor { x: 2, y: 14, hover: BUTTON_PLAY };
    assert_eq!(s.menu_input(InputResult::Click), MenuAction::StartGame);
    assert_eq!(s.snake.pos, Pos { x: 4, y: 2 });
    assert_eq!(body_of(&s.snake), vec![(2, 2), (3, 2)]);
    let f = s.fruit.pos;
    assert!(!s.map.is_wall(f));
    assert!(!s.snake.is_in_point(f.x, f.y));
}

#[test]
fn arrow_then_tick_moves_that_way() {
    let mut s = game_session(Grid::canonical());
    s.fruit.pos = Pos { x: 10, y: 10 };
    assert!(!s.game_frame(key(Key::Up), false).left);
    assert_eq!(s.snake.direction, Direction::Up);
    assert_eq!(s.game_tick(), TickOutcome::Moved);
    assert_eq!(s.snake.pos, Pos { x: 4, y: 1 });
}
