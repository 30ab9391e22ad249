use vstd::prelude::*;
use crate::fruit::{Fruit, has_free_cell, in_spawn_strip, is_free};
use crate::geometry::{Direction, GAME_FIELD_SIZE, Pos};
use crate::grid::{Grid, is_border, reset_map, toggled};
use crate::input::{Button, Cursor, InputResult, NONE, Polled, game_input, get_hover, in_button};
use crate::snake::{SNAKE_SPAWN_POS_X, SNAKE_SPAWN_POS_Y, Snake, moved};
use crate::input::{game_result, steered};

verus! {

/// Hover code of the main menu's Play control.
pub const BUTTON_PLAY: u8 = 1;

/// Hover code of the main menu's Exit control.
pub const BUTTON_EXIT: u8 = 2;

/// Hover code of the main menu's Edit control.
pub const BUTTON_EDIT: u8 = 3;

/// Hover code of the editor's Reset control.
pub const BUTTON_RESET: u8 = 1;

/// Screen column and row at which the editor draws the field's first cell.
pub const GLOBAL_OFFSET_X: u16 = 1;

pub const GLOBAL_OFFSET_Y: u16 = 1;

/// Screen column and row of the top left corner of the main menu's controls.
pub const BUTTONS_POS_X: u16 = 1;

pub const BUTTONS_POS_Y: u16 = 13;

/// Screen column and row of the editor's hint panel.
pub const EDIT_HINT_OFFSET_X: u16 = 30;

pub const EDIT_HINT_OFFSET_Y: u16 = 1;

/// The mode the program is in.
#[derive(Clone, Copy, Debug, PartialEq, Eq, Structural)]
pub enum Screen {
    MainMenu,
    Edit,
    Game,
}

/// The main menu's controls, in the order in which they are tried.
pub open spec fn play_button() -> Button {
    Button { x: BUTTONS_POS_X, y: BUTTONS_POS_Y, width: 10, height: 3, return_code: BUTTON_PLAY }
}

pub open spec fn edit_button() -> Button {
    Button { x: BUTTONS_POS_X, y: (BUTTONS_POS_Y + 5) as u16, width: 10, height: 3, return_code: BUTTON_EDIT }
}

pub open spec fn exit_button() -> Button {
    Button { x: BUTTONS_POS_X, y: (BUTTONS_POS_Y + 10) as u16, width: 10, height: 3, return_code: BUTTON_EXIT }
}

/// The editor's Reset control.
pub open spec fn reset_button() -> Button {
    Button { x: EDIT_HINT_OFFSET_X, y: (EDIT_HINT_OFFSET_Y + 8) as u16, width: 6, height: 2, return_code: BUTTON_RESET }
}

/// The main menu control under the screen cell `(x, y)`: the first one that
/// holds it, or `NONE`.
pub open spec fn menu_hover_spec(x: u16, y: u16) -> u8 {
    if in_button(x, y, play_button()) {
        BUTTON_PLAY
    } else if in_button(x, y, edit_button()) {
        BUTTON_EDIT
    } else if in_button(x, y, exit_button()) {
        BUTTON_EXIT
    } else {
        NONE
    }
}

/// The main menu control under the screen cell `(x, y)`, or `NONE`.
pub fn menu_hover(x: u16, y: u16) -> (r: u8)
    ensures
        r == menu_hover_spec(x, y),
{
    let buttons = [
        Button { x: BUTTONS_POS_X, y: BUTTONS_POS_Y, width: 10, height: 3, return_code: BUTTON_PLAY },
        Button { x: BUTTONS_POS_X, y: BUTTONS_POS_Y + 5, width: 10, height: 3, return_code: BUTTON_EDIT },
        Button { x: BUTTONS_POS_X, y: BUTTONS_POS_Y + 10, width: 10, height: 3, return_code: BUTTON_EXIT },
    ];
    let mut i: usize = 0;
    while i < 3
        invariant
            buttons@ == seq![play_button(), edit_button(), exit_button()],
            i <= 3,
            forall|k: int| 0 <= k < i ==> !in_button(x, y, #[trigger] buttons@[k]),
        decreases 3 - i,
    {
        let code = get_hover(x, y, &buttons[i]);
        if code != NONE {
            return code;
        }
        i = i + 1;
    }
    NONE
}

/// The editor's Reset control if the screen cell `(x, y)` lies on it, else `NONE`.
pub fn reset_hover(x: u16, y: u16) -> (r: u8)
    ensures
        r == if in_button(x, y, reset_button()) { BUTTON_RESET } else { NONE },
{
    let reset = Button { x: EDIT_HINT_OFFSET_X, y: EDIT_HINT_OFFSET_Y + 8, width: 6, height: 2, return_code: BUTTON_RESET };
    get_hover(x, y, &reset)
}

/// The field cell under a screen cell of the editor. A screen cell left of
/// or above the field gives a coordinate of `GAME_FIELD_SIZE`, which lies
/// off the field.
pub open spec fn field_cell_spec(x: u16, y: u16) -> Pos {
    Pos {
        x: if x >= GLOBAL_OFFSET_X { (x - GLOBAL_OFFSET_X) as u16 } else { GAME_FIELD_SIZE },
        y: if y >= GLOBAL_OFFSET_Y { (y - GLOBAL_OFFSET_Y) as u16 } else { GAME_FIELD_SIZE },
    }
}

/// The field cell under a screen cell of the editor.
pub fn field_cell(x: u16, y: u16) -> (r: Pos)
    ensures
        r == field_cell_spec(x, y),
{
    Pos {
        x: if x >= GLOBAL_OFFSET_X { x - GLOBAL_OFFSET_X } else { GAME_FIELD_SIZE },
        y: if y >= GLOBAL_OFFSET_Y { y - GLOBAL_OFFSET_Y } else { GAME_FIELD_SIZE },
    }
}

/// Whether `p` is a cell of the spawn strip, which the editor leaves open.
pub fn is_spawn_cell(p: Pos) -> (r: bool)
    ensures
        r == in_spawn_strip(p),
{
    p.y == SNAKE_SPAWN_POS_Y && p.x >= SNAKE_SPAWN_POS_X && p.x <= SNAKE_SPAWN_POS_X + 2
}

/// Whether the editor lets the player flip the cell at `p`.
pub open spec fn editable(p: Pos) -> bool {
    p.in_field() && !in_spawn_strip(p)
}

/// How long to wait for input before the next tick is due: what is left of
/// `tick_ms` after `elapsed_ms`, and nothing once it has passed.
pub fn poll_budget(tick_ms: u64, elapsed_ms: u64) -> (r: u64)
    ensures
        r == if elapsed_ms < tick_ms { tick_ms - elapsed_ms } else { 0 },
{
    if elapsed_ms < tick_ms {
        tick_ms - elapsed_ms
    } else {
        0
    }
}

/// What a tick of the game did.
#[derive(Clone, Copy, Debug, PartialEq, Eq, Structural)]
pub enum TickOutcome {
    /// The snake was already dead; nothing changed.
    Dead,
    /// The snake moved without eating.
    Moved,
    /// The snake ate the fruit, which was placed anew.
    Ate,
}

/// What the main menu asks the program to do after an input.
#[derive(Clone, Copy, Debug, PartialEq, Eq, Structural)]
pub enum MenuAction {
    Stay,
    StartGame,
    OpenEditor,
    Exit,
}

/// What the editor asks the program to do after an input.
#[derive(Clone, Copy, Debug, PartialEq, Eq, Structural)]
pub enum EditAction {
    Stay,
    /// A cell was flipped.
    Toggled,
    /// The whole map was reset.
    MapReset,
    BackToMenu,
}

/// What a pass of the game loop did.
#[derive(Clone, Copy, Debug, PartialEq, Eq, Structural)]
pub struct GameFrame {
    /// The tick's outcome, if a tick was due.
    pub tick: Option<TickOutcome>,
    /// Whether the game was left for the main menu.
    pub left: bool,
}

/// All the state of a running program.
pub struct Session {
    pub screen: Screen,
    pub map: Grid,
    pub snake: Snake,
    pub fruit: Fruit,
    pub score: usize,
    pub cursor: Cursor,
    /// Which of the title's colours is shown.
    pub title_color: usize,
}

impl Session {
    pub open spec fn wf(&self) -> bool {
        &&& self.map.wf()
        &&& self.snake.wf()
        &&& self.fruit.pos.in_field()
        &&& self.screen == Screen::Game ==> self.snake.body@.len() == self.score + 2
    }

    /// Whether a game has just begun: no score, the snake alive on its spawn
    /// strip heading right, and the fruit on a free cell if there is one.
    pub open spec fn fresh_game(&self) -> bool {
        &&& self.score == 0
        &&& self.snake.alive
        &&& self.snake.pos == (Pos { x: (SNAKE_SPAWN_POS_X + 2) as u16, y: SNAKE_SPAWN_POS_Y })
        &&& self.snake.body@ == seq![
            Pos { x: SNAKE_SPAWN_POS_X, y: SNAKE_SPAWN_POS_Y },
            Pos { x: (SNAKE_SPAWN_POS_X + 1) as u16, y: SNAKE_SPAWN_POS_Y },
        ]
        &&& self.snake.direction == Direction::Right
        &&& self.snake.prev_move == Direction::Right
        &&& self.snake.last_input == Direction::Right
        &&& has_free_cell(&self.map, &self.snake) ==> is_free(&self.map, &self.snake, self.fruit.pos)
    }

    /// A session in the main menu, on the given map.
    pub fn new(map: Grid) -> (r: Session)
        requires
            map.wf(),
        ensures
            r.wf(),
            r.screen == Screen::MainMenu,
            r.map == map,
            r.score == 0,
            r.cursor == (Cursor { x: 0, y: 0, hover: NONE }),
            r.title_color == 0,
    {
        let snake = Snake::new();
        let fruit = Fruit::new(&map);
        Session {
            screen: Screen::MainMenu,
            map,
            snake,
            fruit,
            score: 0,
            cursor: Cursor { x: 0, y: 0, hover: NONE },
            title_color: 0,
        }
    }

    /// Moves the title on to its next colour, out of `color_count`, going
    /// back to the first after the last.
    pub fn advance_title_color(&mut self, color_count: usize)
        ensures
            final(self).title_color == if old(self).title_color + 1 >= color_count {
                0
            } else {
                old(self).title_color + 1
            },
            final(self).screen == old(self).screen,
            final(self).map == old(self).map,
            final(self).snake == old(self).snake,
            final(self).fruit == old(self).fruit,
            final(self).score == old(self).score,
            final(self).cursor == old(self).cursor,
    {
        if self.title_color < usize::MAX && self.title_color + 1 < color_count {
            self.title_color = self.title_color + 1;
        } else {
            self.title_color = 0;
        }
    }

    /// Starts a game: a fresh snake, a fruit on a free cell, no score.
    pub fn start_game(&mut self)
        requires
            old(self).wf(),
        ensures
            final(self).wf(),
            final(self).screen == Screen::Game,
            final(self).score == 0,
            final(self).map == old(self).map,
            final(self).cursor == old(self).cursor,
            final(self).title_color == old(self).title_color,
            final(self).fresh_game(),
    {
        self.snake = Snake::new();
        self.fruit.respawn(&self.map, &self.snake);
        self.score = 0;
        self.screen = Screen::Game;
    }

    /// Handles an input in the main menu, then finds the control under the
    /// cursor. Abort, or a click on Exit, asks to end the program; a click
    /// on Play starts a game; a click on Edit opens the editor.
    pub fn menu_input(&mut self, input: InputResult) -> (r: MenuAction)
        requires
            old(self).wf(),
            old(self).screen == Screen::MainMenu,
        ensures
            final(self).wf(),
            r == match input {
                InputResult::Abort => MenuAction::Exit,
                InputResult::Click => if old(self).cursor.hover == BUTTON_PLAY {
                    MenuAction::StartGame
                } else if old(self).cursor.hover == BUTTON_EXIT {
                    MenuAction::Exit
                } else if old(self).cursor.hover == BUTTON_EDIT {
                    MenuAction::OpenEditor
                } else {
                    MenuAction::Stay
                },
                _ => MenuAction::Stay,
            },
            final(self).screen == match r {
                MenuAction::StartGame => Screen::Game,
                MenuAction::OpenEditor => Screen::Edit,
                _ => Screen::MainMenu,
            },
            r == MenuAction::StartGame ==> final(self).fresh_game(),
            r != MenuAction::StartGame ==> final(self).snake == old(self).snake && final(self).fruit
                == old(self).fruit && final(self).score == old(self).score,
            final(self).map == old(self).map,
            final(self).cursor == (Cursor {
                hover: menu_hover_spec(old(self).cursor.x, old(self).cursor.y),
                ..old(self).cursor
            }),
    {
        let action = match input {
            InputResult::Abort => MenuAction::Exit,
            InputResult::Click => {
                let hover = self.cursor.hover;
                if hover == BUTTON_PLAY {
                    self.start_game();
                    MenuAction::StartGame
                } else if hover == BUTTON_EXIT {
                    MenuAction::Exit
                } else if hover == BUTTON_EDIT {
                    self.screen = Screen::Edit;
                    MenuAction::OpenEditor
                } else {
                    MenuAction::Stay
                }
            },
            _ => MenuAction::Stay,
        };
        self.cursor.hover = menu_hover(self.cursor.x, self.cursor.y);
        action
    }

    /// One tick of the game. A dead snake freezes everything. Otherwise the
    /// snake moves; when it eats, the score goes up by one and the fruit
    /// moves to a free cell.
    pub fn game_tick(&mut self) -> (r: TickOutcome)
        requires
            old(self).wf(),
            old(self).screen == Screen::Game,
        ensures
            final(self).wf(),
            final(self).screen == Screen::Game,
            final(self).map == old(self).map,
            final(self).cursor == old(self).cursor,
            !old(self).snake.alive ==> r == TickOutcome::Dead && final(self).snake == old(self).snake
                && final(self).fruit == old(self).fruit && final(self).score == old(self).score,
            old(self).snake.alive ==> r != TickOutcome::Dead,
            r == TickOutcome::Moved ==> final(self).score == old(self).score && final(self).fruit
                == old(self).fruit && final(self).snake.body@.len() == old(self).snake.body@.len(),
            r == TickOutcome::Ate ==> final(self).score == old(self).score + 1
                && final(self).snake.body@.len() == old(self).snake.body@.len() + 1
                && (has_free_cell(&final(self).map, &final(self).snake) ==> is_free(
                &final(self).map,
                &final(self).snake,
                final(self).fruit.pos,
            )),
            old(self).snake.alive ==> moved(old(self).snake, final(self).snake, &old(self).map, old(self).fruit.pos, r == TickOutcome::Ate),
    {
        if !self.snake.alive {
            return TickOutcome::Dead;
        }
        let ate = self.snake.advance(&self.map, self.fruit.pos);
        if ate {
            // the body's length fits a usize, and it is the score plus two
            let _len = self.snake.body.len();
            self.fruit.respawn(&self.map, &self.snake);
            self.score = self.score + 1;
            TickOutcome::Ate
        } else {
            TickOutcome::Moved
        }
    }

    /// Leaves the game for the main menu, dropping the score.
    pub fn leave_game(&mut self)
        requires
            old(self).wf(),
        ensures
            final(self).wf(),
            final(self).screen == Screen::MainMenu,
            final(self).score == 0,
            final(self).map == old(self).map,
            final(self).snake == old(self).snake,
            final(self).fruit == old(self).fruit,
            final(self).cursor == old(self).cursor,
    {
        self.screen = Screen::MainMenu;
        self.score = 0;
    }

    /// One pass of the game loop: the input is applied to the snake; an
    /// abort returns to the main menu at once, and otherwise a tick runs if
    /// one is due.
    pub fn game_frame(&mut self, polled: Polled, tick_due: bool) -> (r: GameFrame)
        requires
            old(self).wf(),
            old(self).screen == Screen::Game,
        ensures
            final(self).wf(),
            r.left == (game_result(polled) == InputResult::Abort),
            final(self).screen == if r.left { Screen::MainMenu } else { Screen::Game },
            final(self).map == old(self).map,
            final(self).cursor == old(self).cursor,
            exists|mid: Snake| #[trigger] steered(old(self).snake, mid, polled) && {
                let runs = tick_due && !r.left;
                let tick = if !runs {
                    None
                } else if !mid.alive {
                    Some(TickOutcome::Dead)
                } else if r.tick == Some(TickOutcome::Ate) {
                    Some(TickOutcome::Ate)
                } else {
                    Some(TickOutcome::Moved)
                };
                &&& r.tick == tick
                &&& if runs && mid.alive {
                    moved(mid, final(self).snake, &old(self).map, old(self).fruit.pos, tick == Some(TickOutcome::Ate))
                } else {
                    final(self).snake == mid
                }
            },
            r.tick != Some(TickOutcome::Ate) ==> final(self).fruit == old(self).fruit,
            r.tick == Some(TickOutcome::Ate) ==> (has_free_cell(&final(self).map, &final(self).snake) ==> is_free(
                &final(self).map,
                &final(self).snake,
                final(self).fruit.pos,
            )),
            final(self).score == if r.left {
                0
            } else if r.tick == Some(TickOutcome::Ate) {
                old(self).score + 1
            } else {
                old(self).score as int
            },
    {
        let input = game_input(&mut self.snake, polled);
        let ghost mid = self.snake;
        let left = input == InputResult::Abort;
        let tick = if left {
            self.leave_game();
            None
        } else if tick_due {
            Some(self.game_tick())
        } else {
            None
        };
        assert(steered(old(self).snake, mid, polled));
        GameFrame { tick, left }
    }

    /// Handles an input in the editor. `before` is where the cursor was
    /// before the input moved it. A click on an editable cell flips it, a
    /// click elsewhere on the Reset control resets the map; a drag flips the
    /// editable cell it reaches unless it is the cell it came from; Abort
    /// returns to the main menu. Afterwards the Reset control's hover is
    /// found anew.
    pub fn edit_input(&mut self, before: Cursor, input: InputResult) -> (r: EditAction)
        requires
            old(self).wf(),
            old(self).screen == Screen::Edit,
        ensures
            final(self).wf(),
            ({
                let cell = field_cell_spec(old(self).cursor.x, old(self).cursor.y);
                let prev = field_cell_spec(before.x, before.y);
                r == match input {
                    InputResult::Draw => if editable(cell) && cell != prev {
                        EditAction::Toggled
                    } else {
                        EditAction::Stay
                    },
                    InputResult::Click => if editable(cell) {
                        EditAction::Toggled
                    } else if old(self).cursor.hover == BUTTON_RESET {
                        EditAction::MapReset
                    } else {
                        EditAction::Stay
                    },
                    InputResult::Abort => EditAction::BackToMenu,
                    InputResult::Continue => EditAction::Stay,
                }
                && (r == EditAction::Toggled ==> final(self).map@ == toggled(old(self).map@, cell))
            }),
            r == EditAction::MapReset ==> forall|x: int, y: int|
                0 <= x < GAME_FIELD_SIZE && 0 <= y < GAME_FIELD_SIZE ==> #[trigger] final(self).map.wall(x, y)
                    == is_border(x, y),
            r == EditAction::Stay || r == EditAction::BackToMenu ==> final(self).map == old(self).map,
            final(self).screen == if r == EditAction::BackToMenu { Screen::MainMenu } else { Screen::Edit },
            final(self).snake == old(self).snake,
            final(self).fruit == old(self).fruit,
            final(self).score == old(self).score,
            final(self).cursor == (Cursor {
                hover: if in_button(old(self).cursor.x, old(self).cursor.y, reset_button()) {
                    BUTTON_RESET
                } else {
                    NONE
                },
                ..old(self).cursor
            }),
    {
        let prev = field_cell(before.x, before.y);
        let cell = field_cell(self.cursor.x, self.cursor.y);
        let valid = cell.x < GAME_FIELD_SIZE && cell.y < GAME_FIELD_SIZE;
        let can_edit = valid && !is_spawn_cell(cell);
        let action = match input {
            InputResult::Draw => {
                if can_edit && (cell.x != prev.x || cell.y != prev.y) {
                    self.map.toggle(cell);
                    EditAction::Toggled
                } else {
                    EditAction::Stay
                }
            },
            InputResult::Click => {
                if can_edit {
                    self.map.toggle(cell);
                    EditAction::Toggled
                } else if self.cursor.hover == BUTTON_RESET {
                    reset_map(&mut self.map);
                    EditAction::MapReset
                } else {
                    EditAction::Stay
                }
            },
            InputResult::Abort => {
                self.screen = Screen::MainMenu;
                EditAction::BackToMenu
            },
            InputResult::Continue => EditAction::Stay,
        };
        self.cursor.hover = reset_hover(self.cursor.x, self.cursor.y);
        action
    }
}

} // verus!
