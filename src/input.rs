use vstd::prelude::*;
use crate::geometry::{Direction, Pos, step_spec};
use crate::grid::Grid;
use crate::snake::{Snake, moved};

verus! {

/// Hover code for "no control under the cursor".
pub const NONE: u8 = 0;

/// The pointer: where it is, and the control it rests on (`NONE` if none).
#[derive(Clone, Copy, Debug, PartialEq, Eq, Structural)]
pub struct Cursor {
    pub x: u16,
    pub y: u16,
    pub hover: u8,
}

/// What an input event asks of the mode that receives it.
#[derive(Clone, Copy, Debug, PartialEq, Eq, Structural)]
pub enum InputResult {
    Continue,
    Click,
    Draw,
    Abort,
}

/// The keys the program tells apart.
#[derive(Clone, Copy, Debug, PartialEq, Eq, Structural)]
pub enum Key {
    Right,
    Left,
    Up,
    Down,
    Enter,
    Esc,
    Other,
}

/// An input event, reduced to what the program reads of it.
#[derive(Clone, Copy, Debug, PartialEq, Eq, Structural)]
pub enum InputEvent {
    /// The pointer moved to a screen cell without a button held.
    Moved { column: u16, row: u16 },
    /// A mouse button went down; `left` tells whether it was the left one.
    Down { left: bool },
    /// The pointer moved to a screen cell with a button held.
    Drag { column: u16, row: u16, left: bool },
    Key(Key),
    Other,
}

/// The outcome of waiting for input for a bounded time.
#[derive(Clone, Copy, Debug, PartialEq, Eq, Structural)]
pub enum Polled {
    /// No event came before the time was up.
    Timeout,
    /// An event came.
    Event(InputEvent),
    /// The input source failed.
    Failed,
}

/// A rectangle on the screen that answers a click with its code.
#[derive(Clone, Copy, Debug, PartialEq, Eq, Structural)]
pub struct Button {
    pub x: u16,
    pub y: u16,
    pub width: u16,
    pub height: u16,
    pub return_code: u8,
}

/// Whether the screen cell `(x, y)` lies in the button, both edges included.
pub open spec fn in_button(x: u16, y: u16, b: Button) -> bool {
    b.x <= x <= b.x + b.width && b.y <= y <= b.y + b.height
}

/// The hover code of `button` if `(posx, posy)` lies in it, else `NONE`.
/// A position before the button's origin never counts as inside.
pub fn get_hover(posx: u16, posy: u16, button: &Button) -> (r: u8)
    ensures
        r == if in_button(posx, posy, *button) { button.return_code } else { NONE },
{
    if posx >= button.x && posx - button.x <= button.width && posy >= button.y && posy - button.y
        <= button.height {
        return button.return_code;
    }
    NONE
}

/// What a polled input means to the cursor-driven modes.
pub open spec fn cursor_result(p: Polled) -> InputResult {
    match p {
        Polled::Timeout => InputResult::Continue,
        Polled::Failed => InputResult::Abort,
        Polled::Event(e) => match e {
            InputEvent::Down { left } => if left { InputResult::Click } else { InputResult::Continue },
            InputEvent::Drag { left, .. } => if left { InputResult::Draw } else { InputResult::Continue },
            InputEvent::Key(Key::Enter) => InputResult::Click,
            InputEvent::Key(Key::Esc) => InputResult::Abort,
            _ => InputResult::Continue,
        },
    }
}

/// Where a polled input puts the cursor: pointer events move it to their
/// cell, arrow keys move it by one cell, stopping at the screen's edges.
pub open spec fn cursor_moved(c: Cursor, p: Polled) -> Cursor {
    match p {
        Polled::Event(e) => match e {
            InputEvent::Moved { column, row } => Cursor { x: column, y: row, ..c },
            InputEvent::Drag { column, row, .. } => Cursor { x: column, y: row, ..c },
            InputEvent::Key(Key::Right) => Cursor { x: if c.x < u16::MAX { (c.x + 1) as u16 } else { c.x }, ..c },
            InputEvent::Key(Key::Left) => Cursor { x: if c.x > 0 { (c.x - 1) as u16 } else { c.x }, ..c },
            InputEvent::Key(Key::Down) => Cursor { y: if c.y < u16::MAX { (c.y + 1) as u16 } else { c.y }, ..c },
            InputEvent::Key(Key::Up) => Cursor { y: if c.y > 0 { (c.y - 1) as u16 } else { c.y }, ..c },
            _ => c,
        },
        _ => c,
    }
}

/// Applies a polled input to the cursor and says what it asks for.
pub fn cursor_input(cursor: &mut Cursor, polled: Polled) -> (r: InputResult)
    ensures
        *final(cursor) == cursor_moved(*old(cursor), polled),
        r == cursor_result(polled),
{
    let event = match polled {
        Polled::Timeout => return InputResult::Continue,
        Polled::Failed => return InputResult::Abort,
        Polled::Event(e) => e,
    };
    match event {
        InputEvent::Moved { column, row } => {
            cursor.x = column;
            cursor.y = row;
        },
        InputEvent::Down { left } => {
            if left {
                return InputResult::Click;
            }
        },
        InputEvent::Drag { column, row, left } => {
            cursor.x = column;
            cursor.y = row;
            if left {
                return InputResult::Draw;
            }
        },
        InputEvent::Key(key) => match key {
            Key::Right => cursor.x = cursor.x.saturating_add(1),
            Key::Left => cursor.x = cursor.x.saturating_sub(1),
            Key::Up => cursor.y = cursor.y.saturating_sub(1),
            Key::Down => cursor.y = cursor.y.saturating_add(1),
            Key::Enter => return InputResult::Click,
            Key::Esc => return InputResult::Abort,
            Key::Other => {},
        },
        InputEvent::Other => {},
    }
    InputResult::Continue
}

/// The direction an arrow key asks for; `None` for any other key.
pub open spec fn key_direction(k: Key) -> Option<Direction> {
    match k {
        Key::Right => Some(Direction::Right),
        Key::Left => Some(Direction::Left),
        Key::Up => Some(Direction::Up),
        Key::Down => Some(Direction::Down),
        _ => None,
    }
}

/// What a polled input asks of a running game: to leave it on Escape or
/// when the input source fails, else to go on.
pub open spec fn game_result(p: Polled) -> InputResult {
    match p {
        Polled::Failed => InputResult::Abort,
        Polled::Event(InputEvent::Key(Key::Esc)) => InputResult::Abort,
        _ => InputResult::Continue,
    }
}

/// How a polled input steers the snake from `before` to `after`. A key
/// other than Escape becomes the latest wish (an arrow's direction, or the
/// current direction for another key), taken at once unless it points back
/// along the last move. A dead snake takes no wish. Nothing else changes.
pub open spec fn steered(before: Snake, after: Snake, p: Polled) -> bool {
    &&& after.pos == before.pos
    &&& after.body@ == before.body@
    &&& after.alive == before.alive
    &&& after.prev_move == before.prev_move
    &&& match p {
        Polled::Event(InputEvent::Key(k)) if k != Key::Esc && before.alive => {
            let d = match key_direction(k) {
                Some(d) => d,
                None => before.direction,
            };
            &&& after.last_input == d
            &&& after.direction == if d.is_opposite_of_spec(before.prev_move) {
                before.direction
            } else {
                d
            }
        },
        _ => {
            &&& after.last_input == before.last_input
            &&& after.direction == before.direction
        },
    }
}

/// Applies a polled input to the snake during a game. A key other than
/// Escape is recorded as the latest wish (an arrow's direction, or the
/// current direction for another key), and taken at once unless it points
/// back along the last move. A dead snake is left as it is. Escape, or a
/// failing input source, asks to leave the game.
pub fn game_input(snake: &mut Snake, polled: Polled) -> (r: InputResult)
    ensures
        steered(*old(snake), *final(snake), polled),
        !old(snake).alive ==> *final(snake) == *old(snake),
        r == game_result(polled),
{
    let key = match polled {
        Polled::Timeout => return InputResult::Continue,
        Polled::Failed => return InputResult::Abort,
        Polled::Event(InputEvent::Key(k)) => k,
        Polled::Event(_) => return InputResult::Continue,
    };
    if key == Key::Esc {
        return InputResult::Abort;
    }
    if !snake.alive {
        return InputResult::Continue;
    }
    let dir = match key {
        Key::Right => Direction::Right,
        Key::Left => Direction::Left,
        Key::Up => Direction::Up,
        Key::Down => Direction::Down,
        _ => snake.direction.copy(),
    };
    snake.last_input = dir.copy();
    if !dir.is_opposite_of(&snake.prev_move) {
        snake.direction = dir;
    }
    InputResult::Continue
}

/// On a live snake, an arrow key that does not point back along the last
/// move makes the next move go that way: the head lands on the neighbouring
/// cell in the key's direction.
pub proof fn lemma_turn_then_move(
    before: Snake,
    turned: Snake,
    after: Snake,
    k: Key,
    map: &Grid,
    fruit: Pos,
    ate: bool,
)
    requires
        before.alive,
        key_direction(k) is Some,
        !key_direction(k)->0.is_opposite_of_spec(before.prev_move),
        steered(before, turned, Polled::Event(InputEvent::Key(k))),
        moved(turned, after, map, fruit, ate),
    ensures
        turned.direction == key_direction(k)->0,
        turned.last_input == key_direction(k)->0,
        after.pos == step_spec(before.pos, key_direction(k)->0),
        after.direction == key_direction(k)->0,
{
}

} // verus!
