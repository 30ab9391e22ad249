use vstd::prelude::*;
use std::collections::VecDeque;
use crate::geometry::{Direction, Pos, opposite, step, step_spec};
use crate::grid::Grid;

verus! {

/// Column of the spawn strip's first cell; the strip is three cells wide.
pub const SNAKE_SPAWN_POS_X: u16 = 2;

/// Row of the spawn strip.
pub const SNAKE_SPAWN_POS_Y: u16 = 2;

/// The snake: its head, its body from the tail up to the segment behind the
/// head, where it heads, and whether it is still alive.
pub struct Snake {
    pub pos: Pos,
    pub body: VecDeque<Pos>,
    pub direction: Direction,
    pub alive: bool,
    /// The direction of the last completed move.
    pub prev_move: Direction,
    /// The direction the player asked for most recently.
    pub last_input: Direction,
}

/// The direction a move takes: the player's latest wish, unless it would
/// turn the snake straight back on itself.
pub open spec fn active_direction(prev_move: Direction, last_input: Direction, direction: Direction) -> Direction {
    if opposite(last_input) == prev_move {
        direction
    } else {
        last_input
    }
}

/// A wish to turn straight back along the last move is ignored and the
/// committed direction kept; every other wish is taken as it is.
pub proof fn lemma_reversal_suppressed(prev_move: Direction, last_input: Direction, direction: Direction)
    ensures
        active_direction(prev_move, last_input, direction) == if last_input == opposite(prev_move) {
            direction
        } else {
            last_input
        },
{
}

/// How a live snake `before` becomes `after` in one move on `map`, with the
/// fruit at `fruit`; `ate` tells whether the new head reached the fruit.
/// The old head joins the body, and the tail cell leaves it unless the fruit
/// was eaten. The snake dies if its new head lies on its body or on a wall.
pub open spec fn moved(before: Snake, after: Snake, map: &Grid, fruit: Pos, ate: bool) -> bool {
    let d = active_direction(before.prev_move, before.last_input, before.direction);
    let head = step_spec(before.pos, d);
    let grown = before.body@.push(before.pos);
    &&& ate == (head == fruit)
    &&& after.pos == head
    &&& after.direction == d
    &&& after.prev_move == d
    &&& after.last_input == before.last_input
    &&& after.body@ == if ate { grown } else { grown.drop_first() }
    &&& after.alive == !(after.body@.contains(head) || map.wall(head.x as int, head.y as int))
}

impl Snake {
    pub open spec fn wf(&self) -> bool {
        &&& self.pos.in_field()
        &&& forall|i: int| 0 <= i < self.body@.len() ==> (#[trigger] self.body@[i]).in_field()
    }

    /// Whether the head or a body segment covers `p`.
    pub open spec fn occupies(&self, p: Pos) -> bool {
        self.pos == p || self.body@.contains(p)
    }

    /// A snake on the spawn strip: tail and one segment behind a head that
    /// faces right.
    pub fn new() -> (r: Snake)
        ensures
            r.wf(),
            r.pos == (Pos { x: (SNAKE_SPAWN_POS_X + 2) as u16, y: SNAKE_SPAWN_POS_Y }),
            r.body@ == seq![
                Pos { x: SNAKE_SPAWN_POS_X, y: SNAKE_SPAWN_POS_Y },
                Pos { x: (SNAKE_SPAWN_POS_X + 1) as u16, y: SNAKE_SPAWN_POS_Y },
            ],
            r.direction == Direction::Right,
            r.prev_move == Direction::Right,
            r.last_input == Direction::Right,
            r.alive,
    {
        let mut body: VecDeque<Pos> = VecDeque::new();
        body.push_back(Pos { x: SNAKE_SPAWN_POS_X, y: SNAKE_SPAWN_POS_Y });
        body.push_back(Pos { x: SNAKE_SPAWN_POS_X + 1, y: SNAKE_SPAWN_POS_Y });
        let r = Snake {
            pos: Pos { x: SNAKE_SPAWN_POS_X + 2, y: SNAKE_SPAWN_POS_Y },
            body,
            direction: Direction::Right,
            alive: true,
            prev_move: Direction::Right,
            last_input: Direction::Right,
        };
        assert(r.body@ =~= seq![
            Pos { x: SNAKE_SPAWN_POS_X, y: SNAKE_SPAWN_POS_Y },
            Pos { x: (SNAKE_SPAWN_POS_X + 1) as u16, y: SNAKE_SPAWN_POS_Y },
        ]);
        r
    }

    /// Whether the head or a body segment covers the cell `(x, y)`.
    pub fn is_in_point(&self, x: u16, y: u16) -> (r: bool)
        ensures
            r == self.occupies(Pos { x, y }),
    {
        if self.pos.y == y && self.pos.x == x {
            return true;
        }
        let n = self.body.len();
        let mut i: usize = 0;
        while i < n
            invariant
                n == self.body@.len(),
                i <= n,
                forall|k: int| 0 <= k < i ==> self.body@[k] != (Pos { x, y }),
            decreases n - i,
        {
            let part = self.body[i];
            if part.y == y && part.x == x {
                assert(self.body@[i as int] == Pos { x, y });
                return true;
            }
            i = i + 1;
        }
        false
    }

    /// The direction the next move will take.
    pub fn buffered_direction(&self) -> (r: Direction)
        ensures
            r == active_direction(self.prev_move, self.last_input, self.direction),
            self.prev_move == opposite(self.last_input) ==> r == self.direction,
            self.prev_move != opposite(self.last_input) ==> r == self.last_input,
    {
        if self.last_input.is_opposite_of(&self.prev_move) {
            self.direction.copy()
        } else {
            self.last_input.copy()
        }
    }

    /// Moves the snake one cell, for one tick of the game. A dead snake stays
    /// as it is. The old head joins the body; unless the new head lands on
    /// `fruit` the tail cell is dropped. The snake dies when its new head
    /// lies on its body or on a wall. Returns whether the fruit was eaten.
    pub fn advance(&mut self, map: &Grid, fruit: Pos) -> (ate: bool)
        requires
            old(self).wf(),
            map.wf(),
        ensures
            final(self).wf(),
            !old(self).alive ==> !ate && *final(self) == *old(self),
            old(self).alive ==> moved(*old(self), *final(self), map, fruit, ate),
            old(self).alive && ate ==> final(self).body@.len() == old(self).body@.len() + 1,
            old(self).alive && !ate ==> final(self).body@.len() == old(self).body@.len(),
    {
        if !self.alive {
            return false;
        }
        let d = self.buffered_direction();
        self.body.push_back(self.pos);
        self.direction = d;
        let head = step(self.pos, d);
        self.pos = head;
        let ate = head.x == fruit.x && head.y == fruit.y;
        if !ate {
            self.body.pop_front();
        }
        self.prev_move = d;
        let hit_body = self.body_contains(head);
        let hit_wall = map.is_wall(head);
        if hit_body || hit_wall {
            self.alive = false;
        }
        ate
    }

    /// Whether a body segment, the head aside, covers `p`.
    fn body_contains(&self, p: Pos) -> (r: bool)
        ensures
            r == self.body@.contains(p),
    {
        let n = self.body.len();
        let mut i: usize = 0;
        while i < n
            invariant
                n == self.body@.len(),
                i <= n,
                forall|k: int| 0 <= k < i ==> self.body@[k] != p,
            decreases n - i,
        {
            let part = self.body[i];
            if part.x == p.x && part.y == p.y {
                assert(self.body@[i as int] == p);
                return true;
            }
            i = i + 1;
        }
        false
    }
}

} // verus!
