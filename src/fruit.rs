use vstd::prelude::*;
use rand::Rng;
use crate::geometry::{GAME_FIELD_SIZE, Pos};
use crate::grid::Grid;
use crate::snake::{SNAKE_SPAWN_POS_X, SNAKE_SPAWN_POS_Y, Snake};

verus! {

/// Whether the cell at `p` is neither a wall nor covered by the snake.
pub open spec fn is_free(map: &Grid, snake: &Snake, p: Pos) -> bool {
    !map.wall(p.x as int, p.y as int) && !snake.occupies(p)
}

/// Whether row `y` holds at least one free cell.
pub open spec fn row_has_free(map: &Grid, snake: &Snake, y: u16) -> bool {
    exists|x: u16| x < GAME_FIELD_SIZE && #[trigger] is_free(map, snake, Pos { x, y })
}

/// Whether some cell of the field is free.
pub open spec fn has_free_cell(map: &Grid, snake: &Snake) -> bool {
    exists|p: Pos| p.in_field() && #[trigger] is_free(map, snake, p)
}

/// Whether `s` is strictly increasing.
pub open spec fn increasing(s: Seq<u16>) -> bool {
    forall|i: int, j: int| 0 <= i < j < s.len() ==> s[i] < s[j]
}

/// Whether a cell of the spawn strip lies at `p`.
pub open spec fn in_spawn_strip(p: Pos) -> bool {
    p.y == SNAKE_SPAWN_POS_Y && SNAKE_SPAWN_POS_X <= p.x <= SNAKE_SPAWN_POS_X + 2
}

/// The fruit the snake is after.
pub struct Fruit {
    pub pos: Pos,
}

/// Relies on rand::thread_rng and rand::Rng::gen_range, which draws a number
/// from `0..n` and panics only on an empty range.
#[verifier::external_body]
fn random_below(n: usize) -> (r: usize)
    requires
        n > 0,
    ensures
        r < n,
{
    rand::thread_rng().gen_range(0..n)
}

/// Whether a free cell lies in row `y`, found by scanning it up to the first.
fn row_is_free(map: &Grid, snake: &Snake, y: u16) -> (r: bool)
    requires
        map.wf(),
        y < GAME_FIELD_SIZE,
    ensures
        r == row_has_free(map, snake, y),
{
    let mut x: u16 = 0;
    while x < GAME_FIELD_SIZE
        invariant
            x <= GAME_FIELD_SIZE,
            y < GAME_FIELD_SIZE,
            map.wf(),
            forall|xx: u16| xx < x ==> !#[trigger] is_free(map, snake, Pos { x: xx, y }),
        decreases GAME_FIELD_SIZE - x,
    {
        if !map.is_wall(Pos { x, y }) && !snake.is_in_point(x, y) {
            assert(is_free(map, snake, Pos { x, y }));
            return true;
        }
        x = x + 1;
    }
    false
}

/// The rows below `n` that hold a free cell, in increasing order.
pub open spec fn free_rows_below(map: &Grid, snake: &Snake, n: nat) -> Seq<u16>
    decreases n,
{
    if n == 0 {
        seq![]
    } else {
        let before = free_rows_below(map, snake, (n - 1) as nat);
        if row_has_free(map, snake, (n - 1) as u16) {
            before.push((n - 1) as u16)
        } else {
            before
        }
    }
}

/// The columns below `n` of row `y` whose cells are free, in increasing order.
pub open spec fn free_columns_below(map: &Grid, snake: &Snake, y: u16, n: nat) -> Seq<u16>
    decreases n,
{
    if n == 0 {
        seq![]
    } else {
        let before = free_columns_below(map, snake, y, (n - 1) as nat);
        if is_free(map, snake, Pos { x: (n - 1) as u16, y }) {
            before.push((n - 1) as u16)
        } else {
            before
        }
    }
}

/// The rows of the field that hold a free cell, in increasing order.
pub open spec fn free_row_seq(map: &Grid, snake: &Snake) -> Seq<u16> {
    free_rows_below(map, snake, GAME_FIELD_SIZE as nat)
}

/// The columns of row `y` whose cells are free, in increasing order.
pub open spec fn free_column_seq(map: &Grid, snake: &Snake, y: u16) -> Seq<u16> {
    free_columns_below(map, snake, y, GAME_FIELD_SIZE as nat)
}

/// A value is in `s` with `v` appended when it is `v` or already in `s`.
proof fn lemma_push_contains(s: Seq<u16>, v: u16)
    ensures
        forall|a: u16| #[trigger] s.push(v).contains(a) <==> (s.contains(a) || a == v),
{
    assert forall|a: u16| #[trigger] s.push(v).contains(a) <==> (s.contains(a) || a == v) by {
        if s.contains(a) {
            let k = choose|k: int| 0 <= k < s.len() && s[k] == a;
            assert(s.push(v)[k] == a);
        }
        if a == v {
            assert(s.push(v)[s.len() as int] == a);
        }
        if s.push(v).contains(a) {
            let k = choose|k: int| 0 <= k < s.push(v).len() && s.push(v)[k] == a;
            if k < s.len() {
                assert(s[k] == a);
            }
        }
    }
}

/// The rows that hold a free cell, in increasing order.
pub fn free_rows(map: &Grid, snake: &Snake) -> (r: Vec<u16>)
    requires
        map.wf(),
    ensures
        r@ == free_row_seq(map, snake),
        increasing(r@),
        forall|i: int| 0 <= i < r@.len() ==> #[trigger] r@[i] < GAME_FIELD_SIZE,
        forall|y: u16| y < GAME_FIELD_SIZE ==> (r@.contains(y) <==> #[trigger] row_has_free(map, snake, y)),
{
    let mut rows: Vec<u16> = Vec::new();
    let mut y: u16 = 0;
    while y < GAME_FIELD_SIZE
        invariant
            y <= GAME_FIELD_SIZE,
            map.wf(),
            rows@ == free_rows_below(map, snake, y as nat),
            increasing(rows@),
            forall|i: int| 0 <= i < rows@.len() ==> #[trigger] rows@[i] < y,
            forall|yy: u16| yy < y ==> (rows@.contains(yy) <==> #[trigger] row_has_free(map, snake, yy)),
        decreases GAME_FIELD_SIZE - y,
    {
        let free = row_is_free(map, snake, y);
        let ghost before = rows@;
        proof {
            lemma_push_contains(before, y);
        }
        if free {
            rows.push(y);
        }
        assert(!before.contains(y));
        y = y + 1;
    }
    rows
}

/// The columns of row `y` whose cells are free, in increasing order.
pub fn free_columns(map: &Grid, snake: &Snake, y: u16) -> (r: Vec<u16>)
    requires
        map.wf(),
        y < GAME_FIELD_SIZE,
    ensures
        r@ == free_column_seq(map, snake, y),
        increasing(r@),
        forall|i: int| 0 <= i < r@.len() ==> #[trigger] r@[i] < GAME_FIELD_SIZE,
        forall|x: u16| x < GAME_FIELD_SIZE ==> (r@.contains(x) <==> #[trigger] is_free(map, snake, Pos { x, y })),
{
    let mut cols: Vec<u16> = Vec::new();
    let mut x: u16 = 0;
    while x < GAME_FIELD_SIZE
        invariant
            x <= GAME_FIELD_SIZE,
            y < GAME_FIELD_SIZE,
            map.wf(),
            cols@ == free_columns_below(map, snake, y, x as nat),
            increasing(cols@),
            forall|i: int| 0 <= i < cols@.len() ==> #[trigger] cols@[i] < x,
            forall|xx: u16| xx < x ==> (cols@.contains(xx) <==> #[trigger] is_free(map, snake, Pos { x: xx, y })),
        decreases GAME_FIELD_SIZE - x,
    {
        let free = !map.is_wall(Pos { x, y }) && !snake.is_in_point(x, y);
        let ghost before = cols@;
        proof {
            lemma_push_contains(before, x);
        }
        if free {
            cols.push(x);
        }
        assert(!before.contains(x));
        x = x + 1;
    }
    cols
}

/// The free cell that the two draws select: the `col_draw`-th free column
/// of the `row_draw`-th row that holds a free cell, both counted in
/// increasing order from zero.
pub fn pick_free_cell(map: &Grid, snake: &Snake, row_draw: usize, col_draw: usize) -> (r: Pos)
    requires
        map.wf(),
        row_draw < free_row_seq(map, snake).len(),
        col_draw < free_column_seq(map, snake, free_row_seq(map, snake)[row_draw as int]).len(),
    ensures
        r == (Pos {
            x: free_column_seq(map, snake, free_row_seq(map, snake)[row_draw as int])[col_draw as int],
            y: free_row_seq(map, snake)[row_draw as int],
        }),
        r.in_field(),
        is_free(map, snake, r),
{
    let rows = free_rows(map, snake);
    let y = rows[row_draw];
    let cols = free_columns(map, snake, y);
    let x = cols[col_draw];
    proof {
        assert(cols@.contains(x));
    }
    Pos { x, y }
}

impl Fruit {
    /// A fruit placed on a free cell of `map`, with the snake on its spawn
    /// strip.
    pub fn new(map: &Grid) -> (r: Fruit)
        requires
            map.wf(),
        ensures
            r.pos.in_field(),
            (exists|p: Pos| p.in_field() && !map.wall(p.x as int, p.y as int) && !#[trigger] in_spawn_strip(p))
                ==> !map.wall(r.pos.x as int, r.pos.y as int) && !in_spawn_strip(r.pos),
    {
        let mut f = Fruit { pos: Pos { x: 0, y: 0 } };
        let snake = Snake::new();
        proof {
            lemma_spawn_occupies(&snake);
        }
        f.respawn(map, &snake);
        proof {
            if exists|p: Pos| p.in_field() && !map.wall(p.x as int, p.y as int) && !#[trigger] in_spawn_strip(p) {
                let p = choose|p: Pos| p.in_field() && !map.wall(p.x as int, p.y as int) && !#[trigger] in_spawn_strip(p);
                assert(is_free(map, &snake, p));
                assert(is_free(map, &snake, f.pos));
            }
        }
        f
    }

    /// Moves the fruit to a free cell: first a row is drawn among the rows
    /// that hold a free cell, then a free cell within that row. When no cell
    /// is free the fruit goes to `(0, 0)`.
    pub fn respawn(&mut self, map: &Grid, snake: &Snake)
        requires
            map.wf(),
        ensures
            final(self).pos.in_field(),
            has_free_cell(map, snake) ==> is_free(map, snake, final(self).pos),
            has_free_cell(map, snake) ==> exists|i: int, j: int|
                0 <= i < free_row_seq(map, snake).len() && 0 <= j < free_column_seq(
                    map,
                    snake,
                    free_row_seq(map, snake)[i],
                ).len() && final(self).pos == (Pos {
                    x: #[trigger] free_column_seq(map, snake, free_row_seq(map, snake)[i])[j],
                    y: free_row_seq(map, snake)[i],
                }),
            !has_free_cell(map, snake) ==> final(self).pos == (Pos { x: 0, y: 0 }),
    {
        let rows = free_rows(map, snake);
        if rows.len() == 0 {
            proof {
                if has_free_cell(map, snake) {
                    let p = choose|p: Pos| p.in_field() && #[trigger] is_free(map, snake, p);
                    assert(row_has_free(map, snake, p.y));
                    assert(rows@.contains(p.y));
                }
            }
            self.pos = Pos { x: 0, y: 0 };
            return;
        }
        let line = random_below(rows.len());
        let y = rows[line];
        let points = free_columns(map, snake, y);
        proof {
            assert(rows@.contains(y));
            assert(row_has_free(map, snake, y));
            let x = choose|x: u16| x < GAME_FIELD_SIZE && #[trigger] is_free(map, snake, Pos { x, y });
            assert(points@.contains(x));
        }
        let point = random_below(points.len());
        let p = pick_free_cell(map, snake, line, point);
        self.pos = p;
        proof {
            assert(has_free_cell(map, snake));
        }
    }
}

/// The cells that a freshly spawned snake covers are those of the spawn strip.
proof fn lemma_spawn_occupies(snake: &Snake)
    requires
        snake.pos == (Pos { x: (SNAKE_SPAWN_POS_X + 2) as u16, y: SNAKE_SPAWN_POS_Y }),
        snake.body@ == seq![
            Pos { x: SNAKE_SPAWN_POS_X, y: SNAKE_SPAWN_POS_Y },
            Pos { x: (SNAKE_SPAWN_POS_X + 1) as u16, y: SNAKE_SPAWN_POS_Y },
        ],
    ensures
        forall|p: Pos| #[trigger] snake.occupies(p) == in_spawn_strip(p),
{
    assert forall|p: Pos| #[trigger] snake.occupies(p) == in_spawn_strip(p) by {
        if in_spawn_strip(p) {
            if p.x == SNAKE_SPAWN_POS_X {
                assert(snake.body@[0] == p);
            } else if p.x == SNAKE_SPAWN_POS_X + 1 {
                assert(snake.body@[1] == p);
            }
        }
        if snake.body@.contains(p) {
            let k = choose|k: int| 0 <= k < snake.body@.len() && snake.body@[k] == p;
        }
    }
}

} // verus!
