use vstd::prelude::*;
use crate::geometry::{GAME_FIELD_SIZE, Pos};

verus! {

/// Number of cells of the field.
pub const CELL_COUNT: usize = 400;

/// Where the flag of the cell at column `x`, row `y` is stored.
pub open spec fn cell_index_spec(x: int, y: int) -> int {
    y * 20 + x
}

/// Where the flag of the cell at `p` is stored.
fn cell_index(p: Pos) -> (i: usize)
    requires
        p.in_field(),
    ensures
        i == cell_index_spec(p.x as int, p.y as int),
        i < CELL_COUNT,
{
    assert(p.y * 20 + p.x < 400) by (nonlinear_arith)
        requires
            p.x < 20,
            p.y < 20,
    ;
    p.y as usize * 20 + p.x as usize
}

/// Whether a cell lies on the outer ring of the field.
pub open spec fn is_border(x: int, y: int) -> bool {
    x == 0 || y == 0 || x == GAME_FIELD_SIZE - 1 || y == GAME_FIELD_SIZE - 1
}

/// The wall map: one flag per cell, `true` for a wall, stored row by row.
pub struct Grid {
    cells: Vec<bool>,
}

impl Grid {
    /// The flags, row after row.
    pub closed spec fn view(&self) -> Seq<bool> {
        self.cells@
    }

    pub open spec fn wf(&self) -> bool {
        self@.len() == CELL_COUNT
    }

    /// Whether the cell at column `x`, row `y` is a wall.
    pub open spec fn wall(&self, x: int, y: int) -> bool {
        self@[cell_index_spec(x, y)]
    }

    /// A field with no walls at all.
    pub fn new_open() -> (r: Grid)
        ensures
            r.wf(),
            forall|x: int, y: int|
                0 <= x < GAME_FIELD_SIZE && 0 <= y < GAME_FIELD_SIZE ==> !#[trigger] r.wall(x, y),
    {
        let mut cells: Vec<bool> = Vec::new();
        let mut i: usize = 0;
        while i < CELL_COUNT
            invariant
                i <= CELL_COUNT,
                cells@.len() == i,
                forall|k: int| 0 <= k < i ==> !#[trigger] cells@[k],
            decreases CELL_COUNT - i,
        {
            cells.push(false);
            i = i + 1;
        }
        Grid { cells }
    }

    /// The field with walls on its border and none inside.
    pub fn canonical() -> (r: Grid)
        ensures
            r.wf(),
            forall|x: int, y: int|
                0 <= x < GAME_FIELD_SIZE && 0 <= y < GAME_FIELD_SIZE ==> #[trigger] r.wall(x, y)
                    == is_border(x, y),
    {
        let mut g = Grid::new_open();
        reset_map(&mut g);
        g
    }

    /// Whether the cell at `p` is a wall.
    pub fn is_wall(&self, p: Pos) -> (r: bool)
        requires
            self.wf(),
            p.in_field(),
        ensures
            r == self.wall(p.x as int, p.y as int),
    {
        self.cells[cell_index(p)]
    }

    /// Makes the cell at `p` a wall or open it.
    pub fn set_wall(&mut self, p: Pos, wall: bool)
        requires
            old(self).wf(),
            p.in_field(),
        ensures
            final(self).wf(),
            final(self).wall(p.x as int, p.y as int) == wall,
            forall|x: int, y: int|
                0 <= x < GAME_FIELD_SIZE && 0 <= y < GAME_FIELD_SIZE && (x != p.x || y != p.y)
                    ==> #[trigger] final(self).wall(x, y) == old(self).wall(x, y),
    {
        let i = cell_index(p);
        self.cells.set(i, wall);
    }

    /// The map that a row-per-line text describes: `'1'` marks a wall, any
    /// other character an open cell. Rows and columns past the field are
    /// ignored; missing ones are open.
    pub fn from_rows(rows: &Vec<Vec<char>>) -> (r: Grid)
        ensures
            r.wf(),
            forall|x: int, y: int|
                0 <= x < GAME_FIELD_SIZE && 0 <= y < GAME_FIELD_SIZE ==> #[trigger] r.wall(x, y) == (
                y < rows@.len() && x < rows@[y]@.len() && rows@[y]@[x] == '1'),
    {
        let mut g = Grid::new_open();
        let n = GAME_FIELD_SIZE;
        let mut y: u16 = 0;
        while y < n && (y as usize) < rows.len()
            invariant
                y <= n,
                n == GAME_FIELD_SIZE,
                g.wf(),
                forall|xx: int, yy: int|
                    0 <= xx < n && 0 <= yy < n ==> #[trigger] g.wall(xx, yy) == (yy < y && yy < rows@.len()
                        && xx < rows@[yy]@.len() && rows@[yy]@[xx] == '1'),
            decreases n - y,
        {
            let line = &rows[y as usize];
            let mut x: u16 = 0;
            while x < n && (x as usize) < line.len()
                invariant
                    x <= n,
                    y < n,
                    (y as int) < rows@.len(),
                    *line == rows@[y as int],
                    x as int <= line@.len(),
                    n == GAME_FIELD_SIZE,
                    g.wf(),
                    forall|xx: int, yy: int|
                        0 <= xx < n && 0 <= yy < n ==> #[trigger] g.wall(xx, yy) == ((yy < y && yy < rows@.len()
                            && xx < rows@[yy]@.len() && rows@[yy]@[xx] == '1') || (yy == y && xx < x
                            && rows@[yy]@[xx] == '1')),
                decreases n - x,
            {
                g.set_wall(Pos { x, y }, line[x as usize] == '1');
                x = x + 1;
            }
            assert(x == n || x as int == rows@[y as int]@.len());
            assert forall|xx: int, yy: int| 0 <= xx < n && 0 <= yy < n implies #[trigger] g.wall(xx, yy) == (yy
                < y + 1 && yy < rows@.len() && xx < rows@[yy]@.len() && rows@[yy]@[xx] == '1') by {
                if yy == y {
                    assert(xx < x <==> xx < rows@[yy]@.len());
                }
            }
            y = y + 1;
        }
        g
    }

    /// The map as text: one line per row, `'1'` for a wall and `'0'` for an
    /// open cell, each line ended by a newline.
    pub fn to_text(&self) -> (r: Vec<char>)
        requires
            self.wf(),
        ensures
            r@.len() == GAME_FIELD_SIZE * 21,
            forall|x: int, y: int|
                0 <= x < GAME_FIELD_SIZE && 0 <= y < GAME_FIELD_SIZE ==> r@[y * 21 + x]
                    == if #[trigger] self.wall(x, y) { '1' } else { '0' },
            forall|y: int| 0 <= y < GAME_FIELD_SIZE ==> #[trigger] r@[y * 21 + GAME_FIELD_SIZE] == '\n',
    {
        let n = GAME_FIELD_SIZE;
        let mut out: Vec<char> = Vec::new();
        let mut y: u16 = 0;
        while y < n
            invariant
                y <= n,
                n == GAME_FIELD_SIZE,
                self.wf(),
                out@.len() == y * 21,
                forall|xx: int, yy: int|
                    0 <= xx < n && 0 <= yy < y ==> out@[yy * 21 + xx] == if #[trigger] self.wall(xx, yy) { '1' } else { '0' },
                forall|yy: int| 0 <= yy < y ==> #[trigger] out@[yy * 21 + GAME_FIELD_SIZE] == '\n',
            decreases n - y,
        {
            let mut x: u16 = 0;
            while x < n
                invariant
                    x <= n,
                    y < n,
                    n == GAME_FIELD_SIZE,
                    self.wf(),
                    out@.len() == y * 21 + x,
                    forall|xx: int, yy: int|
                        0 <= xx < n && 0 <= yy < y ==> out@[yy * 21 + xx] == if #[trigger] self.wall(xx, yy) { '1' } else { '0' },
                    forall|yy: int| 0 <= yy < y ==> #[trigger] out@[yy * 21 + GAME_FIELD_SIZE] == '\n',
                    forall|xx: int| 0 <= xx < x ==> out@[y * 21 + xx] == if #[trigger] self.wall(xx, y as int) { '1' } else { '0' },
                decreases n - x,
            {
                let c = if self.is_wall(Pos { x, y }) { '1' } else { '0' };
                out.push(c);
                x = x + 1;
            }
            out.push('\n');
            y = y + 1;
        }
        out
    }

    /// Turns the cell at `p` from wall to open or back.
    pub fn toggle(&mut self, p: Pos)
        requires
            old(self).wf(),
            p.in_field(),
        ensures
            final(self).wf(),
            final(self)@ == toggled(old(self)@, p),
    {
        let i = cell_index(p);
        let v = self.cells[i];
        self.cells.set(i, !v);
    }
}

/// The flags with the one at cell `p` inverted.
pub open spec fn toggled(cells: Seq<bool>, p: Pos) -> Seq<bool> {
    let i = cell_index_spec(p.x as int, p.y as int);
    cells.update(i, !cells[i])
}

/// Toggling a cell twice gives back the map it started from.
pub proof fn lemma_toggle_involution(cells: Seq<bool>, p: Pos)
    requires
        cells.len() == CELL_COUNT,
        p.in_field(),
    ensures
        toggled(toggled(cells, p), p) == cells,
{
    assert(toggled(toggled(cells, p), p) =~= cells);
}

/// Puts walls on every border cell and opens every inside cell.
pub fn reset_map(map: &mut Grid)
    requires
        old(map).wf(),
    ensures
        final(map).wf(),
        forall|x: int, y: int|
            0 <= x < GAME_FIELD_SIZE && 0 <= y < GAME_FIELD_SIZE ==> #[trigger] final(map).wall(x, y)
                == is_border(x, y),
{
    let n = GAME_FIELD_SIZE;
    let mut y: u16 = 0;
    while y < n
        invariant
            y <= n,
            n == GAME_FIELD_SIZE,
            map.wf(),
            forall|xx: int, yy: int|
                0 <= xx < n && 0 <= yy < y ==> #[trigger] map.wall(xx, yy) == is_border(xx, yy),
        decreases n - y,
    {
        let mut x: u16 = 0;
        while x < n
            invariant
                x <= n,
                y < n,
                n == GAME_FIELD_SIZE,
                map.wf(),
                forall|xx: int, yy: int|
                    0 <= xx < n && 0 <= yy < y ==> #[trigger] map.wall(xx, yy) == is_border(xx, yy),
                forall|xx: int| 0 <= xx < x ==> #[trigger] map.wall(xx, y as int) == is_border(xx, y as int),
            decreases n - x,
        {
            let border = x == 0 || y == 0 || x == n - 1 || y == n - 1;
            map.set_wall(Pos { x, y }, border);
            x = x + 1;
        }
        y = y + 1;
    }
}

} // verus!
