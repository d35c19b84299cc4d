use crate::direction::Direction;
use crate::grid::{Cell, Grid, Square, Tint};
use vstd::prelude::*;

verus! {

/// The snake: its body from tail (first) to head (last), the direction it
/// travels in, and the segments to highlight once it has collided.
pub struct Snake {
    pub squares: Vec<Cell>,
    pub current_direction: Direction,
    pub collided_squares: Vec<usize>,
}

/// The body a snake starts with: three cells in a row, the head on the middle
/// cell of the grid and the rest to its left.
pub open spec fn fresh_body(grid: Grid) -> Seq<Cell> {
    let col = grid.column_count() / 2;
    let row = grid.row_count() / 2;
    seq![
        Cell { col: (col - 2) as i32, row: row as i32 },
        Cell { col: (col - 1) as i32, row: row as i32 },
        Cell { col: col as i32, row: row as i32 },
    ]
}

/// The body after one step in direction `d`: the tail cell is given up and
/// the neighbour of the head becomes the new head.
pub open spec fn moved(body: Seq<Cell>, d: Direction) -> Seq<Cell> {
    body.drop_first().push(body.last().shifted(d))
}

/// The unit step that leads from `other` through `own` and beyond.
pub open spec fn away(own: int, other: int) -> int {
    if own < other {
        -1
    } else if own > other {
        1
    } else {
        0
    }
}

/// Column of the cell appended behind `tail`, whose neighbour in the body is
/// `next`.
pub open spec fn behind_col(tail: Cell, next: Cell) -> int {
    if tail.col != next.col && tail.row == next.row {
        tail.col + away(tail.col as int, next.col as int)
    } else {
        tail.col as int
    }
}

/// Row of the cell appended behind `tail`, whose neighbour in the body is
/// `next`.
pub open spec fn behind_row(tail: Cell, next: Cell) -> int {
    if tail.col == next.col {
        tail.row + away(tail.row as int, next.row as int)
    } else {
        tail.row as int
    }
}

/// The cell one step behind `tail`: on the line through `next` and `tail`
/// when the two share a column or a row, and `tail` itself when they share
/// neither or are the same cell.
pub open spec fn behind(tail: Cell, next: Cell) -> Cell {
    Cell { col: behind_col(tail, next) as i32, row: behind_row(tail, next) as i32 }
}

/// The body after growing by one segment at the tail.
pub open spec fn grown(body: Seq<Cell>) -> Seq<Cell> {
    body.insert(0, behind(body[0], body[1]))
}

/// Two different segments of `body` lie on the same cell.
pub open spec fn clash(body: Seq<Cell>, i: int, j: int) -> bool {
    &&& 0 <= i < body.len()
    &&& 0 <= j < body.len()
    &&& i != j
    &&& body[i] == body[j]
}

/// Some two segments of `body` lie on the same cell.
pub open spec fn has_clash(body: Seq<Cell>) -> bool {
    exists|i: int, j: int| clash(body, i, j)
}

/// `(i, j)` is the first clashing pair of `body` when pairs are ordered by
/// their first index and then by their second.
pub open spec fn first_clash(body: Seq<Cell>, i: int, j: int) -> bool {
    &&& clash(body, i, j)
    &&& forall|a: int, b: int| clash(body, a, b) ==> i < a || (i == a && j <= b)
}

/// Some segment of `body` reaches outside the viewport of `grid`.
pub open spec fn has_spill(body: Seq<Cell>, grid: Grid) -> bool {
    exists|i: int| 0 <= i < body.len() && grid.spills(#[trigger] body[i])
}

/// Segment `i` is the first of `body` that reaches outside the viewport.
pub open spec fn first_spill(body: Seq<Cell>, grid: Grid, i: int) -> bool {
    &&& 0 <= i < body.len()
    &&& grid.spills(body[i])
    &&& forall|a: int| 0 <= a < i ==> !grid.spills(#[trigger] body[a])
}

/// The first clashing pair of a body that has one.
pub open spec fn clash_pair(body: Seq<Cell>) -> (int, int) {
    choose|i: int, j: int| first_clash(body, i, j)
}

/// The first segment that reaches outside the viewport, for a body that has
/// one.
pub open spec fn spill_index(body: Seq<Cell>, grid: Grid) -> int {
    choose|i: int| first_spill(body, grid, i)
}

/// The segments to highlight on a body that has collided: the first clashing
/// pair if it runs into itself, else the first segment outside the viewport.
pub open spec fn highlight(body: Seq<Cell>, grid: Grid) -> Seq<usize> {
    if has_clash(body) {
        seq![clash_pair(body).0 as usize, clash_pair(body).1 as usize]
    } else {
        seq![spill_index(body, grid) as usize]
    }
}

/// A body has at most one first clashing pair.
pub proof fn lemma_first_clash_unique(body: Seq<Cell>, i: int, j: int)
    requires
        first_clash(body, i, j),
    ensures
        has_clash(body),
        clash_pair(body) == (i, j),
{
    let (a, b) = clash_pair(body);
    assert(first_clash(body, a, b));
    assert(clash(body, a, b) && clash(body, i, j));
}

/// A body has at most one first segment outside the viewport.
pub proof fn lemma_first_spill_unique(body: Seq<Cell>, grid: Grid, i: int)
    requires
        first_spill(body, grid, i),
    ensures
        has_spill(body, grid),
        spill_index(body, grid) == i,
{
    let a = spill_index(body, grid);
    assert(first_spill(body, grid, a));
    assert(grid.spills(body[a]) && grid.spills(body[i]));
}

/// What is painted for segment `i` of a body: its cell projected to
/// pixels, orange if the segment is marked as collided and green otherwise.
pub open spec fn segment_square(body: Seq<Cell>, marked: Seq<usize>, grid: Grid, i: int) -> Square {
    Square {
        x: grid.left(body[i]) as i64,
        y: grid.top(body[i]) as i64,
        color: if marked.contains(i as usize) {
            Tint::Orange
        } else {
            Tint::Green
        },
    }
}

/// A body runs into itself exactly when it covers fewer distinct cells than
/// it has segments.
pub proof fn lemma_clash_iff_fewer_cells(body: Seq<Cell>)
    ensures
        has_clash(body) <==> body.to_set().len() < body.len(),
{
    body.lemma_cardinality_of_set();
    if body.no_duplicates() {
        body.unique_seq_to_set();
        assert forall|i: int, j: int| !clash(body, i, j) by {}
    } else {
        let (i, j) = choose|i: int, j: int|
            0 <= i < body.len() && 0 <= j < body.len() && i != j && body[i] == body[j];
        assert(clash(body, i, j));
        if body.to_set().len() == body.len() {
            body.lemma_no_dup_set_cardinality();
        }
    }
}

/// Whether `i` is one of the numbers in `list`.
fn listed(list: &Vec<usize>, i: usize) -> (found: bool)
    ensures
        found == list@.contains(i),
{
    let mut k: usize = 0;
    while k < list.len()
        invariant
            k <= list.len(),
            forall|a: int| 0 <= a < k ==> list@[a] != i,
        decreases list.len() - k,
    {
        if list[k] == i {
            return true;
        }
        k += 1;
    }
    false
}

impl Snake {
    /// The operations below read the tail and its neighbour, so a snake
    /// has at least two segments.
    pub open spec fn wf(&self) -> bool {
        self.squares@.len() >= 2
    }

    /// The cell the head is on.
    pub open spec fn head(&self) -> Cell {
        self.squares@.last()
    }

    /// Whether the cell that `grow` appends is representable.
    pub open spec fn can_grow(&self) -> bool {
        let tail = self.squares@[0];
        let next = self.squares@[1];
        &&& i32::MIN <= behind_col(tail, next) <= i32::MAX
        &&& i32::MIN <= behind_row(tail, next) <= i32::MAX
    }

    /// A snake of three segments in the middle of `grid`, heading right.
    pub fn new(grid: &Grid) -> (s: Snake)
        requires
            grid.wf(),
        ensures
            s.squares@ == fresh_body(*grid),
            s.squares@.len() == 3,
            s.current_direction == Direction::Right,
            s.collided_squares@ == Seq::<usize>::empty(),
            s.wf(),
    {
        let col: i32 = grid.columns() / 2;
        let row: i32 = grid.rows() / 2;
        let mut squares: Vec<Cell> = Vec::new();
        squares.push(Cell { col: col - 2, row });
        squares.push(Cell { col: col - 1, row });
        squares.push(Cell { col, row });
        Snake { squares, current_direction: Direction::Right, collided_squares: Vec::new() }
    }

    /// Moves the snake one cell in its current direction. The number of
    /// segments stays the same.
    pub fn move_snake(&mut self)
        requires
            old(self).wf(),
            old(self).head().can_shift(old(self).current_direction),
        ensures
            final(self).squares@ == moved(old(self).squares@, old(self).current_direction),
            final(self).squares@.len() == old(self).squares@.len(),
            final(self).head() == old(self).head().shifted(old(self).current_direction),
            final(self).current_direction == old(self).current_direction,
            final(self).collided_squares@ == old(self).collided_squares@,
            final(self).wf(),
    {
        let last: usize = self.squares.len() - 1;
        let head: Cell = self.squares[last].step(self.current_direction);
        self.squares.remove(0);
        self.squares.push(head);
    }

    /// Whether any segment lies on `col`.
    pub fn collision(&self, col: &Cell) -> (hit: bool)
        ensures
            hit == self.squares@.contains(*col),
    {
        let mut i: usize = 0;
        while i < self.squares.len()
            invariant
                i <= self.squares.len(),
                forall|a: int| 0 <= a < i ==> self.squares@[a] != *col,
            decreases self.squares.len() - i,
        {
            if self.squares[i] == *col {
                return true;
            }
            i += 1;
        }
        false
    }

    /// Looks for two segments on the same cell. If there are any, the first
    /// such pair is remembered for highlighting.
    pub fn snake_collision(&mut self) -> (hit: bool)
        ensures
            hit == has_clash(old(self).squares@),
            hit == (old(self).squares@.to_set().len() < old(self).squares@.len()),
            hit ==> final(self).collided_squares@.len() == 2 && first_clash(
                old(self).squares@,
                final(self).collided_squares@[0] as int,
                final(self).collided_squares@[1] as int,
            ),
            !hit ==> final(self).collided_squares@ == old(self).collided_squares@,
            final(self).squares@ == old(self).squares@,
            final(self).current_direction == old(self).current_direction,
    {
        proof {
            lemma_clash_iff_fewer_cells(self.squares@);
        }
        let n: usize = self.squares.len();
        let mut i: usize = 0;
        while i < n
            invariant
                n == self.squares@.len(),
                i <= n,
                self.squares@ == old(self).squares@,
                self.current_direction == old(self).current_direction,
                self.collided_squares@ == old(self).collided_squares@,
                forall|a: int, b: int| clash(self.squares@, a, b) ==> i <= a,
            decreases n - i,
        {
            let mut j: usize = 0;
            while j < n
                invariant
                    n == self.squares@.len(),
                    i < n,
                    j <= n,
                    self.squares@ == old(self).squares@,
                    self.current_direction == old(self).current_direction,
                    self.collided_squares@ == old(self).collided_squares@,
                    forall|a: int, b: int| clash(self.squares@, a, b) ==> i <= a,
                    forall|b: int| clash(self.squares@, i as int, b) ==> j <= b,
                decreases n - j,
            {
                if i != j && self.squares[i] == self.squares[j] {
                    proof {
                        assert(clash(self.squares@, i as int, j as int));
                        lemma_clash_iff_fewer_cells(self.squares@);
                    }
                    self.collided_squares = vec![i, j];
                    return true;
                }
                j += 1;
            }
            i += 1;
        }
        false
    }

    /// Looks for a segment that reaches outside the viewport of `grid`. If
    /// there is one, the first such segment is remembered for highlighting.
    pub fn wall_collision(&mut self, grid: &Grid) -> (hit: bool)
        requires
            grid.wf(),
        ensures
            hit == has_spill(old(self).squares@, *grid),
            hit ==> final(self).collided_squares@.len() == 1 && first_spill(
                old(self).squares@,
                *grid,
                final(self).collided_squares@[0] as int,
            ),
            !hit ==> final(self).collided_squares@ == old(self).collided_squares@,
            final(self).squares@ == old(self).squares@,
            final(self).current_direction == old(self).current_direction,
    {
        let mut i: usize = 0;
        while i < self.squares.len()
            invariant
                grid.wf(),
                i <= self.squares@.len(),
                self.squares@ == old(self).squares@,
                self.current_direction == old(self).current_direction,
                self.collided_squares@ == old(self).collided_squares@,
                forall|a: int| 0 <= a < i ==> !grid.spills(#[trigger] self.squares@[a]),
            decreases self.squares.len() - i,
        {
            if grid.overflows(self.squares[i]) {
                self.collided_squares = vec![i];
                return true;
            }
            i += 1;
        }
        false
    }

    /// Adds one segment behind the tail.
    pub fn grow(&mut self)
        requires
            old(self).wf(),
            old(self).can_grow(),
        ensures
            final(self).squares@ == grown(old(self).squares@),
            final(self).squares@.len() == old(self).squares@.len() + 1,
            final(self).head() == old(self).head(),
            final(self).current_direction == old(self).current_direction,
            final(self).collided_squares@ == old(self).collided_squares@,
            final(self).wf(),
    {
        let tail: Cell = self.squares[0];
        let next: Cell = self.squares[1];
        let mut col: i32 = tail.col;
        let mut row: i32 = tail.row;
        if tail.col == next.col {
            if tail.row < next.row {
                row = tail.row - 1;
            } else if tail.row > next.row {
                row = tail.row + 1;
            }
        } else if tail.row == next.row {
            if tail.col < next.col {
                col = tail.col - 1;
            } else {
                col = tail.col + 1;
            }
        }
        self.squares.insert(0, Cell { col, row });
    }

    /// The squares to paint for the snake, one per segment from tail to head.
    pub fn draw(&self, grid: &Grid) -> (out: Vec<Square>)
        requires
            grid.wf(),
        ensures
            out@.len() == self.squares@.len(),
            forall|i: int|
                0 <= i < out@.len() ==> #[trigger] out@[i] == segment_square(
                    self.squares@,
                    self.collided_squares@,
                    *grid,
                    i,
                ),
    {
        let mut out: Vec<Square> = Vec::new();
        let mut i: usize = 0;
        while i < self.squares.len()
            invariant
                grid.wf(),
                i <= self.squares@.len(),
                out@.len() == i,
                forall|k: int|
                    0 <= k < i ==> #[trigger] out@[k] == segment_square(
                        self.squares@,
                        self.collided_squares@,
                        *grid,
                        k,
                    ),
            decreases self.squares.len() - i,
        {
            let cell: Cell = self.squares[i];
            let color: Tint = if listed(&self.collided_squares, i) {
                Tint::Orange
            } else {
                Tint::Green
            };
            out.push(Square::new(grid.pixel_x(cell), grid.pixel_y(cell), color));
            i += 1;
        }
        out
    }
}

} // verus!
