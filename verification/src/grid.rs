use crate::direction::Direction;
use vstd::arithmetic::div_mod::{lemma_fundamental_div_mod, lemma_mod_pos_bound};
use vstd::prelude::*;

verus! {

/// One position of the playing field, counted in whole cells from the
/// top-left cell of the grid. Cells outside the field are representable: that
/// is how a snake that left the field is told apart.
#[derive(Clone, Copy, Debug, PartialEq, Eq, Structural)]
pub struct Cell {
    pub col: i32,
    pub row: i32,
}

/// The colours the game paints cells in.
#[derive(Clone, Copy, Debug, PartialEq, Eq, Structural)]
pub enum Tint {
    /// An ordinary segment of the snake.
    Green,
    /// A piece of food.
    Red,
    /// A segment involved in the collision that ended the game.
    Orange,
}

/// A filled square to paint: the pixel position of its top-left corner and
/// its colour. Its side is the cell size of the grid it was projected with.
#[derive(Clone, Copy, Debug, PartialEq, Eq, Structural)]
pub struct Square {
    pub x: i64,
    pub y: i64,
    pub color: Tint,
}

/// A viewport of `width` by `height` pixels cut into square cells of
/// `cell_size` pixels. What does not fill a whole cell is split evenly into a
/// margin on both sides, which centres the grid in the viewport.
#[derive(Clone, Copy, Debug, PartialEq, Eq, Structural)]
pub struct Grid {
    pub width: i32,
    pub height: i32,
    pub cell_size: i32,
}

impl Cell {
    /// Whether the neighbour in direction `d` has coordinates that fit the
    /// cell's integer type.
    pub open spec fn can_shift(self, d: Direction) -> bool {
        &&& i32::MIN <= self.col + d.dx() <= i32::MAX
        &&& i32::MIN <= self.row + d.dy() <= i32::MAX
    }

    /// The neighbouring cell one step in direction `d`.
    pub open spec fn shifted(self, d: Direction) -> Cell {
        Cell { col: (self.col + d.dx()) as i32, row: (self.row + d.dy()) as i32 }
    }

    /// Whether all eight surrounding cells are representable.
    pub open spec fn has_room(self) -> bool {
        &&& i32::MIN < self.col < i32::MAX
        &&& i32::MIN < self.row < i32::MAX
    }

    /// The neighbouring cell one step in direction `d`.
    pub fn step(self, d: Direction) -> (c: Cell)
        requires
            self.can_shift(d),
        ensures
            c == self.shifted(d),
            c.col == self.col + d.dx(),
            c.row == self.row + d.dy(),
    {
        let (dx, dy) = d.offset();
        Cell { col: self.col + dx, row: self.row + dy }
    }
}

impl Square {
    /// A square with its top-left corner at pixel `(x, y)`.
    pub fn new(x: i64, y: i64, color: Tint) -> (s: Square)
        ensures
            s == (Square { x, y, color }),
    {
        Square { x, y, color }
    }
}

/// On one axis of a grid: a cell's leading edge lies before the viewport
/// exactly when its index is negative, and its trailing edge lies beyond the
/// viewport exactly when its index is at least the number of whole cells.
proof fn lemma_axis_edges(extent: int, size: int, k: int)
    requires
        extent >= 0,
        size > 0,
    ensures
        (extent % size) / 2 + k * size < 0 <==> k < 0,
        (extent % size) / 2 + k * size + size > extent <==> k >= extent / size,
{
    let q = extent / size;
    let r = extent % size;
    lemma_fundamental_div_mod(extent, size);
    lemma_mod_pos_bound(extent, size);
    assert(extent == q * size + r) by (nonlinear_arith)
        requires
            extent == size * q + r,
    ;
    assert(k < 0 ==> k * size <= -size) by (nonlinear_arith)
        requires
            size > 0,
    ;
    assert(k >= 0 ==> k * size >= 0) by (nonlinear_arith)
        requires
            size > 0,
    ;
    assert(k >= q ==> k * size >= q * size) by (nonlinear_arith)
        requires
            size > 0,
    ;
    assert(k < q ==> k * size + size <= q * size) by (nonlinear_arith)
        requires
            size > 0,
    ;
}

impl Grid {
    /// A grid is usable when its viewport is not negative and its cells have
    /// a positive size.
    pub open spec fn wf(&self) -> bool {
        &&& self.width >= 0
        &&& self.height >= 0
        &&& self.cell_size > 0
    }

    /// Number of whole cells that fit across the viewport.
    pub open spec fn column_count(&self) -> int {
        self.width as int / self.cell_size as int
    }

    /// Number of whole cells that fit down the viewport.
    pub open spec fn row_count(&self) -> int {
        self.height as int / self.cell_size as int
    }

    /// Pixels left of the first column: half of what the columns leave over.
    pub open spec fn margin_x(&self) -> int {
        (self.width as int % self.cell_size as int) / 2
    }

    /// Pixels above the first row: half of what the rows leave over.
    pub open spec fn margin_y(&self) -> int {
        (self.height as int % self.cell_size as int) / 2
    }

    /// Pixel column of the left edge of `c`.
    pub open spec fn left(&self, c: Cell) -> int {
        self.margin_x() + c.col * self.cell_size
    }

    /// Pixel row of the top edge of `c`.
    pub open spec fn top(&self, c: Cell) -> int {
        self.margin_y() + c.row * self.cell_size
    }

    /// Whether the pixel square of `c` reaches outside the viewport
    /// `[0, width) x [0, height)`.
    pub open spec fn spills(&self, c: Cell) -> bool {
        ||| self.left(c) < 0
        ||| self.top(c) < 0
        ||| self.top(c) + self.cell_size > self.height
        ||| self.left(c) + self.cell_size > self.width
    }

    /// Whether `c` is one of the cells of the grid.
    pub open spec fn contains(&self, c: Cell) -> bool {
        &&& 0 <= c.col < self.column_count()
        &&& 0 <= c.row < self.row_count()
    }

    /// What is known of a cell drawn at random for this grid: on every axis
    /// along which the grid has at least one cell, it lies inside.
    pub open spec fn admits(&self, c: Cell) -> bool {
        &&& self.column_count() > 0 ==> 0 <= c.col < self.column_count()
        &&& self.row_count() > 0 ==> 0 <= c.row < self.row_count()
    }

    /// The grid of a viewport of `width` by `height` pixels with cells of
    /// `cell_size` pixels.
    pub fn new(width: i32, height: i32, cell_size: i32) -> (g: Grid)
        requires
            width >= 0,
            height >= 0,
            cell_size > 0,
        ensures
            g == (Grid { width, height, cell_size }),
            g.wf(),
    {
        Grid { width, height, cell_size }
    }

    /// Number of whole cells that fit across the viewport.
    pub fn columns(&self) -> (n: i32)
        requires
            self.wf(),
        ensures
            n == self.column_count(),
            0 <= n <= self.width,
    {
        proof {
            lemma_axis_cells(self.width as int, self.cell_size as int);
        }
        self.width / self.cell_size
    }

    /// Number of whole cells that fit down the viewport.
    pub fn rows(&self) -> (n: i32)
        requires
            self.wf(),
        ensures
            n == self.row_count(),
            0 <= n <= self.height,
    {
        proof {
            lemma_axis_cells(self.height as int, self.cell_size as int);
        }
        self.height / self.cell_size
    }

    /// Pixels left of the first column.
    pub fn offset_x(&self) -> (m: i32)
        requires
            self.wf(),
        ensures
            m == self.margin_x(),
            0 <= m < self.cell_size,
    {
        proof {
            lemma_mod_pos_bound(self.width as int, self.cell_size as int);
        }
        (self.width % self.cell_size) / 2
    }

    /// Pixels above the first row.
    pub fn offset_y(&self) -> (m: i32)
        requires
            self.wf(),
        ensures
            m == self.margin_y(),
            0 <= m < self.cell_size,
    {
        proof {
            lemma_mod_pos_bound(self.height as int, self.cell_size as int);
        }
        (self.height % self.cell_size) / 2
    }

    /// Pixel column of the left edge of `c`.
    pub fn pixel_x(&self, c: Cell) -> (x: i64)
        requires
            self.wf(),
        ensures
            x == self.left(c),
            -0x4000_0000_0000_0000 <= x < 0x4000_0000_8000_0000,
    {
        let margin: i64 = self.offset_x() as i64;
        project(margin, c.col, self.cell_size)
    }

    /// Pixel row of the top edge of `c`.
    pub fn pixel_y(&self, c: Cell) -> (y: i64)
        requires
            self.wf(),
        ensures
            y == self.top(c),
            -0x4000_0000_0000_0000 <= y < 0x4000_0000_8000_0000,
    {
        let margin: i64 = self.offset_y() as i64;
        project(margin, c.row, self.cell_size)
    }

    /// Tests whether the pixel square of `c` reaches outside the viewport.
    pub fn overflows(&self, c: Cell) -> (b: bool)
        requires
            self.wf(),
        ensures
            b == self.spills(c),
            b == !self.contains(c),
    {
        proof {
            self.lemma_spills_iff_outside(c);
        }
        let x: i64 = self.pixel_x(c);
        let y: i64 = self.pixel_y(c);
        let size: i64 = self.cell_size as i64;
        x < 0 || y < 0 || y + size > self.height as i64 || x + size > self.width as i64
    }

    /// A cell's pixel square stays inside the viewport exactly when the cell
    /// is one of the `column_count() x row_count()` cells of the grid.
    pub proof fn lemma_spills_iff_outside(&self, c: Cell)
        requires
            self.wf(),
        ensures
            self.spills(c) <==> !self.contains(c),
    {
        lemma_axis_edges(self.width as int, self.cell_size as int, c.col as int);
        lemma_axis_edges(self.height as int, self.cell_size as int, c.row as int);
    }

    /// The grid is centred in the viewport: the columns with a margin on
    /// both sides fill the width but for at most one pixel, the rows with a
    /// margin above and below fill the height but for at most one pixel, and
    /// no margin has room for another cell.
    pub proof fn lemma_grid_fits(&self)
        requires
            self.wf(),
        ensures
            0 <= self.column_count() <= self.width,
            0 <= self.row_count() <= self.height,
            0 <= self.margin_x() && 2 * self.margin_x() < self.cell_size,
            0 <= self.margin_y() && 2 * self.margin_y() < self.cell_size,
            0 <= self.width - (2 * self.margin_x() + self.column_count() * self.cell_size) <= 1,
            0 <= self.height - (2 * self.margin_y() + self.row_count() * self.cell_size) <= 1,
    {
        let s = self.cell_size as int;
        lemma_axis_cells(self.width as int, s);
        lemma_axis_cells(self.height as int, s);
        lemma_mod_pos_bound(self.width as int, s);
        lemma_mod_pos_bound(self.height as int, s);
        lemma_fundamental_div_mod(self.width as int, s);
        lemma_fundamental_div_mod(self.height as int, s);
        assert(self.column_count() * s == s * self.column_count()) by (nonlinear_arith);
        assert(self.row_count() * s == s * self.row_count()) by (nonlinear_arith);
    }
}

/// The number of whole cells along an axis is between zero and the extent.
proof fn lemma_axis_cells(extent: int, size: int)
    requires
        extent >= 0,
        size > 0,
    ensures
        0 <= extent / size <= extent,
{
    let q = extent / size;
    lemma_fundamental_div_mod(extent, size);
    lemma_mod_pos_bound(extent, size);
    assert(q >= 0 && q <= extent) by (nonlinear_arith)
        requires
            extent == size * q + extent % size,
            0 <= extent % size < size,
            size > 0,
            extent >= 0,
    ;
}

/// `margin + index * size`, the pixel edge of the cell with that index.
fn project(margin: i64, index: i32, size: i32) -> (p: i64)
    requires
        0 <= margin < size,
    ensures
        p == margin + index * size,
        -0x4000_0000_0000_0000 <= p < 0x4000_0000_8000_0000,
{
    let k: i64 = index as i64;
    let s: i64 = size as i64;
    assert(-0x4000_0000_0000_0000 <= k * s <= 0x4000_0000_0000_0000) by (nonlinear_arith)
        requires
            -0x8000_0000 <= k <= 0x7fff_ffff,
            0 < s <= 0x7fff_ffff,
    ;
    margin + k * s
}

} // verus!
