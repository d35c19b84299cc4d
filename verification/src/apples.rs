use crate::grid::{Cell, Grid, Square, Tint};
use crate::snake::Snake;
use vstd::prelude::*;

verus! {

/// The food on the field, in the order it was placed, and the grid it is
/// placed on.
pub struct Apples {
    pub apples: Vec<Cell>,
    pub grid: Grid,
}

/// Food item `i` is the first that lies under a segment of `body`.
pub open spec fn first_eaten(food: Seq<Cell>, body: Seq<Cell>, i: int) -> bool {
    &&& 0 <= i < food.len()
    &&& body.contains(food[i])
    &&& forall|k: int| 0 <= k < i ==> !body.contains(#[trigger] food[k])
}

/// Some food item lies under a segment of `body`.
pub open spec fn any_eaten(food: Seq<Cell>, body: Seq<Cell>) -> bool {
    exists|i: int| 0 <= i < food.len() && body.contains(#[trigger] food[i])
}

/// The first food item that lies under a segment of `body`, when there is
/// one.
pub open spec fn eaten_index(food: Seq<Cell>, body: Seq<Cell>) -> int {
    choose|i: int| first_eaten(food, body, i)
}

/// There is at most one first eaten item.
pub proof fn lemma_first_eaten_unique(food: Seq<Cell>, body: Seq<Cell>, i: int)
    requires
        first_eaten(food, body, i),
    ensures
        any_eaten(food, body),
        eaten_index(food, body) == i,
{
    let a = eaten_index(food, body);
    assert(first_eaten(food, body, a));
    assert(body.contains(food[a]) && body.contains(food[i]));
}

/// Where some food is eaten, there is a first eaten item.
pub proof fn lemma_first_eaten_exists(food: Seq<Cell>, body: Seq<Cell>)
    requires
        any_eaten(food, body),
    ensures
        first_eaten(food, body, eaten_index(food, body)),
{
    let k = choose|i: int| 0 <= i < food.len() && body.contains(#[trigger] food[i]);
    let m = lemma_least_eaten(food, body, k);
    assert(first_eaten(food, body, m));
}

/// Below any eaten item there is a first one.
proof fn lemma_least_eaten(food: Seq<Cell>, body: Seq<Cell>, n: int) -> (m: int)
    requires
        0 <= n < food.len(),
        body.contains(food[n]),
    ensures
        0 <= m <= n,
        body.contains(food[m]),
        forall|k: int| 0 <= k < m ==> !body.contains(#[trigger] food[k]),
    decreases n,
{
    if exists|k: int| 0 <= k < n && body.contains(#[trigger] food[k]) {
        let k = choose|k: int| 0 <= k < n && body.contains(#[trigger] food[k]);
        lemma_least_eaten(food, body, k)
    } else {
        n
    }
}

/// What is painted for a food item: its cell projected to pixels, in red.
pub open spec fn food_square(grid: Grid, cell: Cell) -> Square {
    Square { x: grid.left(cell) as i64, y: grid.top(cell) as i64, color: Tint::Red }
}

/// Draws a whole number from the global generator of the `macroquad` crate,
/// by `macroquad::rand::gen_range(0, bound)`.
///
/// Trusted, not proved: the generator scales a fraction that is at least 0
/// and less than 1 by `bound` and cuts off what is behind the point, so for a
/// positive `bound` the number is at least 0 and less than `bound`. Nothing is
/// claimed for other bounds, and nothing of which number is drawn.
#[verifier::external_body]
fn random_below(bound: i32) -> (r: i32)
    ensures
        bound > 0 ==> 0 <= r < bound,
{
    macroquad::rand::gen_range(0, bound)
}

impl Apples {
    /// No food yet, on `grid`.
    pub fn new(grid: Grid) -> (a: Apples)
        ensures
            a.apples@ == Seq::<Cell>::empty(),
            a.grid == grid,
    {
        Apples { apples: Vec::new(), grid }
    }

    /// Puts one more food item on `cell`. Nothing is checked: the cell may
    /// already hold food or lie under the snake.
    pub fn place(&mut self, cell: Cell)
        ensures
            final(self).apples@ == old(self).apples@.push(cell),
            final(self).grid == old(self).grid,
    {
        self.apples.push(cell);
    }

    /// Puts one more food item on a cell drawn at random: the column first,
    /// then the row. The first cell drawn is taken.
    pub fn random(&mut self)
        requires
            old(self).grid.wf(),
        ensures
            exists|cell: Cell| #[trigger]
                old(self).grid.admits(cell) && final(self).apples@ == old(self).apples@.push(cell),
            final(self).apples@.len() == old(self).apples@.len() + 1,
            final(self).grid == old(self).grid,
    {
        let col: i32 = random_below(self.grid.columns());
        let row: i32 = random_below(self.grid.rows());
        let cell = Cell { col, row };
        assert(self.grid.admits(cell));
        self.place(cell);
    }

    /// The first food item that lies under the snake, if any does.
    pub fn eaten_by(&self, snake: &Snake) -> (found: Option<usize>)
        ensures
            match found {
                Some(i) => first_eaten(self.apples@, snake.squares@, i as int),
                None => !any_eaten(self.apples@, snake.squares@),
            },
    {
        let mut i: usize = 0;
        while i < self.apples.len()
            invariant
                i <= self.apples@.len(),
                forall|k: int| 0 <= k < i ==> !snake.squares@.contains(#[trigger] self.apples@[k]),
            decreases self.apples.len() - i,
        {
            if snake.collision(&self.apples[i]) {
                return Some(i);
            }
            i += 1;
        }
        None
    }

    /// The squares to paint for the food, one per item in the order placed.
    pub fn draw(&self) -> (out: Vec<Square>)
        requires
            self.grid.wf(),
        ensures
            out@.len() == self.apples@.len(),
            forall|i: int|
                0 <= i < out@.len() ==> #[trigger] out@[i] == food_square(self.grid, self.apples@[i]),
    {
        let mut out: Vec<Square> = Vec::new();
        let mut i: usize = 0;
        while i < self.apples.len()
            invariant
                self.grid.wf(),
                i <= self.apples@.len(),
                out@.len() == i,
                forall|k: int|
                    0 <= k < i ==> #[trigger] out@[k] == food_square(self.grid, self.apples@[k]),
            decreases self.apples.len() - i,
        {
            let cell: Cell = self.apples[i];
            out.push(Square::new(self.grid.pixel_x(cell), self.grid.pixel_y(cell), Tint::Red));
            i += 1;
        }
        out
    }
}

} // verus!
