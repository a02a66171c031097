//! Food items and their placement on free cells.

use vstd::prelude::*;
use crate::grid::{GRID_WIDTH, GRID_HEIGHT, Position};

verus! {

/// Smallest edge length of a food item.
pub const MIN_FOOD_SIZE: i32 = 1;

/// Largest edge length of a food item.
pub const MAX_FOOD_SIZE: i32 = 3;

/// How many random placements are drawn before the free cells are scanned in order.
pub const RANDOM_DRAWS: u32 = 64;

/// A square of `size` by `size` cells whose top-left cell is `(x, y)`.
#[derive(Clone, Copy, Debug, PartialEq, Eq, Structural)]
pub struct Food {
    pub x: i32,
    pub y: i32,
    pub size: i32,
}

/// True when the footprint of `f` covers cell `p`.
pub open spec fn covers(f: Food, p: Position) -> bool {
    f.x <= p.0 < f.x + f.size && f.y <= p.1 < f.y + f.size
}

/// The size is allowed and the whole footprint lies on the grid.
pub open spec fn food_on_grid(f: Food) -> bool {
    &&& MIN_FOOD_SIZE <= f.size <= MAX_FOOD_SIZE
    &&& 0 <= f.x && f.x + f.size <= GRID_WIDTH
    &&& 0 <= f.y && f.y + f.size <= GRID_HEIGHT
}

/// `f` lies on the grid and covers no cell of `snake`.
pub open spec fn food_fits(snake: Seq<Position>, f: Food) -> bool {
    &&& food_on_grid(f)
    &&& forall|i: int| 0 <= i < snake.len() ==> !covers(f, #[trigger] snake[i])
}

/// Some food item fits beside `snake`.
pub open spec fn room_for_food(snake: Seq<Position>) -> bool {
    exists|f: Food| #[trigger] food_fits(snake, f)
}

/// Segments (and score) gained by eating food of edge length `size`.
pub open spec fn growth_spec(size: i32) -> int {
    if size >= 2 { 3 } else { 1 }
}

impl Food {
    /// Segments (and score) gained by eating this item.
    pub fn growth(&self) -> (r: usize)
        ensures
            r == growth_spec(self.size),
    {
        if self.size >= 2 { 3 } else { 1 }
    }

    /// Items of edge length 2 or more are the large tier.
    pub fn is_large(&self) -> (r: bool)
        ensures
            r == (self.size >= 2),
    {
        self.size >= 2
    }

    /// True when the footprint of this on-grid item covers cell `p`.
    pub fn covers_cell(&self, p: Position) -> (r: bool)
        requires
            food_on_grid(*self),
        ensures
            r == covers(*self, p),
    {
        self.x <= p.0 && p.0 < self.x + self.size && self.y <= p.1 && p.1 < self.y + self.size
    }
}

/// Relies on macroquad::rand::gen_range (quad-rand's global generator): it
/// scales a 32-bit draw from [0, 1) onto [low, high) in f64 and truncates.
/// For `0 <= low < high <= 2^20` that arithmetic is exact enough that the sum
/// cannot round up to `high`, so the result lies in [low, high); for larger
/// bounds it can return `high`.
#[verifier::external_body]
fn random_in(low: i32, high: i32) -> (r: i32)
    requires
        0 <= low < high <= 0x10_0000,
    ensures
        low <= r < high,
{
    macroquad::rand::gen_range(low, high)
}

/// True when food with top-left cell `(x, y)` and edge length `size` lies on the
/// grid and covers no cell of `snake`.
pub fn fits(snake: &Vec<Position>, x: i32, y: i32, size: i32) -> (r: bool)
    ensures
        r == food_fits(snake@, Food { x, y, size }),
{
    if size < MIN_FOOD_SIZE || size > MAX_FOOD_SIZE || x < 0 || y < 0 {
        return false;
    }
    if x > GRID_WIDTH - size || y > GRID_HEIGHT - size {
        return false;
    }
    let f = Food { x, y, size };
    let mut i: usize = 0;
    while i < snake.len()
        invariant
            f == (Food { x, y, size }),
            food_on_grid(f),
            0 <= i <= snake@.len(),
            forall|j: int| 0 <= j < i ==> !covers(f, #[trigger] snake@[j]),
        decreases snake@.len() - i,
    {
        let p = snake[i];
        if f.covers_cell(p) {
            return false;
        }
        i = i + 1;
    }
    true
}

/// True when cell `(a, b)` comes before cell `(x, y)` in row-major order.
pub open spec fn before(a: i32, b: i32, x: i32, y: i32) -> bool {
    b < y || (b == y && a < x)
}

/// `r` is food of edge length 1 on the first cell, in row-major order, where
/// such food fits beside `snake`; `None` exactly when no food of any size fits.
pub open spec fn is_first_free(snake: Seq<Position>, r: Option<Food>) -> bool {
    &&& r is None <==> !room_for_food(snake)
    &&& r matches Some(f) ==> {
        &&& f.size == 1
        &&& food_fits(snake, f)
        &&& forall|a: i32, b: i32| #![trigger food_fits(snake, Food { x: a, y: b, size: 1 })]
            0 <= a < GRID_WIDTH && 0 <= b < GRID_HEIGHT && before(a, b, f.x, f.y)
            ==> !food_fits(snake, Food { x: a, y: b, size: 1 })
    }
}

/// Looks for a free cell in row-major order and returns food of edge length 1
/// on the first one; `None` exactly when no food item of any size fits.
pub fn first_free_cell(snake: &Vec<Position>) -> (r: Option<Food>)
    ensures
        is_first_free(snake@, r),
{
    let mut y: i32 = 0;
    while y < GRID_HEIGHT
        invariant
            0 <= y <= GRID_HEIGHT,
            forall|a: i32, b: i32| 0 <= a < GRID_WIDTH && 0 <= b < y
                ==> !#[trigger] food_fits(snake@, Food { x: a, y: b, size: 1 }),
        decreases GRID_HEIGHT - y,
    {
        let mut x: i32 = 0;
        while x < GRID_WIDTH
            invariant
                0 <= y < GRID_HEIGHT,
                0 <= x <= GRID_WIDTH,
                forall|a: i32, b: i32| 0 <= a < GRID_WIDTH && 0 <= b < y
                    ==> !#[trigger] food_fits(snake@, Food { x: a, y: b, size: 1 }),
                forall|a: i32| 0 <= a < x
                    ==> !#[trigger] food_fits(snake@, Food { x: a, y: y, size: 1 }),
            decreases GRID_WIDTH - x,
        {
            if fits(snake, x, y, 1) {
                return Some(Food { x, y, size: 1 });
            }
            x = x + 1;
        }
        y = y + 1;
    }
    proof {
        if room_for_food(snake@) {
            let f = choose|f: Food| food_fits(snake@, f);
            let g = Food { x: f.x, y: f.y, size: 1 };
            assert forall|i: int| 0 <= i < snake@.len() implies !covers(g, #[trigger] snake@[i]) by {
                assert(!covers(f, snake@[i]));
            }
            assert(food_fits(snake@, g));
        }
    }
    None
}

/// Places new food beside `snake`: a bounded number of random placements
/// (position and size drawn uniformly), then an ordered scan of the free cells,
/// so the search always ends even on a nearly full grid. `None` exactly when
/// no food item of any size fits.
pub fn spawn_food(snake: &Vec<Position>) -> (r: Option<Food>)
    ensures
        r matches Some(f) ==> food_fits(snake@, f),
        r is None <==> !room_for_food(snake@),
{
    let mut draw: u32 = 0;
    while draw < RANDOM_DRAWS
        invariant
            draw <= RANDOM_DRAWS,
        decreases RANDOM_DRAWS - draw,
    {
        let x = random_in(0, GRID_WIDTH);
        let y = random_in(0, GRID_HEIGHT);
        let size = random_in(MIN_FOOD_SIZE, MAX_FOOD_SIZE + 1);
        if fits(snake, x, y, size) {
            return Some(Food { x, y, size });
        }
        draw = draw + 1;
    }
    first_free_cell(snake)
}

} // verus!
