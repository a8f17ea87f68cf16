use vstd::prelude::*;

use std::collections::VecDeque;

use crate::point::{in_grid, Point};
use crate::FIELD_CELLS;

verus! {

broadcast use vstd::std_specs::vecdeque::group_vec_dequeue_axioms;

/// How many random cells are tried before the free cells are scanned in order.
pub const MAX_DRAWS: u32 = 64;

/// Every cell of the field is occupied.
pub open spec fn grid_full(occupied: Seq<Point>) -> bool {
    forall|p: Point| in_grid(p) ==> #[trigger] occupied.contains(p)
}

/// `p` is a cell of the field that no entry of `occupied` covers.
pub open spec fn free_cell(occupied: Seq<Point>, p: Point) -> bool {
    in_grid(p) && !occupied.contains(p)
}

/// What food placement may return: a free cell, or nothing when none is left.
pub open spec fn valid_spawn(occupied: Seq<Point>, r: Option<Point>) -> bool {
    match r {
        Some(p) => free_cell(occupied, p),
        None => grid_full(occupied),
    }
}

/// `q` comes before `p` when the field is scanned column by column, each
/// column from the bottom.
pub open spec fn scanned_before(q: Point, p: Point) -> bool {
    q.x < p.x || (q.x == p.x && q.y < p.y)
}

/// Relies on macroquad::rand::gen_range (quad-rand's global generator): for an
/// integer type it returns `low + (high - low) * u` truncated, with `u` drawn
/// from [0, 1), hence a value in [0, high) when `low` is 0 and `high` positive.
#[verifier::external_body]
fn random_below(high: i32) -> (r: i32)
    requires
        0 < high,
    ensures
        0 <= r < high,
{
    macroquad::rand::gen_range(0, high)
}

/// Whether no entry of `occupied` equals `p`.
pub fn is_free(occupied: &VecDeque<Point>, p: Point) -> (r: bool)
    ensures
        r == !occupied@.contains(p),
{
    let n = occupied.len();
    let mut i: usize = 0;
    while i < n
        invariant
            0 <= i <= n,
            n == occupied@.len(),
            forall|j: int| 0 <= j < i ==> #[trigger] occupied@[j] != p,
        decreases n - i,
    {
        if occupied[i] == p {
            return false;
        }
        i = i + 1;
    }
    true
}

/// The position of the first of `draws` that is a free cell, or `None` when
/// none is.
pub fn first_free_draw(occupied: &VecDeque<Point>, draws: &Vec<Point>) -> (r: Option<usize>)
    ensures
        r matches Some(k) ==> k < draws@.len() && free_cell(occupied@, draws@[k as int]) && forall|
            j: int,
        | 0 <= j < k ==> !free_cell(occupied@, #[trigger] draws@[j]),
        r is None ==> forall|j: int|
            0 <= j < draws@.len() ==> !free_cell(occupied@, #[trigger] draws@[j]),
{
    let n = draws.len();
    let mut k: usize = 0;
    while k < n
        invariant
            0 <= k <= n,
            n == draws@.len(),
            forall|j: int| 0 <= j < k ==> !free_cell(occupied@, #[trigger] draws@[j]),
        decreases n - k,
    {
        if draws[k].on_field() && is_free(occupied, draws[k]) {
            return Some(k);
        }
        k = k + 1;
    }
    None
}

/// Every free cell of the field, each once, in scan order.
pub fn free_cells(occupied: &VecDeque<Point>) -> (r: Vec<Point>)
    ensures
        forall|p: Point| #[trigger] r@.contains(p) <==> free_cell(occupied@, p),
        forall|i: int, j: int|
            0 <= i < j < r@.len() ==> scanned_before(#[trigger] r@[i], #[trigger] r@[j]),
        r@.len() <= FIELD_CELLS * FIELD_CELLS,
{
    let mut r: Vec<Point> = Vec::new();
    let mut x: i32 = 0;
    while x < FIELD_CELLS
        invariant
            0 <= x <= FIELD_CELLS,
            r@.len() <= x * FIELD_CELLS,
            forall|i: int|
                0 <= i < r@.len() ==> free_cell(occupied@, #[trigger] r@[i]) && r@[i].x < x,
            forall|p: Point| free_cell(occupied@, p) && p.x < x ==> #[trigger] r@.contains(p),
            forall|i: int, j: int|
                0 <= i < j < r@.len() ==> scanned_before(#[trigger] r@[i], #[trigger] r@[j]),
        decreases FIELD_CELLS - x,
    {
        let mut y: i32 = 0;
        while y < FIELD_CELLS
            invariant
                0 <= x < FIELD_CELLS,
                0 <= y <= FIELD_CELLS,
                r@.len() <= x * FIELD_CELLS + y,
                forall|i: int|
                    0 <= i < r@.len() ==> free_cell(occupied@, #[trigger] r@[i]) && scanned_before(
                        r@[i],
                        Point { x, y },
                    ),
                forall|p: Point|
                    free_cell(occupied@, p) && scanned_before(p, Point { x, y })
                        ==> #[trigger] r@.contains(p),
                forall|i: int, j: int|
                    0 <= i < j < r@.len() ==> scanned_before(#[trigger] r@[i], #[trigger] r@[j]),
            decreases FIELD_CELLS - y,
        {
            let p = Point::new(x, y);
            let ghost before = r@;
            if is_free(occupied, p) {
                r.push(p);
                proof {
                    assert forall|q: Point|
                        free_cell(occupied@, q) && scanned_before(
                            q,
                            Point { x, y: (y + 1) as i32 },
                        ) implies #[trigger] r@.contains(q) by {
                        if q == p {
                            assert(r@[r@.len() - 1] == p);
                        } else {
                            assert(scanned_before(q, Point { x, y }));
                            assert(before.contains(q));
                            let i = choose|i: int| 0 <= i < before.len() && before[i] == q;
                            assert(r@[i] == q);
                        }
                    }
                }
            } else {
                proof {
                    assert forall|q: Point|
                        free_cell(occupied@, q) && scanned_before(
                            q,
                            Point { x, y: (y + 1) as i32 },
                        ) implies #[trigger] r@.contains(q) by {
                        if q != p {
                            assert(scanned_before(q, Point { x, y }));
                        }
                    }
                }
            }
            y = y + 1;
        }
        proof {
            assert forall|i: int| 0 <= i < r@.len() implies #[trigger] r@[i].x < x + 1 by {
                assert(scanned_before(r@[i], Point { x, y }));
            }
            assert forall|p: Point| free_cell(occupied@, p) && p.x < x + 1 implies #[trigger] r@.contains(
                p,
            ) by {
                assert(scanned_before(p, Point { x, y }));
            }
        }
        x = x + 1;
    }
    r
}

/// Picks a random free cell for the food. `MAX_DRAWS` random cells are drawn
/// and the first free one is taken; when all of them are occupied, a cell is
/// drawn at random among the free ones. `None` when every cell is occupied.
pub fn spawn_apple(occupied: &VecDeque<Point>) -> (r: Option<Point>)
    ensures
        valid_spawn(occupied@, r),
{
    let mut draws: Vec<Point> = Vec::new();
    let mut tries: u32 = 0;
    while tries < MAX_DRAWS
        invariant
            tries <= MAX_DRAWS,
        decreases MAX_DRAWS - tries,
    {
        let apple_x = random_below(FIELD_CELLS);
        let apple_y = random_below(FIELD_CELLS);
        draws.push(Point::new(apple_x, apple_y));
        tries = tries + 1;
    }
    if let Some(k) = first_free_draw(occupied, &draws) {
        return Some(draws[k]);
    }
    let free = free_cells(occupied);
    if free.len() == 0 {
        proof {
            assert forall|p: Point| in_grid(p) implies #[trigger] occupied@.contains(p) by {
                if !occupied@.contains(p) {
                    assert(free@.contains(p));
                }
            }
        }
        return None;
    }
    let k = random_below(free.len() as i32);
    proof {
        assert(free@.contains(free@[k as int]));
    }
    Some(free[k as usize])
}

/// Food placement never lands on an occupied cell, and when exactly one cell
/// of the field is free it lands there.
pub proof fn lemma_spawn_lands_on_free_cell(occupied: Seq<Point>, free: Point, r: Option<Point>)
    requires
        valid_spawn(occupied, r),
        free_cell(occupied, free),
        forall|p: Point| in_grid(p) && p != free ==> #[trigger] occupied.contains(p),
    ensures
        r matches Some(p) && !occupied.contains(p),
        r == Some(free),
{
}

} // verus!
