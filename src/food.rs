use vstd::prelude::*;

use rand::Rng;

use crate::grid::Location;

verus! {

/// How many random cells placement draws before it falls back to a scan.
pub const SPAWN_ATTEMPTS: u32 = 100;

/// The food item: a single position.
pub struct Food {
    pub location: Location,
}

impl Food {
    /// Food parked off screen until it is placed.
    pub fn new() -> (r: Food)
        ensures
            r.location == Location(-10i32, -10i32),
    {
        Food { location: Location(-10, -10) }
    }
}

/// Some segment of `segments` stands exactly on `l`.
pub open spec fn occupied(segments: Seq<Location>, l: Location) -> bool {
    exists|i: int| 0 <= i < segments.len() && segments[i] == l
}

/// `l` is a cell of a grid `cols` wide and `rows` high (grid units, origin at 0).
pub open spec fn in_grid(l: Location, cols: int, rows: int) -> bool {
    0 <= l.0 < cols && 0 <= l.1 < rows
}

/// Every cell of the grid is taken by some segment.
pub open spec fn grid_full(segments: Seq<Location>, cols: int, rows: int) -> bool {
    forall|l: Location| #[trigger] in_grid(l, cols, rows) ==> occupied(segments, l)
}

/// `a` comes before `b` when the grid is read row by row.
pub open spec fn before(a: Location, b: Location) -> bool {
    a.1 < b.1 || (a.1 == b.1 && a.0 < b.0)
}

/// Tells whether `location` equals one of `segments`.
pub fn overlaps(segments: &Vec<Location>, location: &Location) -> (r: bool)
    ensures
        r == occupied(segments@, *location),
{
    let mut i: usize = 0;
    while i < segments.len()
        invariant
            0 <= i <= segments@.len(),
            forall|j: int| 0 <= j < i ==> segments@[j] != *location,
        decreases segments@.len() - i,
    {
        if segments[i] == *location {
            return true;
        }
        i += 1;
    }
    false
}

/// The first cell, row by row, that no segment takes; `None` when the grid is full.
pub fn first_free_cell(cols: i32, rows: i32, segments: &Vec<Location>) -> (r: Option<Location>)
    ensures
        match r {
            Some(l) => {
                &&& in_grid(l, cols as int, rows as int)
                &&& !occupied(segments@, l)
                &&& forall|c: Location|
                    #[trigger] in_grid(c, cols as int, rows as int) && before(c, l) ==> occupied(segments@, c)
            },
            None => grid_full(segments@, cols as int, rows as int),
        },
{
    let mut y: i32 = 0;
    while y < rows
        invariant
            0 <= y,
            rows <= 0 ==> y == 0,
            rows > 0 ==> y <= rows,
            forall|c: Location| #[trigger] in_grid(c, cols as int, rows as int) && c.1 < y ==> occupied(segments@, c),
        decreases rows - y,
    {
        let mut x: i32 = 0;
        while x < cols
            invariant
                0 <= y < rows,
                0 <= x,
                cols <= 0 ==> x == 0,
                cols > 0 ==> x <= cols,
                forall|c: Location| #[trigger] in_grid(c, cols as int, rows as int) && (c.1 < y || (c.1 == y && c.0 < x)) ==> occupied(segments@, c),
            decreases cols - x,
        {
            let candidate = Location(x, y);
            if !overlaps(segments, &candidate) {
                return Some(candidate);
            }
            x += 1;
        }
        y += 1;
    }
    None
}

/// Relies on rand::thread_rng and rand::Rng::gen_range: a number drawn from
/// `0..bound`; gen_range panics on an empty range.
#[verifier::external_body]
fn random_below(bound: i32) -> (r: i32)
    requires
        bound > 0,
    ensures
        0 <= r < bound,
{
    rand::thread_rng().gen_range(0..bound)
}

/// A free cell of a grid `cols` wide and `rows` high for the food.
///
/// Draws up to `SPAWN_ATTEMPTS` cells at random and keeps the first that no
/// segment takes; after that it takes the first free cell row by row. `None`
/// exactly when every cell is taken.
pub fn spawn_location(cols: i32, rows: i32, segments: &Vec<Location>) -> (r: Option<Location>)
    ensures
        match r {
            Some(l) => in_grid(l, cols as int, rows as int) && !occupied(segments@, l),
            None => grid_full(segments@, cols as int, rows as int),
        },
{
    if cols <= 0 || rows <= 0 {
        return None;
    }
    let mut attempt: u32 = 0;
    while attempt < SPAWN_ATTEMPTS
        invariant
            cols > 0,
            rows > 0,
        decreases SPAWN_ATTEMPTS - attempt,
    {
        let candidate = Location(random_below(cols), random_below(rows));
        if !overlaps(segments, &candidate) {
            return Some(candidate);
        }
        attempt += 1;
    }
    first_free_cell(cols, rows, segments)
}

} // verus!
