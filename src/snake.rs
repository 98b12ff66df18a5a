use vstd::prelude::*;

use crate::grid::{normalize_pixel, Location, SCALE, SCREEN_HEIGHT, SCREEN_WIDTH};

verus! {

/// The heading that the next movement step applies; `Idle` stands still.
#[derive(Clone, Copy, Debug, PartialEq, Eq, Structural)]
pub enum Direction {
    Idle,
    Up,
    Down,
    Left,
    Right,
}

/// The pixel offset that one step in direction `d` adds to a segment.
pub open spec fn delta(d: Direction) -> (int, int) {
    match d {
        Direction::Idle => (0, 0),
        Direction::Up => (0, -SCALE),
        Direction::Down => (0, SCALE as int),
        Direction::Left => (-SCALE, 0),
        Direction::Right => (SCALE as int, 0),
    }
}

/// Where segment `l` lands after one step in direction `d`.
pub open spec fn stepped(l: Location, d: Direction) -> (int, int) {
    (l.0 + delta(d).0, l.1 + delta(d).1)
}

/// One step of `l` in direction `d` stays within `i32`.
pub open spec fn step_fits(l: Location, d: Direction) -> bool {
    i32::MIN <= stepped(l, d).0 <= i32::MAX && i32::MIN <= stepped(l, d).1 <= i32::MAX
}

/// `segments` after one step in direction `d`: the last segment, moved, comes first.
pub open spec fn advanced(segments: Seq<Location>, d: Direction) -> Seq<Location> {
    seq![Location(stepped(segments.last(), d).0 as i32, stepped(segments.last(), d).1 as i32)]
        + segments.drop_last()
}

/// The snake: its body segments in storage order and its heading.
///
/// Each step takes the last stored segment, moves it one cell and stores it
/// first, so the segment count never changes.
pub struct Snake {
    pub location: Vec<Location>,
    pub direction: Direction,
}

impl Snake {
    /// A snake of one segment at the centre of the screen, standing still.
    pub fn new() -> (r: Snake)
        ensures
            r.location@ == seq![Location(480, 270)],
            r.direction == Direction::Idle,
    {
        Snake {
            location: vec![Location(SCREEN_WIDTH as i32 / 2, SCREEN_HEIGHT as i32 / 2)],
            direction: Direction::Idle,
        }
    }

    /// Moves the last stored segment one cell along the heading and stores it first.
    pub fn move_self(&mut self)
        requires
            old(self).location@.len() > 0,
            step_fits(old(self).location@.last(), old(self).direction),
        ensures
            final(self).direction == old(self).direction,
            final(self).location@.len() == old(self).location@.len(),
            final(self).location@[0].0 == stepped(old(self).location@.last(), old(self).direction).0,
            final(self).location@[0].1 == stepped(old(self).location@.last(), old(self).direction).1,
            final(self).location@.skip(1) == old(self).location@.drop_last(),
            final(self).location@ == advanced(old(self).location@, old(self).direction),
            old(self).location@.len() == 1 ==> {
                &&& final(self).location@.len() == 1
                &&& final(self).location@[0].0 - old(self).location@[0].0 == delta(old(self).direction).0
                &&& final(self).location@[0].1 - old(self).location@[0].1 == delta(old(self).direction).1
            },
    {
        let Location(mut x, mut y) = self.location.pop().unwrap();
        match self.direction {
            Direction::Up => {
                y -= normalize_pixel(1);
            },
            Direction::Down => {
                y += normalize_pixel(1);
            },
            Direction::Left => {
                x -= normalize_pixel(1);
            },
            Direction::Right => {
                x += normalize_pixel(1);
            },
            Direction::Idle => {},
        }
        self.location.insert(0, Location(x, y));
        assert(self.location@.skip(1) =~= old(self).location@.drop_last());
        assert(self.location@ =~= advanced(old(self).location@, old(self).direction));
    }
}

} // verus!
