use vstd::prelude::*;

use crate::food::{grid_full, in_grid, occupied, overlaps, spawn_location, Food};
use crate::grid::{Location, SCALE};
use crate::snake::{advanced, step_fits, Direction, Snake};

verus! {

/// Length of one logical tick, in microseconds (20 ticks a second).
pub const TICK_WINDOW: u64 = 50_000;

/// Width of the food grid in cells: the screen width over the scale.
pub const GRID_COLS: i32 = 96;

/// Height of the food grid in cells: the screen height over the scale.
pub const GRID_ROWS: i32 = 54;

/// The keys that steer the snake; every other key is `Other`.
#[derive(Clone, Copy, Debug, PartialEq, Eq, Structural)]
pub enum Key {
    W,
    A,
    S,
    D,
    Space,
    Other,
}

/// The heading a key press selects; `None` for a key that steers nothing.
pub open spec fn heading_for(key: Key) -> Option<Direction> {
    match key {
        Key::W => Some(Direction::Up),
        Key::S => Some(Direction::Down),
        Key::A => Some(Direction::Left),
        Key::D => Some(Direction::Right),
        Key::Space => Some(Direction::Idle),
        Key::Other => None,
    }
}

/// One update of the accumulator `acc` by `dt` against a tick of length `window`:
/// the new accumulator and whether a movement step is due.
pub open spec fn after_update(acc: int, dt: int, window: int) -> (int, bool) {
    if acc + dt >= window {
        (acc + dt - window, true)
    } else {
        (acc + dt, false)
    }
}

/// The accumulator and the number of movement steps after updates by each of
/// `dts` in turn, starting from `acc`.
pub open spec fn run_updates(acc: int, dts: Seq<int>, window: int) -> (int, nat)
    decreases dts.len(),
{
    if dts.len() == 0 {
        (acc, 0)
    } else {
        let first = after_update(acc, dts[0], window);
        let rest = run_updates(first.0, dts.skip(1), window);
        (rest.0, rest.1 + if first.1 { 1nat } else { 0nat })
    }
}

/// The sum of `dts`.
pub open spec fn total(dts: Seq<int>) -> int
    decreases dts.len(),
{
    if dts.len() == 0 {
        0
    } else {
        dts[0] + total(dts.skip(1))
    }
}

/// Updates whose durations add up to less than what is left of the tick move
/// nothing, and leave the accumulator at the sum.
pub proof fn lemma_short_updates_do_not_move(acc: int, dts: Seq<int>, window: int)
    requires
        0 <= acc,
        forall|i: int| 0 <= i < dts.len() ==> dts[i] >= 0,
        acc + total(dts) < window,
    ensures
        run_updates(acc, dts, window) == (acc + total(dts), 0nat),
    decreases dts.len(),
{
    if dts.len() > 0 {
        lemma_total_nonnegative(dts.skip(1));
        lemma_short_updates_do_not_move(acc + dts[0], dts.skip(1), window);
    }
}

/// The sum of durations that are none of them negative is not negative.
pub proof fn lemma_total_nonnegative(dts: Seq<int>)
    requires
        forall|i: int| 0 <= i < dts.len() ==> dts[i] >= 0,
    ensures
        total(dts) >= 0,
    decreases dts.len(),
{
    if dts.len() > 0 {
        lemma_total_nonnegative(dts.skip(1));
    }
}

/// Starting below one tick, updates whose durations fill exactly the rest of
/// the tick move the snake exactly once and leave the accumulator empty.
pub proof fn lemma_updates_filling_a_tick_move_once(acc: int, dts: Seq<int>, window: int)
    requires
        0 <= acc < window,
        forall|i: int| 0 <= i < dts.len() ==> dts[i] >= 0,
        acc + total(dts) == window,
    ensures
        run_updates(acc, dts, window) == (0int, 1nat),
    decreases dts.len(),
{
    if dts.len() > 0 {
        lemma_total_nonnegative(dts.skip(1));
        if acc + dts[0] >= window {
            lemma_short_updates_do_not_move(0, dts.skip(1), window);
        } else {
            lemma_updates_filling_a_tick_move_once(acc + dts[0], dts.skip(1), window);
        }
    }
}

/// From an empty accumulator, updates that add up to exactly one tick move the
/// snake exactly once.
pub proof fn lemma_one_tick_one_step(dts: Seq<int>, window: int)
    requires
        window > 0,
        forall|i: int| 0 <= i < dts.len() ==> dts[i] >= 0,
        total(dts) == window,
    ensures
        run_updates(0, dts, window).1 == 1,
{
    lemma_updates_filling_a_tick_move_once(0, dts, window);
}

/// From an empty accumulator, one update shorter than a tick moves nothing.
pub proof fn lemma_short_update_does_not_move(dt: int, window: int)
    requires
        0 <= dt < window,
    ensures
        !after_update(0, dt, window).1,
        after_update(0, dt, window).0 == dt,
{
}

/// An accumulator below one tick stays below one tick after an update of at
/// most one tick, and never goes negative.
pub proof fn lemma_accumulator_stays_below_window(acc: int, dt: int, window: int)
    requires
        0 <= acc < window,
        0 <= dt <= window,
    ensures
        0 <= after_update(acc, dt, window).0 < window,
{
}

/// The game state: the snake, the food and the time carried towards the next tick.
pub struct App {
    /// Microseconds accumulated since the last movement step.
    pub current_tick: u64,
    /// Microseconds in one tick.
    pub tick_window: u64,
    pub snake: Snake,
    pub food: Food,
}

impl App {
    /// A fresh game: empty accumulator, 50 ms ticks, a new snake and new food.
    pub fn new() -> (r: App)
        ensures
            r.current_tick == 0,
            r.tick_window == TICK_WINDOW,
            r.snake.location@ == seq![Location(480, 270)],
            r.snake.direction == Direction::Idle,
            r.food.location == Location(-10i32, -10i32),
    {
        App { current_tick: 0, tick_window: TICK_WINDOW, snake: Snake::new(), food: Food::new() }
    }

    /// `update(dt)` may be called: the accumulator does not overflow and a due
    /// step keeps the snake within `i32`.
    pub open spec fn update_ok(&self, dt: int) -> bool {
        &&& self.current_tick + dt <= u64::MAX
        &&& self.current_tick + dt >= self.tick_window ==> {
            &&& self.snake.location@.len() > 0
            &&& step_fits(self.snake.location@.last(), self.snake.direction)
        }
    }

    /// Tells whether `update(dt)` may be called.
    pub fn can_update(&self, dt: u64) -> (r: bool)
        ensures
            r == self.update_ok(dt as int),
    {
        if dt > u64::MAX - self.current_tick {
            return false;
        }
        if self.current_tick + dt < self.tick_window {
            return true;
        }
        let n = self.snake.location.len();
        if n == 0 {
            return false;
        }
        let last = self.snake.location[n - 1];
        let step: i32 = SCALE;
        match self.snake.direction {
            Direction::Up => last.1 >= i32::MIN + step,
            Direction::Down => last.1 <= i32::MAX - step,
            Direction::Left => last.0 >= i32::MIN + step,
            Direction::Right => last.0 <= i32::MAX - step,
            Direction::Idle => true,
        }
    }

    /// Adds `dt` microseconds to the accumulator; once it reaches one tick, takes
    /// one tick off it and moves the snake once.
    pub fn update(&mut self, dt: u64)
        requires
            old(self).update_ok(dt as int),
        ensures
            final(self).current_tick == after_update(
                old(self).current_tick as int,
                dt as int,
                old(self).tick_window as int,
            ).0,
            final(self).tick_window == old(self).tick_window,
            final(self).snake.direction == old(self).snake.direction,
            final(self).food == old(self).food,
            final(self).snake.location@ == if after_update(
                old(self).current_tick as int,
                dt as int,
                old(self).tick_window as int,
            ).1 {
                advanced(old(self).snake.location@, old(self).snake.direction)
            } else {
                old(self).snake.location@
            },
    {
        self.current_tick = self.current_tick + dt;
        if self.current_tick >= self.tick_window {
            self.current_tick = self.current_tick - self.tick_window;
            self.snake.move_self();
        }
    }

    /// Sets the heading for the key pressed; other keys change nothing.
    pub fn press(&mut self, key: Key)
        ensures
            final(self).snake.direction == match heading_for(key) {
                Some(d) => d,
                None => old(self).snake.direction,
            },
            final(self).snake.location@ == old(self).snake.location@,
            final(self).current_tick == old(self).current_tick,
            final(self).tick_window == old(self).tick_window,
            final(self).food == old(self).food,
    {
        match key {
            Key::W => self.snake.direction = Direction::Up,
            Key::S => self.snake.direction = Direction::Down,
            Key::A => self.snake.direction = Direction::Left,
            Key::D => self.snake.direction = Direction::Right,
            Key::Space => self.snake.direction = Direction::Idle,
            Key::Other => {},
        }
    }

    /// The squares to draw, in drawing order: the snake's segments, then the food.
    pub fn squares(&self) -> (r: Vec<Location>)
        ensures
            r@ == self.snake.location@.push(self.food.location),
    {
        let mut r: Vec<Location> = Vec::new();
        let mut i: usize = 0;
        while i < self.snake.location.len()
            invariant
                0 <= i <= self.snake.location@.len(),
                r@ == self.snake.location@.take(i as int),
            decreases self.snake.location@.len() - i,
        {
            r.push(self.snake.location[i]);
            i += 1;
            assert(r@ =~= self.snake.location@.take(i as int));
        }
        r.push(self.food.location);
        assert(r@ =~= self.snake.location@.push(self.food.location));
        r
    }

    /// Tells whether `location` is one of the snake's segments.
    pub fn location_overlaps_player(&self, location: &Location) -> (r: bool)
        ensures
            r == occupied(self.snake.location@, *location),
    {
        overlaps(&self.snake.location, location)
    }

    /// A cell of the screen's grid (in grid units) that the snake does not take;
    /// `None` exactly when the snake takes every cell.
    pub fn new_food_spawn_location(&self) -> (r: Option<Location>)
        ensures
            match r {
                Some(l) => in_grid(l, GRID_COLS as int, GRID_ROWS as int) && !occupied(
                    self.snake.location@,
                    l,
                ),
                None => grid_full(self.snake.location@, GRID_COLS as int, GRID_ROWS as int),
            },
    {
        spawn_location(GRID_COLS, GRID_ROWS, &self.snake.location)
    }
}

} // verus!
