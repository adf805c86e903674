//! Points on the wraparound grid, the four movement directions, and cells:
//! a position paired with the direction that produced it.

use vstd::prelude::*;

use crate::rng::random_byte;
use rand::rngs::ThreadRng;

verus! {

/// A position on the toroidal grid. Each axis covers the full `u8` range;
/// stepping past an edge wraps to the opposite side. Ordering is
/// lexicographic: `x` first, then `y`.
#[derive(Debug, Clone, Copy, PartialEq, Eq, Structural, PartialOrd, Ord, Hash)]
pub struct Point {
    pub x: u8,
    pub y: u8,
}

/// The next coordinate towards the high end of an axis, wrapping past the
/// maximum to zero.
pub open spec fn wrap_inc(v: u8) -> u8 {
    if v == 255 { 0 } else { (v + 1) as u8 }
}

/// The next coordinate towards the low end of an axis, wrapping past zero
/// to the maximum.
pub open spec fn wrap_dec(v: u8) -> u8 {
    if v == 0 { 255 } else { (v - 1) as u8 }
}

/// One of the four movement directions. Stepping moves exactly one axis by
/// one unit: `Up` and `Down` change `y`, `Right` and `Left` change `x`.
#[derive(Debug, Clone, Copy, PartialEq, Eq, Structural, Hash)]
pub enum Direction {
    Up,
    Right,
    Down,
    Left,
}

impl Direction {
    /// The direction that undoes one step of `self`.
    pub open spec fn opposite(self) -> Direction {
        match self {
            Direction::Up => Direction::Down,
            Direction::Right => Direction::Left,
            Direction::Down => Direction::Up,
            Direction::Left => Direction::Right,
        }
    }

    /// The direction a byte selects when reduced modulo four, in the order
    /// `Up`, `Right`, `Down`, `Left`.
    pub open spec fn of_byte(b: u8) -> Direction {
        if b % 4 == 0 {
            Direction::Up
        } else if b % 4 == 1 {
            Direction::Right
        } else if b % 4 == 2 {
            Direction::Down
        } else {
            Direction::Left
        }
    }

    /// Maps a byte to a direction by its remainder modulo four.
    pub fn from_byte(b: u8) -> (d: Direction)
        ensures
            d == Direction::of_byte(b),
    {
        match b % 4 {
            0 => Direction::Up,
            1 => Direction::Right,
            2 => Direction::Down,
            _ => Direction::Left,
        }
    }

    /// A direction drawn uniformly from the four variants: a random byte has
    /// a uniform remainder modulo four.
    pub fn at_random(rng: &mut ThreadRng) -> Direction {
        Direction::from_byte(random_byte(rng))
    }
}

impl Default for Direction {
    /// `Up`.
    fn default() -> (d: Self)
        ensures
            d == Direction::Up,
    {
        Direction::Up
    }
}

impl Point {
    /// The point one step from `self` in direction `d`, with wraparound.
    pub open spec fn stepped(self, d: Direction) -> Point {
        match d {
            Direction::Up => Point { x: self.x, y: wrap_inc(self.y) },
            Direction::Down => Point { x: self.x, y: wrap_dec(self.y) },
            Direction::Right => Point { x: wrap_inc(self.x), y: self.y },
            Direction::Left => Point { x: wrap_dec(self.x), y: self.y },
        }
    }

    /// Two points are adjacent when exactly one axis differs, and it differs
    /// by exactly one step with wraparound. Equal points and diagonal
    /// neighbours are not adjacent.
    pub open spec fn adjacent(self, other: Point) -> bool {
        ||| self.x == other.x && (other.y == wrap_inc(self.y) || other.y == wrap_dec(self.y))
        ||| self.y == other.y && (other.x == wrap_inc(self.x) || other.x == wrap_dec(self.x))
    }

    pub fn new(x: u8, y: u8) -> (r: Self)
        ensures
            r == (Point { x, y }),
    {
        Self { x, y }
    }

    /// A point whose coordinates are drawn independently and uniformly over
    /// the whole axis range.
    pub fn at_random(rng: &mut ThreadRng) -> Point {
        let x = random_byte(rng);
        let y = random_byte(rng);
        Self::new(x, y)
    }

    /// Moves the point one unit along `dir`, wrapping at the edges of the
    /// grid.
    pub fn step_to(&mut self, dir: &Direction)
        ensures
            *final(self) == old(self).stepped(*dir),
    {
        match dir {
            Direction::Up => self.y = if self.y == 255 { 0 } else { self.y + 1 },
            Direction::Right => self.x = if self.x == 255 { 0 } else { self.x + 1 },
            Direction::Down => self.y = if self.y == 0 { 255 } else { self.y - 1 },
            Direction::Left => self.x = if self.x == 0 { 255 } else { self.x - 1 },
        }
    }

    /// Reports whether `other` lies exactly one wraparound step away along
    /// exactly one axis.
    pub fn is_next_to(&self, other: &Self) -> (r: bool)
        ensures
            r == self.adjacent(*other),
    {
        let x_inc = if self.x == 255 { 0 } else { self.x + 1 };
        let x_dec = if self.x == 0 { 255 } else { self.x - 1 };
        let y_inc = if self.y == 255 { 0 } else { self.y + 1 };
        let y_dec = if self.y == 0 { 255 } else { self.y - 1 };
        (self.x == other.x && (other.y == y_inc || other.y == y_dec))
            || (self.y == other.y && (other.x == x_inc || other.x == x_dec))
    }
}

impl Default for Point {
    /// The origin `(0, 0)`.
    fn default() -> (r: Self)
        ensures
            r == (Point { x: 0u8, y: 0u8 }),
    {
        Point { x: 0, y: 0 }
    }
}

impl From<(u8, u8)> for Point {
    fn from(value: (u8, u8)) -> (r: Self) {
        Point { x: value.0, y: value.1 }
    }
}

impl vstd::std_specs::convert::FromSpecImpl<(u8, u8)> for Point {
    open spec fn obeys_from_spec() -> bool {
        true
    }

    open spec fn from_spec(value: (u8, u8)) -> Point {
        Point { x: value.0, y: value.1 }
    }
}

impl From<Point> for (u8, u8) {
    fn from(value: Point) -> (r: Self) {
        (value.x, value.y)
    }
}

impl vstd::std_specs::convert::FromSpecImpl<Point> for (u8, u8) {
    open spec fn obeys_from_spec() -> bool {
        true
    }

    open spec fn from_spec(value: Point) -> (u8, u8) {
        (value.x, value.y)
    }
}

/// Wraparound closure: stepping any point in any direction and then in the
/// opposite direction returns it to where it started, at the interior of
/// the grid and across its edges alike.
pub proof fn lemma_step_round_trip(p: Point, d: Direction)
    ensures
        p.stepped(d).stepped(d.opposite()) == p,
{
}

/// Adjacency is symmetric: each point sees the other one wraparound step
/// away along the same axis.
pub proof fn lemma_adjacent_symmetric(a: Point, b: Point)
    ensures
        a.adjacent(b) == b.adjacent(a),
{
}

/// Adjacency is irreflexive: no point is one step away from itself, since a
/// wraparound step always changes the coordinate it moves.
pub proof fn lemma_adjacent_irreflexive(a: Point)
    ensures
        !a.adjacent(a),
{
}

/// A grid position together with the direction the worm was heading when it
/// occupied that position.
#[derive(Debug, Clone, Copy, PartialEq, Eq, Structural, Hash)]
pub struct Cell(pub Point, pub Direction);

impl Cell {
    /// The position directly ahead of this cell: its own position stepped
    /// once along its own direction.
    pub open spec fn ahead(self) -> Point {
        self.0.stepped(self.1)
    }

    pub fn new(p: Point, d: Direction) -> (r: Self)
        ensures
            r == Cell(p, d),
    {
        Self(p, d)
    }

    /// A cell at a uniformly random position with a uniformly random
    /// direction.
    pub fn at_random(rng: &mut ThreadRng) -> Cell {
        let p = Point::at_random(rng);
        let d = Direction::at_random(rng);
        Self(p, d)
    }

    /// Reports whether the two cells' positions are adjacent on the grid;
    /// directions play no part.
    pub fn is_next_to(&self, other: &Self) -> (r: bool)
        ensures
            r == self.0.adjacent(other.0),
    {
        self.0.is_next_to(&other.0)
    }

    /// Reports whether the two cells are adjacent and share the same
    /// direction: a contiguous, same-heading chain segment.
    pub fn is_linked(&self, other: &Self) -> (r: bool)
        ensures
            r == (self.0.adjacent(other.0) && self.1 == other.1),
    {
        self.is_next_to(other) && self.1 == other.1
    }

    /// Reports whether `d` is exactly the position this cell would reach by
    /// one step along its own direction.
    pub fn is_next_position(&self, d: &Point) -> (r: bool)
        ensures
            r == (self.ahead() == *d),
    {
        let mut p = self.0;
        p.step_to(&self.1);
        p == *d
    }

    pub fn direction(&self) -> (r: Direction)
        ensures
            r == self.1,
    {
        self.1
    }

    pub fn point(&self) -> (r: &Point)
        ensures
            *r == self.0,
    {
        &self.0
    }

    /// Changes only the facing of the cell; the position stays put.
    pub fn turn(&mut self, d: &Direction)
        ensures
            *final(self) == Cell(old(self).0, *d),
    {
        self.1 = *d;
    }

    /// Moves the cell one step along its own direction; the facing stays
    /// put.
    pub fn step(&mut self)
        ensures
            *final(self) == Cell(old(self).0.stepped(old(self).1), old(self).1),
    {
        self.0.step_to(&self.1);
    }
}

impl Default for Cell {
    /// A cell at the origin facing `Up`.
    fn default() -> (r: Self)
        ensures
            r == Cell(Point { x: 0u8, y: 0u8 }, Direction::Up),
    {
        Cell(Point { x: 0, y: 0 }, Direction::Up)
    }
}

} // verus!
