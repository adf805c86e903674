//! The worm: a non-empty chain of cells, head first, together with the
//! growth, steering, advancement and self-collision rules.

use vstd::prelude::*;

use crate::cell::{Cell, Direction, Point};
use rand::rngs::ThreadRng;

verus! {

/// The chain after a successful bite at `p`: a new head at `p`, carrying the
/// old head's direction, prepended to the old chain.
pub open spec fn grown(w: Seq<Cell>, p: Point) -> Seq<Cell> {
    seq![Cell(p, w[0].1)] + w
}

/// The chain after one tick of movement: every cell advances one step along
/// its own direction, and every trailing cell takes over the direction the
/// cell ahead of it had before the tick, so the body follows the head's path
/// around corners with a one-cell lag.
pub open spec fn stepped_chain(w: Seq<Cell>) -> Seq<Cell> {
    Seq::new(
        w.len(),
        |i: int|
            Cell(
                w[i].0.stepped(w[i].1),
                if i == 0 {
                    w[0].1
                } else {
                    w[i - 1].1
                },
            ),
    )
}

/// No two cells of the chain share a position: the worm has not crashed.
pub open spec fn all_positions_distinct(w: Seq<Cell>) -> bool {
    forall|i: int, j: int| 0 <= i < j < w.len() ==> w[i].0 != w[j].0
}

/// Growth: a successful bite lengthens the chain by exactly one cell; the
/// new head sits at the eaten position, keeps the old head's direction, and
/// every old cell follows it unchanged.
pub proof fn lemma_grown(w: Seq<Cell>, p: Point)
    requires
        w.len() >= 1,
    ensures
        grown(w, p).len() == w.len() + 1,
        grown(w, p)[0] == Cell(p, w[0].1),
        forall|i: int| 0 <= i < w.len() ==> grown(w, p)[i + 1] == w[i],
{
}

/// The chain follows the head: one tick moves every cell one step along the
/// direction it carried, keeps the length, leaves the head's direction
/// alone, and hands each trailing cell the direction the cell ahead of it
/// had before the tick.
pub proof fn lemma_chain_follows_head(w: Seq<Cell>)
    requires
        w.len() >= 1,
    ensures
        stepped_chain(w).len() == w.len(),
        stepped_chain(w)[0].1 == w[0].1,
        forall|i: int| 1 <= i < w.len() ==> stepped_chain(w)[i].1 == w[i - 1].1,
        forall|i: int| 0 <= i < w.len() ==> stepped_chain(w)[i].0 == w[i].0.stepped(w[i].1),
{
}

/// An ordered chain of cells, head at index 0, tail last. It is never
/// empty.
#[derive(Debug)]
pub struct Worm(Vec<Cell>);

impl View for Worm {
    type V = Seq<Cell>;

    closed spec fn view(&self) -> Seq<Cell> {
        self.0@
    }
}

impl Worm {
    /// The one invariant of the chain: it always holds at least one cell.
    pub open spec fn wf(self) -> bool {
        self@.len() >= 1
    }

    /// A worm of a single cell at a uniformly random position with a
    /// uniformly random direction.
    pub fn new(rng: &mut ThreadRng) -> (w: Self)
        ensures
            w.wf(),
            w@.len() == 1,
    {
        let c = Cell::at_random(rng);
        let mut cells: Vec<Cell> = Vec::new();
        cells.push(c);
        Self(cells)
    }

    /// A worm made of the given cells, head first; refused when the chain
    /// would be empty.
    pub fn from_cells(cells: Vec<Cell>) -> (r: Option<Self>)
        ensures
            r is Some <==> cells@.len() >= 1,
            r matches Some(w) ==> w@ == cells@ && w.wf(),
    {
        if cells.len() == 0 {
            None
        } else {
            Some(Self(cells))
        }
    }

    pub fn size(&self) -> (r: usize)
        ensures
            r == self@.len(),
    {
        self.0.len()
    }

    pub fn head(&self) -> (r: &Point)
        requires
            self.wf(),
        ensures
            *r == self@[0].0,
    {
        let c: &Cell = &self.0[0];
        &c.0
    }

    /// Grows the worm by one cell if and only if `p` lies directly ahead of
    /// the head; the new head sits at `p` and keeps the old head's
    /// direction. Otherwise nothing changes.
    pub fn eat(&mut self, p: &Point) -> (r: bool)
        requires
            old(self).wf(),
        ensures
            r == (old(self)@[0].ahead() == *p),
            r ==> final(self)@ == grown(old(self)@, *p),
            !r ==> final(self)@ == old(self)@,
            final(self).wf(),
    {
        let head: Cell = self.0[0];
        if !head.is_next_position(p) {
            return false;
        }
        let candidate = Cell::new(*p, head.direction());
        self.0.insert(0, candidate);
        proof {
            assert(self@ =~= grown(old(self)@, *p));
        }
        true
    }

    /// Changes only the head's facing; every body cell is untouched. Any
    /// direction is accepted, a straight reversal included: turning back
    /// into the body is lethal at the next step, not rejected here.
    pub fn turn(&mut self, d: &Direction)
        requires
            old(self).wf(),
        ensures
            final(self)@ == old(self)@.update(0, Cell(old(self)@[0].0, *d)),
            final(self).wf(),
    {
        let mut head = self.0.remove(0);
        head.turn(d);
        self.0.insert(0, head);
        proof {
            assert(self@ =~= old(self)@.update(0, Cell(old(self)@[0].0, *d)));
        }
    }

    /// Advances the whole chain one tick: each cell steps along its own
    /// direction, then corners propagate one cell towards the tail, so that
    /// each trailing cell ends the tick facing where the cell ahead of it
    /// was heading. Evaluated strictly head to tail.
    pub fn step(&mut self)
        requires
            old(self).wf(),
        ensures
            final(self)@ == stepped_chain(old(self)@),
            final(self).wf(),
    {
        let ghost w0: Seq<Cell> = self@;
        let n = self.0.len();
        let mut last_direction = self.0[0].direction();
        let mut i: usize = 0;
        while i < n
            invariant
                n == w0.len(),
                1 <= n,
                self.0@.len() == n,
                i <= n,
                forall|j: int| 0 <= j < i ==> self.0@[j] == stepped_chain(w0)[j],
                forall|j: int| i <= j < n ==> self.0@[j] == w0[j],
                last_direction == if i == 0 {
                    w0[0].1
                } else {
                    w0[i - 1].1
                },
            decreases n - i,
        {
            let mut c = self.0[i];
            c.step();
            let current_direction = c.direction();
            if last_direction != current_direction {
                c.turn(&last_direction);
                last_direction = current_direction;
            }
            self.0[i] = c;
            i = i + 1;
        }
        proof {
            assert(self@ =~= stepped_chain(w0));
        }
    }

    /// The whole chain, read-only, head first.
    pub fn cells(&self) -> (r: &Vec<Cell>)
        ensures
            r@ == self@,
    {
        &self.0
    }

    /// The positions of the chain, head first, for rendering.
    pub fn points(&self) -> (r: Vec<&Point>)
        ensures
            r@.len() == self@.len(),
            forall|i: int| 0 <= i < self@.len() ==> *r@[i] == self@[i].0,
    {
        let mut r: Vec<&Point> = Vec::new();
        let n = self.0.len();
        let mut i: usize = 0;
        while i < n
            invariant
                n == self@.len(),
                i <= n,
                r@.len() == i,
                forall|j: int| 0 <= j < i ==> r@[j] == self@[j].0,
            decreases n - i,
        {
            r.push(&self.0[i].0);
            i = i + 1;
        }
        r
    }

    /// Reports whether two cells of the chain occupy the same position: the
    /// sole failure signal of the simulation. A worm of length 1 is never
    /// crashed.
    pub fn is_crashed(&self) -> (r: bool)
        ensures
            r == !all_positions_distinct(self@),
    {
        let n = self.0.len();
        let mut i: usize = 0;
        while i < n
            invariant
                n == self@.len(),
                i <= n,
                forall|a: int, b: int| 0 <= a < i && a < b < n ==> self@[a].0 != self@[b].0,
            decreases n - i,
        {
            let mut j: usize = i + 1;
            while j < n
                invariant
                    n == self@.len(),
                    i < n,
                    i < j <= n,
                    forall|b: int| i < b < j ==> self@[i as int].0 != self@[b].0,
                decreases n - j,
            {
                if self.0[i].0 == self.0[j].0 {
                    proof {
                        assert(!all_positions_distinct(self@));
                    }
                    return true;
                }
                j = j + 1;
            }
            i = i + 1;
        }
        false
    }
}

impl Default for Worm {
    /// A worm of one cell at the origin, facing `Up`.
    fn default() -> (w: Self)
        ensures
            w.wf(),
            w@.len() == 1,
            w@[0] == Cell(Point { x: 0u8, y: 0u8 }, Direction::Up),
    {
        let mut cells: Vec<Cell> = Vec::new();
        cells.push(Cell::default());
        Self(cells)
    }
}

} // verus!
