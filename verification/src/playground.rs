//! The session driver: owns the worm, the food and the randomness source,
//! ticks the simulation forward and forwards steering intents to the worm.

use vstd::prelude::*;

use crate::cell::{Cell, Direction, Point};
use crate::rng::fresh_rng;
use crate::worm::{all_positions_distinct, grown, stepped_chain, Worm};
use rand::rngs::ThreadRng;

verus! {

/// One game session: a worm, the current food position, and the randomness
/// source that places fresh food and the initial worm.
#[derive(Debug)]
pub struct Playground {
    rng: ThreadRng,
    worm: Worm,
    food: Point,
}

impl Playground {
    /// The worm of the session, at the spec level.
    pub closed spec fn spec_worm(self) -> Worm {
        self.worm
    }

    /// The food position of the session, at the spec level.
    pub closed spec fn spec_food(self) -> Point {
        self.food
    }

    /// The session is coherent as long as its worm is.
    pub open spec fn wf(self) -> bool {
        self.spec_worm().wf()
    }

    /// One simulation tick: the worm bites at the food if it lies directly
    /// ahead — on success the food respawns at a random position — and then
    /// the whole chain advances exactly one step, eaten or not.
    pub fn tick(&mut self)
        requires
            old(self).wf(),
        ensures
            final(self).wf(),
            old(self).spec_worm()@[0].ahead() == old(self).spec_food() ==> final(self).spec_worm()@ == stepped_chain(
                grown(old(self).spec_worm()@, old(self).spec_food()),
            ),
            old(self).spec_worm()@[0].ahead() != old(self).spec_food() ==> final(self).spec_worm()@ == stepped_chain(
                old(self).spec_worm()@,
            ) && final(self).spec_food() == old(self).spec_food(),
    {
        let food = self.food;
        if self.worm.eat(&food) {
            self.food = Point::at_random(&mut self.rng);
        }
        self.worm.step();
    }

    /// The worm lives exactly as long as no two of its cells share a
    /// position.
    pub fn alive(&self) -> (r: bool)
        ensures
            r == all_positions_distinct(self.spec_worm()@),
    {
        !self.worm.is_crashed()
    }

    pub fn move_left(&mut self)
        requires
            old(self).wf(),
        ensures
            final(self).wf(),
            final(self).spec_worm()@ == old(self).spec_worm()@.update(
                0,
                Cell(old(self).spec_worm()@[0].0, Direction::Left),
            ),
            final(self).spec_food() == old(self).spec_food(),
    {
        self.worm.turn(&Direction::Left);
    }

    pub fn move_right(&mut self)
        requires
            old(self).wf(),
        ensures
            final(self).wf(),
            final(self).spec_worm()@ == old(self).spec_worm()@.update(
                0,
                Cell(old(self).spec_worm()@[0].0, Direction::Right),
            ),
            final(self).spec_food() == old(self).spec_food(),
    {
        self.worm.turn(&Direction::Right);
    }

    pub fn move_down(&mut self)
        requires
            old(self).wf(),
        ensures
            final(self).wf(),
            final(self).spec_worm()@ == old(self).spec_worm()@.update(
                0,
                Cell(old(self).spec_worm()@[0].0, Direction::Down),
            ),
            final(self).spec_food() == old(self).spec_food(),
    {
        self.worm.turn(&Direction::Down);
    }

    pub fn move_up(&mut self)
        requires
            old(self).wf(),
        ensures
            final(self).wf(),
            final(self).spec_worm()@ == old(self).spec_worm()@.update(
                0,
                Cell(old(self).spec_worm()@[0].0, Direction::Up),
            ),
            final(self).spec_food() == old(self).spec_food(),
    {
        self.worm.turn(&Direction::Up);
    }

    /// The worm, read-only, for rendering.
    pub fn worm(&self) -> (r: &Worm)
        ensures
            *r == self.spec_worm(),
    {
        &self.worm
    }

    /// The current food position, read-only, for rendering.
    pub fn food(&self) -> (r: &Point)
        ensures
            *r == self.spec_food(),
    {
        &self.food
    }
}

impl Default for Playground {
    /// A fresh session: a one-cell worm at a random position with a random
    /// heading, and food at a random position. The food may land on the
    /// worm's body; that is the intended behaviour, not excluded here.
    fn default() -> (r: Self)
        ensures
            r.wf(),
            r.spec_worm()@.len() == 1,
    {
        let mut rng = fresh_rng();
        let worm = Worm::new(&mut rng);
        let food = Point::at_random(&mut rng);
        Self { rng, worm, food }
    }
}

} // verus!
