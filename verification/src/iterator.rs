//! The chaos game itself: a point that moves halfway to a drawn anchor, and
//! the count of moves it has left.

use vstd::prelude::*;
use crate::geometry::{anchor, anchor_position, in_canvas, in_hull, midpoint, Point, Position, ANCHOR_COUNT};
use crate::geometry::{lemma_anchor_in_hull, lemma_midpoint_in_canvas, lemma_midpoint_in_hull};

verus! {

/// The mathematical value of a [`FractalIterator`].
pub struct IteratorModel {
    /// Where the point is.
    pub point: Position,
    /// How many steps are left.
    pub remaining: nat,
}

/// Every draw names an anchor.
pub open spec fn valid_draws(draws: Seq<int>) -> bool {
    forall|k: int| 0 <= k < draws.len() ==> 0 <= #[trigger] draws[k] < ANCHOR_COUNT
}

impl IteratorModel {
    /// One step: the point moves halfway to the anchor that was drawn, and one
    /// step fewer is left.
    pub open spec fn step(self, index: int) -> IteratorModel
        recommends
            self.remaining > 0,
            0 <= index < ANCHOR_COUNT,
    {
        IteratorModel {
            point: midpoint(self.point, anchor_position(index)),
            remaining: (self.remaining - 1) as nat,
        }
    }

    /// One step for each draw, in order.
    pub open spec fn run(self, draws: Seq<int>) -> IteratorModel
        recommends
            draws.len() <= self.remaining,
            valid_draws(draws),
        decreases draws.len(),
    {
        if draws.len() == 0 {
            self
        } else {
            self.step(draws.first()).run(draws.drop_first())
        }
    }

    /// The points that the draws generate, in order.
    pub open spec fn trajectory(self, draws: Seq<int>) -> Seq<Position> {
        Seq::new(draws.len(), |k: int| self.run(draws.take(k + 1)).point)
    }
}

/// The moving point and its budget of steps.
#[derive(Clone, Copy, Debug)]
pub struct FractalIterator {
    point: Point,
    remaining: u32,
}

impl View for FractalIterator {
    type V = IteratorModel;

    closed spec fn view(&self) -> IteratorModel {
        IteratorModel { point: self.point@, remaining: self.remaining as nat }
    }
}

impl FractalIterator {
    /// An iterator that starts at `start` with `steps` steps to make.
    pub fn new(start: Point, steps: u32) -> (iterator: FractalIterator)
        ensures
            iterator@ == (IteratorModel { point: start@, remaining: steps as nat }),
    {
        FractalIterator { point: start, remaining: steps }
    }

    /// The current point.
    pub fn point(&self) -> (point: Point)
        ensures
            point@ == self@.point,
    {
        self.point
    }

    /// The number of steps left.
    pub fn remaining(&self) -> (remaining: u32)
        ensures
            remaining == self@.remaining,
    {
        self.remaining
    }

    /// Moves the point halfway to the anchor with the given index, takes one
    /// step off the budget and returns the new point.
    pub fn step(&mut self, index: usize) -> (point: Point)
        requires
            old(self)@.remaining > 0,
            index < ANCHOR_COUNT,
        ensures
            final(self)@ == old(self)@.step(index as int),
            point@ == final(self)@.point,
    {
        self.point = self.point.midpoint(anchor(index));
        self.remaining = self.remaining - 1;
        self.point
    }
}

/// After `n` steps the budget is smaller by exactly `n`; as no more steps are
/// made than the budget holds, it never falls below zero.
pub proof fn lemma_run_spends_budget(start: IteratorModel, draws: Seq<int>)
    requires
        draws.len() <= start.remaining,
    ensures
        start.run(draws).remaining == start.remaining - draws.len(),
    decreases draws.len(),
{
    if draws.len() > 0 {
        lemma_run_spends_budget(start.step(draws.first()), draws.drop_first());
    }
}

/// A point that starts on the canvas stays on it.
pub proof fn lemma_run_in_canvas(start: IteratorModel, draws: Seq<int>)
    requires
        in_canvas(start.point),
        valid_draws(draws),
    ensures
        in_canvas(start.run(draws).point),
    decreases draws.len(),
{
    if draws.len() > 0 {
        lemma_anchor_in_hull(draws.first());
        lemma_midpoint_in_canvas(start.point, anchor_position(draws.first()));
        lemma_run_in_canvas(start.step(draws.first()), draws.drop_first());
    }
}

/// A point that starts in the triangle of the anchors stays in it.
pub proof fn lemma_run_in_hull(start: IteratorModel, draws: Seq<int>)
    requires
        in_hull(start.point),
        valid_draws(draws),
    ensures
        in_hull(start.run(draws).point),
    decreases draws.len(),
{
    if draws.len() > 0 {
        lemma_anchor_in_hull(draws.first());
        lemma_midpoint_in_hull(start.point, anchor_position(draws.first()));
        lemma_run_in_hull(start.step(draws.first()), draws.drop_first());
    }
}

/// From a start in the triangle of the anchors, every generated point lies in
/// that triangle.
pub proof fn lemma_trajectory_in_hull(start: IteratorModel, draws: Seq<int>)
    requires
        in_hull(start.point),
        valid_draws(draws),
    ensures
        start.trajectory(draws).len() == draws.len(),
        forall|k: int| 0 <= k < draws.len() ==> in_hull(#[trigger] start.trajectory(draws)[k]),
{
    assert forall|k: int| 0 <= k < draws.len() implies in_hull(
        #[trigger] start.trajectory(draws)[k],
    ) by {
        lemma_run_in_hull(start, draws.take(k + 1));
    }
}

/// The generated points depend on the starting point and on the draws, and on
/// nothing else: two runs from one point with the same draws generate the
/// same points, whatever their budgets.
pub proof fn lemma_replay(first: IteratorModel, second: IteratorModel, draws: Seq<int>)
    requires
        first.point == second.point,
    ensures
        first.trajectory(draws) == second.trajectory(draws),
{
    assert forall|k: int| 0 <= k < draws.len() implies #[trigger] first.trajectory(draws)[k]
        == second.trajectory(draws)[k] by {
        lemma_run_point(first, second, draws.take(k + 1));
    }
    assert(first.trajectory(draws) =~= second.trajectory(draws));
}

proof fn lemma_run_point(first: IteratorModel, second: IteratorModel, draws: Seq<int>)
    requires
        first.point == second.point,
    ensures
        first.run(draws).point == second.run(draws).point,
    decreases draws.len(),
{
    if draws.len() > 0 {
        lemma_run_point(first.step(draws.first()), second.step(draws.first()), draws.drop_first());
    }
}

} // verus!
