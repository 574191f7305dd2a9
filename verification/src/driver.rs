//! The animation: a state machine that hands out the steps of the chaos game
//! in batches, one batch for each callback of the host, and ends for good
//! when the budget is spent.
//!
//! The host owns the loop. In each callback it polls the driver until the
//! answer is no longer [`Action::Step`]; for each `Step` it draws an anchor
//! index and a colour, reads the clock and calls [`AnimationDriver::step`].

use vstd::prelude::*;
use crate::geometry::{in_hull, Point, ANCHOR_COUNT};
use crate::iterator::{lemma_run_in_hull, lemma_run_spends_budget, valid_draws};
use crate::iterator::{FractalIterator, IteratorModel};
use crate::render::{completion_commands, completion_ops, ops, step_commands, step_ops};
use crate::render::DrawCommand;

verus! {

/// The most steps that one callback makes.
pub const BATCH_SIZE: u32 = 1000;

/// The budget of steps of a full run.
pub const TOTAL_STEPS: u32 = 1_000_000;

/// Whether the animation still goes on.
#[derive(Clone, Copy, Debug, PartialEq, Eq)]
pub enum DriverState {
    /// Steps are left, or the end has not been noticed yet.
    Running,
    /// The budget is spent and the completion has been announced.
    Done,
}

/// What the host has to do next.
#[derive(Clone, Copy, Debug, PartialEq, Eq)]
pub enum Action {
    /// Make one step and paint it.
    Step,
    /// The batch is full: ask for one more callback and return.
    RequestCallback,
    /// The budget is spent: paint the completion message, ask for no further
    /// callback and return.
    Complete,
}

/// The mathematical value of an [`AnimationDriver`].
pub struct DriverModel {
    /// The chaos game.
    pub iterator: IteratorModel,
    /// The steps made in the current callback.
    pub batch_steps: nat,
    /// Running or done.
    pub state: DriverState,
}

impl DriverModel {
    /// What holds of every driver: a batch is never over-full, and a driver
    /// that is done has no steps left.
    pub open spec fn wf(self) -> bool {
        &&& self.batch_steps <= BATCH_SIZE
        &&& self.state == DriverState::Done ==> self.iterator.remaining == 0
    }

    /// A driver at the start of a callback.
    pub open spec fn at_callback_start(self) -> bool {
        self.wf() && self.batch_steps == 0 && self.state == DriverState::Running
    }

    /// The decision. Once done, always complete; a full batch yields to the
    /// host before anything else is looked at; then a spent budget completes;
    /// otherwise there is a step to make.
    pub open spec fn next_action(self) -> Action {
        if self.state == DriverState::Done {
            Action::Complete
        } else if self.batch_steps >= BATCH_SIZE {
            Action::RequestCallback
        } else if self.iterator.remaining == 0 {
            Action::Complete
        } else {
            Action::Step
        }
    }

    /// The driver after the decision: a request for a callback opens a new
    /// batch, a completion ends the animation, a step changes nothing yet.
    pub open spec fn poll(self) -> DriverModel {
        match self.next_action() {
            Action::Step => self,
            Action::RequestCallback => DriverModel { batch_steps: 0, ..self },
            Action::Complete => DriverModel { state: DriverState::Done, ..self },
        }
    }

    /// The driver after one step towards the anchor with the given index.
    pub open spec fn step(self, index: int) -> DriverModel
        recommends
            self.next_action() == Action::Step,
            0 <= index < ANCHOR_COUNT,
    {
        DriverModel {
            iterator: self.iterator.step(index),
            batch_steps: self.batch_steps + 1,
            ..self
        }
    }

    /// The driver at the end of an exchange with a host that polls it, makes
    /// a step with the next draw on `Step`, comes back on `RequestCallback`,
    /// and stops on `Complete` or when a step is due and no draw is left.
    pub open spec fn drive(self, draws: Seq<int>) -> DriverModel
        decreases draws.len(), self.batch_steps,
    {
        match self.next_action() {
            Action::Complete => self.poll(),
            Action::RequestCallback => self.poll().drive(draws),
            Action::Step => if draws.len() == 0 {
                self
            } else {
                self.poll().step(draws.first()).drive(draws.drop_first())
            },
        }
    }

    /// How often the driver asks for one more callback in that exchange.
    pub open spec fn callback_requests(self, draws: Seq<int>) -> nat
        decreases draws.len(), self.batch_steps,
    {
        match self.next_action() {
            Action::Complete => 0,
            Action::RequestCallback => 1 + self.poll().callback_requests(draws),
            Action::Step => if draws.len() == 0 {
                0
            } else {
                self.poll().step(draws.first()).callback_requests(draws.drop_first())
            },
        }
    }

    /// The callbacks in which that exchange takes place: the first, and one
    /// for each request.
    pub open spec fn callbacks(self, draws: Seq<int>) -> nat {
        1 + self.callback_requests(draws)
    }

    /// The driver after `count` polls in a row.
    pub open spec fn poll_times(self, count: nat) -> DriverModel
        decreases count,
    {
        if count == 0 {
            self
        } else {
            self.poll_times((count - 1) as nat).poll()
        }
    }
}

/// The state machine that drives the chaos game through the callbacks.
#[derive(Clone, Copy, Debug)]
pub struct AnimationDriver {
    iterator: FractalIterator,
    batch_steps: u32,
    state: DriverState,
}

impl View for AnimationDriver {
    type V = DriverModel;

    closed spec fn view(&self) -> DriverModel {
        DriverModel {
            iterator: self.iterator@,
            batch_steps: self.batch_steps as nat,
            state: self.state,
        }
    }
}

impl AnimationDriver {
    #[verifier::type_invariant]
    spec fn inv(self) -> bool {
        self@.wf()
    }

    /// A running driver at the start of its first callback, with the point at
    /// `start` and `steps` steps to make.
    pub fn new(start: Point, steps: u32) -> (driver: AnimationDriver)
        ensures
            driver@ == (DriverModel {
                iterator: IteratorModel { point: start@, remaining: steps as nat },
                batch_steps: 0,
                state: DriverState::Running,
            }),
            driver@.at_callback_start(),
    {
        AnimationDriver {
            iterator: FractalIterator::new(start, steps),
            batch_steps: 0,
            state: DriverState::Running,
        }
    }

    /// Running or done.
    pub fn state(&self) -> (state: DriverState)
        ensures
            state == self@.state,
    {
        self.state
    }

    /// The number of steps left.
    pub fn remaining(&self) -> (remaining: u32)
        ensures
            remaining == self@.iterator.remaining,
    {
        self.iterator.remaining()
    }

    /// The current point.
    pub fn point(&self) -> (point: Point)
        ensures
            point@ == self@.iterator.point,
    {
        self.iterator.point()
    }

    /// The number of steps made in the current callback.
    pub fn batch_steps(&self) -> (count: u32)
        ensures
            count == self@.batch_steps,
            count <= BATCH_SIZE,
    {
        proof {
            use_type_invariant(self);
        }
        self.batch_steps
    }

    /// What the host has to do next, with the driver left as it is.
    pub fn next_action(&self) -> (action: Action)
        ensures
            action == self@.next_action(),
            self@.wf(),
    {
        proof {
            use_type_invariant(self);
        }
        match self.state {
            DriverState::Done => Action::Complete,
            DriverState::Running => {
                if self.batch_steps >= BATCH_SIZE {
                    Action::RequestCallback
                } else if self.iterator.remaining() == 0 {
                    Action::Complete
                } else {
                    Action::Step
                }
            },
        }
    }

    /// Decides what the host has to do next and takes note of it: after
    /// `RequestCallback` a new batch is open, after `Complete` the driver is
    /// done.
    pub fn poll(&mut self) -> (action: Action)
        ensures
            action == old(self)@.next_action(),
            final(self)@ == old(self)@.poll(),
            final(self)@.wf(),
    {
        let action = self.next_action();
        match action {
            Action::Step => {},
            Action::RequestCallback => {
                self.batch_steps = 0;
            },
            Action::Complete => {
                self.state = DriverState::Done;
            },
        }
        action
    }

    /// Makes one step towards the anchor with the given index and returns
    /// what is to be painted for it: the mark at the new point in the colour
    /// `color`, and the status line with the steps now left and the time
    /// `elapsed_ms` since the start.
    pub fn step(&mut self, index: usize, color: u64, elapsed_ms: u64) -> (commands: Vec<
        DrawCommand,
    >)
        requires
            old(self)@.next_action() == Action::Step,
            index < ANCHOR_COUNT,
        ensures
            final(self)@ == old(self)@.step(index as int),
            final(self)@.wf(),
            ops(commands@) == step_ops(
                final(self)@.iterator.point,
                color as nat,
                final(self)@.iterator.remaining,
                elapsed_ms as nat,
            ),
    {
        proof {
            use_type_invariant(&*self);
        }
        let mut iterator = self.iterator;
        let point = iterator.step(index);
        self.iterator = iterator;
        self.batch_steps = self.batch_steps + 1;
        step_commands(point, color, iterator.remaining(), elapsed_ms)
    }

    /// What is to be painted on `Complete`: the completion message, the same
    /// each time.
    pub fn completion(&self) -> (commands: Vec<DrawCommand>)
        ensures
            ops(commands@) == completion_ops(),
    {
        completion_commands()
    }
}

/// A running driver that is driven through `n` steps, no more than it has
/// left, has made exactly those steps: its budget is smaller by `n`. It has
/// asked for a callback each time a batch was full, and it is done if and only
/// if the budget is spent.
pub proof fn lemma_drive(start: DriverModel, draws: Seq<int>)
    requires
        start.wf(),
        start.state == DriverState::Running,
        draws.len() <= start.iterator.remaining,
    ensures
        start.drive(draws).wf(),
        start.drive(draws).iterator == start.iterator.run(draws),
        start.drive(draws).iterator.remaining == start.iterator.remaining - draws.len(),
        start.drive(draws).state == DriverState::Done <==> draws.len() == start.iterator.remaining,
        start.callback_requests(draws) == (start.batch_steps + draws.len()) / (BATCH_SIZE as nat),
    decreases draws.len(), start.batch_steps,
{
    lemma_run_spends_budget(start.iterator, draws);
    match start.next_action() {
        Action::Complete => {},
        Action::RequestCallback => {
            lemma_drive(start.poll(), draws);
        },
        Action::Step => {
            if draws.len() > 0 {
                let next = start.poll().step(draws.first());
                lemma_drive(next, draws.drop_first());
                lemma_run_spends_budget(next.iterator, draws.drop_first());
            }
        },
    }
}

/// A whole run, from the start of the first callback with a draw for every
/// step of the budget, ends done with the budget spent, and takes one callback
/// for each full batch and one more, in which the completion is noticed.
pub proof fn lemma_callbacks_of_run(start: DriverModel, draws: Seq<int>)
    requires
        start.at_callback_start(),
        draws.len() == start.iterator.remaining,
    ensures
        start.drive(draws).state == DriverState::Done,
        start.drive(draws).iterator.remaining == 0,
        start.callbacks(draws) == start.iterator.remaining / (BATCH_SIZE as nat) + 1,
{
    lemma_drive(start, draws);
}

/// Once the budget is spent, a driver that is polled, in a new batch or in one
/// that has room, or after it is done, answers `Complete` however often it is
/// asked: it makes no step, asks for no callback, and stays done.
pub proof fn lemma_done_is_final(driver: DriverModel, count: nat)
    requires
        driver.wf(),
        driver.iterator.remaining == 0,
        driver.state == DriverState::Done || driver.batch_steps < BATCH_SIZE,
    ensures
        driver.poll_times(count).next_action() == Action::Complete,
        driver.poll_times(count).iterator == driver.iterator,
        count > 0 ==> driver.poll_times(count) == (DriverModel {
            state: DriverState::Done,
            ..driver
        }),
    decreases count,
{
    if count > 0 {
        lemma_done_is_final(driver, (count - 1) as nat);
    }
}

/// From a start in the triangle of the anchors, the point of a driven driver
/// lies in that triangle.
pub proof fn lemma_drive_in_hull(start: DriverModel, draws: Seq<int>)
    requires
        start.wf(),
        start.state == DriverState::Running,
        draws.len() <= start.iterator.remaining,
        valid_draws(draws),
        in_hull(start.iterator.point),
    ensures
        in_hull(start.drive(draws).iterator.point),
{
    lemma_drive(start, draws);
    lemma_run_in_hull(start.iterator, draws);
}

} // verus!
