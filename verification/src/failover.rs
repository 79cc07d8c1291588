//! The failover executor: tries one operation against the endpoints of a cluster, one
//! endpoint at a time and in the order given, until the first success.
//!
//! The executor is a state machine. It neither starts operations nor waits for them: the
//! host does both and tells the machine what it learned as an [`Event`]; the machine
//! answers with the [`Action`] the host has to take next. What the machine does is given by
//! [`DriverState::step`], a function of the state and the event alone.

use vstd::prelude::*;
use crate::sequencer::EndpointSequencer;

verus! {

/// Where a driver stands.
#[derive(Clone, Copy, Debug, PartialEq, Eq, Structural)]
pub enum Phase {
    /// No operation is outstanding and none has succeeded: either nothing was dispatched
    /// yet, or the last attempt has just failed.
    Idle,
    /// One operation is outstanding.
    Attempting,
    /// An operation succeeded and its value was handed to the host.
    Succeeded,
    /// Every endpoint failed and the errors were handed to the host.
    Exhausted,
}

/// What the host learned about the outstanding operation since the last step.
#[derive(Debug, PartialEq, Eq)]
pub enum Event<T, E> {
    /// Nothing resolved: the outstanding operation is not done yet, or there is none.
    Pending,
    /// The outstanding operation succeeded with this value.
    Ready(T),
    /// The outstanding operation failed with this error.
    Failed(E),
}

/// What the host has to do after a step.
#[derive(Debug, PartialEq, Eq)]
pub enum Action<M, T, E> {
    /// Start the operation on this endpoint and report how it goes.
    Dispatch(M),
    /// The outstanding operation is not done: give up control until it makes progress.
    Wait,
    /// The terminal outcome: the first success.
    Succeed(T),
    /// The terminal outcome: every endpoint failed, with these errors in attempt order.
    Fail(Vec<E>),
    /// The terminal outcome was handed out by an earlier step; there is nothing to do.
    Finished,
}

/// An [`Action`] as a mathematical value.
#[verifier::ext_equal]
pub enum ActionView<M, T, E> {
    Dispatch(M),
    Wait,
    Succeed(T),
    Fail(Seq<E>),
    Finished,
}

impl<M, T, E> View for Action<M, T, E> {
    type V = ActionView<M, T, E>;

    open spec fn view(&self) -> ActionView<M, T, E> {
        match *self {
            Action::Dispatch(endpoint) => ActionView::Dispatch(endpoint),
            Action::Wait => ActionView::Wait,
            Action::Succeed(item) => ActionView::Succeed(item),
            Action::Fail(errors) => ActionView::Fail(errors@),
            Action::Finished => ActionView::Finished,
        }
    }
}

/// The state of a driver as a mathematical value.
#[verifier::ext_equal]
pub struct DriverState<M, E> {
    /// Where the driver stands.
    pub phase: Phase,
    /// The endpoints not attempted yet, the next one first.
    pub remaining: Seq<M>,
    /// The errors of the endpoints that failed, in attempt order, as long as the driver
    /// holds them.
    pub errors: Seq<E>,
}

impl<M, E> DriverState<M, E> {
    /// The state of a driver that was given `endpoints` and has done nothing yet.
    pub open spec fn initial(endpoints: Seq<M>) -> Self {
        DriverState { phase: Phase::Idle, remaining: endpoints, errors: Seq::empty() }
    }

    /// Whether the terminal outcome has been handed out.
    pub open spec fn is_terminal(self) -> bool {
        self.phase == Phase::Succeeded || self.phase == Phase::Exhausted
    }

    /// The move out of an idle state: the next endpoint is dispatched, or, when none is
    /// left, the driver gives up and hands out the errors it collected.
    pub open spec fn advance<T>(self) -> (Self, ActionView<M, T, E>) {
        if self.remaining.len() > 0 {
            (
                DriverState {
                    phase: Phase::Attempting,
                    remaining: self.remaining.drop_first(),
                    errors: self.errors,
                },
                ActionView::Dispatch(self.remaining.first()),
            )
        } else {
            (
                DriverState {
                    phase: Phase::Exhausted,
                    remaining: self.remaining,
                    errors: Seq::empty(),
                },
                ActionView::Fail(self.errors),
            )
        }
    }

    /// One step of the machine: the state that follows `self` on `event`, and the action
    /// the host is told to take.
    ///
    /// A terminal state absorbs every event. While an operation is outstanding, `Pending`
    /// changes nothing, `Ready` ends the run with the value, and `Failed` records the error
    /// and moves on at once, without another step, to the next endpoint or to exhaustion.
    /// In the idle state nothing is outstanding, so the event has nothing to report on and
    /// the driver moves on whatever it says.
    pub open spec fn step<T>(self, event: Event<T, E>) -> (Self, ActionView<M, T, E>) {
        match self.phase {
            Phase::Succeeded | Phase::Exhausted => (self, ActionView::Finished),
            Phase::Idle => self.advance(),
            Phase::Attempting => match event {
                Event::Pending => (self, ActionView::Wait),
                Event::Ready(item) => (
                    DriverState { phase: Phase::Succeeded, ..self },
                    ActionView::Succeed(item),
                ),
                Event::Failed(error) => DriverState {
                    phase: Phase::Idle,
                    errors: self.errors.push(error),
                    ..self
                }.advance(),
            },
        }
    }
}

/// The failover driver: the endpoints not attempted yet, the errors collected so far, and
/// the phase it is in.
#[must_use]
pub struct FirstOk<M, E> {
    members: EndpointSequencer<M>,
    errors: Vec<E>,
    phase: Phase,
}

impl<M, E> View for FirstOk<M, E> {
    type V = DriverState<M, E>;

    closed spec fn view(&self) -> DriverState<M, E> {
        DriverState { phase: self.phase, remaining: self.members@, errors: self.errors@ }
    }
}

/// Makes a driver that will attempt `members` from first to last. Nothing is dispatched
/// before the first call of [`FirstOk::poll`].
pub fn first_ok<M, E>(members: Vec<M>) -> (driver: FirstOk<M, E>)
    ensures
        driver@ == DriverState::<M, E>::initial(members@),
{
    let errors = Vec::with_capacity(members.len());
    FirstOk { members: EndpointSequencer::new(members), errors, phase: Phase::Idle }
}

impl<M, E> FirstOk<M, E> {
    /// Takes one step on `event` and returns what the host has to do next. State and
    /// action are those of [`DriverState::step`].
    pub fn poll<T>(&mut self, event: Event<T, E>) -> (action: Action<M, T, E>)
        ensures
            (final(self)@, action@) == old(self)@.step(event),
    {
        match self.phase {
            Phase::Succeeded | Phase::Exhausted => {
                return Action::Finished;
            },
            Phase::Idle => {},
            Phase::Attempting => match event {
                Event::Pending => {
                    return Action::Wait;
                },
                Event::Ready(item) => {
                    self.phase = Phase::Succeeded;
                    return Action::Succeed(item);
                },
                Event::Failed(error) => {
                    self.errors.push(error);
                },
            },
        }
        match self.members.next() {
            Some(member) => {
                self.phase = Phase::Attempting;
                Action::Dispatch(member)
            },
            None => {
                self.phase = Phase::Exhausted;
                let mut errors = Vec::new();
                std::mem::swap(&mut self.errors, &mut errors);
                Action::Fail(errors)
            },
        }
    }

    /// The phase the driver is in.
    pub fn phase(&self) -> (phase: Phase)
        ensures
            phase == self@.phase,
    {
        self.phase
    }

    /// The number of endpoints not attempted yet.
    pub fn remaining(&self) -> (count: usize)
        ensures
            count == self@.remaining.len(),
    {
        self.members.remaining()
    }

    /// The number of errors the driver holds: one for each endpoint that has failed, until
    /// they are handed out on exhaustion.
    pub fn collected(&self) -> (count: usize)
        ensures
            count == self@.errors.len(),
    {
        self.errors.len()
    }
}

/// Whether `operation` can fail on the first endpoints of `endpoints`, one after the other,
/// with exactly `errors`.
pub open spec fn fails_with<M, T, E, F: Fn(&M) -> Result<T, E>>(
    operation: F,
    endpoints: Seq<M>,
    errors: Seq<E>,
) -> bool {
    &&& errors.len() <= endpoints.len()
    &&& forall|i: int|
        0 <= i < errors.len() ==> call_ensures(
            operation,
            (&endpoints[i],),
            Err::<T, E>(#[trigger] errors[i]),
        )
}

/// Runs the failover against an operation that resolves before it returns: `operation` is
/// called on `members` from first to last until it succeeds.
///
/// The result is the first success, reached after every earlier endpoint failed; or, when
/// every endpoint failed, the errors of all of them in the order of `members`.
pub fn first_ok_blocking<M, T, E, F>(members: Vec<M>, operation: F) -> (outcome: Result<
    T,
    Vec<E>,
>) where F: Fn(&M) -> Result<T, E>
    requires
        forall|i: int|
            0 <= i < members@.len() ==> call_requires(operation, (&#[trigger] members@[i],)),
    ensures
        (match outcome {
            Ok(item) => exists|errors: Seq<E>|
                {
                    &&& #[trigger] fails_with(operation, members@, errors)
                    &&& errors.len() < members@.len()
                    &&& call_ensures(
                        operation,
                        (&members@[errors.len() as int],),
                        Ok::<T, E>(item),
                    )
                },
            Err(errors) => {
                &&& errors@.len() == members@.len()
                &&& fails_with(operation, members@, errors@)
            },
        }),
{
    let ghost endpoints = members@;
    let mut driver = first_ok::<M, E>(members);
    let mut event: Event<T, E> = Event::Pending;
    loop
        invariant
            endpoints == members@,
            forall|i: int|
                0 <= i < endpoints.len() ==> call_requires(operation, (&#[trigger] endpoints[i],)),
            driver@.phase == Phase::Idle || driver@.phase == Phase::Attempting,
            driver@.phase == Phase::Idle ==> driver@ == DriverState::<M, E>::initial(endpoints),
            driver@.phase == Phase::Attempting ==> {
                let attempted = driver@.errors.len() as int;
                &&& attempted < endpoints.len()
                &&& driver@.remaining == endpoints.skip(attempted + 1)
                &&& fails_with(operation, endpoints, driver@.errors)
                &&& match event {
                    Event::Pending => false,
                    Event::Ready(item) => call_ensures(
                        operation,
                        (&endpoints[attempted],),
                        Ok::<T, E>(item),
                    ),
                    Event::Failed(error) => call_ensures(
                        operation,
                        (&endpoints[attempted],),
                        Err::<T, E>(error),
                    ),
                }
            },
        decreases driver@.remaining.len(),
    {
        match driver.poll(event) {
            Action::Dispatch(member) => {
                event = match operation(&member) {
                    Ok(item) => Event::Ready(item),
                    Err(error) => Event::Failed(error),
                };
            },
            Action::Succeed(item) => {
                return Ok(item);
            },
            Action::Fail(errors) => {
                return Err(errors);
            },
            Action::Wait | Action::Finished => {
                return vstd::pervasive::unreached();
            },
        }
    }
}

} // verus!
