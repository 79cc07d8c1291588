//! Runs of the failover machine: what a driver does over a whole sequence of events, and
//! what holds of every such run.

use vstd::prelude::*;
use crate::failover::{ActionView, DriverState, Event, Phase};

verus! {

/// Where a run has arrived, and the actions it told the host to take on the way.
#[verifier::ext_equal]
pub struct Trace<M, T, E> {
    /// The state after the last event.
    pub state: DriverState<M, E>,
    /// The action taken on each event, in order.
    pub actions: Seq<ActionView<M, T, E>>,
}

/// The run of a driver that starts in `start` and is stepped with `events` in order.
pub open spec fn run<M, T, E>(start: DriverState<M, E>, events: Seq<Event<T, E>>) -> Trace<
    M,
    T,
    E,
>
    decreases events.len(),
{
    if events.len() == 0 {
        Trace { state: start, actions: Seq::empty() }
    } else {
        let before = run(start, events.drop_last());
        let (state, action) = before.state.step(events.last());
        Trace { state, actions: before.actions.push(action) }
    }
}

/// The run of a host that starts a driver on `endpoints`: the opening step, on which there
/// is nothing to report, and then `events` in order.
pub open spec fn started<M, T, E>(endpoints: Seq<M>, events: Seq<Event<T, E>>) -> Trace<
    M,
    T,
    E,
> {
    run(DriverState::initial(endpoints), seq![Event::Pending] + events)
}

/// The reports of an operation that fails with `errors`, on one endpoint after the other.
pub open spec fn failures<T, E>(errors: Seq<E>) -> Seq<Event<T, E>> {
    errors.map_values(|error: E| Event::Failed(error))
}

/// The actions that dispatch `endpoints` one after the other.
pub open spec fn dispatches<M, T, E>(endpoints: Seq<M>) -> Seq<ActionView<M, T, E>> {
    endpoints.map_values(|endpoint: M| ActionView::Dispatch(endpoint))
}

/// The endpoints that `actions` dispatch, in order.
pub open spec fn dispatched<M, T, E>(actions: Seq<ActionView<M, T, E>>) -> Seq<M>
    decreases actions.len(),
{
    if actions.len() == 0 {
        Seq::empty()
    } else {
        let earlier = dispatched(actions.drop_last());
        match actions.last() {
            ActionView::Dispatch(endpoint) => earlier.push(endpoint),
            _ => earlier,
        }
    }
}

/// The events that report a resolution: all but `Pending`.
pub open spec fn resolutions<T, E>(events: Seq<Event<T, E>>) -> Seq<Event<T, E>> {
    events.filter(|event: Event<T, E>| event !is Pending)
}

/// The actions that make the host do something or hand it the outcome: all but `Wait`
/// and `Finished`.
pub open spec fn effects<M, T, E>(actions: Seq<ActionView<M, T, E>>) -> Seq<
    ActionView<M, T, E>,
> {
    actions.filter(|action: ActionView<M, T, E>| action !is Wait && action !is Finished)
}

/// A run over `first` and then `rest` is the run over `first`, continued from where it
/// arrived by the run over `rest`.
pub proof fn lemma_run_continues<M, T, E>(
    start: DriverState<M, E>,
    first: Seq<Event<T, E>>,
    rest: Seq<Event<T, E>>,
)
    ensures
        run(start, first + rest).state == run(run(start, first).state, rest).state,
        run(start, first + rest).actions == run(start, first).actions + run(
            run(start, first).state,
            rest,
        ).actions,
    decreases rest.len(),
{
    if rest.len() > 0 {
        lemma_run_continues(start, first, rest.drop_last());
        assert((first + rest).drop_last() =~= first + rest.drop_last());
    }
}

/// A filter keeps a sequence as it is when every element passes.
proof fn lemma_filter_keeps_all<A>(items: Seq<A>, pred: spec_fn(A) -> bool)
    requires
        forall|i: int| 0 <= i < items.len() ==> pred(#[trigger] items[i]),
    ensures
        items.filter(pred) == items,
    decreases items.len(),
{
    if items.len() > 0 {
        lemma_filter_keeps_all(items.drop_last(), pred);
        items.drop_last().lemma_filter_push(items.last(), pred);
        assert(items.drop_last().push(items.last()) =~= items);
    }
}

/// Strict sequencing: while the operation fails, the driver dispatches the endpoints one
/// at a time and in the order given. After the opening step and `errors.len()` failures,
/// with an endpoint still left to try, exactly the first `errors.len() + 1` endpoints have
/// been dispatched, the last of them is outstanding, the driver holds `errors`, and the
/// other endpoints are untouched.
pub proof fn lemma_failures_move_on<M, T, E>(endpoints: Seq<M>, errors: Seq<E>)
    requires
        errors.len() < endpoints.len(),
    ensures
        started(endpoints, failures::<T, E>(errors)) == (Trace::<M, T, E> {
            state: DriverState {
                phase: Phase::Attempting,
                remaining: endpoints.skip(errors.len() + 1 as int),
                errors,
            },
            actions: dispatches(endpoints.take(errors.len() + 1 as int)),
        }),
    decreases errors.len(),
{
    let start = DriverState::<M, E>::initial(endpoints);
    let opening = seq![Event::<T, E>::Pending];
    let events = opening + failures::<T, E>(errors);
    if errors.len() == 0 {
        // The opening step alone: the first endpoint is dispatched.
        assert(run(start, events.drop_last()).state == start);
    } else {
        // One failure more: the error is recorded and the next endpoint dispatched.
        let earlier = errors.drop_last();
        lemma_failures_move_on::<M, T, E>(endpoints, earlier);
        assert(events.drop_last() =~= opening + failures::<T, E>(earlier));
    }
}

/// First success wins. Let the operation fail on the first `errors.len()` endpoints and
/// succeed with `item` on the next one, and let the host poll as often as it likes while
/// it waits. Then the run ends in that success: the driver hands out `item`, after it has
/// dispatched the endpoints up to the successful one, once each and in order. No endpoint
/// behind the successful one is ever dispatched.
pub proof fn lemma_first_success<M, T, E>(
    endpoints: Seq<M>,
    errors: Seq<E>,
    item: T,
    events: Seq<Event<T, E>>,
)
    requires
        errors.len() < endpoints.len(),
        resolutions(events) == failures(errors).push(Event::Ready(item)),
    ensures
        started(endpoints, events).state == (DriverState {
            phase: Phase::Succeeded,
            remaining: endpoints.skip(errors.len() + 1 as int),
            errors,
        }),
        effects(started(endpoints, events).actions) == dispatches::<M, T, E>(
            endpoints.take(errors.len() + 1 as int),
        ).push(ActionView::Succeed(item)),
{
    // The host that never polls in vain reports `eager`. Its run is known step by step.
    let opening = seq![Event::<T, E>::Pending];
    let eager = failures(errors).push(Event::Ready(item));
    lemma_failures_move_on::<M, T, E>(endpoints, errors);
    assert((opening + eager).drop_last() =~= opening + failures(errors));
    // Every other host with the same resolutions arrives where that one does.
    lemma_filter_keeps_all(eager, |event: Event<T, E>| event !is Pending);
    lemma_same_outcomes_same_run(endpoints, events, eager);
    lemma_filter_keeps_all(
        started(endpoints, eager).actions,
        |action: ActionView<M, T, E>| action !is Wait && action !is Finished,
    );
}

/// Total failure. Let the operation fail on every endpoint, with `errors` in the order of
/// the attempts, and let the host poll as often as it likes while it waits. Then the run
/// ends in exhaustion: every endpoint was dispatched once, in the order given, and the
/// driver hands out `errors`, one error for each endpoint and in that same order. With no
/// endpoint at all this is the empty list of errors.
pub proof fn lemma_all_fail<M, T, E>(
    endpoints: Seq<M>,
    errors: Seq<E>,
    events: Seq<Event<T, E>>,
)
    requires
        errors.len() == endpoints.len(),
        resolutions(events) == failures::<T, E>(errors),
    ensures
        started(endpoints, events).state == (DriverState::<M, E> {
            phase: Phase::Exhausted,
            remaining: Seq::empty(),
            errors: Seq::empty(),
        }),
        effects(started(endpoints, events).actions) == dispatches::<M, T, E>(endpoints).push(
            ActionView::Fail(errors),
        ),
{
    // The host that never polls in vain reports `eager`. Its run is known step by step.
    let start = DriverState::<M, E>::initial(endpoints);
    let opening = seq![Event::<T, E>::Pending];
    let eager = failures::<T, E>(errors);
    if errors.len() == 0 {
        assert(run(start, opening.drop_last()).state == start);
        assert(errors =~= Seq::<E>::empty());
    } else {
        let earlier = errors.drop_last();
        lemma_failures_move_on::<M, T, E>(endpoints, earlier);
        assert((opening + eager).drop_last() =~= opening + failures::<T, E>(earlier));
        assert(earlier.push(errors.last()) =~= errors);
    }
    // Every other host with the same resolutions arrives where that one does.
    lemma_filter_keeps_all(eager, |event: Event<T, E>| event !is Pending);
    lemma_same_outcomes_same_run(endpoints, events, eager);
    lemma_filter_keeps_all(
        started(endpoints, eager).actions,
        |action: ActionView<M, T, E>| action !is Wait && action !is Finished,
    );
}

/// A driver without endpoints gives up on its first step, whatever the event: it hands
/// out the empty list of errors and dispatches nothing.
pub proof fn lemma_no_endpoints<M, T, E>(event: Event<T, E>)
    ensures
        DriverState::<M, E>::initial(Seq::empty()).step(event) == (
            DriverState::<M, E> {
                phase: Phase::Exhausted,
                remaining: Seq::empty(),
                errors: Seq::empty(),
            },
            ActionView::<M, T, E>::Fail(Seq::empty()),
        ),
{
}

/// Suspension: as long as the outstanding operation does not resolve, the driver stays
/// as it is and tells the host to wait. It never makes up an outcome of its own.
pub proof fn lemma_unresolved_operation_keeps_waiting<M, T, E>(
    state: DriverState<M, E>,
    events: Seq<Event<T, E>>,
)
    requires
        state.phase == Phase::Attempting,
        forall|i: int| 0 <= i < events.len() ==> #[trigger] events[i] is Pending,
    ensures
        run(state, events).state == state,
        run(state, events).actions == Seq::new(
            events.len(),
            |i: int| ActionView::<M, T, E>::Wait,
        ),
    decreases events.len(),
{
    if events.len() > 0 {
        lemma_unresolved_operation_keeps_waiting(state, events.drop_last());
    }
}

/// A terminal state is absorbing: once the outcome has been handed out, no event changes
/// the driver, and every step answers `Finished`. So a run hands out one outcome at most.
pub proof fn lemma_terminal_state_absorbs<M, T, E>(
    state: DriverState<M, E>,
    events: Seq<Event<T, E>>,
)
    requires
        state.is_terminal(),
    ensures
        run(state, events).state == state,
        run(state, events).actions == Seq::new(
            events.len(),
            |i: int| ActionView::<M, T, E>::Finished,
        ),
    decreases events.len(),
{
    if events.len() > 0 {
        lemma_terminal_state_absorbs(state, events.drop_last());
    }
}

/// One at a time: an endpoint is dispatched only when nothing is outstanding, that is on
/// the opening step or on the report that the outstanding operation failed, and from then
/// on that endpoint's operation is the outstanding one.
pub proof fn lemma_one_at_a_time<M, T, E>(state: DriverState<M, E>, event: Event<T, E>)
    requires
        state.step(event).1 is Dispatch,
    ensures
        state.phase == Phase::Idle || (state.phase == Phase::Attempting && event is Failed),
        state.step(event).0.phase == Phase::Attempting,
{
}

/// No error is lost: after a step the errors collected before it are still there, in
/// their order, at the front of what the driver holds or, on exhaustion, of what it hands
/// out.
pub proof fn lemma_errors_are_kept<M, T, E>(state: DriverState<M, E>, event: Event<T, E>)
    ensures
        (match state.step(event).1 {
            ActionView::Fail(handed_out) => state.errors.is_prefix_of(handed_out),
            _ => state.errors.is_prefix_of(state.step(event).0.errors),
        }),
{
}

/// Attempts follow the list: over any run, the endpoints dispatched, in the order of
/// their dispatch, followed by those not attempted yet, are the endpoints the run started
/// with. So no endpoint is skipped, tried twice or tried out of turn.
pub proof fn lemma_attempts_follow_the_list<M, T, E>(
    start: DriverState<M, E>,
    events: Seq<Event<T, E>>,
)
    ensures
        dispatched(run(start, events).actions) + run(start, events).state.remaining
            == start.remaining,
    decreases events.len(),
{
    if events.len() > 0 {
        lemma_attempts_follow_the_list(start, events.drop_last());
        assert(run(start, events).actions.drop_last() =~= run(
            start,
            events.drop_last(),
        ).actions);
    }
}

/// Every endpoint is accounted for: at any point of a run that started on `endpoints`,
/// each endpoint is still to be attempted, or is the one outstanding or successful, or has
/// left the driver one error. So while the run lasts, the driver holds as many errors as
/// endpoints have failed.
pub proof fn lemma_every_endpoint_is_accounted_for<M, T, E>(
    endpoints: Seq<M>,
    events: Seq<Event<T, E>>,
)
    ensures
        ({
            let state = run(DriverState::initial(endpoints), events).state;
            match state.phase {
                Phase::Idle => state == DriverState::<M, E>::initial(endpoints),
                Phase::Attempting | Phase::Succeeded => state.errors.len() + 1
                    + state.remaining.len() == endpoints.len(),
                Phase::Exhausted => state.errors.len() == 0 && state.remaining.len() == 0,
            }
        }),
    decreases events.len(),
{
    if events.len() > 0 {
        lemma_every_endpoint_is_accounted_for(endpoints, events.drop_last());
    }
}

/// Once the first endpoint is dispatched, only resolutions count: a step that reports
/// nothing new changes nothing, so a run arrives where the run over its resolutions alone
/// arrives, and has the same effects.
pub proof fn lemma_polling_changes_nothing<M, T, E>(
    start: DriverState<M, E>,
    events: Seq<Event<T, E>>,
)
    requires
        start.phase != Phase::Idle,
    ensures
        run(start, events).state.phase != Phase::Idle,
        run(start, events).state == run(start, resolutions(events)).state,
        effects(run(start, events).actions) == effects(
            run(start, resolutions(events)).actions,
        ),
    decreases events.len(),
{
    let pending = |event: Event<T, E>| event !is Pending;
    let effect = |action: ActionView<M, T, E>| action !is Wait && action !is Finished;
    if events.len() > 0 {
        let earlier = events.drop_last();
        let last = events.last();
        lemma_polling_changes_nothing(start, earlier);
        assert(earlier.push(last) =~= events);
        earlier.lemma_filter_push(last, pending);
        let action = run(start, earlier).state.step(last).1;
        run(start, earlier).actions.lemma_filter_push(action, effect);
        if last !is Pending {
            // The resolution is the last step of both runs, and both take it alike.
            let short = resolutions(earlier);
            assert(short.push(last).drop_last() =~= short);
            run(start, short).actions.lemma_filter_push(action, effect);
        }
    }
}

/// Runs that see the same resolutions go alike. Two hosts that start a driver on the same
/// endpoints and whose operations resolve the same way, in the same order, are told to
/// dispatch the same endpoints in the same order and are handed the same outcome,
/// however often each of them polled in between.
pub proof fn lemma_same_outcomes_same_run<M, T, E>(
    endpoints: Seq<M>,
    first: Seq<Event<T, E>>,
    second: Seq<Event<T, E>>,
)
    requires
        resolutions(first) == resolutions(second),
    ensures
        started(endpoints, first).state == started(endpoints, second).state,
        effects(started(endpoints, first).actions) == effects(
            started(endpoints, second).actions,
        ),
{
    let start = DriverState::<M, E>::initial(endpoints);
    let opening = seq![Event::<T, E>::Pending];
    let effect = |action: ActionView<M, T, E>| action !is Wait && action !is Finished;
    let opened = run(start, opening);
    lemma_run_continues(start, opening, first);
    lemma_run_continues(start, opening, second);
    lemma_polling_changes_nothing(opened.state, first);
    lemma_polling_changes_nothing(opened.state, second);
    Seq::filter_distributes_over_add(opened.actions, run(opened.state, first).actions, effect);
    Seq::filter_distributes_over_add(opened.actions, run(opened.state, second).actions, effect);
}

} // verus!
