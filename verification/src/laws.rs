//! The bridge's delivery guarantees, stated and proved over whole
//! runs of the Event Loop Task's state machine: strict FIFO delivery
//! with the Init replay first, abort on a protocol violation, silent
//! shutdown without side effects on constructor decline, and
//! guaranteed release of the resize observation.

use vstd::prelude::*;

use crate::canvas::{CanvasEvent, CanvasInitEvent};
use crate::event_loop::{
    deregistration_count, invoked_events, item_inputs, registration_count, run_spec, step_spec,
    EventLoopAction, EventLoopInput, EventLoopState, TerminationCause,
};

verus! {

proof fn lemma_counts_empty<T>()
    ensures
        invoked_events::<T>(Seq::empty()) == Seq::<CanvasEvent<T>>::empty(),
        registration_count::<T>(Seq::empty()) == 0,
        deregistration_count::<T>(Seq::empty()) == 0,
{
}

proof fn lemma_counts_singleton<T>(a: EventLoopAction<T>)
    ensures
        a matches EventLoopAction::Invoke { event } ==> invoked_events(seq![a]) == seq![event],
        a !is Invoke ==> invoked_events(seq![a]) == Seq::<CanvasEvent<T>>::empty(),
        registration_count(seq![a]) == (if a is RegisterResizeObserver {
            1nat
        } else {
            0nat
        }),
        deregistration_count(seq![a]) == (if a is DeregisterResizeObserver {
            1nat
        } else {
            0nat
        }),
{
    lemma_counts_empty::<T>();
    assert(seq![a].drop_first() =~= Seq::<EventLoopAction<T>>::empty());
    if a is Invoke {
        assert(invoked_events(seq![a]) =~= seq![a->event]);
    } else {
        assert(invoked_events(seq![a]) =~= Seq::<CanvasEvent<T>>::empty());
    }
}

proof fn lemma_run_spec_singleton<T>(state: EventLoopState, input: EventLoopInput<T>)
    ensures
        run_spec(state, seq![input]).0 == step_spec(state, input).0,
        run_spec(state, seq![input]).1 == step_spec(state, input).1,
{
    let s = seq![input];
    assert(s.drop_first() =~= Seq::<EventLoopInput<T>>::empty());
    let mid = step_spec(state, input);
    assert(run_spec(mid.0, Seq::<EventLoopInput<T>>::empty()).1
        =~= Seq::<EventLoopAction<T>>::empty());
    assert(run_spec(state, s).1 =~= mid.1);
}

/// Dispatch commutes with concatenation of action lists.
pub proof fn lemma_invoked_events_concat<T>(a: Seq<EventLoopAction<T>>, b: Seq<EventLoopAction<T>>)
    ensures
        invoked_events(a + b) == invoked_events(a) + invoked_events(b),
    decreases a.len(),
{
    if a.len() == 0 {
        assert(a + b =~= b);
        assert(invoked_events(a) + invoked_events(b) =~= invoked_events(b));
    } else {
        assert((a + b).drop_first() =~= a.drop_first() + b);
        assert((a + b)[0] == a[0]);
        lemma_invoked_events_concat(a.drop_first(), b);
        if a[0] is Invoke {
            assert(seq![a[0]->event] + (invoked_events(a.drop_first()) + invoked_events(b))
                =~= (seq![a[0]->event] + invoked_events(a.drop_first())) + invoked_events(b));
        }
    }
}

/// Registration counting commutes with concatenation of action lists.
pub proof fn lemma_registration_count_concat<T>(
    a: Seq<EventLoopAction<T>>,
    b: Seq<EventLoopAction<T>>,
)
    ensures
        registration_count(a + b) == registration_count(a) + registration_count(b),
    decreases a.len(),
{
    if a.len() == 0 {
        assert(a + b =~= b);
    } else {
        assert((a + b).drop_first() =~= a.drop_first() + b);
        assert((a + b)[0] == a[0]);
        lemma_registration_count_concat(a.drop_first(), b);
    }
}

/// Deregistration counting commutes with concatenation of action
/// lists.
pub proof fn lemma_deregistration_count_concat<T>(
    a: Seq<EventLoopAction<T>>,
    b: Seq<EventLoopAction<T>>,
)
    ensures
        deregistration_count(a + b) == deregistration_count(a) + deregistration_count(b),
    decreases a.len(),
{
    if a.len() == 0 {
        assert(a + b =~= b);
    } else {
        assert((a + b).drop_first() =~= a.drop_first() + b);
        assert((a + b)[0] == a[0]);
        lemma_deregistration_count_concat(a.drop_first(), b);
    }
}

/// A run over concatenated inputs is the run over the first part
/// followed by the run over the second, and emits the two runs'
/// actions in order.
pub proof fn lemma_run_spec_concat<T>(
    state: EventLoopState,
    a: Seq<EventLoopInput<T>>,
    b: Seq<EventLoopInput<T>>,
)
    ensures
        run_spec(state, a + b).0 == run_spec(run_spec(state, a).0, b).0,
        run_spec(state, a + b).1 == run_spec(state, a).1 + run_spec(run_spec(state, a).0, b).1,
    decreases a.len(),
{
    if a.len() == 0 {
        assert(a + b =~= b);
        assert(run_spec(state, a).1 + run_spec(run_spec(state, a).0, b).1
            =~= run_spec(state, b).1);
    } else {
        assert((a + b).drop_first() =~= a.drop_first() + b);
        assert((a + b)[0] == a[0]);
        let mid = step_spec(state, a[0]);
        lemma_run_spec_concat(mid.0, a.drop_first(), b);
        assert(mid.1 + (run_spec(mid.0, a.drop_first()).1
            + run_spec(run_spec(mid.0, a.drop_first()).0, b).1)
            =~= (mid.1 + run_spec(mid.0, a.drop_first()).1)
                + run_spec(run_spec(mid.0, a.drop_first()).0, b).1);
    }
}

/// A terminated task is inert: whatever arrives afterwards, the state
/// never changes and no action of any kind is emitted — in particular
/// no event reaches the handler and no observation is registered or
/// released after the end.
pub proof fn lemma_terminated_is_inert<T>(
    cause: TerminationCause,
    inputs: Seq<EventLoopInput<T>>,
)
    ensures
        run_spec::<T>(EventLoopState::Terminated { cause }, inputs).0
            == (EventLoopState::Terminated { cause }),
        run_spec::<T>(EventLoopState::Terminated { cause }, inputs).1
            == (Seq::<EventLoopAction<T>>::empty()),
    decreases inputs.len(),
{
    if inputs.len() > 0 {
        lemma_terminated_is_inert::<T>(cause, inputs.drop_first());
        assert(run_spec::<T>(EventLoopState::Terminated { cause }, inputs).1
            =~= Seq::<EventLoopAction<T>>::empty());
    }
}

/// FIFO delivery while running: from RUNNING, a sequence of arriving
/// channel items is dispatched to the handler one for one, in exactly
/// arrival order, with no further registration or release, and the
/// task stays RUNNING.
pub proof fn lemma_running_delivers_in_order<T>(events: Seq<CanvasEvent<T>>)
    ensures
        run_spec::<T>(EventLoopState::Running, item_inputs(events)).0 == EventLoopState::Running,
        invoked_events(run_spec::<T>(EventLoopState::Running, item_inputs(events)).1) == events,
        registration_count(run_spec::<T>(EventLoopState::Running, item_inputs(events)).1) == 0,
        deregistration_count(run_spec::<T>(EventLoopState::Running, item_inputs(events)).1) == 0,
    decreases events.len(),
{
    let inputs = item_inputs(events);
    lemma_counts_empty::<T>();
    if events.len() == 0 {
        assert(inputs == Seq::<EventLoopInput<T>>::empty());
        assert(run_spec::<T>(EventLoopState::Running, inputs).1
            == Seq::<EventLoopAction<T>>::empty());
        assert(events =~= Seq::<CanvasEvent<T>>::empty());
    } else {
        let head = seq![EventLoopInput::Item(events[0])];
        let tail = item_inputs(events.drop_first());
        assert(inputs == head + tail);
        lemma_run_spec_concat(EventLoopState::Running, head, tail);
        lemma_run_spec_singleton(EventLoopState::Running, EventLoopInput::Item(events[0]));
        lemma_running_delivers_in_order::<T>(events.drop_first());
        let first = run_spec::<T>(EventLoopState::Running, head);
        let rest = run_spec::<T>(EventLoopState::Running, tail);
        assert(first.0 == EventLoopState::Running);
        assert(first.1 == seq![EventLoopAction::Invoke { event: events[0] }]);
        lemma_invoked_events_concat(first.1, rest.1);
        lemma_registration_count_concat(first.1, rest.1);
        lemma_deregistration_count_concat(first.1, rest.1);
        lemma_counts_singleton::<T>(EventLoopAction::Invoke { event: events[0] });
        assert(seq![events[0]] + events.drop_first() =~= events);
    }
}

/// The conforming session: Init arrives first, the constructor
/// accepts, and further channel items follow.  The task reaches and
/// stays in RUNNING; the resize observation is registered exactly
/// once and never released while running; and the handler observes
/// the replayed Init first, then every further event, one for one, in
/// exactly arrival order.
pub proof fn lemma_session_delivers_in_order<T>(
    init: CanvasInitEvent,
    events: Seq<CanvasEvent<T>>,
)
    ensures
        ({
            let inputs = seq![
                EventLoopInput::Item(CanvasEvent::<T>::Init(init)),
                EventLoopInput::Constructed,
            ] + item_inputs(events);
            let r = run_spec::<T>(EventLoopState::WaitingInit, inputs);
            &&& r.0 == EventLoopState::Running
            &&& invoked_events(r.1) == seq![CanvasEvent::<T>::Init(init)] + events
            &&& registration_count(r.1) == 1
            &&& deregistration_count(r.1) == 0
        }),
{
    let i0 = EventLoopInput::Item(CanvasEvent::<T>::Init(init));
    let i1 = EventLoopInput::<T>::Constructed;
    let prefix = seq![i0, i1];
    let rest = item_inputs(events);
    assert(prefix =~= seq![i0] + seq![i1]);
    lemma_run_spec_concat(EventLoopState::WaitingInit, seq![i0], seq![i1]);
    lemma_run_spec_singleton(EventLoopState::WaitingInit, i0);
    lemma_run_spec_singleton(EventLoopState::Constructing { init }, i1);
    lemma_run_spec_concat(EventLoopState::WaitingInit, prefix, rest);
    lemma_running_delivers_in_order::<T>(events);

    let construction = EventLoopAction::<T>::StartConstruction { canvas: init.canvas };
    let register = EventLoopAction::<T>::RegisterResizeObserver { canvas: init.canvas };
    let replay = EventLoopAction::<T>::Invoke { event: CanvasEvent::<T>::Init(init) };
    let pr = run_spec::<T>(EventLoopState::WaitingInit, prefix);
    assert(pr.0 == EventLoopState::Running);
    let a1 = seq![construction];
    let a23 = seq![register, replay];
    assert(pr.1 =~= a1 + a23);
    assert(a23 =~= seq![register] + seq![replay]);
    lemma_invoked_events_concat(seq![register], seq![replay]);
    lemma_invoked_events_concat(a1, a23);
    lemma_registration_count_concat(seq![register], seq![replay]);
    lemma_registration_count_concat(a1, a23);
    lemma_deregistration_count_concat(seq![register], seq![replay]);
    lemma_deregistration_count_concat(a1, a23);
    lemma_counts_singleton::<T>(construction);
    lemma_counts_singleton::<T>(register);
    lemma_counts_singleton::<T>(replay);
    assert(invoked_events(pr.1) =~= seq![CanvasEvent::<T>::Init(init)]);
    assert(registration_count(pr.1) == 1);
    assert(deregistration_count(pr.1) == 0);

    let rr = run_spec::<T>(EventLoopState::Running, rest);
    lemma_invoked_events_concat(pr.1, rr.1);
    lemma_registration_count_concat(pr.1, rr.1);
    lemma_deregistration_count_concat(pr.1, rr.1);
}

/// Protocol violation: if the first consumed channel item is not
/// Init, the task aborts at once — TERMINATED with ProtocolViolation —
/// and whatever arrives afterwards, the handler is never invoked and
/// no resize observation is ever registered.
pub proof fn lemma_non_init_first_aborts<T>(
    first: CanvasEvent<T>,
    rest: Seq<EventLoopInput<T>>,
)
    requires
        first !is Init,
    ensures
        ({
            let inputs = seq![EventLoopInput::Item(first)] + rest;
            let r = run_spec::<T>(EventLoopState::WaitingInit, inputs);
            &&& r.0 == (EventLoopState::Terminated {
                cause: TerminationCause::ProtocolViolation,
            })
            &&& invoked_events(r.1) == Seq::<CanvasEvent<T>>::empty()
            &&& registration_count(r.1) == 0
        }),
{
    let head = seq![EventLoopInput::Item(first)];
    lemma_run_spec_concat(EventLoopState::WaitingInit, head, rest);
    lemma_run_spec_singleton(EventLoopState::WaitingInit, EventLoopInput::Item(first));
    let hr = run_spec::<T>(EventLoopState::WaitingInit, head);
    assert(hr.0 == (EventLoopState::Terminated { cause: TerminationCause::ProtocolViolation }));
    lemma_terminated_is_inert::<T>(TerminationCause::ProtocolViolation, rest);
    lemma_counts_empty::<T>();
    assert(hr.1 + run_spec::<T>(hr.0, rest).1 =~= Seq::<EventLoopAction<T>>::empty());
}

/// Constructor decline: a silent, successful shutdown.  The task
/// reaches TERMINATED with ConstructorDecline, and whatever arrives
/// afterwards, the handler is never invoked and the resize
/// observation is never registered — declining has no side effect.
pub proof fn lemma_decline_is_silent<T>(init: CanvasInitEvent, rest: Seq<EventLoopInput<T>>)
    ensures
        ({
            let inputs = seq![
                EventLoopInput::Item(CanvasEvent::<T>::Init(init)),
                EventLoopInput::Declined,
            ] + rest;
            let r = run_spec::<T>(EventLoopState::WaitingInit, inputs);
            &&& r.0 == (EventLoopState::Terminated {
                cause: TerminationCause::ConstructorDecline,
            })
            &&& invoked_events(r.1) == Seq::<CanvasEvent<T>>::empty()
            &&& registration_count(r.1) == 0
        }),
{
    let i0 = EventLoopInput::Item(CanvasEvent::<T>::Init(init));
    let i1 = EventLoopInput::<T>::Declined;
    let prefix = seq![i0, i1];
    assert(prefix =~= seq![i0] + seq![i1]);
    lemma_run_spec_concat(EventLoopState::WaitingInit, seq![i0], seq![i1]);
    lemma_run_spec_singleton(EventLoopState::WaitingInit, i0);
    lemma_run_spec_singleton(EventLoopState::Constructing { init }, i1);
    lemma_run_spec_concat(EventLoopState::WaitingInit, prefix, rest);
    let construction = EventLoopAction::<T>::StartConstruction { canvas: init.canvas };
    let pr = run_spec::<T>(EventLoopState::WaitingInit, prefix);
    assert(pr.0 == (EventLoopState::Terminated { cause: TerminationCause::ConstructorDecline }));
    assert(pr.1 =~= seq![construction]);
    lemma_terminated_is_inert::<T>(TerminationCause::ConstructorDecline, rest);
    lemma_counts_singleton::<T>(construction);
    let whole = pr.1 + run_spec::<T>(pr.0, rest).1;
    assert(whole =~= seq![construction]);
}

/// Closure teardown: from RUNNING, once the channel closes the task
/// releases the resize observation exactly once and terminates; the
/// only actions of the whole run are the FIFO dispatches of the items
/// that arrived before closure, followed by the single release, and
/// nothing at all afterwards.
pub proof fn lemma_closure_releases_observation<T>(
    events: Seq<CanvasEvent<T>>,
    rest: Seq<EventLoopInput<T>>,
)
    ensures
        ({
            let inputs = item_inputs(events) + (seq![EventLoopInput::<T>::Closed] + rest);
            let r = run_spec::<T>(EventLoopState::Running, inputs);
            &&& r.0 == (EventLoopState::Terminated { cause: TerminationCause::ChannelClosed })
            &&& invoked_events(r.1) == events
            &&& registration_count(r.1) == 0
            &&& deregistration_count(r.1) == 1
        }),
{
    let close = seq![EventLoopInput::<T>::Closed];
    lemma_run_spec_concat(EventLoopState::Running, item_inputs(events), close + rest);
    lemma_running_delivers_in_order::<T>(events);
    let er = run_spec::<T>(EventLoopState::Running, item_inputs(events));

    lemma_run_spec_concat(EventLoopState::Running, close, rest);
    lemma_run_spec_singleton(EventLoopState::Running, EventLoopInput::<T>::Closed);
    let cr = run_spec::<T>(EventLoopState::Running, close);
    assert(cr.0 == (EventLoopState::Terminated { cause: TerminationCause::ChannelClosed }));
    assert(cr.1 == seq![EventLoopAction::<T>::DeregisterResizeObserver]);
    lemma_terminated_is_inert::<T>(TerminationCause::ChannelClosed, rest);
    let tail = run_spec::<T>(EventLoopState::Running, close + rest).1;
    assert(tail =~= cr.1);

    lemma_invoked_events_concat(er.1, tail);
    lemma_registration_count_concat(er.1, tail);
    lemma_deregistration_count_concat(er.1, tail);
    lemma_counts_singleton::<T>(EventLoopAction::<T>::DeregisterResizeObserver);
    assert(invoked_events(er.1) + invoked_events(tail) =~= events);
}

} // verus!
