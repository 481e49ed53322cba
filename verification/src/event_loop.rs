//! The Event Loop Task's lazy-construction state machine.
//!
//! The task itself is one cooperative unit of work in the embedding's
//! single-threaded scheduler; its only suspension points are awaiting
//! the next channel item and awaiting the handler constructor's
//! result.  Those decisions are captured here as an explicit state
//! machine: each suspension outcome becomes an input, and everything
//! the task does in response becomes an ordered list of actions for
//! the driving loop to perform (invoke the constructor, register or
//! deregister the resize observation, dispatch an event to the
//! handler).

use vstd::prelude::*;

use crate::canvas::{CanvasEvent, CanvasInitEvent, SurfaceHandle};
use crate::channel::EventChannel;

verus! {

/// The stateful handler owning all renderer-facing mutable state.  It
/// is implemented once per embedding application and invoked once per
/// event, never concurrently: the Event Loop Task is its single
/// caller, and dispatch never overlaps itself.
pub trait CanvasEventHandler<T> {
    /// Reacts to one event.  Expected to return promptly and never
    /// suspend: no call here may block the single-threaded loop.
    fn handle(&mut self, event: CanvasEvent<T>);
}

/// Why the Event Loop Task ended.
#[derive(Clone, Copy, PartialEq, Eq, Structural, Debug)]
pub enum TerminationCause {
    /// The first consumed item was not Init (or the channel closed
    /// before any item arrived): a broken embedding contract, fatal
    /// and unrecoverable.
    ProtocolViolation,
    /// The handler constructor yielded no handler: a graceful, silent
    /// shutdown, not an error.
    ConstructorDecline,
    /// The platform refused to register the resize observation:
    /// fatal at construction time, no retry.
    RegistrationFailure,
    /// Every producer handle was dropped and the queue drained: the
    /// task's natural end.
    ChannelClosed,
}

/// The Event Loop Task's state.
#[derive(Clone, Copy, PartialEq, Eq, Structural, Debug)]
pub enum EventLoopState {
    /// Initial: suspended awaiting the first channel item, which must
    /// be Init.
    WaitingInit,
    /// Suspended awaiting the handler constructor, which was given the
    /// surface handle from the consumed Init event.  The whole Init
    /// payload is retained so it can be replayed into the handler.
    Constructing { init: CanvasInitEvent },
    /// The handler exists and the resize observation is registered;
    /// every further channel item is dispatched to the handler in
    /// arrival order.
    Running,
    /// The task has ended; the channel closes and nothing further
    /// happens.
    Terminated { cause: TerminationCause },
}

impl EventLoopState {
    /// The state of a freshly spawned task.
    pub fn initial() -> (s: Self)
        ensures
            s == EventLoopState::WaitingInit,
    {
        EventLoopState::WaitingInit
    }
}

/// One suspension outcome handed to the state machine by the driving
/// loop.
#[derive(Clone, PartialEq, Eq, Debug)]
pub enum EventLoopInput<T> {
    /// The next channel item arrived.
    Item(CanvasEvent<T>),
    /// The channel closed: every producer handle was dropped.
    Closed,
    /// The handler constructor produced a handler.
    Constructed,
    /// The handler constructor declined.
    Declined,
    /// The platform refused to register the resize observation.
    RegistrationFailed,
}

/// One action the driving loop must perform, in list order.  A fatal
/// failure while performing an action (the platform refusing the
/// registration) aborts the remainder of the list and comes back as
/// the next input.
#[derive(Clone, PartialEq, Eq, Debug)]
pub enum EventLoopAction<T> {
    /// Invoke the handler constructor with the mounted surface and
    /// await its result.
    StartConstruction { canvas: SurfaceHandle },
    /// Register the resize observation for the mounted surface.
    RegisterResizeObserver { canvas: SurfaceHandle },
    /// Dispatch one event to the handler, synchronously.
    Invoke { event: CanvasEvent<T> },
    /// Release the resize observation.
    DeregisterResizeObserver,
}

/// Which inputs a conforming driver can hand the machine in each
/// state: channel outcomes while the task awaits the channel,
/// constructor outcomes while it awaits the constructor, and the
/// registration outcome only once registration has been requested.
pub open spec fn accepts<T>(state: EventLoopState, input: EventLoopInput<T>) -> bool {
    match state {
        EventLoopState::WaitingInit => input is Item || input is Closed,
        EventLoopState::Constructing { .. } => input is Constructed || input is Declined,
        EventLoopState::Running => input is Item || input is Closed
            || input is RegistrationFailed,
        EventLoopState::Terminated { .. } => true,
    }
}

/// The transition function: the next state and the ordered actions
/// emitted, for one input.
///
/// - WaitingInit: an Init item starts construction; any other item is
///   a protocol violation and aborts the task; closure before the
///   first item likewise ends it, with nothing to tear down.
/// - Constructing: success enters Running, which registers the resize
///   observation and then replays the consumed Init event into the
///   handler, so the handler's very first invocation is always Init;
///   decline terminates silently, with no registration side effect.
/// - Running: every item is dispatched to the handler in arrival
///   order; closure terminates and releases the observation; a
///   registration refusal terminates with nothing registered.
/// - Terminated is absorbing and emits nothing.
pub open spec fn step_spec<T>(state: EventLoopState, input: EventLoopInput<T>) -> (
    EventLoopState,
    Seq<EventLoopAction<T>>,
) {
    match state {
        EventLoopState::WaitingInit => match input {
            EventLoopInput::Item(event) => match event {
                CanvasEvent::Init(init) => (
                    EventLoopState::Constructing { init },
                    seq![EventLoopAction::StartConstruction { canvas: init.canvas }],
                ),
                _ => (
                    EventLoopState::Terminated { cause: TerminationCause::ProtocolViolation },
                    Seq::empty(),
                ),
            },
            EventLoopInput::Closed => (
                EventLoopState::Terminated { cause: TerminationCause::ProtocolViolation },
                Seq::empty(),
            ),
            _ => (state, Seq::empty()),
        },
        EventLoopState::Constructing { init } => match input {
            EventLoopInput::Constructed => (
                EventLoopState::Running,
                seq![
                    EventLoopAction::RegisterResizeObserver { canvas: init.canvas },
                    EventLoopAction::Invoke { event: CanvasEvent::Init(init) },
                ],
            ),
            EventLoopInput::Declined => (
                EventLoopState::Terminated { cause: TerminationCause::ConstructorDecline },
                Seq::empty(),
            ),
            _ => (state, Seq::empty()),
        },
        EventLoopState::Running => match input {
            EventLoopInput::Item(event) => (
                EventLoopState::Running,
                seq![EventLoopAction::Invoke { event }],
            ),
            EventLoopInput::Closed => (
                EventLoopState::Terminated { cause: TerminationCause::ChannelClosed },
                seq![EventLoopAction::DeregisterResizeObserver],
            ),
            EventLoopInput::RegistrationFailed => (
                EventLoopState::Terminated { cause: TerminationCause::RegistrationFailure },
                Seq::empty(),
            ),
            _ => (state, Seq::empty()),
        },
        EventLoopState::Terminated { .. } => (state, Seq::empty()),
    }
}

/// One step of the Event Loop Task: consumes the current state and one
/// suspension outcome, returns the next state and the actions the
/// driving loop must now perform, in order.
pub fn step<T>(state: EventLoopState, input: EventLoopInput<T>) -> (r: (
    EventLoopState,
    Vec<EventLoopAction<T>>,
))
    requires
        accepts::<T>(state, input),
    ensures
        r.0 == step_spec::<T>(state, input).0,
        r.1@ == step_spec::<T>(state, input).1,
{
    let ghost input0 = input;
    let r: (EventLoopState, Vec<EventLoopAction<T>>) = match state {
        EventLoopState::WaitingInit => match input {
            EventLoopInput::Item(event) => match event {
                CanvasEvent::Init(init) => (
                    EventLoopState::Constructing { init },
                    vec![EventLoopAction::StartConstruction { canvas: init.canvas }],
                ),
                _ => (
                    EventLoopState::Terminated { cause: TerminationCause::ProtocolViolation },
                    Vec::new(),
                ),
            },
            _ => (
                EventLoopState::Terminated { cause: TerminationCause::ProtocolViolation },
                Vec::new(),
            ),
        },
        EventLoopState::Constructing { init } => match input {
            EventLoopInput::Declined => (
                EventLoopState::Terminated { cause: TerminationCause::ConstructorDecline },
                Vec::new(),
            ),
            _ => (
                EventLoopState::Running,
                vec![
                    EventLoopAction::RegisterResizeObserver { canvas: init.canvas },
                    EventLoopAction::Invoke { event: CanvasEvent::Init(init) },
                ],
            ),
        },
        EventLoopState::Running => match input {
            EventLoopInput::Item(event) => (
                EventLoopState::Running,
                vec![EventLoopAction::Invoke { event }],
            ),
            EventLoopInput::Closed => (
                EventLoopState::Terminated { cause: TerminationCause::ChannelClosed },
                vec![EventLoopAction::DeregisterResizeObserver],
            ),
            _ => (
                EventLoopState::Terminated { cause: TerminationCause::RegistrationFailure },
                Vec::new(),
            ),
        },
        EventLoopState::Terminated { .. } => (state, Vec::new()),
    };
    proof {
        assert(r.1@ =~= step_spec::<T>(state, input0).1);
    }
    r
}

/// A whole run of the machine over a sequence of suspension outcomes:
/// the final state, and every emitted action in emission order.
pub open spec fn run_spec<T>(state: EventLoopState, inputs: Seq<EventLoopInput<T>>) -> (
    EventLoopState,
    Seq<EventLoopAction<T>>,
)
    decreases inputs.len(),
{
    if inputs.len() == 0 {
        (state, Seq::empty())
    } else {
        let first = step_spec(state, inputs[0]);
        let rest = run_spec(first.0, inputs.drop_first());
        (rest.0, first.1 + rest.1)
    }
}

/// Whether a driver that hands the machine these inputs, in order,
/// stays within what each intermediate state accepts.
pub open spec fn trace_ok<T>(state: EventLoopState, inputs: Seq<EventLoopInput<T>>) -> bool
    decreases inputs.len(),
{
    inputs.len() == 0 || (accepts(state, inputs[0]) && trace_ok(
        step_spec(state, inputs[0]).0,
        inputs.drop_first(),
    ))
}

/// Drives the machine over a whole sequence of suspension outcomes and
/// collects every emitted action, in emission order.
pub fn run<T>(state: EventLoopState, inputs: Vec<EventLoopInput<T>>) -> (r: (
    EventLoopState,
    Vec<EventLoopAction<T>>,
))
    requires
        trace_ok::<T>(state, inputs@),
    ensures
        r.0 == run_spec::<T>(state, inputs@).0,
        r.1@ == run_spec::<T>(state, inputs@).1,
{
    let ghost all = inputs@;
    let mut queue = inputs;
    let mut st = state;
    let mut actions: Vec<EventLoopAction<T>> = Vec::new();
    proof {
        assert(actions@ + run_spec::<T>(st, queue@).1 =~= run_spec::<T>(state, all).1);
    }
    while queue.len() > 0
        invariant
            trace_ok::<T>(st, queue@),
            run_spec::<T>(state, all).0 == run_spec::<T>(st, queue@).0,
            run_spec::<T>(state, all).1 == actions@ + run_spec::<T>(st, queue@).1,
        decreases queue.len(),
    {
        let ghost st0 = st;
        let ghost queue0 = queue@;
        let input = queue.remove(0);
        let (next, mut emitted) = step(st, input);
        st = next;
        actions.append(&mut emitted);
        proof {
            assert(queue@ =~= queue0.drop_first());
            let first = step_spec::<T>(st0, queue0[0]);
            let rest = run_spec::<T>(st, queue@);
            assert(run_spec::<T>(st0, queue0).1 == first.1 + rest.1);
            assert(actions@ + rest.1 =~= run_spec::<T>(state, all).1);
        }
    }
    proof {
        assert(actions@ =~= actions@ + run_spec::<T>(st, queue@).1);
    }
    (st, actions)
}

/// The events a list of actions dispatches to the handler, in
/// dispatch order.
pub open spec fn invoked_events<T>(actions: Seq<EventLoopAction<T>>) -> Seq<CanvasEvent<T>>
    decreases actions.len(),
{
    if actions.len() == 0 {
        Seq::empty()
    } else {
        let rest = invoked_events(actions.drop_first());
        if actions[0] is Invoke {
            seq![actions[0]->event] + rest
        } else {
            rest
        }
    }
}

/// How many resize-observation registrations a list of actions
/// requests.
pub open spec fn registration_count<T>(actions: Seq<EventLoopAction<T>>) -> nat
    decreases actions.len(),
{
    if actions.len() == 0 {
        0
    } else {
        (if actions[0] is RegisterResizeObserver {
            1nat
        } else {
            0nat
        }) + registration_count(actions.drop_first())
    }
}

/// How many resize-observation releases a list of actions requests.
pub open spec fn deregistration_count<T>(actions: Seq<EventLoopAction<T>>) -> nat
    decreases actions.len(),
{
    if actions.len() == 0 {
        0
    } else {
        (if actions[0] is DeregisterResizeObserver {
            1nat
        } else {
            0nat
        }) + deregistration_count(actions.drop_first())
    }
}

/// A sequence of arriving channel items, as machine inputs, in
/// arrival order.
pub open spec fn item_inputs<T>(events: Seq<CanvasEvent<T>>) -> Seq<EventLoopInput<T>>
    decreases events.len(),
{
    if events.len() == 0 {
        Seq::empty()
    } else {
        seq![EventLoopInput::Item(events[0])] + item_inputs(events.drop_first())
    }
}

/// The RUNNING loop at the channel boundary: dispatches every queued
/// event, in enqueue order, until the queue is drained.  The emitted
/// actions are pure dispatches — exactly one handler invocation per
/// queued event, in exactly the enqueue order, with no registration
/// and no release — and the task stays RUNNING.
pub fn drain_queued<T>(channel: &mut EventChannel<T>) -> (actions: Vec<EventLoopAction<T>>)
    ensures
        final(channel)@.len() == 0,
        invoked_events(actions@) == old(channel)@,
        forall|i: int| 0 <= i < actions@.len() ==> actions@[i] is Invoke,
        registration_count(actions@) == 0,
        deregistration_count(actions@) == 0,
{
    let ghost all = channel@;
    let mut actions: Vec<EventLoopAction<T>> = Vec::new();
    proof {
        assert(invoked_events::<T>(Seq::<EventLoopAction<T>>::empty())
            =~= Seq::<CanvasEvent<T>>::empty());
        assert(invoked_events(actions@) + channel@ =~= all);
    }
    while channel.len() > 0
        invariant
            invoked_events(actions@) + channel@ == all,
            forall|i: int| 0 <= i < actions@.len() ==> actions@[i] is Invoke,
            registration_count(actions@) == 0,
            deregistration_count(actions@) == 0,
        decreases channel@.len(),
    {
        let ghost pre_actions = actions@;
        let ghost pre_chan = channel@;
        let next_event = channel.try_next();
        match next_event {
            Some(event) => {
                let ghost ev = event;
                let (_running, mut emitted) = step(
                    EventLoopState::Running,
                    EventLoopInput::Item(event),
                );
                actions.append(&mut emitted);
                proof {
                    let one = seq![EventLoopAction::<T>::Invoke { event: ev }];
                    assert(one.drop_first() =~= Seq::<EventLoopAction<T>>::empty());
                    assert(invoked_events::<T>(Seq::<EventLoopAction<T>>::empty())
                        =~= Seq::<CanvasEvent<T>>::empty());
                    assert(registration_count::<T>(Seq::<EventLoopAction<T>>::empty()) == 0);
                    assert(deregistration_count::<T>(Seq::<EventLoopAction<T>>::empty()) == 0);
                    assert(invoked_events(one) =~= seq![ev]);
                    assert(registration_count(one) == 0);
                    assert(deregistration_count(one) == 0);
                    crate::laws::lemma_invoked_events_concat(pre_actions, one);
                    crate::laws::lemma_registration_count_concat(pre_actions, one);
                    crate::laws::lemma_deregistration_count_concat(pre_actions, one);
                    assert(actions@ == pre_actions + one);
                    assert(invoked_events(actions@) + channel@
                        =~= invoked_events(pre_actions) + pre_chan);
                }
            }
            None => {
                proof {
                    assert(false);
                }
            }
        }
    }
    proof {
        assert(invoked_events(actions@) =~= invoked_events(actions@) + channel@);
    }
    actions
}

} // verus!
