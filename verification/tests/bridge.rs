use canvas_bridge::canvas::{
    fire_mounted, CanvasEvent, CanvasInitEvent, CanvasResizeEventDispatcher, MountInfo,
    ProducerHandle, ResizeEntry, SurfaceHandle,
};
use canvas_bridge::channel::EventChannel;
use canvas_bridge::event_loop::{
    drain_queued, run, step, CanvasEventHandler, EventLoopAction, EventLoopInput, EventLoopState,
    TerminationCause,
};

fn init_event() -> CanvasInitEvent {
    CanvasInitEvent {
        coroutine: ProducerHandle { id: 1 },
        mounted_event: MountInfo { id: 2 },
        canvas: SurfaceHandle { id: 10 },
    }
}

struct RecordingHandler {
    seen: Vec<CanvasEvent<u32>>,
    in_dispatch: bool,
}

impl RecordingHandler {
    fn new() -> Self {
        RecordingHandler { seen: Vec::new(), in_dispatch: false }
    }
}

impl CanvasEventHandler<u32> for RecordingHandler {
    fn handle(&mut self, event: CanvasEvent<u32>) {
        assert!(!self.in_dispatch, "dispatch must never overlap itself");
        self.in_dispatch = true;
        self.seen.push(event);
        self.in_dispatch = false;
    }
}

/// A driving loop in the shape the embedding uses: performs each
/// emitted action in order, counting registrations and releases and
/// dispatching to the handler.
struct Driver {
    handler: RecordingHandler,
    constructions: usize,
    registrations: usize,
    releases: usize,
    observed_surface: Option<SurfaceHandle>,
}

impl Driver {
    fn new() -> Self {
        Driver {
            handler: RecordingHandler::new(),
            constructions: 0,
            registrations: 0,
            releases: 0,
            observed_surface: None,
        }
    }

    fn perform(&mut self, actions: Vec<EventLoopAction<u32>>) {
        for action in actions {
            match action {
                EventLoopAction::StartConstruction { .. } => self.constructions += 1,
                EventLoopAction::RegisterResizeObserver { canvas } => {
                    self.registrations += 1;
                    self.observed_surface = Some(canvas);
                }
                EventLoopAction::Invoke { event } => self.handler.handle(event),
                EventLoopAction::DeregisterResizeObserver => {
                    self.releases += 1;
                    self.observed_surface = None;
                }
            }
        }
    }
}

#[test]
fn accepting_session_delivers_in_enqueue_order() {
    // The conforming session: mount fires Init, the constructor
    // accepts, then a resize and a user event arrive.
    let init = init_event();
    let mut channel: EventChannel<u32> = EventChannel::new();
    channel.send(CanvasEvent::Init(init));
    channel.send(CanvasEvent::Resized { width: 100, height: 50 });
    channel.send(CanvasEvent::UserEvent(42));

    let mut driver = Driver::new();
    let mut state = EventLoopState::initial();

    // First suspension: the first channel item.
    let first = channel.try_next().expect("enqueued");
    let (next, actions) = step(state, EventLoopInput::Item(first));
    state = next;
    driver.perform(actions);
    assert!(matches!(state, EventLoopState::Constructing { .. }));
    assert_eq!(driver.constructions, 1);

    // Second suspension: the constructor accepts.
    let (next, actions) = step(state, EventLoopInput::Constructed);
    state = next;
    driver.perform(actions);
    assert_eq!(state, EventLoopState::Running);

    // Then: every remaining channel item, in arrival order.
    while let Some(event) = channel.try_next() {
        let (next, actions) = step(state, EventLoopInput::Item(event));
        state = next;
        driver.perform(actions);
    }

    assert_eq!(
        driver.handler.seen,
        vec![
            CanvasEvent::Init(init),
            CanvasEvent::Resized { width: 100, height: 50 },
            CanvasEvent::UserEvent(42),
        ]
    );
    assert_eq!(driver.handler.seen.len(), 3);
    assert_eq!(driver.registrations, 1);
    assert_eq!(driver.observed_surface, Some(SurfaceHandle { id: 10 }));
    assert_eq!(state, EventLoopState::Running);
}

#[test]
fn declining_constructor_is_silent() {
    // The constructor declines: no handler invocation, no resize
    // registration, and the task reaches its terminated state.
    let init = init_event();
    let mut driver = Driver::new();
    let mut state = EventLoopState::initial();

    let (next, actions) = step::<u32>(state, EventLoopInput::Item(CanvasEvent::Init(init)));
    state = next;
    driver.perform(actions);
    let (next, actions) = step::<u32>(state, EventLoopInput::Declined);
    state = next;
    driver.perform(actions);

    assert_eq!(driver.handler.seen.len(), 0);
    assert_eq!(driver.registrations, 0);
    assert_eq!(
        state,
        EventLoopState::Terminated { cause: TerminationCause::ConstructorDecline }
    );
}

#[test]
fn non_init_first_event_is_a_protocol_violation() {
    let mut driver = Driver::new();
    let state = EventLoopState::initial();

    let (state, actions) = step::<u32>(
        state,
        EventLoopInput::Item(CanvasEvent::Resized { width: 5, height: 5 }),
    );
    driver.perform(actions);

    assert_eq!(
        state,
        EventLoopState::Terminated { cause: TerminationCause::ProtocolViolation }
    );
    assert_eq!(driver.handler.seen.len(), 0);
    assert_eq!(driver.registrations, 0);
}

#[test]
fn user_event_first_is_a_protocol_violation() {
    let state = EventLoopState::initial();
    let (state, actions) = step::<u32>(state, EventLoopInput::Item(CanvasEvent::UserEvent(9)));
    assert!(actions.is_empty());
    assert_eq!(
        state,
        EventLoopState::Terminated { cause: TerminationCause::ProtocolViolation }
    );
}

#[test]
fn closure_releases_the_resize_observation() {
    let init = init_event();
    let mut driver = Driver::new();
    let mut state = EventLoopState::initial();

    let (next, actions) = step::<u32>(state, EventLoopInput::Item(CanvasEvent::Init(init)));
    state = next;
    driver.perform(actions);
    let (next, actions) = step::<u32>(state, EventLoopInput::Constructed);
    state = next;
    driver.perform(actions);
    assert_eq!(driver.registrations, 1);
    assert_eq!(driver.releases, 0);

    // Every producer handle is dropped: the channel closes.
    let (next, actions) = step::<u32>(state, EventLoopInput::Closed);
    state = next;
    driver.perform(actions);

    assert_eq!(driver.releases, 1);
    assert_eq!(driver.observed_surface, None);
    assert_eq!(state, EventLoopState::Terminated { cause: TerminationCause::ChannelClosed });

    // A terminated task is inert: nothing further is ever emitted.
    let (state, actions) =
        step::<u32>(state, EventLoopInput::Item(CanvasEvent::Resized { width: 1, height: 1 }));
    assert!(actions.is_empty());
    assert_eq!(state, EventLoopState::Terminated { cause: TerminationCause::ChannelClosed });
}

#[test]
fn registration_refusal_aborts_the_task() {
    let init = init_event();
    let mut state = EventLoopState::initial();
    let (next, _) = step::<u32>(state, EventLoopInput::Item(CanvasEvent::Init(init)));
    state = next;
    let (next, _) = step::<u32>(state, EventLoopInput::Constructed);
    state = next;
    let (state, actions) = step::<u32>(state, EventLoopInput::RegistrationFailed);
    assert!(actions.is_empty());
    assert_eq!(
        state,
        EventLoopState::Terminated { cause: TerminationCause::RegistrationFailure }
    );
}

#[test]
fn running_drain_dispatches_in_enqueue_order() {
    let mut channel: EventChannel<u32> = EventChannel::new();
    channel.send(CanvasEvent::UserEvent(1));
    channel.send(CanvasEvent::Resized { width: 20, height: 30 });
    channel.send(CanvasEvent::UserEvent(2));

    let actions = drain_queued(&mut channel);
    assert_eq!(channel.len(), 0);
    assert_eq!(
        actions,
        vec![
            EventLoopAction::Invoke { event: CanvasEvent::UserEvent(1) },
            EventLoopAction::Invoke { event: CanvasEvent::Resized { width: 20, height: 30 } },
            EventLoopAction::Invoke { event: CanvasEvent::UserEvent(2) },
        ]
    );
}

#[test]
fn mount_adapter_enqueues_exactly_one_init() {
    let mut channel: EventChannel<u32> = EventChannel::new();
    fire_mounted(
        ProducerHandle { id: 4 },
        MountInfo { id: 5 },
        SurfaceHandle { id: 6 },
        &mut channel,
    );
    assert_eq!(channel.len(), 1);
    assert_eq!(
        channel.try_next(),
        Some(CanvasEvent::Init(CanvasInitEvent {
            coroutine: ProducerHandle { id: 4 },
            mounted_event: MountInfo { id: 5 },
            canvas: SurfaceHandle { id: 6 },
        }))
    );
}

#[test]
fn channel_is_fifo() {
    let mut channel: EventChannel<u32> = EventChannel::new();
    assert_eq!(channel.len(), 0);
    assert!(channel.try_next().is_none());

    channel.send(CanvasEvent::UserEvent(1));
    channel.send(CanvasEvent::UserEvent(2));
    channel.send(CanvasEvent::Resized { width: 7, height: 8 });
    assert_eq!(channel.len(), 3);

    assert_eq!(channel.try_next(), Some(CanvasEvent::UserEvent(1)));
    assert_eq!(channel.try_next(), Some(CanvasEvent::UserEvent(2)));
    assert_eq!(channel.try_next(), Some(CanvasEvent::Resized { width: 7, height: 8 }));
    assert_eq!(channel.try_next(), None);
}

#[test]
fn batched_notification_produces_exactly_one_resized_event() {
    // A platform notification reporting two entries: only the first
    // entry's content rectangle matters, and exactly one event comes
    // out.
    let dispatcher =
        CanvasResizeEventDispatcher::new(SurfaceHandle { id: 10 }, ProducerHandle { id: 1 });
    let mut channel: EventChannel<u32> = EventChannel::new();

    let entries = vec![
        ResizeEntry { width: 320, height: 240 },
        ResizeEntry { width: 9999, height: 9999 },
    ];
    dispatcher.dispatch(&entries, &mut channel);

    assert_eq!(channel.len(), 1);
    assert_eq!(
        channel.try_next(),
        Some(CanvasEvent::Resized { width: 320, height: 240 })
    );
    assert_eq!(channel.try_next(), None);
}

#[test]
fn notification_sizes_are_truncated_not_rounded() {
    // The platform reports fractional content rectangles; the
    // embedding layer truncates them to whole pixels before handing
    // the batch over.
    let rect: (f64, f64) = (100.9, 50.7);
    let entries = vec![ResizeEntry { width: rect.0 as u32, height: rect.1 as u32 }];

    let dispatcher =
        CanvasResizeEventDispatcher::new(SurfaceHandle { id: 3 }, ProducerHandle { id: 4 });
    let mut channel: EventChannel<u32> = EventChannel::new();
    dispatcher.dispatch(&entries, &mut channel);

    assert_eq!(
        channel.try_next(),
        Some(CanvasEvent::Resized { width: 100, height: 50 })
    );
}

#[test]
fn whole_session_through_the_run_driver() {
    // The same conforming session, handed to the machine's own
    // driving loop in one piece.
    let init = init_event();
    let inputs = vec![
        EventLoopInput::Item(CanvasEvent::Init(init)),
        EventLoopInput::Constructed,
        EventLoopInput::Item(CanvasEvent::Resized { width: 100, height: 50 }),
        EventLoopInput::Item(CanvasEvent::UserEvent(42u32)),
        EventLoopInput::Closed,
    ];
    let (state, actions) = run(EventLoopState::initial(), inputs);

    let mut driver = Driver::new();
    driver.perform(actions);
    assert_eq!(
        driver.handler.seen,
        vec![
            CanvasEvent::Init(init),
            CanvasEvent::Resized { width: 100, height: 50 },
            CanvasEvent::UserEvent(42),
        ]
    );
    assert_eq!(driver.constructions, 1);
    assert_eq!(driver.registrations, 1);
    assert_eq!(driver.releases, 1);
    assert_eq!(state, EventLoopState::Terminated { cause: TerminationCause::ChannelClosed });
}

#[test]
fn init_extracts_only_the_init_payload() {
    let init = init_event();
    let event: CanvasEvent<u32> = CanvasEvent::Init(init);
    assert_eq!(event.init(), Some(init));

    let resized: CanvasEvent<u32> = CanvasEvent::Resized { width: 1, height: 2 };
    assert_eq!(resized.init(), None);

    let user: CanvasEvent<u32> = CanvasEvent::UserEvent(3);
    assert_eq!(user.init(), None);
}
