//! The event data model of the bridge: the tagged event union, the
//! payload of the one-time Init event, and the resize-notification
//! dispatcher that translates a platform notification batch into
//! exactly one Resized event.

use vstd::prelude::*;

use crate::channel::EventChannel;

verus! {

/// Opaque reference to an embeddable drawing target.  The bridge never
/// looks inside a surface; it only carries the handle from the mount
/// notification to the handler constructor and the resize observation.
#[derive(Clone, Copy, PartialEq, Eq, Structural, Debug)]
pub struct SurfaceHandle {
    pub id: u64,
}

/// Handle through which any collaborator may enqueue further events.
/// The bridge treats it as an opaque token; the embedding layer owns
/// the mapping from tokens to live channel producers.
#[derive(Clone, Copy, PartialEq, Eq, Structural, Debug)]
pub struct ProducerHandle {
    pub id: u64,
}

/// Metadata of the one-time mount notification that made the drawing
/// surface available.  Opaque to the bridge; carried through to the
/// handler unchanged.
#[derive(Clone, Copy, PartialEq, Eq, Structural, Debug)]
pub struct MountInfo {
    pub id: u64,
}

/// Payload of the Init event: a producer handle for further bridging,
/// the mount metadata, and the surface handle itself.
#[derive(Clone, Copy, PartialEq, Eq, Structural, Debug)]
pub struct CanvasInitEvent {
    pub coroutine: ProducerHandle,
    pub mounted_event: MountInfo,
    pub canvas: SurfaceHandle,
}

/// A tagged event of the bridge.  Exactly one `Init` is produced per
/// task and it is the logical first event; `Resized` events carry whole
/// pixel sizes; `UserEvent` wraps an opaque application-defined value.
#[derive(Clone, PartialEq, Eq, Debug)]
pub enum CanvasEvent<T> {
    Init(CanvasInitEvent),
    Resized { width: u32, height: u32 },
    UserEvent(T),
}

impl<T> CanvasEvent<T> {
    /// The Init payload of this event, if it is an Init event.
    pub fn init(self) -> (r: Option<CanvasInitEvent>)
        ensures
            self matches CanvasEvent::Init(e) ==> r == Some(e),
            self !is Init ==> r is None,
    {
        match self {
            CanvasEvent::Init(init_event) => Some(init_event),
            _ => None,
        }
    }
}

/// The mount adapter's one firing: packages the resolved surface
/// handle, a producer handle and the mount metadata into the Init
/// event and enqueues it.  Called exactly once per embedded surface
/// instance, from the embedding framework's own callback context —
/// the enqueue never blocks, so it is safe to invoke from there; the
/// channel is the sole synchronization boundary.
pub fn fire_mounted<T>(
    coroutine: ProducerHandle,
    mounted_event: MountInfo,
    canvas: SurfaceHandle,
    channel: &mut EventChannel<T>,
)
    ensures
        final(channel)@ == old(channel)@.push(CanvasEvent::Init(CanvasInitEvent {
            coroutine,
            mounted_event,
            canvas,
        })),
{
    channel.send(CanvasEvent::Init(CanvasInitEvent { coroutine, mounted_event, canvas }));
}

/// Configuration of the embeddable visual element: its identity and
/// its size attributes, as the embedding markup writes them.  The
/// embedding must mount exactly one element per identity and fire the
/// mount notification exactly once on attach.
pub struct CanvasProps<'a> {
    pub id: &'a str,
    pub width: &'a str,
    pub height: &'a str,
}

/// One observed entry of a platform resize notification: the entry's
/// content rectangle, truncated (not rounded) to whole pixels.  The
/// platform reports fractional sizes; the embedding layer truncates
/// them before handing the batch to the dispatcher.
#[derive(Clone, Copy, PartialEq, Eq, Structural, Debug)]
pub struct ResizeEntry {
    pub width: u32,
    pub height: u32,
}

/// The resize-observer dispatcher: bound to one observed surface and
/// one producer handle, it translates each platform notification batch
/// into exactly one Resized event on the channel.  The embedding layer
/// registers the platform callback when the dispatcher is created and
/// deregisters it when the dispatcher is released.
#[derive(Clone, Copy, PartialEq, Eq, Structural, Debug)]
pub struct CanvasResizeEventDispatcher {
    pub canvas: SurfaceHandle,
    pub coroutine: ProducerHandle,
}

impl CanvasResizeEventDispatcher {
    /// Binds a dispatcher to the observed surface and the producer
    /// handle it will enqueue through.
    pub fn new(canvas: SurfaceHandle, coroutine: ProducerHandle) -> (d: Self)
        ensures
            d.canvas == canvas,
            d.coroutine == coroutine,
    {
        CanvasResizeEventDispatcher { canvas, coroutine }
    }

    /// One platform notification: however many entries the batch
    /// reports, exactly one Resized event is enqueued, carrying the
    /// first entry's content rectangle.  (One dispatcher watches
    /// exactly one surface, so only the first entry is meaningful.)
    pub fn dispatch<T>(&self, entries: &Vec<ResizeEntry>, channel: &mut EventChannel<T>)
        requires
            entries@.len() >= 1,
        ensures
            final(channel)@ == old(channel)@.push(CanvasEvent::Resized {
                width: entries@[0].width,
                height: entries@[0].height,
            }),
    {
        let first = entries[0];
        channel.send(CanvasEvent::Resized { width: first.width, height: first.height });
    }
}

} // verus!
