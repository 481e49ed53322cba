//! An event bridge for an embeddable drawing surface.
//!
//! Three independently arriving event sources — a one-time mount
//! notification, asynchronous platform resize notifications, and
//! application-defined user events — are merged into a single ordered
//! stream consumed by a lazily constructed, stateful handler.  The
//! bridge guarantees strict FIFO delivery, gates handler construction
//! on the first (Init) event, and ties the resize observation's
//! lifetime exactly to the consuming task's lifetime.

pub mod canvas;
pub mod channel;
pub mod event_loop;
pub mod laws;
