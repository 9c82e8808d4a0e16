//! Reactive event-stream core for a Model-View-Update UI framework.
//!
//! The unit of the library is the event stream: an ordered mailbox of
//! undelivered messages together with an observer list, a suspension slot for
//! one parked consumer, and a lock/terminated flag.  Producers push messages
//! with `emit`; a cooperative scheduler drains them with `poll`, parking
//! itself when the mailbox is empty; `lock`/`unlock` bracket a suppression
//! window in which emissions are dropped; `close` is the terminal transition.
//!
//! Streams are kept in an arena ([`arena::StreamArena`]) and addressed by
//! stable indices, so cross-stream forwarding (an observer is a pure
//! converter paired with a target stream) is an explicit, iterative fan-out
//! rather than a re-entrant callback: forwarding is single-hop by design,
//! which removes the re-entrancy hazard of inline observer invocation at its
//! root.
//!
//! Every operation is specified against the mathematical model in [`model`]:
//! a stream is a [`model::StreamModel`] and each operation is a pure
//! transition function on it.  The laws the engine obeys (FIFO delivery,
//! suppression windows, terminal close, fan-out, single wake per parked
//! consumer, independence of unrelated streams) are stated and proved in
//! [`laws`].
//!
//! Waking a parked consumer goes through the executor's task handle; the
//! reactor loop that owns the consumer, and the cross-thread notification
//! channel of the bridged variant, live outside the verified core.

use vstd::prelude::*;

pub mod arena;
pub mod convert;
pub mod laws;
pub mod model;
pub mod stream;
mod wake;

verus! {

/// Marker for the scheduler context that drives stream consumption.
///
/// The bootstrap itself (spawning the dedicated reactor thread and handing
/// out a remote handle for scheduling work onto its loop) is an external
/// collaborator of the core: it performs thread and I/O work that stays
/// outside the verified library.
pub struct Core {}

} // verus!
