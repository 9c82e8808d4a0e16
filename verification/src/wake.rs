//! The wake primitive of the suspension bridge.
//!
//! The engine stores the parked consumer as the executor's task handle and
//! wakes it through that handle.  The handle is opaque to the core: the model
//! only records whether one is present.

use vstd::prelude::*;

verus! {

/// `futures::task::Task` is the opaque token for the one consumer parked on
/// a stream: the executor handle on which a wake can be requested.
#[verifier::external_type_specification]
#[verifier::external_body]
pub struct ExTask(futures::task::Task);

/// Relies on futures' `Task::notify`: asks the executor that owns the parked
/// task to poll it again in a timely fashion.  It only signals the executor;
/// it returns nothing, changes no state of this crate, and does not panic.
#[verifier::external_body]
pub(crate) fn notify_task(t: &futures::task::Task) {
    t.notify();
}

} // verus!
