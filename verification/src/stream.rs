//! The per-stream engine: mailbox, suspension slot, suppression window and
//! terminal flag, with one exec operation per transition of [`crate::model`].

use vstd::prelude::*;

use std::collections::VecDeque;

use futures::task::Task;

use crate::convert::Converter;
use crate::model::{
    close_spec, deliver, empty_stream, lock_spec, observe_spec, poll_spec, poll_ui_spec,
    pop_ui_spec, unlock_spec, Observer, StreamModel,
};
use crate::wake::notify_task;

verus! {

/// The outcome of one `poll`.
#[derive(Debug, PartialEq, Eq)]
pub enum Polled<M> {
    /// The front message of the mailbox, now removed from it.
    Ready(M),
    /// The mailbox was empty: the caller's task is parked on the suspension
    /// slot and will be woken by the next accepted emission or by `close`.
    NotReady,
    /// End-of-stream: the stream was closed.
    Closed,
}

/// What `poll` returns on a stream in state `s`.
pub open spec fn poll_result<M, C>(s: StreamModel<M, C>) -> Polled<M> {
    if s.terminated {
        Polled::Closed
    } else if s.mailbox.len() > 0 {
        Polled::Ready(s.mailbox[0])
    } else {
        Polled::NotReady
    }
}

/// What `pop_ui_events` returns on a stream in state `s`.
pub open spec fn pop_ui_result<M, C>(s: StreamModel<M, C>) -> Option<M> {
    if s.delivered.len() > 0 {
        Some(s.delivered[0])
    } else {
        None
    }
}

/// One event stream: the ordered mailbox of undelivered messages, the
/// observer list, the suspension slot for the single parked consumer, the
/// suppression and terminal flags, and the delivered log of the cross-thread
/// bridge.
///
/// Its abstract state is the [`StreamModel`] given by `@`.
pub struct EventStream<M, C> {
    pub(crate) mailbox: VecDeque<M>,
    pub(crate) observers: Vec<Observer<C>>,
    pub(crate) task: Option<Task>,
    pub(crate) locked: bool,
    pub(crate) terminated: bool,
    pub(crate) delivered: VecDeque<M>,
}

impl<M, C> View for EventStream<M, C> {
    type V = StreamModel<M, C>;

    closed spec fn view(&self) -> StreamModel<M, C> {
        StreamModel {
            mailbox: self.mailbox@,
            observers: self.observers@,
            parked: self.task is Some,
            locked: self.locked,
            terminated: self.terminated,
            delivered: self.delivered@,
        }
    }
}

impl<M, C> EventStream<M, C> {
    /// A fresh stream: open, unlocked, empty, nobody parked.
    pub fn new() -> (s: Self)
        ensures
            s@ == empty_stream::<M, C>(),
    {
        EventStream {
            mailbox: VecDeque::new(),
            observers: Vec::new(),
            task: None,
            locked: false,
            terminated: false,
            delivered: VecDeque::new(),
        }
    }

    /// Close the stream: terminal and idempotent.  The parked consumer, if
    /// any, is woken a last time (it will observe end-of-stream) and the
    /// suspension slot is consumed.
    pub fn close(&mut self)
        ensures
            final(self)@ == close_spec(old(self)@),
    {
        self.terminated = true;
        match self.task.take() {
            Some(t) => notify_task(&t),
            None => {},
        }
    }

    /// Open a suppression window: until `unlock`, emissions reaching this
    /// stream are dropped entirely.  Only the two open states are connected
    /// by `lock`/`unlock`; a closed stream stays unchanged.
    pub fn lock(&mut self)
        ensures
            final(self)@ == lock_spec(old(self)@),
    {
        if !self.terminated {
            self.locked = true;
        }
    }

    /// Close the suppression window again.  Messages dropped while it was
    /// open stay dropped.
    pub fn unlock(&mut self)
        ensures
            final(self)@ == unlock_spec(old(self)@),
    {
        if !self.terminated {
            self.locked = false;
        }
    }

    /// Register a forwarding rule: every subsequent accepted emission on
    /// this stream also delivers the converted message to the stream at
    /// arena index `target`.  There are no preconditions; registration is
    /// never retroactive.
    pub fn observe(&mut self, converter: C, target: usize)
        ensures
            final(self)@ == observe_spec(old(self)@, (Observer { converter, target })),
    {
        self.observers.push(Observer { converter, target });
    }

    /// The single suspension point of the core.  On a closed stream:
    /// end-of-stream.  On a non-empty mailbox: the front message, with the
    /// suspension slot cleared.  Otherwise the caller's `task` is parked on
    /// the slot (replacing a stale handle of the same single consumer, so at
    /// most one handle is ever outstanding) and `NotReady` is returned.
    pub fn poll(&mut self, task: Task) -> (r: Polled<M>)
        ensures
            final(self)@ == poll_spec(old(self)@),
            r == poll_result(old(self)@),
    {
        if self.terminated {
            Polled::Closed
        } else {
            match self.mailbox.pop_front() {
                Some(m) => {
                    self.task = None;
                    Polled::Ready(m)
                },
                None => {
                    self.task = Some(task);
                    Polled::NotReady
                },
            }
        }
    }

    /// Whether the stream was closed.
    pub fn is_terminated(&self) -> (r: bool)
        ensures
            r == self@.terminated,
    {
        self.terminated
    }

    /// Whether the stream is inside a suppression window.
    pub fn is_locked(&self) -> (r: bool)
        ensures
            r == self@.locked,
    {
        self.locked
    }

    /// How many undelivered messages the mailbox holds.
    pub fn pending_events(&self) -> (r: usize)
        ensures
            r as nat == self@.mailbox.len(),
    {
        self.mailbox.len()
    }

    /// How many messages wait in the delivered log of the bridge.
    pub fn delivered_events(&self) -> (r: usize)
        ensures
            r as nat == self@.delivered.len(),
    {
        self.delivered.len()
    }

    /// One message arriving at this stream during fan-out or emission: wake
    /// the parked consumer and append when the stream accepts, drop the
    /// message otherwise.
    pub(crate) fn deliver_to(&mut self, m: M)
        ensures
            final(self)@ == deliver(old(self)@, m),
    {
        if !self.terminated && !self.locked {
            match self.task.take() {
                Some(t) => notify_task(&t),
                None => {},
            }
            self.mailbox.push_back(m);
        }
    }

    /// Append a message to the mailbox unconditionally; the last step of an
    /// accepted emission, after the acceptance test has been made.
    pub(crate) fn append_own(&mut self, m: M)
        ensures
            final(self)@ == (StreamModel { mailbox: old(self)@.mailbox.push(m), ..old(self)@ }),
    {
        self.mailbox.push_back(m);
    }

    /// Wake the parked consumer, if any, consuming the suspension slot; the
    /// first step of an accepted emission.
    pub(crate) fn wake_and_clear(&mut self)
        ensures
            final(self)@ == (StreamModel { parked: false, ..old(self)@ }),
    {
        match self.task.take() {
            Some(t) => notify_task(&t),
            None => {},
        }
    }

    /// How many observer edges are registered.
    pub(crate) fn observer_count(&self) -> (n: usize)
        ensures
            n as nat == self@.observers.len(),
    {
        self.observers.len()
    }

    /// The target index of the `j`-th observer edge.
    pub(crate) fn observer_target(&self, j: usize) -> (t: usize)
        requires
            (j as nat) < self@.observers.len(),
        ensures
            t == self@.observers[j as int].target,
    {
        self.observers[j].target
    }

    /// Fetch the next message from the delivered log of the bridge; called
    /// by the consumer's own loop after the cross-thread wake.
    pub fn pop_ui_events(&mut self) -> (r: Option<M>)
        ensures
            final(self)@ == pop_ui_spec(old(self)@),
            r == pop_ui_result(old(self)@),
    {
        self.delivered.pop_front()
    }
}

impl<M, C: Converter<M>> EventStream<M, C> {
    /// Convert `m` through the converter of the `j`-th observer edge.
    pub(crate) fn convert_at(&self, j: usize, m: M) -> (r: M)
        requires
            (j as nat) < self@.observers.len(),
        ensures
            r == self@.observers[j as int].converter.conv(m),
    {
        self.observers[j].converter.convert(m)
    }
}

impl<M: Copy, C> EventStream<M, C> {
    /// `poll` for the cross-thread bridge: as [`EventStream::poll`], except
    /// that a popped message is also appended to the delivered log.  When
    /// the result is `Ready`, the caller owning the notification channel
    /// must signal it, so the consumer's loop fetches the message with
    /// [`EventStream::pop_ui_events`].
    pub fn poll_ui(&mut self, task: Task) -> (r: Polled<M>)
        ensures
            final(self)@ == poll_ui_spec(old(self)@),
            r == poll_result(old(self)@),
    {
        if self.terminated {
            Polled::Closed
        } else {
            match self.mailbox.pop_front() {
                Some(m) => {
                    self.task = None;
                    self.delivered.push_back(m);
                    Polled::Ready(m)
                },
                None => {
                    self.task = Some(task);
                    Polled::NotReady
                },
            }
        }
    }
}

} // verus!
