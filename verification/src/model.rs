//! The mathematical model of a stream and the transition function of each
//! operation.
//!
//! A live stream is abstracted by a [`StreamModel`]; an arena of streams by a
//! `Seq<StreamModel>`.  Every exec operation of the engine promises in its
//! `ensures` that the new state is exactly the corresponding spec transition
//! applied to the old one, so all reasoning about the engine can be done on
//! these pure functions.

use vstd::prelude::*;

use crate::convert::Converter;

verus! {

/// A registered forwarding rule: a pure converter paired with the arena
/// index of the target stream.
///
/// The observer holds the target by index, not by ownership: registering an
/// edge never transfers the target stream.
pub struct Observer<C> {
    /// The pure conversion applied to each forwarded message.
    pub converter: C,
    /// Arena index of the stream that receives the converted messages.
    pub target: usize,
}

/// The abstract state of one event stream.
#[verifier::ext_equal]
pub struct StreamModel<M, C> {
    /// Undelivered messages, oldest first.
    pub mailbox: Seq<M>,
    /// Forwarding rules, in registration order.
    pub observers: Seq<Observer<C>>,
    /// Whether a consumer is parked on the suspension slot.
    pub parked: bool,
    /// Whether the stream is inside a `lock`/`unlock` suppression window.
    pub locked: bool,
    /// Whether the stream was closed; terminal.
    pub terminated: bool,
    /// Messages already handed to the consumer side of the cross-thread
    /// bridge, oldest first, still to be fetched by the consumer's loop.
    pub delivered: Seq<M>,
}

/// The state of a freshly created stream: open, unlocked, empty, nobody
/// parked.
pub open spec fn empty_stream<M, C>() -> StreamModel<M, C> {
    StreamModel {
        mailbox: Seq::empty(),
        observers: Seq::empty(),
        parked: false,
        locked: false,
        terminated: false,
        delivered: Seq::empty(),
    }
}

/// Whether an emission reaching this stream has any effect: the stream must
/// be open and outside a suppression window.  Otherwise the message is
/// dropped entirely.
pub open spec fn accepts<M, C>(s: StreamModel<M, C>) -> bool {
    !s.terminated && !s.locked
}

/// One message arriving at a stream, either by direct emission (after
/// fan-out) or forwarded along an observer edge: if the stream accepts, the
/// parked consumer (if any) is woken, consuming the suspension slot, and the
/// message is appended to the mailbox; otherwise nothing happens.
pub open spec fn deliver<M, C>(s: StreamModel<M, C>, m: M) -> StreamModel<M, C> {
    if accepts(s) {
        StreamModel { mailbox: s.mailbox.push(m), parked: false, ..s }
    } else {
        s
    }
}

/// One observer edge forwarding message `m`: the converted message arrives
/// at the target stream.  An edge whose target index is out of range
/// forwards to nobody.
pub open spec fn forward_one<M, C: Converter<M>>(
    streams: Seq<StreamModel<M, C>>,
    o: Observer<C>,
    m: M,
) -> Seq<StreamModel<M, C>> {
    if o.target < streams.len() {
        streams.update(o.target as int, deliver(streams[o.target as int], o.converter.conv(m)))
    } else {
        streams
    }
}

/// Fan-out of message `m` along the observer edges `obs`, in registration
/// order: the fold of [`forward_one`] over the edges.
pub open spec fn fan_out<M, C: Converter<M>>(
    streams: Seq<StreamModel<M, C>>,
    obs: Seq<Observer<C>>,
    m: M,
) -> Seq<StreamModel<M, C>>
    decreases obs.len(),
{
    if obs.len() == 0 {
        streams
    } else {
        forward_one(fan_out(streams, obs.drop_last(), m), obs.last(), m)
    }
}

/// Emission of `m` on stream `id`.  If the stream is closed or locked the
/// emission is a no-op: the message is dropped, no observer runs, nobody is
/// woken.  Otherwise, in this order: the parked consumer (if any) is woken
/// and the slot cleared; every observer forwards in registration order; the
/// message is appended to the emitting stream's own mailbox.
pub open spec fn emit_spec<M, C: Converter<M>>(
    streams: Seq<StreamModel<M, C>>,
    id: int,
    m: M,
) -> Seq<StreamModel<M, C>> {
    let s = streams[id];
    if !accepts(s) {
        streams
    } else {
        let woken = streams.update(id, StreamModel { parked: false, ..s });
        let fanned = fan_out(woken, s.observers, m);
        fanned.update(id, StreamModel { mailbox: fanned[id].mailbox.push(m), ..fanned[id] })
    }
}

/// Fan-out changes only mailboxes and suspension slots: the length of the
/// arena and the observer list, suppression flag, terminal flag and
/// delivered log of every stream are preserved.
pub proof fn lemma_fan_out_preserves<M, C: Converter<M>>(
    streams: Seq<StreamModel<M, C>>,
    obs: Seq<Observer<C>>,
    m: M,
)
    ensures
        fan_out(streams, obs, m).len() == streams.len(),
        forall|i: int|
            0 <= i < streams.len() ==> {
                let r = #[trigger] fan_out(streams, obs, m)[i];
                &&& r.observers == streams[i].observers
                &&& r.locked == streams[i].locked
                &&& r.terminated == streams[i].terminated
                &&& r.delivered == streams[i].delivered
            },
    decreases obs.len(),
{
    if obs.len() > 0 {
        lemma_fan_out_preserves(streams, obs.drop_last(), m);
    }
}

/// A stream targeted by no edge of `obs` is untouched by the fan-out.
pub proof fn lemma_fan_out_untouched<M, C: Converter<M>>(
    streams: Seq<StreamModel<M, C>>,
    obs: Seq<Observer<C>>,
    m: M,
    i: int,
)
    requires
        forall|k: int| 0 <= k < obs.len() ==> (#[trigger] obs[k]).target as int != i,
    ensures
        0 <= i < streams.len() ==> fan_out(streams, obs, m)[i] == streams[i],
    decreases obs.len(),
{
    if obs.len() > 0 {
        assert(forall|k: int|
            0 <= k < obs.drop_last().len() ==> (#[trigger] obs.drop_last()[k]).target as int != i);
        lemma_fan_out_untouched(streams, obs.drop_last(), m, i);
        lemma_fan_out_preserves(streams, obs.drop_last(), m);
    }
}

/// The state a fan-out leaves at index `i` depends only on the state that
/// was there before: two arenas that agree at `i` still agree there after
/// fanning out the same message along the same edges.
pub proof fn lemma_fan_out_pointwise<M, C: Converter<M>>(
    s1: Seq<StreamModel<M, C>>,
    s2: Seq<StreamModel<M, C>>,
    obs: Seq<Observer<C>>,
    m: M,
    i: int,
)
    requires
        s1.len() == s2.len(),
        0 <= i < s1.len(),
        s1[i] == s2[i],
    ensures
        fan_out(s1, obs, m)[i] == fan_out(s2, obs, m)[i],
    decreases obs.len(),
{
    if obs.len() > 0 {
        lemma_fan_out_pointwise(s1, s2, obs.drop_last(), m, i);
        lemma_fan_out_preserves(s1, obs.drop_last(), m);
        lemma_fan_out_preserves(s2, obs.drop_last(), m);
    }
}

/// Unrolling [`fan_out`] by its last edge.
pub proof fn lemma_fan_out_snoc<M, C: Converter<M>>(
    streams: Seq<StreamModel<M, C>>,
    obs: Seq<Observer<C>>,
    o: Observer<C>,
    m: M,
)
    ensures
        fan_out(streams, obs.push(o), m) == forward_one(fan_out(streams, obs, m), o, m),
{
    assert(obs.push(o).drop_last() =~= obs);
}

/// An emission never changes how many streams the arena holds.
pub proof fn lemma_emit_len<M, C: Converter<M>>(streams: Seq<StreamModel<M, C>>, id: int, m: M)
    requires
        0 <= id < streams.len(),
    ensures
        emit_spec(streams, id, m).len() == streams.len(),
{
    let s = streams[id];
    if accepts(s) {
        let woken = streams.update(id, StreamModel { parked: false, ..s });
        lemma_fan_out_preserves(woken, s.observers, m);
    }
}

/// Whether stream `i` is touched when `id`, in state `s`, emits: the
/// emitting stream itself and the targets of its observer edges.
pub open spec fn touches<M, C>(s: StreamModel<M, C>, id: int, i: int) -> bool {
    i == id || exists|k: int|
        0 <= k < s.observers.len() && (#[trigger] s.observers[k]).target as int == i
}

/// An emission changes nothing outside the touched streams.
pub proof fn lemma_emit_untouched<M, C: Converter<M>>(
    streams: Seq<StreamModel<M, C>>,
    id: int,
    m: M,
    i: int,
)
    requires
        0 <= id < streams.len(),
        0 <= i < streams.len(),
        !touches(streams[id], id, i),
    ensures
        emit_spec(streams, id, m)[i] == streams[i],
{
    let s = streams[id];
    if accepts(s) {
        let woken = streams.update(id, StreamModel { parked: false, ..s });
        assert(forall|k: int|
            0 <= k < s.observers.len() ==> (#[trigger] s.observers[k]).target as int != i);
        lemma_fan_out_untouched(woken, s.observers, m, i);
        lemma_fan_out_preserves(woken, s.observers, m);
    }
}

/// What an emission leaves at the emitting stream and at any other index
/// depends only on the emitting stream's old state and that index's old
/// state.
pub proof fn lemma_emit_pointwise<M, C: Converter<M>>(
    s1: Seq<StreamModel<M, C>>,
    s2: Seq<StreamModel<M, C>>,
    id: int,
    m: M,
    i: int,
)
    requires
        s1.len() == s2.len(),
        0 <= id < s1.len(),
        0 <= i < s1.len(),
        s1[id] == s2[id],
        s1[i] == s2[i],
    ensures
        emit_spec(s1, id, m)[i] == emit_spec(s2, id, m)[i],
{
    let s = s1[id];
    if accepts(s) {
        let woken1 = s1.update(id, StreamModel { parked: false, ..s });
        let woken2 = s2.update(id, StreamModel { parked: false, ..s });
        lemma_fan_out_pointwise(woken1, woken2, s.observers, m, i);
        lemma_fan_out_pointwise(woken1, woken2, s.observers, m, id);
        lemma_fan_out_preserves(woken1, s.observers, m);
        lemma_fan_out_preserves(woken2, s.observers, m);
    }
}

/// Emission on a stream none of whose observer edges forwards back to the
/// stream itself: the emitting stream gains exactly the message at the back
/// of its mailbox and loses its parked consumer; everything else about it is
/// kept.
pub proof fn lemma_emit_own<M, C: Converter<M>>(streams: Seq<StreamModel<M, C>>, id: int, m: M)
    requires
        0 <= id < streams.len(),
        accepts(streams[id]),
        forall|k: int|
            0 <= k < streams[id].observers.len() ==> (#[trigger] streams[id].observers[k]).target
                as int != id,
    ensures
        emit_spec(streams, id, m).len() == streams.len(),
        emit_spec(streams, id, m)[id] == (StreamModel {
            mailbox: streams[id].mailbox.push(m),
            parked: false,
            ..streams[id]
        }),
{
    let s = streams[id];
    let woken = streams.update(id, StreamModel { parked: false, ..s });
    lemma_fan_out_untouched(woken, s.observers, m, id);
    lemma_fan_out_preserves(woken, s.observers, m);
}

/// State transition of `poll`: end-of-stream leaves a closed stream
/// unchanged; a non-empty mailbox loses its front message and the suspension
/// slot is cleared; an empty open mailbox parks the caller.
pub open spec fn poll_spec<M, C>(s: StreamModel<M, C>) -> StreamModel<M, C> {
    if s.terminated {
        s
    } else if s.mailbox.len() > 0 {
        StreamModel {
            mailbox: s.mailbox.subrange(1, s.mailbox.len() as int),
            parked: false,
            ..s
        }
    } else {
        StreamModel { parked: true, ..s }
    }
}

/// State transition of the bridged `poll_ui`: as [`poll_spec`], except that
/// the popped message is also appended to the delivered log, from which the
/// consumer's own loop fetches it after the cross-thread wake.
pub open spec fn poll_ui_spec<M, C>(s: StreamModel<M, C>) -> StreamModel<M, C> {
    if s.terminated {
        s
    } else if s.mailbox.len() > 0 {
        StreamModel {
            mailbox: s.mailbox.subrange(1, s.mailbox.len() as int),
            delivered: s.delivered.push(s.mailbox[0]),
            parked: false,
            ..s
        }
    } else {
        StreamModel { parked: true, ..s }
    }
}

/// State transition of `close`: the stream becomes terminated (terminal and
/// idempotent) and the parked consumer, if any, is woken one last time,
/// consuming the slot.
pub open spec fn close_spec<M, C>(s: StreamModel<M, C>) -> StreamModel<M, C> {
    StreamModel { terminated: true, parked: false, ..s }
}

/// State transition of `lock`: opens a suppression window.  Only the two
/// open states are connected by `lock`/`unlock`; a closed stream is beyond
/// them and stays unchanged.
pub open spec fn lock_spec<M, C>(s: StreamModel<M, C>) -> StreamModel<M, C> {
    if s.terminated {
        s
    } else {
        StreamModel { locked: true, ..s }
    }
}

/// State transition of `unlock`: closes the suppression window.
pub open spec fn unlock_spec<M, C>(s: StreamModel<M, C>) -> StreamModel<M, C> {
    if s.terminated {
        s
    } else {
        StreamModel { locked: false, ..s }
    }
}

/// State transition of `observe`: the new edge is appended to the observer
/// list and affects subsequent emissions only.
pub open spec fn observe_spec<M, C>(s: StreamModel<M, C>, o: Observer<C>) -> StreamModel<M, C> {
    StreamModel { observers: s.observers.push(o), ..s }
}

/// State transition of `pop_ui_events`: the front of the delivered log is
/// fetched by the consumer's loop.
pub open spec fn pop_ui_spec<M, C>(s: StreamModel<M, C>) -> StreamModel<M, C> {
    if s.delivered.len() > 0 {
        StreamModel { delivered: s.delivered.subrange(1, s.delivered.len() as int), ..s }
    } else {
        s
    }
}

} // verus!
