//! The laws of the engine, stated and proved once and for all over the
//! model of [`crate::model`].
//!
//! Each law speaks about arbitrary streams and messages; the exec operations
//! are tied to these transitions by their own `ensures`, so every law holds
//! of the running engine as well.

use vstd::prelude::*;

use crate::convert::Converter;
use crate::model::{
    accepts, close_spec, emit_spec, fan_out, forward_one, lemma_emit_len, lemma_emit_own,
    lemma_emit_pointwise, lemma_emit_untouched, lock_spec, poll_spec, touches, unlock_spec,
    Observer, StreamModel,
};
use crate::stream::{poll_result, Polled};

verus! {

/// FIFO: three messages emitted on an open, unlocked, initially empty
/// stream, with no poll in between and no observer edge feeding back into
/// the stream, are yielded by the subsequent polls as exactly the first,
/// the second, then the third.
pub proof fn law_fifo<M, C: Converter<M>>(
    streams: Seq<StreamModel<M, C>>,
    id: usize,
    m1: M,
    m2: M,
    m3: M,
)
    requires
        (id as nat) < streams.len(),
        accepts(streams[id as int]),
        streams[id as int].mailbox.len() == 0,
        forall|k: int|
            0 <= k < streams[id as int].observers.len() ==> (#[trigger] streams[
                id as int
            ].observers[k]).target != id,
    ensures
        ({
            let a3 = emit_spec(emit_spec(emit_spec(streams, id as int, m1), id as int, m2),
                id as int, m3);
            let s1 = a3[id as int];
            let s2 = poll_spec(s1);
            let s3 = poll_spec(s2);
            &&& poll_result(s1) == Polled::<M>::Ready(m1)
            &&& poll_result(s2) == Polled::<M>::Ready(m2)
            &&& poll_result(s3) == Polled::<M>::Ready(m3)
            &&& poll_spec(s3).mailbox.len() == 0
        }),
{
    let i = id as int;
    lemma_emit_own(streams, i, m1);
    let a1 = emit_spec(streams, i, m1);
    lemma_emit_own(a1, i, m2);
    let a2 = emit_spec(a1, i, m2);
    lemma_emit_own(a2, i, m3);
    let a3 = emit_spec(a2, i, m3);
    assert(a3[i].mailbox =~= seq![m1, m2, m3]);
    assert(poll_spec(a3[i]).mailbox =~= seq![m2, m3]);
    assert(poll_spec(poll_spec(a3[i])).mailbox =~= seq![m3]);
}

/// Lock suppresses and drops: a message emitted inside a `lock`/`unlock`
/// window changes nothing at all -- it is never queued, no observer of any
/// stream sees it, nobody is woken -- and a poll after the window finds the
/// stream as empty as before.
pub proof fn law_lock_suppresses_and_drops<M, C: Converter<M>>(
    streams: Seq<StreamModel<M, C>>,
    id: usize,
    m: M,
)
    requires
        (id as nat) < streams.len(),
        !streams[id as int].terminated,
        streams[id as int].mailbox.len() == 0,
    ensures
        ({
            let locked = streams.update(id as int, lock_spec(streams[id as int]));
            let emitted = emit_spec(locked, id as int, m);
            let unlocked = emitted.update(id as int, unlock_spec(emitted[id as int]));
            &&& emitted == locked
            &&& poll_result(unlocked[id as int]) == Polled::<M>::NotReady
            &&& unlocked[id as int].mailbox.len() == 0
        }),
{
}

/// Fan-out via converter: when stream `src` observes into a different
/// stream `tgt` through converter `c` and both are open and unlocked,
/// emitting `x` on `src` appends the converted message `c.conv(x)` to
/// `tgt`'s mailbox while `src`'s own mailbox independently still gains `x`.
pub proof fn law_fan_out_converter<M, C: Converter<M>>(
    streams: Seq<StreamModel<M, C>>,
    src: usize,
    tgt: usize,
    c: C,
    x: M,
)
    requires
        (src as nat) < streams.len(),
        (tgt as nat) < streams.len(),
        src != tgt,
        accepts(streams[src as int]),
        accepts(streams[tgt as int]),
        streams[src as int].observers == seq![(Observer { converter: c, target: tgt })],
    ensures
        ({
            let r = emit_spec(streams, src as int, x);
            &&& r[tgt as int].mailbox == streams[tgt as int].mailbox.push(c.conv(x))
            &&& r[src as int].mailbox == streams[src as int].mailbox.push(x)
        }),
{
    let i = src as int;
    let t = tgt as int;
    let s = streams[i];
    let o = (Observer { converter: c, target: tgt });
    let woken = streams.update(i, StreamModel { parked: false, ..s });
    assert(s.observers.last() == o);
    assert(s.observers.drop_last().len() == 0);
    assert(fan_out(woken, s.observers.drop_last(), x) == woken);
    assert(fan_out(woken, s.observers, x) == forward_one(woken, o, x));
}

/// Whether an emission reaching this stream hands a wake signal to its
/// executor: exactly when the stream accepts the message and a consumer is
/// parked on the suspension slot.
pub open spec fn wakes_consumer<M, C>(s: StreamModel<M, C>) -> bool {
    accepts(s) && s.parked
}

/// Wake exactly once: with one parked consumer on an open, unlocked, empty
/// stream with no observer edge feeding back into it, three emissions in a
/// row wake the consumer on the first one only -- the second and third find
/// the slot already consumed -- and all three messages wait in order in the
/// mailbox.
pub proof fn law_wake_exactly_once<M, C: Converter<M>>(
    streams: Seq<StreamModel<M, C>>,
    id: usize,
    m1: M,
    m2: M,
    m3: M,
)
    requires
        (id as nat) < streams.len(),
        accepts(streams[id as int]),
        streams[id as int].parked,
        streams[id as int].mailbox.len() == 0,
        forall|k: int|
            0 <= k < streams[id as int].observers.len() ==> (#[trigger] streams[
                id as int
            ].observers[k]).target != id,
    ensures
        ({
            let a1 = emit_spec(streams, id as int, m1);
            let a2 = emit_spec(a1, id as int, m2);
            let a3 = emit_spec(a2, id as int, m3);
            &&& wakes_consumer(streams[id as int])
            &&& !wakes_consumer(a1[id as int])
            &&& !wakes_consumer(a2[id as int])
            &&& a3[id as int].mailbox =~= seq![m1, m2, m3]
        }),
{
    let i = id as int;
    lemma_emit_own(streams, i, m1);
    lemma_emit_own(emit_spec(streams, i, m1), i, m2);
    lemma_emit_own(emit_spec(emit_spec(streams, i, m1), i, m2), i, m3);
}

/// No cross-stream ordering: emissions on two unrelated streams commute.
/// Two streams are unrelated when no stream is touched by both emissions --
/// neither is the other, neither forwards to the other, and their observer
/// edges share no target.  Interleaving their emissions in either order
/// yields the same arena, so no relative order between the two streams is
/// ever imposed.
pub proof fn law_no_cross_stream_ordering<M, C: Converter<M>>(
    streams: Seq<StreamModel<M, C>>,
    a: usize,
    b: usize,
    x: M,
    y: M,
)
    requires
        (a as nat) < streams.len(),
        (b as nat) < streams.len(),
        forall|i: int|
            !(#[trigger] touches(streams[a as int], a as int, i) && touches(
                streams[b as int],
                b as int,
                i,
            )),
    ensures
        emit_spec(emit_spec(streams, a as int, x), b as int, y) == emit_spec(
            emit_spec(streams, b as int, y),
            a as int,
            x,
        ),
{
    let ai = a as int;
    let bi = b as int;
    let sa = streams[ai];
    let sb = streams[bi];
    let ax = emit_spec(streams, ai, x);
    let by = emit_spec(streams, bi, y);
    let lhs = emit_spec(ax, bi, y);
    let rhs = emit_spec(by, ai, x);
    lemma_emit_len(streams, ai, x);
    lemma_emit_len(streams, bi, y);
    lemma_emit_len(ax, bi, y);
    lemma_emit_len(by, ai, x);
    // each emitting stream is untouched by the other emission
    assert(touches(sa, ai, ai));
    assert(touches(sb, bi, bi));
    lemma_emit_untouched(streams, bi, y, ai);
    lemma_emit_untouched(streams, ai, x, bi);
    assert forall|i: int| 0 <= i < streams.len() implies lhs[i] == rhs[i] by {
        if touches(sa, ai, i) {
            // only the emission on `a` can change `i`
            lemma_emit_untouched(streams, bi, y, i);
            lemma_emit_pointwise(streams, by, ai, x, i);
            lemma_emit_untouched(ax, bi, y, i);
        } else if touches(sb, bi, i) {
            lemma_emit_untouched(streams, ai, x, i);
            lemma_emit_pointwise(streams, ax, bi, y, i);
            lemma_emit_untouched(by, ai, x, i);
        } else {
            lemma_emit_untouched(streams, ai, x, i);
            lemma_emit_untouched(streams, bi, y, i);
            lemma_emit_untouched(ax, bi, y, i);
            lemma_emit_untouched(by, ai, x, i);
        }
    }
    assert(lhs =~= rhs);
}

/// Close is terminal and idempotent: closing twice is the same as closing
/// once, and every later `poll` yields end-of-stream without changing the
/// stream.
pub proof fn law_close_terminal_idempotent<M, C>(s: StreamModel<M, C>)
    ensures
        close_spec(close_spec(s)) == close_spec(s),
        poll_spec(close_spec(s)) == close_spec(s),
        poll_result(close_spec(s)) == Polled::<M>::Closed,
{
}

} // verus!
