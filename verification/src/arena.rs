//! The arena of streams: all streams of one message type, addressed by
//! stable indices, so that observer edges can name their target without
//! owning it.

use vstd::prelude::*;

use crate::convert::Converter;
use crate::model::{
    emit_spec, empty_stream, fan_out, lemma_fan_out_preserves, lemma_fan_out_snoc, StreamModel,
};
use crate::stream::EventStream;

verus! {

/// All streams of one component graph.  Streams are created once at wiring
/// time and never removed, so an index stays valid for the arena's lifetime.
///
/// Its abstract state is the sequence of the streams' models.
pub struct StreamArena<M, C> {
    streams: Vec<EventStream<M, C>>,
}

impl<M, C> View for StreamArena<M, C> {
    type V = Seq<StreamModel<M, C>>;

    closed spec fn view(&self) -> Seq<StreamModel<M, C>> {
        Seq::new(self.streams@.len(), |i: int| self.streams@[i]@)
    }
}

impl<M, C> StreamArena<M, C> {
    /// An arena with no streams yet.
    pub fn new() -> (a: Self)
        ensures
            a@ == Seq::<StreamModel<M, C>>::empty(),
    {
        StreamArena { streams: Vec::new() }
    }

    /// Create a fresh stream and return its index.
    pub fn create(&mut self) -> (id: usize)
        ensures
            final(self)@ == old(self)@.push(empty_stream::<M, C>()),
            id as nat == old(self)@.len(),
    {
        let id = self.streams.len();
        self.streams.push(EventStream::new());
        assert(self@ =~= old(self)@.push(empty_stream::<M, C>()));
        id
    }

    /// How many streams the arena holds.
    pub fn len(&self) -> (n: usize)
        ensures
            n as nat == self@.len(),
    {
        self.streams.len()
    }

    /// Read access to the stream at index `id`.
    pub fn stream(&self, id: usize) -> (r: &EventStream<M, C>)
        requires
            id < self@.len(),
        ensures
            r@ == self@[id as int],
    {
        &self.streams[id]
    }

    /// Exclusive access to the stream at index `id`, for its local
    /// operations (`close`, `lock`, `unlock`, `observe`, `poll`, ...).
    pub fn stream_mut(&mut self, id: usize) -> (r: &mut EventStream<M, C>)
        requires
            id < old(self)@.len(),
        ensures
            r@ == old(self)@[id as int],
            final(self)@ == old(self)@.update(id as int, final(r)@),
    {
        &mut self.streams[id]
    }
}

impl<M: Copy, C: Converter<M>> StreamArena<M, C> {
    /// Emit `msg` on the stream at index `id`.
    ///
    /// On a closed or locked stream the emission has no effect at all: the
    /// message is dropped, no observer runs, nobody is woken.  Otherwise, in
    /// this order: the parked consumer of the emitting stream, if any, is
    /// woken and its slot consumed; every observer edge forwards the
    /// converted message to its target, synchronously and in registration
    /// order (single-hop: the targets' own observers are not re-invoked);
    /// and `msg` is appended to the emitting stream's own mailbox, whether
    /// or not a consumer was parked.
    pub fn emit(&mut self, id: usize, msg: M)
        requires
            (id as nat) < old(self)@.len(),
        ensures
            final(self)@ == emit_spec(old(self)@, id as int, msg),
    {
        let accepting = {
            let st = self.stream(id);
            !st.is_terminated() && !st.is_locked()
        };
        if !accepting {
            return;
        }
        let ghost streams0 = self@;
        let ghost obs = self@[id as int].observers;
        self.stream_mut(id).wake_and_clear();
        let ghost woken = self@;
        proof {
            assert(woken =~= streams0.update(
                id as int,
                (StreamModel { parked: false, ..streams0[id as int] }),
            ));
            assert(obs.take(0) =~= Seq::<crate::model::Observer<C>>::empty());
        }
        let n = self.stream(id).observer_count();
        for j in 0..n
            invariant
                (id as nat) < streams0.len(),
                n as nat == obs.len(),
                self@.len() == streams0.len(),
                woken.len() == streams0.len(),
                self@ == fan_out(woken, obs.take(j as int), msg),
                self@[id as int].observers == obs,
        {
            proof {
                lemma_fan_out_preserves(woken, obs.take(j as int), msg);
            }
            let t = self.stream(id).observer_target(j);
            let fm = self.stream(id).convert_at(j, msg);
            if t < self.len() {
                self.stream_mut(t).deliver_to(fm);
            }
            proof {
                lemma_fan_out_snoc(woken, obs.take(j as int), obs[j as int], msg);
                assert(obs.take(j as int).push(obs[j as int]) =~= obs.take(j + 1));
                assert(self@ =~= fan_out(woken, obs.take(j + 1), msg));
                lemma_fan_out_preserves(woken, obs.take(j + 1), msg);
            }
        }
        proof {
            assert(obs.take(n as int) =~= obs);
        }
        self.stream_mut(id).append_own(msg);
        proof {
            assert(self@ =~= emit_spec(streams0, id as int, msg));
        }
    }
}

} // verus!
