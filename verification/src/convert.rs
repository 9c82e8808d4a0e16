//! Pure message converters, the typed forwarding rules of observers.

use vstd::prelude::*;

verus! {

/// A pure conversion rule applied to every message forwarded along an
/// observer edge.
///
/// A converter is a mathematical function of the message alone: the exec
/// method must return exactly what the spec function [`Converter::conv`]
/// says.  Users wire components together by implementing this trait for
/// their own (typically zero-sized or enum) converter types.
pub trait Converter<M>: Sized {
    /// The function the converter computes.
    spec fn conv(&self, m: M) -> M;

    /// Apply the converter to one message.
    fn convert(&self, m: M) -> (r: M)
        ensures
            r == self.conv(m),
    ;
}

/// The converter that forwards every message unchanged.
#[derive(Clone, Copy, Debug)]
pub struct Identity;

impl<M> Converter<M> for Identity {
    open spec fn conv(&self, m: M) -> M {
        m
    }

    fn convert(&self, m: M) -> (r: M) {
        m
    }
}

} // verus!
