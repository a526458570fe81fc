//! The single error kind of the library: a wrapped sink failure.

use vstd::prelude::*;

verus! {

/// Wraps the failure value produced by the caller-supplied sink, without
/// inspecting or categorizing it; the original failure stays available for
/// programmatic inspection.
#[derive(Debug)]
pub struct InserterError<E> {
    source: E,
}

impl<E> View for InserterError<E> {
    type V = E;

    /// An error is viewed as the sink failure it wraps.
    closed spec fn view(&self) -> E {
        self.source
    }
}

impl<E> InserterError<E> {
    /// Wraps a sink failure.
    pub fn new(source: E) -> (r: Self)
        ensures
            r@ == source,
    {
        InserterError { source }
    }

    /// Returns the original sink failure.
    pub fn into_inner(self) -> (r: E)
        ensures
            r == self@,
    {
        self.source
    }
}

impl<E> From<E> for InserterError<E> {
    fn from(source: E) -> (r: Self) {
        InserterError { source }
    }
}

impl<E> vstd::std_specs::convert::FromSpecImpl<E> for InserterError<E> {
    open spec fn obeys_from_spec() -> bool {
        true
    }

    closed spec fn from_spec(source: E) -> Self {
        InserterError { source }
    }
}

} // verus!
