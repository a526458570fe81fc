//! The caller-supplied collaborators of the buffering engine: the batch sink
//! that performs the bulk write, and the optional commit observer.

use vstd::prelude::*;

use crate::quantities::Quantities;

verus! {

/// The sink capability: one operation that takes ownership of a non-empty
/// batch of items and reports success or a domain-specific failure.
///
/// Implementations keep a ghost record (`accepted`) of the batches they have
/// fully accepted, so that callers can state how often and with what the
/// sink was invoked. A failed call promises nothing about that record: the
/// batch may or may not have been partially applied externally.
pub trait BatchSink<T>: Sized {
    /// The implementation's failure type.
    type Err;

    /// Ghost record of the batches accepted so far, in order.
    spec fn accepted(&self) -> Seq<Seq<T>>;

    /// Performs one bulk write of a non-empty batch.
    fn send(&mut self, batch: Vec<T>) -> (r: Result<(), Self::Err>)
        requires
            batch@.len() > 0,
        ensures
            r is Ok ==> final(self).accepted() == old(self).accepted().push(batch@),
    ;
}

/// The observer capability: one operation that receives the amounts of a
/// successful flush. It must not fail. Implementations keep a ghost record
/// (`observed`) of the notifications received, in order.
pub trait CommitObserver: Sized {
    /// Ghost record of the amounts observed so far, in order.
    spec fn observed(&self) -> Seq<Quantities>;

    /// Receives the amounts of one successful non-empty flush.
    fn notify(&mut self, amounts: &Quantities)
        ensures
            final(self).observed() == old(self).observed().push(*amounts),
    ;
}

/// A sink that stores every batch it is given and never fails.
pub struct VecSink<T> {
    pub batches: Vec<Vec<T>>,
}

impl<T> VecSink<T> {
    /// An empty sink.
    pub fn new() -> (r: Self)
        ensures
            r.batches@ == Seq::<Vec<T>>::empty(),
            r.accepted() == Seq::<Seq<T>>::empty(),
    {
        let r = VecSink { batches: Vec::new() };
        proof {
            assert(r.batches@.map_values(|b: Vec<T>| b@) =~= Seq::<Seq<T>>::empty());
        }
        r
    }
}

impl<T> BatchSink<T> for VecSink<T> {
    type Err = ();

    /// The stored batches, viewed as sequences.
    open spec fn accepted(&self) -> Seq<Seq<T>> {
        self.batches@.map_values(|b: Vec<T>| b@)
    }

    fn send(&mut self, batch: Vec<T>) -> (r: Result<(), ()>) {
        let ghost contents = batch@;
        self.batches.push(batch);
        proof {
            assert(self.batches@.map_values(|b: Vec<T>| b@) =~= old(self).batches@.map_values(
                |b: Vec<T>| b@,
            ).push(contents));
        }
        Ok(())
    }
}

/// A sink that refuses every batch with a clone of a fixed failure value:
/// nothing is ever accepted.
pub struct FailSink<E> {
    pub failure: E,
}

impl<T, E: Clone> BatchSink<T> for FailSink<E> {
    type Err = E;

    /// Nothing is ever accepted.
    open spec fn accepted(&self) -> Seq<Seq<T>> {
        Seq::empty()
    }

    fn send(&mut self, batch: Vec<T>) -> (r: Result<(), E>) {
        let _ = batch;
        Err(self.failure.clone())
    }
}

/// An observer that records every notification it receives.
pub struct VecObserver {
    pub seen: Vec<Quantities>,
}

impl VecObserver {
    /// An observer that has seen nothing yet.
    pub fn new() -> (r: Self)
        ensures
            r.seen@ == Seq::<Quantities>::empty(),
            r.observed() == Seq::<Quantities>::empty(),
    {
        VecObserver { seen: Vec::new() }
    }
}

impl CommitObserver for VecObserver {
    /// The recorded notifications.
    open spec fn observed(&self) -> Seq<Quantities> {
        self.seen@
    }

    fn notify(&mut self, amounts: &Quantities) {
        self.seen.push(*amounts);
    }
}

/// The observer type of an inserter on which no commit callback was
/// configured. It does nothing at run time; a ghost record keeps the
/// notification history that the observer contract speaks of.
pub struct NullObserver {
    pub history: Ghost<Seq<Quantities>>,
}

impl CommitObserver for NullObserver {
    /// The ghost notification history.
    open spec fn observed(&self) -> Seq<Quantities> {
        self.history@
    }

    fn notify(&mut self, amounts: &Quantities) {
        proof {
            self.history@ = self.history@.push(*amounts);
        }
    }
}

} // verus!
