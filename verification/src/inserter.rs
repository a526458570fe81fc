//! The buffering and commit engine: accumulates items, decides when the
//! row-count or time threshold is reached, and drains the buffer through the
//! caller-supplied sink.

use vstd::prelude::*;

use crate::error::InserterError;
use crate::quantities::Quantities;
use crate::sink::BatchSink;
use crate::sink::CommitObserver;
use crate::sink::NullObserver;
use crate::ticks::rescheduled;
use crate::ticks::Ticks;
use crate::ticks::TicksView;

verus! {

/// The mathematical state of an inserter: the buffered items, the row
/// threshold, the scheduler state, the pending and committed counters, and
/// the open-transaction flag.
pub struct InserterView<T> {
    pub buffer: Seq<T>,
    pub max_rows: u64,
    pub ticks: TicksView,
    pub pending: Quantities,
    pub committed: Quantities,
    pub in_transaction: bool,
}

impl<T> InserterView<T> {
    /// Well-formedness: the scheduler is well-formed, the buffer never holds
    /// more items than the pending row count (a failed flush may leave rows
    /// pending with the buffer already taken), the lifetime totals fit in
    /// their counters, and an open transaction has been counted.
    pub open spec fn wf(self) -> bool {
        &&& self.ticks.wf()
        &&& self.buffer.len() <= self.pending.rows
        &&& self.pending.rows + self.committed.rows <= u64::MAX
        &&& self.pending.transactions + self.committed.transactions <= u64::MAX
        &&& self.in_transaction ==> self.pending.transactions >= 1
    }

    /// The dual-threshold flush decision: enough pending rows, or an armed
    /// deadline that has elapsed at `now`.
    pub open spec fn limits_reached(self, now: u64) -> bool {
        self.pending.rows >= self.max_rows || self.ticks.reached_at(now)
    }
}

/// Law: with no period configured, a well-formed inserter can reach its
/// limits only through the row threshold, whatever the clock says.
pub proof fn lemma_row_threshold_only<T>(v: InserterView<T>, now: u64)
    requires
        v.wf(),
        v.ticks.period is None,
    ensures
        v.limits_reached(now) == (v.pending.rows >= v.max_rows),
{
}

/// The pending transaction count after one write: a write opens a new
/// logical transaction only when none is open.
pub open spec fn tx_step(transactions: int, in_transaction: bool) -> int {
    if in_transaction {
        transactions
    } else {
        transactions + 1
    }
}

/// The pending transaction count after `n` consecutive writes with no
/// intervening flush, starting from `transactions` counted and the given
/// open-transaction flag: every write after the first one sees an open
/// transaction.
pub open spec fn tx_after_writes(transactions: int, in_transaction: bool, n: nat) -> int
    decreases n,
{
    if n == 0 {
        transactions
    } else {
        tx_after_writes(tx_step(transactions, in_transaction), true, (n - 1) as nat)
    }
}

/// Writes inside an already-open transaction never change the transaction
/// count, however many they are.
pub proof fn lemma_writes_in_open_transaction(transactions: int, n: nat)
    ensures
        tx_after_writes(transactions, true, n) == transactions,
    decreases n,
{
    if n > 0 {
        lemma_writes_in_open_transaction(transactions, (n - 1) as nat);
    }
}

/// Law: `n` consecutive writes with no intervening flush increment the
/// pending transaction count by exactly one, not by `n`.
pub proof fn lemma_single_transaction_per_run(transactions: int, n: nat)
    requires
        n >= 1,
    ensures
        tx_after_writes(transactions, false, n) == transactions + 1,
{
    lemma_writes_in_open_transaction(transactions + 1, (n - 1) as nat);
}

/// How a successful non-empty flush treats the observer: a configured
/// observer is notified exactly once with the flushed amounts; an
/// unconfigured one stays unconfigured.
pub open spec fn observer_notified<C: CommitObserver>(
    before: Option<C>,
    after: Option<C>,
    amounts: Quantities,
) -> bool {
    match before {
        None => after is None,
        Some(c) => (after matches Some(c2) && c2.observed() == c.observed().push(amounts)),
    }
}

/// The bookkeeping outcome of one flush step, the scheduler aside. On an
/// empty buffer nothing happens and the zero amounts are returned. Otherwise
/// the buffer is taken whole; on success the sink has accepted exactly that
/// batch, the pending amounts are folded into the committed totals and
/// returned, the transaction is closed and the observer notified; on failure
/// the counters and the observer are untouched (the batch itself was already
/// handed to the sink, which may or may not have applied it).
pub open spec fn flushed_state<T, S: BatchSink<T>, C: CommitObserver>(
    pre: InserterView<T>,
    post: InserterView<T>,
    pre_sink: S,
    post_sink: S,
    pre_obs: Option<C>,
    post_obs: Option<C>,
    r: Result<Quantities, InserterError<<S as BatchSink<T>>::Err>>,
) -> bool {
    &&& post.max_rows == pre.max_rows
    &&& (pre.buffer.len() == 0 ==> ({
        &&& r == Ok::<Quantities, InserterError<<S as BatchSink<T>>::Err>>(Quantities::zero())
        &&& post.buffer == pre.buffer
        &&& post.pending == pre.pending
        &&& post.committed == pre.committed
        &&& post.in_transaction == pre.in_transaction
        &&& post_sink == pre_sink
        &&& post_obs == pre_obs
    }))
    &&& (pre.buffer.len() > 0 ==> ({
        &&& post.buffer.len() == 0
        &&& (r matches Ok(q) ==> ({
            &&& q == pre.pending
            &&& post_sink.accepted() == pre_sink.accepted().push(pre.buffer)
            &&& post.committed.rows == pre.committed.rows + pre.pending.rows
            &&& post.committed.transactions == pre.committed.transactions
                + pre.pending.transactions
            &&& post.pending == Quantities::zero()
            &&& !post.in_transaction
            &&& observer_notified(pre_obs, post_obs, pre.pending)
        }))
        &&& (r is Err ==> ({
            &&& post.pending == pre.pending
            &&& post.committed == pre.committed
            &&& post.in_transaction == pre.in_transaction
            &&& post_obs == pre_obs
        }))
    }))
}

/// Buffers items and flushes them in batches through a caller-supplied sink,
/// triggered by a row-count threshold, an elapsed-time deadline, or an
/// explicit forced commit; an optional observer is told of every successful
/// flush.
pub struct Inserter<T, S, C> {
    sink: S,
    max_rows: u64,
    buffer: Vec<T>,
    ticks: Ticks,
    pending: Quantities,
    committed: Quantities,
    in_transaction: bool,
    on_commit: Option<C>,
}

impl<T, S, C> View for Inserter<T, S, C> {
    type V = InserterView<T>;

    closed spec fn view(&self) -> InserterView<T> {
        InserterView {
            buffer: self.buffer@,
            max_rows: self.max_rows,
            ticks: self.ticks@,
            pending: self.pending,
            committed: self.committed,
            in_transaction: self.in_transaction,
        }
    }
}

impl<T, S, C> Inserter<T, S, C> {
    /// The owned sink, for specification purposes.
    pub closed spec fn sink_view(&self) -> S {
        self.sink
    }

    /// The configured observer, for specification purposes.
    pub closed spec fn observer_view(&self) -> Option<C> {
        self.on_commit
    }
}

impl<T, S: BatchSink<T>> Inserter<T, S, NullObserver> {
    /// An inserter that takes ownership of `sink`, with an unbounded row
    /// threshold, no period, nothing buffered and no observer.
    pub fn new(sink: S) -> (r: Self)
        ensures
            r@.wf(),
            r@.buffer == Seq::<T>::empty(),
            r@.max_rows == u64::MAX,
            r@.ticks == (TicksView { period: None::<u64>, bias_ppm: 0u64, deadline: None::<u64> }),
            r@.pending == Quantities::zero(),
            r@.committed == Quantities::zero(),
            !r@.in_transaction,
            r.sink_view() == sink,
            r.observer_view() is None,
    {
        Inserter {
            sink,
            max_rows: u64::MAX,
            buffer: Vec::new(),
            ticks: Ticks::new(),
            pending: Quantities::new_zero(),
            committed: Quantities::new_zero(),
            in_transaction: false,
            on_commit: None,
        }
    }
}

impl<T, S: BatchSink<T>, C: CommitObserver> Inserter<T, S, C> {
    /// Sets the row-count threshold above which `commit` flushes.
    pub fn with_max_rows(self, max_rows: u64) -> (r: Self)
        ensures
            r@ == (InserterView { max_rows, ..self@ }),
            r.sink_view() == self.sink_view(),
            r.observer_view() == self.observer_view(),
    {
        Inserter { max_rows, ..self }
    }

    /// Sets the flush period, in the caller's clock units.
    pub fn with_period(self, period: u64) -> (r: Self)
        ensures
            r@.ticks.period == Some(period),
            r@.ticks.bias_ppm == self@.ticks.bias_ppm,
            r@.ticks.deadline == self@.ticks.deadline,
            r@.buffer == self@.buffer,
            r@.max_rows == self@.max_rows,
            r@.pending == self@.pending,
            r@.committed == self@.committed,
            r@.in_transaction == self@.in_transaction,
            r.sink_view() == self.sink_view(),
            r.observer_view() == self.observer_view(),
    {
        let Inserter { sink, max_rows, buffer, ticks, pending, committed, in_transaction, on_commit } = self;
        Inserter {
            sink,
            max_rows,
            buffer,
            ticks: ticks.with_period(period),
            pending,
            committed,
            in_transaction,
            on_commit,
        }
    }

    /// Sets the jitter bias applied to each scheduled period, as a fraction
    /// of the period in parts per million.
    pub fn with_period_bias(self, bias_ppm: u64) -> (r: Self)
        requires
            bias_ppm <= crate::ticks::PPM_SCALE,
        ensures
            r@.ticks.period == self@.ticks.period,
            r@.ticks.bias_ppm == bias_ppm,
            r@.ticks.deadline == self@.ticks.deadline,
            r@.buffer == self@.buffer,
            r@.max_rows == self@.max_rows,
            r@.pending == self@.pending,
            r@.committed == self@.committed,
            r@.in_transaction == self@.in_transaction,
            r.sink_view() == self.sink_view(),
            r.observer_view() == self.observer_view(),
    {
        let Inserter { sink, max_rows, buffer, ticks, pending, committed, in_transaction, on_commit } = self;
        Inserter {
            sink,
            max_rows,
            buffer,
            ticks: ticks.with_bias(bias_ppm),
            pending,
            committed,
            in_transaction,
            on_commit,
        }
    }

    /// Installs a commit observer, replacing the inserter's observer type.
    pub fn with_commit_callback<C2: CommitObserver>(self, observer: C2) -> (r: Inserter<T, S, C2>)
        ensures
            r@ == self@,
            r.sink_view() == self.sink_view(),
            r.observer_view() == Some(observer),
    {
        let Inserter { sink, max_rows, buffer, ticks, pending, committed, in_transaction, on_commit: _ } = self;
        Inserter {
            sink,
            max_rows,
            buffer,
            ticks,
            pending,
            committed,
            in_transaction,
            on_commit: Some(observer),
        }
    }

    /// The amounts accumulated since the last flush.
    pub fn pending(&self) -> (r: &Quantities)
        ensures
            *r == self@.pending,
    {
        &self.pending
    }

    /// The lifetime totals committed so far.
    pub fn committed(&self) -> (r: &Quantities)
        ensures
            *r == self@.committed,
    {
        &self.committed
    }

    /// Time remaining until the armed deadline at `now`, floored at zero;
    /// `None` when no period is configured or no deadline is armed yet.
    pub fn time_left(&self, now: u64) -> (r: Option<u64>)
        ensures
            r == self@.ticks.time_left_at(now),
    {
        self.ticks.time_left(now)
    }

    /// The owned sink, for inspection.
    pub fn sink(&self) -> (r: &S)
        ensures
            *r == self.sink_view(),
    {
        &self.sink
    }

    /// The configured observer, for inspection.
    pub fn observer(&self) -> (r: &Option<C>)
        ensures
            *r == self.observer_view(),
    {
        &self.on_commit
    }

    /// The dual-threshold flush decision at time `now`.
    fn limits_reached(&self, now: u64) -> (r: bool)
        ensures
            r == self@.limits_reached(now),
    {
        self.pending.rows >= self.max_rows || self.ticks.reached(now)
    }

    /// Appends one owned item to the buffer and counts it. The very first
    /// buffered write arms the deadline; a write with no open transaction
    /// opens one and counts it.
    pub fn write_owned(&mut self, item: T, now: u64)
        requires
            old(self)@.wf(),
            old(self)@.pending.rows + old(self)@.committed.rows < u64::MAX,
            old(self)@.pending.transactions + old(self)@.committed.transactions < u64::MAX,
            old(self)@.ticks.deadline is None ==> old(self)@.ticks.can_schedule(now),
        ensures
            final(self)@.wf(),
            final(self)@.buffer == old(self)@.buffer.push(item),
            final(self)@.max_rows == old(self)@.max_rows,
            final(self)@.pending.rows == old(self)@.pending.rows + 1,
            final(self)@.pending.transactions == tx_step(
                old(self)@.pending.transactions as int,
                old(self)@.in_transaction,
            ),
            final(self)@.committed == old(self)@.committed,
            final(self)@.in_transaction,
            final(self).sink_view() == old(self).sink_view(),
            final(self).observer_view() == old(self).observer_view(),
            (old(self)@.ticks.period is None || old(self)@.ticks.deadline is Some)
                ==> final(self)@.ticks == old(self)@.ticks,
            (old(self)@.ticks.period is Some && old(self)@.ticks.deadline is None) ==> rescheduled(
                old(self)@.ticks,
                final(self)@.ticks,
                now,
            ),
    {
        self.ticks.start(now);
        self.buffer.push(item);
        self.pending.rows = self.pending.rows + 1;
        if !self.in_transaction {
            self.pending.transactions = self.pending.transactions + 1;
            self.in_transaction = true;
        }
    }

    /// The shared flush step: on an empty buffer, returns the zero amounts
    /// at once; otherwise takes ownership of the whole buffer, hands it to
    /// the sink, and on success folds the pending amounts into the committed
    /// totals, closes the transaction and notifies the observer.
    fn flush(&mut self) -> (r: Result<Quantities, InserterError<S::Err>>)
        requires
            old(self)@.wf(),
        ensures
            final(self)@.wf(),
            final(self)@.ticks == old(self)@.ticks,
            flushed_state(
                old(self)@,
                final(self)@,
                old(self).sink_view(),
                final(self).sink_view(),
                old(self).observer_view(),
                final(self).observer_view(),
                r,
            ),
    {
        if self.buffer.len() == 0 {
            return Ok(Quantities::new_zero());
        }
        let mut batch: Vec<T> = Vec::new();
        core::mem::swap(&mut self.buffer, &mut batch);
        let flushed = self.pending;
        match self.sink.send(batch) {
            Err(e) => Err(InserterError::new(e)),
            Ok(()) => {
                self.committed.rows = self.committed.rows + flushed.rows;
                self.committed.transactions = self.committed.transactions + flushed.transactions;
                self.pending = Quantities::new_zero();
                self.in_transaction = false;
                match &mut self.on_commit {
                    Some(callback) => callback.notify(&flushed),
                    None => {},
                }
                Ok(flushed)
            },
        }
    }

    /// Conditional flush: below both thresholds it only closes the logical
    /// transaction, returns the zero amounts and leaves everything else
    /// untouched; at or past a threshold it does exactly what `force_commit`
    /// does.
    pub fn commit(&mut self, now: u64) -> (r: Result<Quantities, InserterError<S::Err>>)
        requires
            old(self)@.wf(),
            old(self)@.limits_reached(now) ==> old(self)@.ticks.can_schedule(now),
        ensures
            final(self)@.wf(),
            !old(self)@.limits_reached(now) ==> ({
                &&& r == Ok::<Quantities, InserterError<S::Err>>(Quantities::zero())
                &&& final(self)@.buffer == old(self)@.buffer
                &&& final(self)@.max_rows == old(self)@.max_rows
                &&& final(self)@.ticks == old(self)@.ticks
                &&& final(self)@.pending == old(self)@.pending
                &&& final(self)@.committed == old(self)@.committed
                &&& !final(self)@.in_transaction
                &&& final(self).sink_view() == old(self).sink_view()
                &&& final(self).observer_view() == old(self).observer_view()
            }),
            old(self)@.limits_reached(now) ==> ({
                &&& flushed_state(
                    old(self)@,
                    final(self)@,
                    old(self).sink_view(),
                    final(self).sink_view(),
                    old(self).observer_view(),
                    final(self).observer_view(),
                    r,
                )
                &&& (r is Ok ==> rescheduled(old(self)@.ticks, final(self)@.ticks, now))
                &&& (r is Err ==> final(self)@.ticks == old(self)@.ticks)
            }),
    {
        if !self.limits_reached(now) {
            self.in_transaction = false;
            return Ok(Quantities::new_zero());
        }
        self.force_commit(now)
    }

    /// Unconditional flush; afterwards (on success, whether or not anything
    /// was buffered) the deadline is rescheduled. Returns the amounts just
    /// flushed, zero for an empty buffer.
    pub fn force_commit(&mut self, now: u64) -> (r: Result<Quantities, InserterError<S::Err>>)
        requires
            old(self)@.wf(),
            old(self)@.ticks.can_schedule(now),
        ensures
            final(self)@.wf(),
            flushed_state(
                old(self)@,
                final(self)@,
                old(self).sink_view(),
                final(self).sink_view(),
                old(self).observer_view(),
                final(self).observer_view(),
                r,
            ),
            r is Ok ==> rescheduled(old(self)@.ticks, final(self)@.ticks, now),
            r is Err ==> final(self)@.ticks == old(self)@.ticks,
    {
        let result = match self.flush() {
            Ok(q) => q,
            Err(e) => {
                return Err(e);
            },
        };
        self.ticks.reschedule(now);
        Ok(result)
    }

    /// Terminal operation: flushes whatever is buffered, consumes the
    /// inserter and returns the lifetime committed totals, the final batch
    /// included. A sink failure propagates and the inserter is lost with it.
    pub fn end(self) -> (r: Result<Quantities, InserterError<S::Err>>)
        requires
            self@.wf(),
        ensures
            self@.buffer.len() == 0 ==> r == Ok::<Quantities, InserterError<S::Err>>(
                self@.committed,
            ),
            self@.buffer.len() > 0 ==> (r matches Ok(q) ==> ({
                &&& q.rows == self@.committed.rows + self@.pending.rows
                &&& q.transactions == self@.committed.transactions + self@.pending.transactions
            })),
    {
        let mut this = self;
        match this.flush() {
            Ok(_) => Ok(this.committed),
            Err(e) => Err(e),
        }
    }
}

impl<T: Clone, S: BatchSink<T>, C: CommitObserver> Inserter<T, S, C> {
    /// Clones the item and buffers the clone; the counters move exactly as
    /// in `write_owned`. What value `T::clone` produced is not specified.
    pub fn write(&mut self, item: &T, now: u64)
        requires
            old(self)@.wf(),
            old(self)@.pending.rows + old(self)@.committed.rows < u64::MAX,
            old(self)@.pending.transactions + old(self)@.committed.transactions < u64::MAX,
            old(self)@.ticks.deadline is None ==> old(self)@.ticks.can_schedule(now),
        ensures
            final(self)@.wf(),
            exists|c: T| final(self)@.buffer == old(self)@.buffer.push(c),
            final(self)@.max_rows == old(self)@.max_rows,
            final(self)@.pending.rows == old(self)@.pending.rows + 1,
            final(self)@.pending.transactions == tx_step(
                old(self)@.pending.transactions as int,
                old(self)@.in_transaction,
            ),
            final(self)@.committed == old(self)@.committed,
            final(self)@.in_transaction,
            final(self).sink_view() == old(self).sink_view(),
            final(self).observer_view() == old(self).observer_view(),
            (old(self)@.ticks.period is None || old(self)@.ticks.deadline is Some)
                ==> final(self)@.ticks == old(self)@.ticks,
            (old(self)@.ticks.period is Some && old(self)@.ticks.deadline is None) ==> rescheduled(
                old(self)@.ticks,
                final(self)@.ticks,
                now,
            ),
    {
        self.write_owned(item.clone(), now);
    }
}

} // verus!
