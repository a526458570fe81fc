//! Row and transaction counters shared by the buffering engine.

use vstd::prelude::*;

verus! {

/// Counts rows (buffered or flushed items) and logical transactions
/// (uninterrupted runs of writes folded into a batch). A value with
/// `rows == 0` stands for "nothing pending / nothing flushed".
#[derive(Debug, Clone, Copy, PartialEq, Eq, Structural)]
pub struct Quantities {
    pub rows: u64,
    pub transactions: u64,
}

impl Quantities {
    /// The zero value: no rows, no transactions.
    pub open spec fn zero() -> Quantities {
        Quantities { rows: 0, transactions: 0 }
    }

    /// Builds the zero value.
    pub fn new_zero() -> (r: Quantities)
        ensures
            r == Quantities::zero(),
    {
        Quantities { rows: 0, transactions: 0 }
    }

    /// True iff no rows are counted.
    pub fn is_empty(&self) -> (r: bool)
        ensures
            r == (self.rows == 0),
    {
        self.rows == 0
    }
}

impl Default for Quantities {
    /// The default value is the zero value.
    fn default() -> (r: Self)
        ensures
            r == Quantities::zero(),
    {
        Quantities { rows: 0, transactions: 0 }
    }
}

} // verus!
