//! Operation mixes: how a workload divides its operations among reads and
//! the four ways of writing.

use vstd::prelude::*;

verus! {

/// The share of each kind of operation in a workload, in percent.
#[derive(Clone, Copy, Debug, PartialEq, Eq, Structural)]
pub struct Mix {
    /// Percentage of lookups.
    pub read: u8,
    /// Percentage of insertions of new keys.
    pub insert: u8,
    /// Percentage of removals.
    pub remove: u8,
    /// Percentage of updates of existing keys.
    pub update: u8,
    /// Percentage of update-or-insert operations.
    pub upsert: u8,
}

impl Mix {
    /// The sum of the five weights.
    pub open spec fn total(self) -> int {
        self.read + self.insert + self.remove + self.update + self.upsert
    }

    /// A mix is usable when its weights are percentages of a whole.
    pub open spec fn is_valid(self) -> bool {
        self.total() == 100
    }

    /// Computes the sum of the five weights.
    pub fn weight_sum(&self) -> (sum: u16)
        ensures
            sum == self.total(),
    {
        self.read as u16 + self.insert as u16 + self.remove as u16 + self.update as u16
            + self.upsert as u16
    }

    /// Tells whether the weights add up to exactly one hundred percent.
    pub fn check(&self) -> (ok: bool)
        ensures
            ok == self.is_valid(),
    {
        self.weight_sum() == 100
    }
}

/// The mix of a cache-like workload: almost only lookups.
pub open spec fn read_heavy_weights() -> Mix {
    Mix { read: 94, insert: 2, remove: 1, update: 3, upsert: 0 }
}

/// The mix of a map that grows from empty: almost only insertions.
pub open spec fn rapid_grow_weights() -> Mix {
    Mix { read: 5, insert: 80, remove: 5, update: 10, upsert: 0 }
}

/// The mix of steady churn: as many insertions as removals.
pub open spec fn exchange_weights() -> Mix {
    Mix { read: 10, insert: 40, remove: 40, update: 10, upsert: 0 }
}

/// Calls `bustle::Mix::read_heavy` and copies its five public fields.
///
/// Trusted: the harness builds that mix from the literals 94 (read),
/// 2 (insert), 3 (update), 1 (remove) and 0 (upsert).
#[verifier::external_body]
pub(crate) fn harness_read_heavy() -> (m: Mix)
    ensures
        m == read_heavy_weights(),
{
    let h = bustle::Mix::read_heavy();
    Mix { read: h.read, insert: h.insert, remove: h.remove, update: h.update, upsert: h.upsert }
}

/// The insert-heavy mix used to grow a map from empty.
pub fn rg_mix() -> (m: Mix)
    ensures
        m == rapid_grow_weights(),
        m.total() == 100,
{
    Mix { read: 5, insert: 80, remove: 5, update: 10, upsert: 0 }
}

/// The balanced insert/remove mix used for steady churn.
pub fn ex_mix() -> (m: Mix)
    ensures
        m == exchange_weights(),
        m.total() == 100,
{
    Mix { read: 10, insert: 40, remove: 40, update: 10, upsert: 0 }
}

} // verus!
