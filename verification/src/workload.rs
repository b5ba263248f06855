//! Workload specifications and the three presets that the benchmark runs.

use vstd::prelude::*;
use crate::mix::{Mix, harness_read_heavy, rg_mix, ex_mix};
use crate::mix::{read_heavy_weights, rapid_grow_weights, exchange_weights};

verus! {

/// The initial capacity of every preset, as an exponent of two.
pub const INITIAL_CAPACITY_LOG2: u8 = 24;

/// The operations multiplier of every preset, in percent (1.5 times).
pub const OPERATIONS_PERCENT: u32 = 150;

/// The prefill of the presets that start from a populated map, in percent.
pub const PREFILL_PERCENT: u8 = 80;

/// What one trial measures.
///
/// Fractions are held as whole percentages, so that `80` stands for a
/// prefill fraction of 0.8 and `150` for a multiplier of 1.5.
#[derive(Clone, Copy, Debug, PartialEq, Eq, Structural)]
pub struct WorkloadSpec {
    /// The size of the key space that the workload is scaled to.
    pub size: usize,
    /// How the operations divide among reads and the four writes.
    pub mix: Mix,
    /// The initial capacity of the map, as an exponent of two.
    pub initial_capacity_log2: u8,
    /// The share of the key space inserted before timing starts, in percent.
    pub prefill_percent: u8,
    /// The number of operations as a multiple of the key space, in percent.
    pub operations_percent: u32,
}

impl WorkloadSpec {
    /// A specification is usable when its mix is whole and its prefill is a
    /// fraction between zero and one.
    pub open spec fn is_valid(self) -> bool {
        &&& self.mix.is_valid()
        &&& self.prefill_percent <= 100
    }

    /// The number of operations of a trial: the multiplier times the key
    /// space, rounded down.
    pub open spec fn operation_count(self) -> int {
        self.size * self.operations_percent / 100
    }

    /// The number of keys inserted before timing starts: the prefill
    /// fraction of the key space, rounded down.
    pub open spec fn prefill_count(self) -> int {
        self.size * self.prefill_percent / 100
    }

    /// Tells whether the specification is usable.
    pub fn check(&self) -> (ok: bool)
        ensures
            ok == self.is_valid(),
    {
        self.mix.check() && self.prefill_percent <= 100
    }

    /// Computes the number of operations of a trial, or `None` when it
    /// does not fit the machine word.
    pub fn total_operations(&self) -> (count: Option<usize>)
        ensures
            match count {
                Some(c) => c == self.operation_count(),
                None => self.operation_count() > usize::MAX,
            },
    {
        assert(self.size * self.operations_percent <= 0xffff_ffff_ffff_ffff * 0xffff_ffff)
            by (nonlinear_arith)
            requires
                self.size <= 0xffff_ffff_ffff_ffff,
                self.operations_percent <= 0xffff_ffff,
        ;
        let wide: u128 = (self.size as u128) * (self.operations_percent as u128) / 100;
        if wide <= usize::MAX as u128 {
            Some(wide as usize)
        } else {
            None
        }
    }

    /// Computes the number of keys inserted before timing starts.
    pub fn prefill_keys(&self) -> (count: usize)
        requires
            self.prefill_percent <= 100,
        ensures
            count == self.prefill_count(),
            count <= self.size,
    {
        assert(0 <= self.size * self.prefill_percent <= self.size * 100) by (nonlinear_arith)
            requires
                self.prefill_percent <= 100,
        ;
        let wide: u128 = (self.size as u128) * (self.prefill_percent as u128) / 100;
        wide as usize
    }
}

/// The cache-like preset for a key space of size `n`.
pub open spec fn read_heavy_workload(n: usize) -> WorkloadSpec {
    WorkloadSpec {
        size: n,
        mix: read_heavy_weights(),
        initial_capacity_log2: 24,
        prefill_percent: 80,
        operations_percent: 150,
    }
}

/// The growing-map preset for a key space of size `n`.
pub open spec fn rapid_grow_workload(n: usize) -> WorkloadSpec {
    WorkloadSpec {
        size: n,
        mix: rapid_grow_weights(),
        initial_capacity_log2: 24,
        prefill_percent: 0,
        operations_percent: 150,
    }
}

/// The steady-churn preset for a key space of size `n`.
pub open spec fn exchange_workload(n: usize) -> WorkloadSpec {
    WorkloadSpec {
        size: n,
        mix: exchange_weights(),
        initial_capacity_log2: 24,
        prefill_percent: 80,
        operations_percent: 150,
    }
}

/// Builds the cache-like workload: overwhelmingly lookups on a map that is
/// four fifths full.
pub fn read_heavy(n: usize) -> (w: WorkloadSpec)
    ensures
        w == read_heavy_workload(n),
        w.is_valid(),
{
    WorkloadSpec {
        size: n,
        mix: harness_read_heavy(),
        initial_capacity_log2: INITIAL_CAPACITY_LOG2,
        prefill_percent: PREFILL_PERCENT,
        operations_percent: OPERATIONS_PERCENT,
    }
}

/// Builds the growing-map workload: overwhelmingly insertions into a map
/// that starts empty.
pub fn rapid_grow(n: usize) -> (w: WorkloadSpec)
    ensures
        w == rapid_grow_workload(n),
        w.is_valid(),
{
    WorkloadSpec {
        size: n,
        mix: rg_mix(),
        initial_capacity_log2: INITIAL_CAPACITY_LOG2,
        prefill_percent: 0,
        operations_percent: OPERATIONS_PERCENT,
    }
}

/// Builds the steady-churn workload: insertions and removals in balance on
/// a map that is four fifths full.
pub fn exchange(n: usize) -> (w: WorkloadSpec)
    ensures
        w == exchange_workload(n),
        w.is_valid(),
{
    WorkloadSpec {
        size: n,
        mix: ex_mix(),
        initial_capacity_log2: INITIAL_CAPACITY_LOG2,
        prefill_percent: PREFILL_PERCENT,
        operations_percent: OPERATIONS_PERCENT,
    }
}

} // verus!
