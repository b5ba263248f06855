//! Forcing deferred memory reclamation between two measurements.
//!
//! The lock-free maps retire memory through epoch-based collectors and free
//! it later. Two collectors are in play, one per generation of the epoch
//! library: the current one, and the earlier one that the trie still uses.
//! A reclamation cycle drains both, so that no measurement pays for the
//! garbage of the one before it.

use vstd::prelude::*;

verus! {

/// How many times a drain advances the epoch of a domain.
pub const EPOCH_ADVANCES: u32 = 32;

/// How long memory is left to settle after a drain, in milliseconds.
pub const SETTLE_MILLIS: u64 = 20000;

/// `crossbeam_epoch::Guard`, the pin of a thread in the current domain.
/// Opaque: nothing is known of what it holds.
#[verifier::external_type_specification]
#[verifier::external_body]
pub struct ExGuard(crossbeam_epoch::Guard);

/// `crossbeam::epoch::Guard`, the pin of a thread in the earlier domain.
/// Opaque: nothing is known of what it holds.
#[verifier::external_type_specification]
#[verifier::external_body]
pub struct ExLegacyGuard(crossbeam::epoch::Guard);

/// `crossbeam_epoch::pin` pins the calling thread in the current domain.
/// Nothing is claimed of the guard it returns.
pub assume_specification[ crossbeam_epoch::pin ]() -> (guard: crossbeam_epoch::Guard);

/// `Guard::flush` hands the thread's deferred destructors to the current
/// domain's collector and lets it collect. Nothing is claimed of its effect.
pub assume_specification[ crossbeam_epoch::Guard::flush ](guard: &crossbeam_epoch::Guard);

/// `Guard::repin` unpins and pins the thread again, which lets the current
/// domain's epoch advance. Nothing is claimed of the guard afterwards.
pub assume_specification[ crossbeam_epoch::Guard::repin ](guard: &mut crossbeam_epoch::Guard);

/// `crossbeam::epoch::pin` pins the calling thread in the earlier domain.
/// Nothing is claimed of the guard it returns.
pub assume_specification[ crossbeam::epoch::pin ]() -> (guard: crossbeam::epoch::Guard);

/// `Guard::flush` of the earlier domain: hands the thread's deferred
/// destructors to the collector. Nothing is claimed of its effect.
pub assume_specification[ crossbeam::epoch::Guard::flush ](guard: &crossbeam::epoch::Guard);

/// `Guard::repin` of the earlier domain: unpins and pins the thread again.
/// Nothing is claimed of the guard afterwards.
pub assume_specification[ crossbeam::epoch::Guard::repin ](guard: &mut crossbeam::epoch::Guard);

/// Drains the current domain: pins the thread, flushes its deferred
/// destructors, and lets the epoch advance `rounds` times.
///
/// Returns the number of advances it asked for. What the collector freed
/// is outside of what this crate can state.
pub fn drain_current(rounds: u32) -> (advanced: u32)
    ensures
        advanced == rounds,
{
    let mut guard = crossbeam_epoch::pin();
    guard.flush();
    let mut advanced: u32 = 0;
    while advanced < rounds
        invariant
            advanced <= rounds,
        decreases rounds - advanced,
    {
        guard.repin();
        advanced = advanced + 1;
    }
    advanced
}

/// Drains the earlier domain in the same way as [`drain_current`].
pub fn drain_legacy(rounds: u32) -> (advanced: u32)
    ensures
        advanced == rounds,
{
    let mut guard = crossbeam::epoch::pin();
    guard.flush();
    let mut advanced: u32 = 0;
    while advanced < rounds
        invariant
            advanced <= rounds,
        decreases rounds - advanced,
    {
        guard.repin();
        advanced = advanced + 1;
    }
    advanced
}

/// What one reclamation cycle asked of the collectors, and what it leaves
/// to the caller.
#[derive(Clone, Copy, Debug, PartialEq, Eq, Structural)]
pub struct Reclaimed {
    /// Epoch advances asked of the current domain.
    pub current_advances: u32,
    /// Epoch advances asked of the earlier domain.
    pub legacy_advances: u32,
    /// How long the caller is to pause before the next measurement, in
    /// milliseconds.
    pub settle_millis: u64,
}

/// The outcome of every reclamation cycle.
pub open spec fn full_cycle() -> Reclaimed {
    Reclaimed { current_advances: 32, legacy_advances: 32, settle_millis: 20000 }
}

/// Runs one reclamation cycle: drains the current domain, then the earlier
/// one, and tells the caller how long to let memory settle.
///
/// The pause itself is the caller's to take, after this function returns.
pub fn gc_cycle() -> (done: Reclaimed)
    ensures
        done == full_cycle(),
{
    let current_advances = drain_current(EPOCH_ADVANCES);
    let legacy_advances = drain_legacy(EPOCH_ADVANCES);
    Reclaimed { current_advances, legacy_advances, settle_millis: SETTLE_MILLIS }
}

} // verus!
