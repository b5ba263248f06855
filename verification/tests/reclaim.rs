use map_bench::reclaim::{
    drain_current, drain_legacy, gc_cycle, Reclaimed, EPOCH_ADVANCES, SETTLE_MILLIS,
};
use std::sync::{Arc, Mutex};

#[test]
fn constants_of_a_cycle() {
    assert_eq!(EPOCH_ADVANCES, 32);
    assert_eq!(SETTLE_MILLIS, 20000);
}

#[test]
fn a_drain_advances_as_often_as_asked() {
    assert_eq!(drain_current(0), 0);
    assert_eq!(drain_current(1), 1);
    assert_eq!(drain_current(32), 32);
    assert_eq!(drain_legacy(0), 0);
    assert_eq!(drain_legacy(7), 7);
    assert_eq!(drain_legacy(32), 32);
}

#[test]
fn a_cycle_drains_both_domains_and_asks_for_the_pause() {
    let done = gc_cycle();
    assert_eq!(
        done,
        Reclaimed { current_advances: 32, legacy_advances: 32, settle_millis: 20000 }
    );
}

#[test]
fn a_drain_runs_what_was_deferred_in_the_current_domain() {
    let ran = Arc::new(Mutex::new(false));
    let flag = Arc::clone(&ran);
    {
        let guard = crossbeam_epoch::pin();
        guard.defer(move || *flag.lock().unwrap() = true);
    }
    let mut rounds = 0;
    while !*ran.lock().unwrap() && rounds < 64 {
        drain_current(32);
        rounds += 1;
    }
    assert!(*ran.lock().unwrap());
}

#[test]
fn cycles_can_follow_one_another() {
    for _ in 0..10 {
        assert_eq!(gc_cycle().settle_millis, 20000);
    }
}
