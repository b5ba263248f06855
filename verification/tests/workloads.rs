use map_bench::mix::{ex_mix, rg_mix, Mix};
use map_bench::workload::{exchange, rapid_grow, read_heavy, WorkloadSpec};

fn fraction(percent: u32) -> f64 {
    f64::from(percent) / 100.0
}

#[test]
fn read_heavy_fixed_parameters() {
    let w = read_heavy(8);
    assert_eq!(w.size, 8);
    assert_eq!(w.initial_capacity_log2, 24);
    assert_eq!(fraction(u32::from(w.prefill_percent)), 0.8);
    assert_eq!(fraction(w.operations_percent), 1.5);
}

#[test]
fn read_heavy_parameters_do_not_depend_on_size() {
    for n in [0usize, 1, 8, 4096, usize::MAX] {
        let w = read_heavy(n);
        let base = read_heavy(8);
        assert_eq!(w.size, n);
        assert_eq!(w.mix, base.mix);
        assert_eq!(w.initial_capacity_log2, base.initial_capacity_log2);
        assert_eq!(w.prefill_percent, base.prefill_percent);
        assert_eq!(w.operations_percent, base.operations_percent);
    }
}

#[test]
fn read_heavy_mix_is_the_harness_mix() {
    let ours = read_heavy(8).mix;
    let theirs = bustle::Mix::read_heavy();
    assert_eq!(ours.read, theirs.read);
    assert_eq!(ours.insert, theirs.insert);
    assert_eq!(ours.remove, theirs.remove);
    assert_eq!(ours.update, theirs.update);
    assert_eq!(ours.upsert, theirs.upsert);
    assert_eq!(ours, Mix { read: 94, insert: 2, remove: 1, update: 3, upsert: 0 });
}

#[test]
fn rapid_grow_mix_values() {
    assert_eq!(rg_mix(), Mix { read: 5, insert: 80, remove: 5, update: 10, upsert: 0 });
    assert_eq!(rapid_grow(4).mix, rg_mix());
}

#[test]
fn exchange_mix_values() {
    assert_eq!(ex_mix(), Mix { read: 10, insert: 40, remove: 40, update: 10, upsert: 0 });
    assert_eq!(exchange(4).mix, ex_mix());
}

#[test]
fn preset_mixes_sum_to_one_hundred() {
    for w in [read_heavy(1), rapid_grow(1), exchange(1)] {
        assert_eq!(w.mix.weight_sum(), 100);
        assert!(w.mix.check());
        assert!(w.check());
    }
}

#[test]
fn prefill_fractions() {
    assert_eq!(fraction(u32::from(rapid_grow(16).prefill_percent)), 0.0);
    assert_eq!(fraction(u32::from(read_heavy(16).prefill_percent)), 0.8);
    assert_eq!(fraction(u32::from(exchange(16).prefill_percent)), 0.8);
}

#[test]
fn presets_share_capacity_and_multiplier() {
    for w in [read_heavy(32), rapid_grow(32), exchange(32)] {
        assert_eq!(w.initial_capacity_log2, 24);
        assert_eq!(w.operations_percent, 150);
    }
}

#[test]
fn operation_count_is_one_and_a_half_times_the_size() {
    assert_eq!(read_heavy(8).total_operations(), Some(12));
    assert_eq!(read_heavy(1).total_operations(), Some(1));
    assert_eq!(read_heavy(0).total_operations(), Some(0));
    assert_eq!(exchange(32).total_operations(), Some(48));
    assert_eq!(rapid_grow(5).total_operations(), Some(7));
}

#[test]
fn operation_count_that_does_not_fit() {
    assert_eq!(read_heavy(usize::MAX).total_operations(), None);
    let fits = usize::MAX / 3 * 2;
    assert_eq!(read_heavy(fits).total_operations(), Some(fits / 2 * 3));
}

#[test]
fn prefill_keys_of_each_preset() {
    assert_eq!(read_heavy(10).prefill_keys(), 8);
    assert_eq!(exchange(8).prefill_keys(), 6);
    assert_eq!(rapid_grow(1000).prefill_keys(), 0);
    assert_eq!(read_heavy(usize::MAX).prefill_keys(), (usize::MAX as u128 * 80 / 100) as usize);
}

#[test]
fn a_broken_mix_is_reported() {
    let short = Mix { read: 50, insert: 20, remove: 10, update: 10, upsert: 0 };
    assert_eq!(short.weight_sum(), 90);
    assert!(!short.check());
    let long = Mix { read: 255, insert: 255, remove: 255, update: 255, upsert: 255 };
    assert_eq!(long.weight_sum(), 1275);
    assert!(!long.check());
}

#[test]
fn a_prefill_above_the_whole_is_reported() {
    let w = WorkloadSpec {
        size: 4,
        mix: ex_mix(),
        initial_capacity_log2: 24,
        prefill_percent: 101,
        operations_percent: 150,
    };
    assert!(!w.check());
    let v = WorkloadSpec { prefill_percent: 100, ..w };
    assert!(v.check());
    assert_eq!(v.prefill_keys(), 4);
}
