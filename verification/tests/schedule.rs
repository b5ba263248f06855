use map_bench::schedule::{
    cache_task, exchange_task, full_run, rapid_grow_task, task_script, thread_counts, Adapter,
    Step, Task,
};
use map_bench::workload::{exchange, rapid_grow, read_heavy, WorkloadSpec};

const ADAPTERS: [Adapter; 5] =
    [Adapter::MutexStd, Adapter::CHashMap, Adapter::Flurry, Adapter::Contrie, Adapter::DashMap];

const TASKS: [Task; 3] = [Task::Cache, Task::Exchange, Task::RapidGrow];

fn lines(steps: &[Step]) -> Vec<&'static str> {
    let mut out = Vec::new();
    for step in steps {
        if let Some(text) = step.label() {
            out.push(text);
        }
    }
    out
}

fn threads_of(steps: &[Step], wanted: Adapter) -> Vec<usize> {
    let mut out = Vec::new();
    for step in steps {
        if let Step::Trial { adapter, threads, .. } = step {
            if *adapter == wanted {
                out.push(*threads);
            }
        }
    }
    out
}

fn preset(task: Task, n: usize) -> WorkloadSpec {
    match task {
        Task::Cache => read_heavy(n),
        Task::Exchange => exchange(n),
        Task::RapidGrow => rapid_grow(n),
    }
}

#[test]
fn thread_counts_are_fixed_and_ascending() {
    let counts = thread_counts();
    assert_eq!(counts, vec![1, 4, 8, 16, 32]);
    for pair in counts.windows(2) {
        assert!(pair[0] < pair[1]);
    }
}

#[test]
fn every_task_measures_every_map_with_every_thread_count() {
    for task in TASKS {
        let steps = task_script(task);
        for adapter in ADAPTERS {
            assert_eq!(threads_of(&steps, adapter), vec![1, 4, 8, 16, 32]);
        }
    }
}

#[test]
fn every_trial_runs_the_workload_of_its_task() {
    for task in TASKS {
        let mut trials = 0;
        for step in task_script(task) {
            if let Step::Trial { threads, workload, .. } = step {
                assert_eq!(workload, preset(task, threads));
                assert_eq!(workload.size, threads);
                assert!(workload.check());
                trials += 1;
            }
        }
        assert_eq!(trials, 25);
    }
}

#[test]
fn generate_picks_the_preset() {
    assert_eq!(Task::Cache.generate(8), read_heavy(8));
    assert_eq!(Task::Exchange.generate(8), exchange(8));
    assert_eq!(Task::RapidGrow.generate(8), rapid_grow(8));
}

#[test]
fn cache_task_prints_its_labels_in_order() {
    assert_eq!(
        lines(&cache_task()),
        vec![
            "== cache",
            "-- MutexStd",
            "",
            "-- CHashMap",
            "",
            "-- Flurry",
            "",
            "-- Contrie",
            "",
            "-- DashMap",
            "==",
        ]
    );
}

#[test]
fn exchange_task_prints_its_labels_in_order() {
    assert_eq!(
        lines(&exchange_task()),
        vec![
            "== exchange",
            "-- MutexStd",
            "",
            "-- CHashMap",
            "",
            "-- Flurry",
            "",
            "-- Contrie",
            "",
            "-- DashMap",
            "==",
        ]
    );
}

#[test]
fn rapid_grow_task_prints_its_labels_in_order() {
    assert_eq!(
        lines(&rapid_grow_task()),
        vec![
            "== rapid grow",
            "-- MutexStd",
            "",
            "-- CHashMap",
            "",
            "-- Flurry",
            "",
            "-- Contrie",
            "",
            "-- DashMap",
            "==",
        ]
    );
}

#[test]
fn named_tasks_are_the_scripts_of_their_tasks() {
    assert_eq!(cache_task(), task_script(Task::Cache));
    assert_eq!(exchange_task(), task_script(Task::Exchange));
    assert_eq!(rapid_grow_task(), task_script(Task::RapidGrow));
}

#[test]
fn a_task_has_sixty_one_steps() {
    for task in TASKS {
        let steps = task_script(task);
        assert_eq!(steps.len(), 61);
        assert_eq!(steps[0], Step::Header(task));
        assert_eq!(steps[60], Step::Footer);
    }
}

#[test]
fn a_task_is_laid_out_map_by_map() {
    let counts = thread_counts();
    for task in TASKS {
        let steps = task_script(task);
        for (map, adapter) in ADAPTERS.iter().enumerate() {
            let start = 1 + 12 * map;
            assert_eq!(steps[start], Step::Section(*adapter));
            for (j, n) in counts.iter().enumerate() {
                assert_eq!(
                    steps[start + 1 + 2 * j],
                    Step::Trial { adapter: *adapter, threads: *n, workload: preset(task, *n) }
                );
                assert_eq!(steps[start + 2 + 2 * j], Step::Reclaim);
            }
            let closing = if map == 4 { Step::Footer } else { Step::Separator };
            assert_eq!(steps[start + 11], closing);
        }
    }
}

#[test]
fn a_reclaim_follows_every_trial_and_stands_nowhere_else() {
    for steps in [cache_task(), exchange_task(), rapid_grow_task(), full_run()] {
        for (i, step) in steps.iter().enumerate() {
            if matches!(step, Step::Trial { .. }) {
                assert_eq!(steps[i + 1], Step::Reclaim);
            }
            if *step == Step::Reclaim {
                assert!(i > 0);
                assert!(matches!(steps[i - 1], Step::Trial { .. }));
            }
        }
    }
}

#[test]
fn one_reclaim_between_consecutive_trials() {
    let steps = full_run();
    let mut trials = Vec::new();
    for (i, step) in steps.iter().enumerate() {
        if matches!(step, Step::Trial { .. }) {
            trials.push(i);
        }
    }
    assert_eq!(trials.len(), 75);
    for pair in trials.windows(2) {
        let mut reclaims = 0;
        for step in &steps[pair[0] + 1..pair[1]] {
            if *step == Step::Reclaim {
                reclaims += 1;
            }
        }
        assert_eq!(reclaims, 1);
    }
}

#[test]
fn no_reclaim_before_the_first_trial_and_one_after_the_last() {
    for task in TASKS {
        let steps = task_script(task);
        let mut first = 0;
        while !matches!(steps[first], Step::Trial { .. }) {
            assert_ne!(steps[first], Step::Reclaim);
            first += 1;
        }
        assert_eq!(first, 2);
        assert!(matches!(steps[58], Step::Trial { adapter: Adapter::DashMap, threads: 32, .. }));
        assert_eq!(steps[59], Step::Reclaim);
        assert_eq!(steps[60], Step::Footer);
        let mut reclaims = 0;
        for step in &steps {
            if *step == Step::Reclaim {
                reclaims += 1;
            }
        }
        assert_eq!(reclaims, 25);
    }
}

#[test]
fn a_run_is_cache_then_exchange_then_rapid_grow() {
    let mut expected = cache_task();
    expected.extend(exchange_task());
    expected.extend(rapid_grow_task());
    let run = full_run();
    assert_eq!(run.len(), 183);
    assert_eq!(run, expected);
    let printed = lines(&run);
    assert_eq!(printed.len(), 33);
    assert_eq!(printed[0], "== cache");
    assert_eq!(printed[11], "== exchange");
    assert_eq!(printed[22], "== rapid grow");
}

#[test]
fn the_script_is_the_same_every_time() {
    assert_eq!(full_run(), full_run());
    for task in TASKS {
        assert_eq!(task_script(task), task_script(task));
    }
}

#[test]
fn labels_of_single_steps() {
    assert_eq!(Step::Header(Task::Cache).label(), Some("== cache"));
    assert_eq!(Step::Header(Task::Exchange).label(), Some("== exchange"));
    assert_eq!(Step::Header(Task::RapidGrow).label(), Some("== rapid grow"));
    assert_eq!(Step::Section(Adapter::MutexStd).label(), Some("-- MutexStd"));
    assert_eq!(Step::Section(Adapter::CHashMap).label(), Some("-- CHashMap"));
    assert_eq!(Step::Section(Adapter::Flurry).label(), Some("-- Flurry"));
    assert_eq!(Step::Section(Adapter::Contrie).label(), Some("-- Contrie"));
    assert_eq!(Step::Section(Adapter::DashMap).label(), Some("-- DashMap"));
    assert_eq!(Step::Separator.label(), Some(""));
    assert_eq!(Step::Footer.label(), Some("=="));
    assert_eq!(Step::Reclaim.label(), None);
    let trial = Step::Trial { adapter: Adapter::Flurry, threads: 4, workload: exchange(4) };
    assert_eq!(trial.label(), None);
}
