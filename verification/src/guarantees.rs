//! What holds of every script, proved once for all of them.

use vstd::prelude::*;
use crate::mix::{read_heavy_weights, rapid_grow_weights, exchange_weights};
use crate::workload::{WorkloadSpec, read_heavy_workload, rapid_grow_workload, exchange_workload};
use crate::schedule::{Task, Adapter, Step};
use crate::schedule::{cpus, adapters, trial, trial_steps, section_steps, task_steps, run_steps};

verus! {

/// The thread count of `step`, if it measures `adapter`.
pub open spec fn threads_on(step: Step, adapter: Adapter) -> Option<usize> {
    match step {
        Step::Trial { adapter: measured, threads, .. } => if measured == adapter {
            Some(threads)
        } else {
            None
        },
        _ => None,
    }
}

/// The thread counts with which `steps` measure `adapter`, in order.
pub open spec fn trial_threads(steps: Seq<Step>, adapter: Adapter) -> Seq<usize> {
    steps.filter_map(|step: Step| threads_on(step, adapter))
}

/// The lines that `steps` print, in order.
pub open spec fn printed(steps: Seq<Step>) -> Seq<Seq<char>> {
    steps.filter_map(|step: Step| step.line())
}

/// The lines that one task prints: its header, the label of each map with
/// an empty line between two of them, and the closing line.
pub open spec fn task_lines(task: Task) -> Seq<Seq<char>> {
    seq![
        task.header(),
        Adapter::MutexStd.heading(),
        ""@,
        Adapter::CHashMap.heading(),
        ""@,
        Adapter::Flurry.heading(),
        ""@,
        Adapter::Contrie.heading(),
        ""@,
        Adapter::DashMap.heading(),
        "=="@,
    ]
}

/// Step `i` of `steps` is a measurement.
pub open spec fn is_trial_at(steps: Seq<Step>, i: int) -> bool {
    0 <= i < steps.len() && steps[i] is Trial
}

/// Step `i` of `steps` is a reclamation cycle.
pub open spec fn is_reclaim_at(steps: Seq<Step>, i: int) -> bool {
    0 <= i < steps.len() && steps[i] is Reclaim
}

/// Measurements and reclamation cycles come in pairs: a cycle follows
/// every measurement at once, and no cycle stands anywhere else.
pub open spec fn reclaims_pair_with_trials(steps: Seq<Step>) -> bool {
    &&& forall|i: int| #[trigger] is_trial_at(steps, i) ==> is_reclaim_at(steps, i + 1)
    &&& forall|i: int| #[trigger] is_reclaim_at(steps, i) ==> is_trial_at(steps, i - 1)
}

/// Every measurement of `steps` runs the workload of `task` at the scale of
/// its thread count, with one of the fixed thread counts.
pub open spec fn trials_belong_to(steps: Seq<Step>, task: Task) -> bool {
    forall|i: int| #[trigger]
        is_trial_at(steps, i) ==> {
            &&& steps[i] == trial(task, steps[i]->adapter, steps[i]->threads)
            &&& cpus().contains(steps[i]->threads)
        }
}

/// The three presets divide their operations into whole percentages: the
/// five weights of each mix add up to one hundred.
pub proof fn lemma_preset_mixes_are_whole(n: usize)
    ensures
        read_heavy_weights().total() == 100,
        rapid_grow_weights().total() == 100,
        exchange_weights().total() == 100,
        read_heavy_workload(n).mix.total() == 100,
        rapid_grow_workload(n).mix.total() == 100,
        exchange_workload(n).mix.total() == 100,
        forall|task: Task| (#[trigger] task.workload(n)).is_valid(),
{
    assert forall|task: Task| (#[trigger] task.workload(n)).is_valid() by {
        match task {
            Task::Cache => {},
            Task::Exchange => {},
            Task::RapidGrow => {},
        }
    }
}

/// The size of the key space reaches a preset's size, and through it the
/// number of operations, and nothing else: the capacity exponent, the
/// multiplier of one and a half, and the prefill (none for the growing map,
/// four fifths for the other two) are fixed.
pub proof fn lemma_presets_are_fixed(n: usize, m: usize)
    ensures
        forall|task: Task| #[trigger]
            task.workload(n) == (WorkloadSpec { size: n, ..task.workload(m) }),
        forall|task: Task| (#[trigger] task.workload(n)).initial_capacity_log2 == 24,
        forall|task: Task| (#[trigger] task.workload(n)).operations_percent == 150,
        rapid_grow_workload(n).prefill_percent == 0,
        read_heavy_workload(n).prefill_percent == 80,
        exchange_workload(n).prefill_percent == 80,
        forall|task: Task| (#[trigger] task.workload(n)).operation_count() == 3 * n / 2,
{
    assert(n * 150 / 100 == 3 * n / 2);
}

/// The place of the label of map number `map` in a task's script. Each
/// map takes twelve places after the header: its label, five measurements
/// each with its reclamation cycle, and a closing line.
pub open spec fn label_place(map: int) -> int {
    1 + 12 * map
}

/// The place of the measurement of map number `map` with thread count
/// number `j`. Its reclamation cycle stands at the next place.
pub open spec fn trial_place(map: int, j: int) -> int {
    2 + 12 * map + 2 * j
}

/// The place of the line that closes the part of map number `map`.
pub open spec fn closing_place(map: int) -> int {
    12 + 12 * map
}

/// A task's script is laid out task, then map, then thread count: after the
/// header each map in turn has its label, then one measurement for each
/// thread count in turn, each followed by its reclamation cycle, then an
/// empty line, or the closing line after the last map.
pub proof fn lemma_task_layout(task: Task)
    ensures
        task_steps(task).len() == 61,
        task_steps(task)[0] == Step::Header(task),
        forall|map: int|
            0 <= map < 5 ==> #[trigger] task_steps(task)[label_place(map)] == Step::Section(
                adapters()[map],
            ),
        forall|map: int, j: int|
            0 <= map < 5 && 0 <= j < 5 ==> {
                &&& #[trigger] task_steps(task)[trial_place(map, j)] == trial(
                    task,
                    adapters()[map],
                    cpus()[j],
                )
                &&& task_steps(task)[trial_place(map, j) + 1] == Step::Reclaim
            },
        forall|map: int|
            0 <= map < 5 ==> #[trigger] task_steps(task)[closing_place(map)] == if map == 4 {
                Step::Footer
            } else {
                Step::Separator
            },
{
    let steps = task_steps(task);
    lemma_task_length(task);
    assert forall|map: int| 0 <= map < 5 implies #[trigger] steps[label_place(map)]
        == Step::Section(adapters()[map]) by {
        lemma_place(task, map, 0);
        lemma_section_at(task, adapters()[map], 0);
    }
    assert forall|map: int, j: int| 0 <= map < 5 && 0 <= j < 5 implies {
        &&& #[trigger] steps[trial_place(map, j)] == trial(task, adapters()[map], cpus()[j])
        &&& steps[trial_place(map, j) + 1] == Step::Reclaim
    } by {
        lemma_place(task, map, 1 + 2 * j);
        lemma_place(task, map, 2 + 2 * j);
        lemma_section_at(task, adapters()[map], j);
    }
    assert forall|map: int| 0 <= map < 5 implies #[trigger] steps[closing_place(map)] == if map
        == 4 {
        Step::Footer
    } else {
        Step::Separator
    } by {
        lemma_place(task, map, 11);
    }
}

/// A task's script has sixty-one steps, eleven of them for each map.
proof fn lemma_task_length(task: Task)
    ensures
        task_steps(task).len() == 61,
        forall|adapter: Adapter| #[trigger] section_steps(task, adapter).len() == 11,
{
}

/// One map's part of a task: its label first, then measurement `j` at
/// place `1 + 2j` and the reclamation cycle after it.
proof fn lemma_section_at(task: Task, adapter: Adapter, j: int)
    requires
        0 <= j < 5,
    ensures
        section_steps(task, adapter).len() == 11,
        section_steps(task, adapter)[0] == Step::Section(adapter),
        section_steps(task, adapter)[1 + 2 * j] == trial(task, adapter, cpus()[j]),
        section_steps(task, adapter)[2 + 2 * j] == Step::Reclaim,
{
    let trials = trial_steps(task, adapter, cpus());
    assert(trials.len() == 10);
    assert(trials[2 * j] == trial(task, adapter, cpus()[j]));
    assert(trials[2 * j + 1] == Step::Reclaim);
}

/// Place `place` of map number `map` in a task's script holds what that
/// map's own part holds there, or the closing line at the twelfth place.
proof fn lemma_place(task: Task, map: int, place: int)
    requires
        0 <= map < 5,
        0 <= place < 12,
    ensures
        place < 11 ==> task_steps(task)[1 + 12 * map + place] == section_steps(
            task,
            adapters()[map],
        )[place],
        place == 11 ==> task_steps(task)[1 + 12 * map + place] == if map == 4 {
            Step::Footer
        } else {
            Step::Separator
        },
{
    lemma_task_length(task);
    let gap = seq![Step::Separator];
    let upto0 = seq![Step::Header(task)];
    let upto1 = upto0 + section_steps(task, Adapter::MutexStd);
    let upto2 = upto1 + gap;
    let upto3 = upto2 + section_steps(task, Adapter::CHashMap);
    let upto4 = upto3 + gap;
    let upto5 = upto4 + section_steps(task, Adapter::Flurry);
    let upto6 = upto5 + gap;
    let upto7 = upto6 + section_steps(task, Adapter::Contrie);
    let upto8 = upto7 + gap;
    let upto9 = upto8 + section_steps(task, Adapter::DashMap);
    assert(upto1.len() == 12 && upto2.len() == 13 && upto3.len() == 24 && upto4.len() == 25);
    assert(upto5.len() == 36 && upto6.len() == 37 && upto7.len() == 48 && upto8.len() == 49);
    assert(upto9.len() == 60);
    assert(task_steps(task) == upto9 + seq![Step::Footer]);
    if map == 0 {
        assert(adapters()[0] == Adapter::MutexStd);
    } else if map == 1 {
        assert(adapters()[1] == Adapter::CHashMap);
    } else if map == 2 {
        assert(adapters()[2] == Adapter::Flurry);
    } else if map == 3 {
        assert(adapters()[3] == Adapter::Contrie);
    } else {
        assert(adapters()[4] == Adapter::DashMap);
    }
}

/// Splits a place after the header into the number of its map and the
/// place within that map's twelve.
proof fn lemma_locate(i: int) -> (at: (int, int))
    requires
        1 <= i < 61,
    ensures
        0 <= at.0 < 5,
        0 <= at.1 < 12,
        i == 1 + 12 * at.0 + at.1,
{
    ((i - 1) / 12, (i - 1) % 12)
}

/// Where measurements and reclamation cycles stand in a task's script: a
/// measurement stands only at a trial place, and a reclamation cycle only
/// right after one.
proof fn lemma_kind_at(task: Task, i: int) -> (at: (int, int))
    requires
        0 <= i < 61,
        task_steps(task)[i] is Trial || task_steps(task)[i] is Reclaim,
    ensures
        0 <= at.0 < 5,
        0 <= at.1 < 5,
        task_steps(task)[i] is Trial ==> i == trial_place(at.0, at.1),
        task_steps(task)[i] is Reclaim ==> i == trial_place(at.0, at.1) + 1,
{
    lemma_task_layout(task);
    if i == 0 {
        (0, 0)
    } else {
        let (map, place) = lemma_locate(i);
        if place == 0 {
            assert(i == label_place(map));
            (0, 0)
        } else if place == 11 {
            assert(i == closing_place(map));
            (0, 0)
        } else {
            let j = (place - 1) / 2;
            assert(0 <= j < 5);
            assert(place == 1 + 2 * j || place == 2 + 2 * j);
            assert(i == trial_place(map, j) || i == trial_place(map, j) + 1);
            (map, j)
        }
    }
}

/// The thread counts are listed in strictly ascending order.
pub proof fn lemma_thread_counts_ascend()
    ensures
        cpus().len() == 5,
        forall|i: int, j: int| 0 <= i < j < cpus().len() ==> cpus()[i] < cpus()[j],
{
}

/// Every task measures every map once with each thread count, in the
/// order of the thread counts, and with no other.
pub proof fn lemma_trials_cover_thread_counts(task: Task, adapter: Adapter)
    ensures
        trial_threads(task_steps(task), adapter) == cpus(),
{
    let threads = |step: Step| threads_on(step, adapter);
    let none = Seq::<usize>::empty();
    lemma_task_gather(task, threads);
    lemma_filter_map_one(Step::Header(task), threads);
    lemma_filter_map_one(Step::Separator, threads);
    lemma_filter_map_one(Step::Footer, threads);
    lemma_section_gather(task, Adapter::MutexStd, adapter);
    lemma_section_gather(task, Adapter::CHashMap, adapter);
    lemma_section_gather(task, Adapter::Flurry, adapter);
    lemma_section_gather(task, Adapter::Contrie, adapter);
    lemma_section_gather(task, Adapter::DashMap, adapter);
    assert(none + none =~= none);
    assert(none + cpus() =~= cpus());
    assert(cpus() + none =~= cpus());
}

/// Every measurement of a task runs that task's workload, scaled to the
/// thread count of the measurement, which is one of the fixed five.
pub proof fn lemma_trials_belong_to_task(task: Task)
    ensures
        trials_belong_to(task_steps(task), task),
{
    let steps = task_steps(task);
    lemma_task_layout(task);
    assert forall|i: int| #[trigger] is_trial_at(steps, i) implies {
        &&& steps[i] == trial(task, steps[i]->adapter, steps[i]->threads)
        &&& cpus().contains(steps[i]->threads)
    } by {
        let (map, j) = lemma_kind_at(task, i);
        assert(steps[trial_place(map, j)] == trial(task, adapters()[map], cpus()[j]));
        assert(cpus()[j] == steps[i]->threads);
    }
}

/// A task prints its header, then the label of each map in the fixed order
/// with an empty line between two maps, then the closing line. The lines
/// depend on the task alone: no measurement has a say in them.
pub proof fn lemma_task_prints(task: Task)
    ensures
        printed(task_steps(task)) == task_lines(task),
{
    let lines = |step: Step| step.line();
    lemma_task_gather(task, lines);
    lemma_filter_map_one(Step::Header(task), lines);
    lemma_filter_map_one(Step::Separator, lines);
    lemma_filter_map_one(Step::Footer, lines);
    lemma_section_gather(task, Adapter::MutexStd, Adapter::MutexStd);
    lemma_section_gather(task, Adapter::CHashMap, Adapter::MutexStd);
    lemma_section_gather(task, Adapter::Flurry, Adapter::MutexStd);
    lemma_section_gather(task, Adapter::Contrie, Adapter::MutexStd);
    lemma_section_gather(task, Adapter::DashMap, Adapter::MutexStd);
    assert(printed(task_steps(task)) =~= task_lines(task));
}

/// A run prints the lines of the cache task, then those of the exchange
/// task, then those of the rapid-grow task, and measures every map with
/// each thread count once in each of the three.
pub proof fn lemma_run_order(adapter: Adapter)
    ensures
        printed(run_steps()) == task_lines(Task::Cache) + task_lines(Task::Exchange) + task_lines(
            Task::RapidGrow,
        ),
        trial_threads(run_steps(), adapter) == cpus() + cpus() + cpus(),
{
    let lines = |step: Step| step.line();
    let threads = |step: Step| threads_on(step, adapter);
    let first = task_steps(Task::Cache);
    let second = task_steps(Task::Exchange);
    let third = task_steps(Task::RapidGrow);
    lemma_filter_map_concat(first, second, lines);
    lemma_filter_map_concat(first + second, third, lines);
    lemma_filter_map_concat(first, second, threads);
    lemma_filter_map_concat(first + second, third, threads);
    lemma_task_prints(Task::Cache);
    lemma_task_prints(Task::Exchange);
    lemma_task_prints(Task::RapidGrow);
    lemma_trials_cover_thread_counts(Task::Cache, adapter);
    lemma_trials_cover_thread_counts(Task::Exchange, adapter);
    lemma_trials_cover_thread_counts(Task::RapidGrow, adapter);
}

/// In a task, a reclamation cycle follows every measurement at once and
/// stands nowhere else: none comes before the first measurement, and the
/// one after the last measurement is the last. The task opens with its
/// header and ends with its closing line.
pub proof fn lemma_reclaim_after_each_trial(task: Task)
    ensures
        reclaims_pair_with_trials(task_steps(task)),
        task_steps(task).first() == Step::Header(task),
        task_steps(task).last() == Step::Footer,
{
    let steps = task_steps(task);
    lemma_task_layout(task);
    assert forall|i: int| #[trigger] is_trial_at(steps, i) implies is_reclaim_at(steps, i + 1) by {
        let (map, j) = lemma_kind_at(task, i);
        assert(steps[trial_place(map, j) + 1] == Step::Reclaim);
    }
    assert forall|i: int| #[trigger] is_reclaim_at(steps, i) implies is_trial_at(steps, i - 1) by {
        let (map, j) = lemma_kind_at(task, i);
        assert(steps[trial_place(map, j)] is Trial);
    }
    assert(steps[closing_place(4)] == Step::Footer);
}

/// Joining two scripts keeps measurements and reclamation cycles paired.
pub proof fn lemma_pairs_concat(a: Seq<Step>, b: Seq<Step>)
    requires
        reclaims_pair_with_trials(a),
        reclaims_pair_with_trials(b),
    ensures
        reclaims_pair_with_trials(a + b),
{
    let joined = a + b;
    assert forall|i: int| #[trigger] is_trial_at(joined, i) implies is_reclaim_at(
        joined,
        i + 1,
    ) by {
        if i < a.len() {
            assert(is_trial_at(a, i));
            assert(is_reclaim_at(a, i + 1));
        } else {
            assert(is_trial_at(b, i - a.len()));
            assert(is_reclaim_at(b, i - a.len() + 1));
        }
    }
    assert forall|i: int| #[trigger] is_reclaim_at(joined, i) implies is_trial_at(
        joined,
        i - 1,
    ) by {
        if i < a.len() {
            assert(is_reclaim_at(a, i));
            assert(is_trial_at(a, i - 1));
        } else {
            assert(is_reclaim_at(b, i - a.len()));
            assert(is_trial_at(b, i - a.len() - 1));
        }
    }
}

/// Over a whole run, too, a reclamation cycle follows every measurement at
/// once and stands nowhere else.
pub proof fn lemma_run_reclaims()
    ensures
        reclaims_pair_with_trials(run_steps()),
{
    lemma_reclaim_after_each_trial(Task::Cache);
    lemma_reclaim_after_each_trial(Task::Exchange);
    lemma_reclaim_after_each_trial(Task::RapidGrow);
    lemma_pairs_concat(task_steps(Task::Cache), task_steps(Task::Exchange));
    lemma_pairs_concat(
        task_steps(Task::Cache) + task_steps(Task::Exchange),
        task_steps(Task::RapidGrow),
    );
}

/// Between two measurements with no third between them, exactly one
/// reclamation cycle is run: the one right after the earlier measurement.
pub proof fn lemma_one_reclaim_between(steps: Seq<Step>, earlier: int, later: int)
    requires
        reclaims_pair_with_trials(steps),
        is_trial_at(steps, earlier),
        is_trial_at(steps, later),
        earlier < later,
        forall|k: int| earlier < k < later ==> !is_trial_at(steps, k),
    ensures
        earlier + 1 < later,
        is_reclaim_at(steps, earlier + 1),
        forall|k: int| earlier < k < later && is_reclaim_at(steps, k) ==> k == earlier + 1,
{
    assert(is_reclaim_at(steps, earlier + 1));
    assert forall|k: int| earlier < k < later && is_reclaim_at(steps, k) implies k == earlier
        + 1 by {
        assert(is_trial_at(steps, k - 1));
    }
}

proof fn lemma_filter_map_push<A, B>(s: Seq<A>, x: A, f: spec_fn(A) -> Option<B>)
    ensures
        s.push(x).filter_map(f) == match f(x) {
            Some(y) => s.filter_map(f).push(y),
            None => s.filter_map(f),
        },
{
    assert(s.push(x).drop_last() =~= s);
    assert(s.push(x).last() == x);
    match f(x) {
        Some(y) => {
            assert(s.filter_map(f) + seq![y] =~= s.filter_map(f).push(y));
        },
        None => {},
    }
}

proof fn lemma_filter_map_concat<A, B>(a: Seq<A>, b: Seq<A>, f: spec_fn(A) -> Option<B>)
    ensures
        (a + b).filter_map(f) == a.filter_map(f) + b.filter_map(f),
    decreases b.len(),
{
    if b.len() == 0 {
        assert(a + b =~= a);
        assert(a.filter_map(f) + b.filter_map(f) =~= a.filter_map(f));
    } else {
        let front = b.drop_last();
        lemma_filter_map_concat(a, front, f);
        assert(a + b =~= (a + front).push(b.last()));
        assert(b =~= front.push(b.last()));
        lemma_filter_map_push(a + front, b.last(), f);
        lemma_filter_map_push(front, b.last(), f);
        match f(b.last()) {
            Some(y) => {
                assert((a.filter_map(f) + front.filter_map(f)).push(y) =~= a.filter_map(f)
                    + front.filter_map(f).push(y));
            },
            None => {},
        }
    }
}

proof fn lemma_filter_map_one<A, B>(x: A, f: spec_fn(A) -> Option<B>)
    ensures
        seq![x].filter_map(f) == match f(x) {
            Some(y) => seq![y],
            None => Seq::<B>::empty(),
        },
{
    let none = Seq::<A>::empty();
    assert(seq![x] =~= none.push(x));
    lemma_filter_map_push(none, x, f);
    assert(none.filter_map(f) =~= Seq::<B>::empty());
    match f(x) {
        Some(y) => {
            assert(Seq::<B>::empty().push(y) =~= seq![y]);
        },
        None => {},
    }
}

/// The measurements of one map print nothing, and measure that map alone,
/// once with each of `counts`.
proof fn lemma_trial_steps_gather(task: Task, adapter: Adapter, counts: Seq<usize>, other: Adapter)
    ensures
        printed(trial_steps(task, adapter, counts)) == Seq::<Seq<char>>::empty(),
        trial_threads(trial_steps(task, adapter, counts), other) == if other == adapter {
            counts
        } else {
            Seq::<usize>::empty()
        },
    decreases counts.len(),
{
    let steps = trial_steps(task, adapter, counts);
    let lines = |step: Step| step.line();
    let threads = |step: Step| threads_on(step, other);
    if counts.len() == 0 {
        assert(steps =~= Seq::<Step>::empty());
        assert(counts =~= Seq::<usize>::empty());
    } else {
        let front = counts.drop_last();
        let n = counts.last();
        lemma_trial_steps_gather(task, adapter, front, other);
        let shorter = trial_steps(task, adapter, front);
        let measured = shorter.push(trial(task, adapter, n));
        assert(steps =~= measured.push(Step::Reclaim));
        lemma_filter_map_push(shorter, trial(task, adapter, n), lines);
        lemma_filter_map_push(measured, Step::Reclaim, lines);
        lemma_filter_map_push(shorter, trial(task, adapter, n), threads);
        lemma_filter_map_push(measured, Step::Reclaim, threads);
        if other == adapter {
            assert(front.push(n) =~= counts);
        }
    }
}

/// One map's part of a task prints the map's label alone, and measures that
/// map alone, once with each thread count.
proof fn lemma_section_gather(task: Task, adapter: Adapter, other: Adapter)
    ensures
        printed(section_steps(task, adapter)) == seq![adapter.heading()],
        trial_threads(section_steps(task, adapter), other) == if other == adapter {
            cpus()
        } else {
            Seq::<usize>::empty()
        },
{
    let lines = |step: Step| step.line();
    let threads = |step: Step| threads_on(step, other);
    let label = seq![Step::Section(adapter)];
    let trials = trial_steps(task, adapter, cpus());
    lemma_trial_steps_gather(task, adapter, cpus(), other);
    lemma_filter_map_concat(label, trials, lines);
    lemma_filter_map_concat(label, trials, threads);
    lemma_filter_map_one(Step::Section(adapter), lines);
    lemma_filter_map_one(Step::Section(adapter), threads);
    assert(seq![adapter.heading()] + Seq::<Seq<char>>::empty() =~= seq![adapter.heading()]);
    assert(Seq::<usize>::empty() + cpus() =~= cpus());
    assert(Seq::<usize>::empty() + Seq::<usize>::empty() =~= Seq::<usize>::empty());
}

/// Gathering over a task's script is gathering over its eleven parts.
proof fn lemma_task_gather<B>(task: Task, f: spec_fn(Step) -> Option<B>)
    ensures
        task_steps(task).filter_map(f) == seq![Step::Header(task)].filter_map(f)
            + section_steps(task, Adapter::MutexStd).filter_map(f)
            + seq![Step::Separator].filter_map(f)
            + section_steps(task, Adapter::CHashMap).filter_map(f)
            + seq![Step::Separator].filter_map(f)
            + section_steps(task, Adapter::Flurry).filter_map(f)
            + seq![Step::Separator].filter_map(f)
            + section_steps(task, Adapter::Contrie).filter_map(f)
            + seq![Step::Separator].filter_map(f)
            + section_steps(task, Adapter::DashMap).filter_map(f)
            + seq![Step::Footer].filter_map(f),
{
    let gap = seq![Step::Separator];
    let upto0 = seq![Step::Header(task)];
    let upto1 = upto0 + section_steps(task, Adapter::MutexStd);
    let upto2 = upto1 + gap;
    let upto3 = upto2 + section_steps(task, Adapter::CHashMap);
    let upto4 = upto3 + gap;
    let upto5 = upto4 + section_steps(task, Adapter::Flurry);
    let upto6 = upto5 + gap;
    let upto7 = upto6 + section_steps(task, Adapter::Contrie);
    let upto8 = upto7 + gap;
    let upto9 = upto8 + section_steps(task, Adapter::DashMap);
    lemma_filter_map_concat(upto0, section_steps(task, Adapter::MutexStd), f);
    lemma_filter_map_concat(upto1, gap, f);
    lemma_filter_map_concat(upto2, section_steps(task, Adapter::CHashMap), f);
    lemma_filter_map_concat(upto3, gap, f);
    lemma_filter_map_concat(upto4, section_steps(task, Adapter::Flurry), f);
    lemma_filter_map_concat(upto5, gap, f);
    lemma_filter_map_concat(upto6, section_steps(task, Adapter::Contrie), f);
    lemma_filter_map_concat(upto7, gap, f);
    lemma_filter_map_concat(upto8, section_steps(task, Adapter::DashMap), f);
    lemma_filter_map_concat(upto9, seq![Step::Footer], f);
}

} // verus!
