//! The script of a benchmark run: which steps happen, and in which order.
//!
//! A run is three tasks. A task prints a header, then visits each map in
//! turn: it prints the map's label and measures the map once for every
//! thread count, forcing a reclamation cycle after each measurement.

use vstd::prelude::*;
use crate::workload::{WorkloadSpec, read_heavy, rapid_grow, exchange};
use crate::workload::{read_heavy_workload, rapid_grow_workload, exchange_workload};

verus! {

/// One of the three access patterns that a run measures.
#[derive(Clone, Copy, Debug, PartialEq, Eq, Structural)]
pub enum Task {
    /// Cache-like use: the read-heavy workload.
    Cache,
    /// Steady churn: the exchange workload.
    Exchange,
    /// A map growing from empty: the rapid-grow workload.
    RapidGrow,
}

/// One of the map implementations under measurement.
#[derive(Clone, Copy, Debug, PartialEq, Eq, Structural)]
pub enum Adapter {
    /// A standard hash map behind one exclusive lock.
    MutexStd,
    /// A map with a lock per bucket.
    CHashMap,
    /// A lock-free map with deferred reclamation.
    Flurry,
    /// A lock-free trie with deferred reclamation.
    Contrie,
    /// A map split into independently locked shards.
    DashMap,
}

/// One step of a run, in the order in which the caller performs them.
#[derive(Clone, Copy, Debug, PartialEq, Eq, Structural)]
pub enum Step {
    /// Print the line that opens a task.
    Header(Task),
    /// Print the line that opens the measurements of one map.
    Section(Adapter),
    /// Measure `adapter` under `workload` with `threads` worker threads.
    Trial { adapter: Adapter, threads: usize, workload: WorkloadSpec },
    /// Force deferred reclamation before anything else is measured.
    Reclaim,
    /// Print the empty line that parts two maps.
    Separator,
    /// Print the line that closes a task.
    Footer,
}

/// The thread counts that every map is measured with, in order.
pub open spec fn cpus() -> Seq<usize> {
    seq![1usize, 4usize, 8usize, 16usize, 32usize]
}

/// The maps that every task visits, in order.
pub open spec fn adapters() -> Seq<Adapter> {
    seq![Adapter::MutexStd, Adapter::CHashMap, Adapter::Flurry, Adapter::Contrie, Adapter::DashMap]
}

impl Task {
    /// The workload that the pattern measures at scale `n`.
    pub open spec fn workload(self, n: usize) -> WorkloadSpec {
        match self {
            Task::Cache => read_heavy_workload(n),
            Task::Exchange => exchange_workload(n),
            Task::RapidGrow => rapid_grow_workload(n),
        }
    }

    /// The text of the opening line.
    pub open spec fn header(self) -> Seq<char> {
        match self {
            Task::Cache => "== cache"@,
            Task::Exchange => "== exchange"@,
            Task::RapidGrow => "== rapid grow"@,
        }
    }

    /// Builds the workload that the pattern measures at scale `n`.
    pub fn generate(&self, n: usize) -> (w: WorkloadSpec)
        ensures
            w == self.workload(n),
            w.is_valid(),
    {
        match self {
            Task::Cache => read_heavy(n),
            Task::Exchange => exchange(n),
            Task::RapidGrow => rapid_grow(n),
        }
    }
}

impl Adapter {
    /// The text of the line that opens this map's measurements.
    pub open spec fn heading(self) -> Seq<char> {
        match self {
            Adapter::MutexStd => "-- MutexStd"@,
            Adapter::CHashMap => "-- CHashMap"@,
            Adapter::Flurry => "-- Flurry"@,
            Adapter::Contrie => "-- Contrie"@,
            Adapter::DashMap => "-- DashMap"@,
        }
    }
}

impl Step {
    /// The line that this step prints, if it prints one.
    pub open spec fn line(self) -> Option<Seq<char>> {
        match self {
            Step::Header(task) => Some(task.header()),
            Step::Section(adapter) => Some(adapter.heading()),
            Step::Trial { .. } => None,
            Step::Reclaim => None,
            Step::Separator => Some(""@),
            Step::Footer => Some("=="@),
        }
    }

    /// Returns the line that this step prints; `None` for a step that
    /// measures or reclaims.
    pub fn label(&self) -> (text: Option<&'static str>)
        ensures
            match text {
                Some(t) => self.line() == Some(t@),
                None => self.line() is None,
            },
    {
        match self {
            Step::Header(Task::Cache) => Some("== cache"),
            Step::Header(Task::Exchange) => Some("== exchange"),
            Step::Header(Task::RapidGrow) => Some("== rapid grow"),
            Step::Section(Adapter::MutexStd) => Some("-- MutexStd"),
            Step::Section(Adapter::CHashMap) => Some("-- CHashMap"),
            Step::Section(Adapter::Flurry) => Some("-- Flurry"),
            Step::Section(Adapter::Contrie) => Some("-- Contrie"),
            Step::Section(Adapter::DashMap) => Some("-- DashMap"),
            Step::Trial { .. } => None,
            Step::Reclaim => None,
            Step::Separator => Some(""),
            Step::Footer => Some("=="),
        }
    }
}

/// The measurement of `adapter` by `task` with `n` threads.
pub open spec fn trial(task: Task, adapter: Adapter, n: usize) -> Step {
    Step::Trial { adapter, threads: n, workload: task.workload(n) }
}

/// The measurements of one map over `counts`, each followed at once by a
/// reclamation cycle.
pub open spec fn trial_steps(task: Task, adapter: Adapter, counts: Seq<usize>) -> Seq<Step> {
    Seq::new(
        2 * counts.len(),
        |i: int|
            if i % 2 == 0 {
                trial(task, adapter, counts[i / 2])
            } else {
                Step::Reclaim
            },
    )
}

/// The part of a task that belongs to one map: its label, then its
/// measurements over every thread count.
pub open spec fn section_steps(task: Task, adapter: Adapter) -> Seq<Step> {
    seq![Step::Section(adapter)] + trial_steps(task, adapter, cpus())
}

/// The whole script of one task.
pub open spec fn task_steps(task: Task) -> Seq<Step> {
    seq![Step::Header(task)]
        + section_steps(task, Adapter::MutexStd) + seq![Step::Separator]
        + section_steps(task, Adapter::CHashMap) + seq![Step::Separator]
        + section_steps(task, Adapter::Flurry) + seq![Step::Separator]
        + section_steps(task, Adapter::Contrie) + seq![Step::Separator]
        + section_steps(task, Adapter::DashMap) + seq![Step::Footer]
}

/// The whole script of a run: the three tasks one after another.
pub open spec fn run_steps() -> Seq<Step> {
    task_steps(Task::Cache) + task_steps(Task::Exchange) + task_steps(Task::RapidGrow)
}

/// Returns the thread counts that every map is measured with.
pub fn thread_counts() -> (counts: Vec<usize>)
    ensures
        counts@ == cpus(),
{
    let mut counts: Vec<usize> = Vec::new();
    counts.push(1);
    counts.push(4);
    counts.push(8);
    counts.push(16);
    counts.push(32);
    assert(counts@ =~= cpus());
    counts
}

/// Appends to `steps` the label of `adapter` and its measurements.
fn push_section(steps: &mut Vec<Step>, task: Task, adapter: Adapter)
    ensures
        final(steps)@ == old(steps)@ + section_steps(task, adapter),
{
    let ghost before = steps@;
    steps.push(Step::Section(adapter));
    let counts = thread_counts();
    let mut i: usize = 0;
    while i < counts.len()
        invariant
            i <= counts.len(),
            counts@ == cpus(),
            steps@ == before + seq![Step::Section(adapter)] + trial_steps(
                task,
                adapter,
                counts@.take(i as int),
            ),
        decreases counts.len() - i,
    {
        let n = counts[i];
        let workload = task.generate(n);
        steps.push(Step::Trial { adapter, threads: n, workload });
        steps.push(Step::Reclaim);
        proof {
            let shorter = trial_steps(task, adapter, counts@.take(i as int));
            let longer = trial_steps(task, adapter, counts@.take(i + 1));
            assert(longer =~= shorter.push(trial(task, adapter, n)).push(Step::Reclaim));
        }
        i = i + 1;
    }
    assert(counts@.take(i as int) =~= cpus());
}

/// Appends to `steps` the whole script of `task`.
fn push_task(steps: &mut Vec<Step>, task: Task)
    ensures
        final(steps)@ == old(steps)@ + task_steps(task),
{
    let ghost before = steps@;
    let ghost gap = seq![Step::Separator];
    let ghost upto0 = seq![Step::Header(task)];
    let ghost upto1 = upto0 + section_steps(task, Adapter::MutexStd);
    let ghost upto2 = upto1 + gap;
    let ghost upto3 = upto2 + section_steps(task, Adapter::CHashMap);
    let ghost upto4 = upto3 + gap;
    let ghost upto5 = upto4 + section_steps(task, Adapter::Flurry);
    let ghost upto6 = upto5 + gap;
    let ghost upto7 = upto6 + section_steps(task, Adapter::Contrie);
    let ghost upto8 = upto7 + gap;
    let ghost upto9 = upto8 + section_steps(task, Adapter::DashMap);
    steps.push(Step::Header(task));
    assert(steps@ =~= before + upto0);
    push_section(steps, task, Adapter::MutexStd);
    assert(steps@ =~= before + upto1);
    steps.push(Step::Separator);
    assert(steps@ =~= before + upto2);
    push_section(steps, task, Adapter::CHashMap);
    assert(steps@ =~= before + upto3);
    steps.push(Step::Separator);
    assert(steps@ =~= before + upto4);
    push_section(steps, task, Adapter::Flurry);
    assert(steps@ =~= before + upto5);
    steps.push(Step::Separator);
    assert(steps@ =~= before + upto6);
    push_section(steps, task, Adapter::Contrie);
    assert(steps@ =~= before + upto7);
    steps.push(Step::Separator);
    assert(steps@ =~= before + upto8);
    push_section(steps, task, Adapter::DashMap);
    assert(steps@ =~= before + upto9);
    steps.push(Step::Footer);
    assert(steps@ =~= before + (upto9 + seq![Step::Footer]));
}

/// Builds the script of `task`.
pub fn task_script(task: Task) -> (steps: Vec<Step>)
    ensures
        steps@ == task_steps(task),
{
    let mut steps: Vec<Step> = Vec::new();
    push_task(&mut steps, task);
    assert(steps@ =~= task_steps(task));
    steps
}

/// Builds the script of the cache-like task.
pub fn cache_task() -> (steps: Vec<Step>)
    ensures
        steps@ == task_steps(Task::Cache),
{
    task_script(Task::Cache)
}

/// Builds the script of the steady-churn task.
pub fn exchange_task() -> (steps: Vec<Step>)
    ensures
        steps@ == task_steps(Task::Exchange),
{
    task_script(Task::Exchange)
}

/// Builds the script of the growing-map task.
pub fn rapid_grow_task() -> (steps: Vec<Step>)
    ensures
        steps@ == task_steps(Task::RapidGrow),
{
    task_script(Task::RapidGrow)
}

/// Builds the script of a whole run: cache, then exchange, then rapid grow.
pub fn full_run() -> (steps: Vec<Step>)
    ensures
        steps@ == run_steps(),
{
    let mut steps: Vec<Step> = Vec::new();
    push_task(&mut steps, Task::Cache);
    push_task(&mut steps, Task::Exchange);
    push_task(&mut steps, Task::RapidGrow);
    assert(steps@ =~= run_steps());
    steps
}

} // verus!
