//! The stored data: jobs, the runs that own them, and the whole schedule.
//!
//! Only jobs are stored. The legs between them are derived from the job
//! sequence whenever a run is laid out.

use vstd::prelude::*;
use vstd::string::StringExecFns;
use crate::animation_strategy::Strategy;
use crate::colors::{color_of, get_color};
use crate::text::{decimal, decimal_string, lemma_decimal_injective};

verus! {

/// A point on the globe. The two coordinates are single-precision numbers
/// kept as their bit patterns; nothing here looks inside them.
#[derive(Clone, Copy, Debug, PartialEq, Eq, Structural)]
pub struct Location {
    pub lat_bits: u32,
    pub lon_bits: u32,
}

/// A schedulable unit, owned by exactly one run.
#[derive(Clone, Debug, PartialEq)]
pub struct Job {
    pub uid: String,
    pub color: String,
    pub location: Location,
    /// Shoved forward by a drag in progress.
    pub pushed: bool,
    /// Free to move left and close a gap.
    pub pull: bool,
}

/// A lane: its jobs in schedule order, its colour and its time window in
/// minutes.
#[derive(Clone, Debug, PartialEq)]
pub struct Run {
    pub jobs: Vec<Job>,
    pub color: String,
    pub start_time: usize,
    pub end_time: usize,
}

/// The runs, in display order, with the animation strategy in use.
#[derive(Clone, Debug, PartialEq)]
pub struct AppState {
    pub runs: Vec<Run>,
    pub animation_strategy: Strategy,
}

impl Run {
    /// Whether `other` is this run with possibly another job list.
    pub open spec fn same_lane(&self, other: &Run) -> bool {
        &&& self.color == other.color
        &&& self.start_time == other.start_time
        &&& self.end_time == other.end_time
    }
}

/// The job lists of a schedule, run by run: what the reordering and the
/// drag feedback work on.
pub open spec fn job_lists(runs: Seq<Run>) -> Seq<Seq<Job>> {
    Seq::new(runs.len(), |r: int| runs[r].jobs@)
}

/// Whether two schedules have the same lanes, whatever jobs these hold.
pub open spec fn same_lanes(a: Seq<Run>, b: Seq<Run>) -> bool {
    &&& a.len() == b.len()
    &&& forall|r: int| 0 <= r < a.len() ==> (#[trigger] a[r]).same_lane(&b[r])
}

/// Whether no two jobs share a uid, in one run or across runs.
pub open spec fn uids_distinct(lists: Seq<Seq<Job>>) -> bool {
    forall|i: int, k: int, j: int, l: int|
        0 <= i < lists.len() && 0 <= k < lists[i].len() && 0 <= j < lists.len() && 0 <= l
            < lists[j].len() && (i != j || k != l) ==> (#[trigger] lists[i][k]).uid@
            != (#[trigger] lists[j][l]).uid@
}

/// The number of jobs in all the lists together.
pub open spec fn total_jobs(lists: Seq<Seq<Job>>) -> nat
    decreases lists.len(),
{
    if lists.len() == 0 {
        0
    } else {
        total_jobs(lists.drop_last()) + lists.last().len()
    }
}

/// Schedules whose runs hold equally many jobs, run by run, hold equally
/// many in all.
pub proof fn lemma_total_jobs_same_counts(a: Seq<Seq<Job>>, b: Seq<Seq<Job>>)
    requires
        a.len() == b.len(),
        forall|i: int| 0 <= i < a.len() ==> a[i].len() == b[i].len(),
    ensures
        total_jobs(a) == total_jobs(b),
    decreases a.len(),
{
    if a.len() > 0 {
        lemma_total_jobs_same_counts(a.drop_last(), b.drop_last());
    }
}

/// Where two schedules differ in the length of one run only, their totals
/// differ by what that run gained or lost.
pub proof fn lemma_total_jobs_one_run(a: Seq<Seq<Job>>, b: Seq<Seq<Job>>, r: int)
    requires
        a.len() == b.len(),
        0 <= r < a.len(),
        forall|i: int| 0 <= i < a.len() && i != r ==> a[i].len() == b[i].len(),
    ensures
        total_jobs(b) + a[r].len() == total_jobs(a) + b[r].len(),
    decreases a.len(),
{
    if r == a.len() - 1 {
        lemma_total_jobs_same_counts(a.drop_last(), b.drop_last());
    } else {
        lemma_total_jobs_one_run(a.drop_last(), b.drop_last(), r);
    }
}

/// The number of runs in a fresh schedule.
pub const RUN_COUNT: usize = 3;

/// The number of jobs in each run of a fresh schedule.
pub const JOBS_PER_RUN: usize = 4;

/// The end of a fresh run's time window, in minutes after its start at 0.
pub const DAY_END: usize = 180;

/// Whether `jobs` are the jobs of a fresh run of colour `color`: one job for
/// each of `locations`, labelled with the numbers from `first` on, with no
/// flag set.
pub open spec fn fresh_jobs(
    jobs: Seq<Job>,
    color: Seq<char>,
    locations: Seq<Location>,
    first: nat,
) -> bool {
    &&& jobs.len() == locations.len()
    &&& forall|k: int|
        0 <= k < jobs.len() ==> {
            &&& (#[trigger] jobs[k]).uid@ == decimal(first + k as nat)
            &&& jobs[k].color@ == color
            &&& jobs[k].location == locations[k]
            &&& !jobs[k].pushed
            &&& !jobs[k].pull
        }
}

/// The label of the first job of run `i` of a fresh schedule: the jobs are
/// numbered through, run after run, so that no two share a label.
pub open spec fn first_label(i: int) -> nat {
    (i * JOBS_PER_RUN) as nat
}

/// Whether `runs` are a fresh schedule with its jobs at `locations`: each
/// run has its colour from the palette for that many runs, passes it on to
/// its jobs, and spans the whole day.
pub open spec fn fresh_runs(
    runs: Seq<Run>,
    locations: [[Location; JOBS_PER_RUN]; RUN_COUNT],
) -> bool {
    &&& runs.len() == RUN_COUNT
    &&& forall|i: int|
        0 <= i < runs.len() ==> {
            &&& (#[trigger] runs[i]).color@ == color_of(i, RUN_COUNT as int)
            &&& runs[i].start_time == 0
            &&& runs[i].end_time == DAY_END
            &&& fresh_jobs(
                runs[i].jobs@,
                color_of(i, RUN_COUNT as int),
                locations@[i]@,
                first_label(i),
            )
        }
}

/// The jobs of a fresh run, one at each of the locations given, labelled
/// with the numbers from `first` on.
pub fn new_jobs(color: &str, locations: &[Location; JOBS_PER_RUN], first: usize) -> (jobs: Vec<Job>)
    requires
        first + JOBS_PER_RUN <= usize::MAX,
    ensures
        fresh_jobs(jobs@, color@, locations@, first as nat),
{
    let mut jobs: Vec<Job> = Vec::new();
    let mut n: usize = 0;
    while n < JOBS_PER_RUN
        invariant
            first + JOBS_PER_RUN <= usize::MAX,
            n <= JOBS_PER_RUN,
            jobs@.len() == n,
            fresh_jobs(jobs@, color@, locations@.take(n as int), first as nat),
        decreases JOBS_PER_RUN - n,
    {
        jobs.push(
            Job {
                uid: decimal_string(first + n),
                color: String::from_str(color),
                location: locations[n],
                pushed: false,
                pull: false,
            },
        );
        n += 1;
    }
    assert(locations@.take(JOBS_PER_RUN as int) =~= locations@);
    jobs
}

/// A fresh schedule with its jobs at the locations given.
pub fn new_runs(locations: &[[Location; JOBS_PER_RUN]; RUN_COUNT]) -> (runs: Vec<Run>)
    ensures
        fresh_runs(runs@, *locations),
{
    let mut runs: Vec<Run> = Vec::new();
    let mut i: usize = 0;
    while i < RUN_COUNT
        invariant
            i <= RUN_COUNT,
            runs@.len() == i,
            forall|r: int|
                0 <= r < i ==> {
                    &&& (#[trigger] runs@[r]).color@ == color_of(r, RUN_COUNT as int)
                    &&& runs@[r].start_time == 0
                    &&& runs@[r].end_time == DAY_END
                    &&& fresh_jobs(
                        runs@[r].jobs@,
                        color_of(r, RUN_COUNT as int),
                        locations@[r]@,
                        first_label(r),
                    )
                },
        decreases RUN_COUNT - i,
    {
        let color = get_color(i, RUN_COUNT);
        let jobs = new_jobs(color.as_str(), &locations[i], i * JOBS_PER_RUN);
        runs.push(Run { jobs, color, start_time: 0, end_time: DAY_END });
        i += 1;
    }
    runs
}

/// No two jobs of a fresh schedule share a uid, whether they stand in one
/// run or in two.
pub proof fn lemma_fresh_uids_distinct(
    runs: Seq<Run>,
    locations: [[Location; JOBS_PER_RUN]; RUN_COUNT],
)
    requires
        fresh_runs(runs, locations),
    ensures
        uids_distinct(job_lists(runs)),
{
    let lists = job_lists(runs);
    assert forall|i: int, k: int, j: int, l: int|
        0 <= i < lists.len() && 0 <= k < lists[i].len() && 0 <= j < lists.len() && 0 <= l
            < lists[j].len() && (i != j || k != l) implies (#[trigger] lists[i][k]).uid@
        != (#[trigger] lists[j][l]).uid@ by {
        let a = first_label(i) + k as nat;
        let b = first_label(j) + l as nat;
        assert(runs[i].jobs@[k].uid@ == decimal(a));
        assert(runs[j].jobs@[l].uid@ == decimal(b));
        assert(a != b);
        if decimal(a) == decimal(b) {
            lemma_decimal_injective(a, b);
        }
    }
}

} // verus!
