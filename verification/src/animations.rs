//! The push and pull flags that show, while a job is dragged, where a drop
//! would make room.

use vstd::prelude::*;
use vstd::string::StringExecFns;
use crate::position::Position;
use crate::schedule::{job_lists, same_lanes, uids_distinct, Job, Run};
use crate::text::{contains, occurs_in, replace, replaced, trim, trimmed};

verus! {

/// The sequence number of the first job right of `pivot`: every job from
/// there on yields to the drag.
pub open spec fn first_right_of(pivot: Position) -> int {
    match pivot.left_seq() {
        Some(seq) => seq + 1,
        None => 0,
    }
}

/// A job with its two flags set anew and all else as it was.
pub open spec fn flagged(job: Job, pushed: bool, pull: bool) -> Job {
    Job { pushed, pull, ..job }
}

/// A job list after the flags were recomputed: jobs left of `right` rest
/// and may be pulled; the others are pushed if `push` holds and may be
/// pulled if it does not.
pub open spec fn pushed_jobs(jobs: Seq<Job>, right: int, push: bool) -> Seq<Job> {
    Seq::new(
        jobs.len(),
        |i: int|
            if i < right {
                flagged(jobs[i], false, true)
            } else {
                flagged(jobs[i], push, !push)
            },
    )
}

/// The job lists after the flags of the run that `pivot` lies in were
/// recomputed. A pivot in no run changes nothing.
pub open spec fn pushed_lists(lists: Seq<Seq<Job>>, pivot: Position, push: bool) -> Seq<Seq<Job>> {
    if pivot.run_idx < lists.len() {
        lists.update(
            pivot.run_idx as int,
            pushed_jobs(lists[pivot.run_idx as int], first_right_of(pivot), push),
        )
    } else {
        lists
    }
}

/// Recomputes the flags of the run that `pos` lies in, with `pos` as the
/// pivot: the jobs right of it are pushed or released as `push` says, the
/// jobs at or left of it rest. Without such a run nothing changes and the
/// result is `None`.
pub fn push_subsequent_jobs(pos: &Position, push: bool, runs: &mut Vec<Run>) -> (done: Option<()>)
    ensures
        done.is_some() <==> pos.run_idx < old(runs).len(),
        done.is_none() ==> *final(runs) == *old(runs),
        same_lanes(old(runs)@, final(runs)@),
        job_lists(final(runs)@) == pushed_lists(job_lists(old(runs)@), *pos, push),
        forall|r: int|
            0 <= r < old(runs).len() && r != pos.run_idx ==> final(runs)[r] == old(runs)[r],
{
    if pos.run_idx >= runs.len() {
        return None;
    }
    let right_job_idx = match pos.left_job_seq() {
        Some(seq) => seq + 1,
        None => 0,
    };
    let run_idx = pos.run_idx;
    let n = runs[run_idx].jobs.len();
    let ghost before = runs@;
    let ghost jobs = runs[run_idx as int].jobs@;
    for idx in 0..n
        invariant
            run_idx < runs.len(),
            runs.len() == before.len(),
            n == jobs.len(),
            jobs == before[run_idx as int].jobs@,
            forall|r: int| 0 <= r < runs.len() && r != run_idx ==> runs[r] == before[r],
            runs[run_idx as int].same_lane(&before[run_idx as int]),
            runs[run_idx as int].jobs@.len() == n,
            forall|i: int|
                0 <= i < idx ==> runs[run_idx as int].jobs@[i] == pushed_jobs(
                    jobs,
                    right_job_idx as int,
                    push,
                )[i],
            forall|i: int| idx <= i < n ==> runs[run_idx as int].jobs@[i] == jobs[i],
    {
        if idx < right_job_idx {
            runs[run_idx].jobs[idx].pushed = false;
            runs[run_idx].jobs[idx].pull = true;
        } else {
            runs[run_idx].jobs[idx].pull = !push;
            runs[run_idx].jobs[idx].pushed = push;
        }
    }
    assert(runs[run_idx as int].jobs@ =~= pushed_jobs(jobs, right_job_idx as int, push));
    assert(job_lists(runs@) =~= pushed_lists(job_lists(before), *pos, push));
    Some(())
}

/// Recomputing the flags leaves every uid where it is: jobs that had
/// different uids before have different uids after.
pub proof fn lemma_push_keeps_uids_distinct(lists: Seq<Seq<Job>>, pivot: Position, push: bool)
    requires
        uids_distinct(lists),
    ensures
        uids_distinct(pushed_lists(lists, pivot, push)),
{
    let after = pushed_lists(lists, pivot, push);
    assert forall|i: int, k: int, j: int, l: int|
        0 <= i < after.len() && 0 <= k < after[i].len() && 0 <= j < after.len() && 0 <= l
            < after[j].len() && (i != j || k != l) implies (#[trigger] after[i][k]).uid@
        != (#[trigger] after[j][l]).uid@ by {
        assert(after[i][k].uid == lists[i][k].uid);
        assert(after[j][l].uid == lists[j][l].uid);
    }
}

/// A class name as it stands in the class text of an element: behind a
/// blank.
pub open spec fn class_token(class_name: Seq<char>) -> Seq<char> {
    " "@ + class_name
}

/// The class text of an element once a class was set or cleared, or `None`
/// where the text stays as it is: setting a class that is there and
/// clearing one that is not change nothing. A class is set by writing its
/// token at the end, and cleared by taking every match of its token out and
/// trimming what is left.
pub open spec fn class_after(old_class: Seq<char>, class_name: Seq<char>, set: bool) -> Option<
    Seq<char>,
> {
    let token = class_token(class_name);
    if set == occurs_in(token, old_class) {
        None
    } else if set {
        Some(old_class + token)
    } else {
        Some(trimmed(replaced(old_class, token, ""@)))
    }
}

/// Sets or clears a class in the class text of an element. The result is
/// the new text, or `None` where the element is to be left alone.
pub fn set_class(old_class: &str, class_name: &str, set: bool) -> (new_class: Option<String>)
    ensures
        match new_class {
            Some(class) => class_after(old_class@, class_name@, set) == Some(class@),
            None => class_after(old_class@, class_name@, set).is_none(),
        },
{
    let token = String::from_str(" ").concat(class_name);
    let present = contains(old_class, token.as_str());
    if set {
        if present {
            return None;
        }
        Some(String::from_str(old_class).concat(token.as_str()))
    } else {
        if !present {
            return None;
        }
        let cleared = replace(old_class, token.as_str(), "");
        Some(String::from_str(trim(cleared.as_str())))
    }
}

/// Shows or hides an item by clearing or setting the class `hide` in the
/// class text of its element.
pub fn toggle_visible(old_class: &str, visible: bool) -> (new_class: Option<String>)
    ensures
        match new_class {
            Some(class) => class_after(old_class@, "hide"@, !visible) == Some(class@),
            None => class_after(old_class@, "hide"@, !visible).is_none(),
        },
{
    set_class(old_class, "hide", !visible)
}

/// Recomputing the flags twice with one pivot and one `push` gives what
/// recomputing them once gives.
pub proof fn lemma_push_idempotent(lists: Seq<Seq<Job>>, pivot: Position, push: bool)
    ensures
        pushed_lists(pushed_lists(lists, pivot, push), pivot, push) == pushed_lists(
            lists,
            pivot,
            push,
        ),
{
    if pivot.run_idx < lists.len() {
        let right = first_right_of(pivot);
        let jobs = lists[pivot.run_idx as int];
        assert(pushed_jobs(pushed_jobs(jobs, right, push), right, push) =~= pushed_jobs(
            jobs,
            right,
            push,
        ));
        assert(pushed_lists(pushed_lists(lists, pivot, push), pivot, push) =~= pushed_lists(
            lists,
            pivot,
            push,
        ));
    }
}

} // verus!
