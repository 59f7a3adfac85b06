//! Moving a job from one slot to another, within a run or across runs.

use vstd::prelude::*;
use crate::position::Position;
use crate::schedule::{
    job_lists, lemma_total_jobs_one_run, same_lanes, total_jobs, uids_distinct, AppState, Job,
};

verus! {

/// Where a job taken from `from` goes in the job list of a destination that
/// still holds jobs. Behind the job left of `to`; but at that job's own
/// index when the job came from further left in the same run, since taking
/// it out has shifted every later job down by one.
pub open spec fn insertion_index(from: Position, to: Position) -> int {
    match to.left_seq() {
        Some(seq) => if from.run_idx == to.run_idx && from.item_idx < to.item_idx {
            seq
        } else {
            seq + 1
        },
        None => 0,
    }
}

/// Where the job goes in a destination that holds `dest_len` jobs once the
/// job has left its own run: an empty destination takes it at the front.
pub open spec fn landing_index(from: Position, to: Position, dest_len: int) -> int {
    if dest_len == 0 {
        0
    } else {
        insertion_index(from, to)
    }
}

/// How many jobs the destination run holds once the job has left its own run.
pub open spec fn dest_len_after_removal(
    lists: Seq<Seq<Job>>,
    from: Position,
    to: Position,
) -> int {
    if from.run_idx == to.run_idx {
        lists[to.run_idx as int].len() - 1
    } else {
        lists[to.run_idx as int].len() as int
    }
}

/// Whether a move from `from` to `to` can be carried out: both runs exist,
/// `from` resolves to a job of its run, and the landing index lies within
/// the destination.
pub open spec fn can_move(lists: Seq<Seq<Job>>, from: Position, to: Position) -> bool {
    &&& from.run_idx < lists.len()
    &&& to.run_idx < lists.len()
    &&& from.left_seq() matches Some(seq) && seq < lists[from.run_idx as int].len()
    &&& landing_index(from, to, dest_len_after_removal(lists, from, to))
        <= dest_len_after_removal(lists, from, to)
}

/// The job list of run `r` after the move.
pub open spec fn jobs_after_move(
    lists: Seq<Seq<Job>>,
    from: Position,
    to: Position,
    r: int,
) -> Seq<Job> {
    let seq = from.left_seq().unwrap();
    let job = lists[from.run_idx as int][seq];
    let idx = landing_index(from, to, dest_len_after_removal(lists, from, to));
    let rest = if r == from.run_idx {
        lists[r].remove(seq)
    } else {
        lists[r]
    };
    if r == to.run_idx {
        rest.insert(idx, job)
    } else {
        rest
    }
}

/// The job lists after the move.
pub open spec fn moved(lists: Seq<Seq<Job>>, from: Position, to: Position) -> Seq<Seq<Job>> {
    Seq::new(lists.len(), |r: int| jobs_after_move(lists, from, to, r))
}

fn calc_insertion_idx(from_pos: &Position, to_pos: &Position) -> (idx: usize)
    ensures
        idx == insertion_index(*from_pos, *to_pos),
{
    let later_in_same_run = (from_pos.run_idx == to_pos.run_idx) && (from_pos.item_idx
        < to_pos.item_idx);
    match to_pos.left_job_seq() {
        Some(seq) => if later_in_same_run {
            seq
        } else {
            seq + 1
        },
        None => 0,
    }
}

/// Tests whether [`move_job`] may be called with these arguments.
pub fn is_valid_move(from_pos: Position, to_pos: Position, state: &AppState) -> (valid: bool)
    ensures
        valid == can_move(job_lists(state.runs@), from_pos, to_pos),
{
    if from_pos.run_idx >= state.runs.len() || to_pos.run_idx >= state.runs.len() {
        return false;
    }
    let from_len = state.runs[from_pos.run_idx].jobs.len();
    match from_pos.left_job_seq() {
        None => false,
        Some(seq) => {
            if seq >= from_len {
                return false;
            }
            let dest_len = if from_pos.run_idx == to_pos.run_idx {
                from_len - 1
            } else {
                state.runs[to_pos.run_idx].jobs.len()
            };
            dest_len == 0 || calc_insertion_idx(&from_pos, &to_pos) <= dest_len
        },
    }
}

/// Takes the job that `from_pos` resolves to out of its run and puts it into
/// the run of `to_pos` at the landing index. Nothing else changes: every
/// other job keeps its run and its place among the others, and no job is
/// lost or duplicated.
pub fn move_job(from_pos: Position, to_pos: Position, state: &mut AppState)
    requires
        can_move(job_lists(old(state).runs@), from_pos, to_pos),
    ensures
        final(state).animation_strategy == old(state).animation_strategy,
        same_lanes(old(state).runs@, final(state).runs@),
        job_lists(final(state).runs@) == moved(job_lists(old(state).runs@), from_pos, to_pos),
        total_jobs(job_lists(final(state).runs@)) == total_jobs(job_lists(old(state).runs@)),
{
    let ghost before = job_lists(state.runs@);
    let from_job_seq = from_pos.left_job_seq().unwrap();
    let job = state.runs[from_pos.run_idx].jobs.remove(from_job_seq);

    let insert_idx = match state.runs[to_pos.run_idx].jobs.len() {
        0 => 0,
        _ => calc_insertion_idx(&from_pos, &to_pos),
    };
    state.runs[to_pos.run_idx].jobs.insert(insert_idx, job);
    proof {
        assert(job_lists(state.runs@) =~= moved(before, from_pos, to_pos));
        lemma_move_conserves_jobs(before, from_pos, to_pos);
    }
}

/// A move neither loses nor duplicates a job: the schedule holds as many
/// jobs after it as before, and each run keeps its number of jobs but for
/// the one that gives a job and the one that takes it.
pub proof fn lemma_move_conserves_jobs(lists: Seq<Seq<Job>>, from: Position, to: Position)
    requires
        can_move(lists, from, to),
    ensures
        moved(lists, from, to).len() == lists.len(),
        total_jobs(moved(lists, from, to)) == total_jobs(lists),
        forall|r: int|
            0 <= r < lists.len() && r != from.run_idx && r != to.run_idx ==> #[trigger] moved(
                lists,
                from,
                to,
            )[r] == lists[r],
        from.run_idx == to.run_idx ==> moved(lists, from, to)[to.run_idx as int].len()
            == lists[to.run_idx as int].len(),
        from.run_idx != to.run_idx ==> {
            &&& moved(lists, from, to)[from.run_idx as int].len() == lists[from.run_idx as int].len()
                - 1
            &&& moved(lists, from, to)[to.run_idx as int].len() == lists[to.run_idx as int].len()
                + 1
        },
{
    let seq = from.left_seq().unwrap();
    let between = lists.update(from.run_idx as int, lists[from.run_idx as int].remove(seq));
    lemma_total_jobs_one_run(lists, between, from.run_idx as int);
    lemma_total_jobs_one_run(between, moved(lists, from, to), to.run_idx as int);
}

/// Where the job that stands at place `k` of run `r` after the move stood
/// before it: its run and its place there.
pub open spec fn place_before(
    lists: Seq<Seq<Job>>,
    from: Position,
    to: Position,
    r: int,
    k: int,
) -> (int, int) {
    let seq = from.left_seq().unwrap();
    let idx = landing_index(from, to, dest_len_after_removal(lists, from, to));
    if r == to.run_idx && k == idx {
        (from.run_idx as int, seq)
    } else {
        let m = if r == to.run_idx && k > idx {
            k - 1
        } else {
            k
        };
        if r == from.run_idx && m >= seq {
            (r, m + 1)
        } else {
            (r, m)
        }
    }
}

/// A move only changes where jobs stand: each job after it is a job from
/// before it, and no two places are filled from one. So jobs that had
/// different uids before the move have different uids after it.
pub proof fn lemma_move_keeps_uids_distinct(lists: Seq<Seq<Job>>, from: Position, to: Position)
    requires
        can_move(lists, from, to),
        uids_distinct(lists),
    ensures
        uids_distinct(moved(lists, from, to)),
{
    let after = moved(lists, from, to);
    assert forall|i: int, k: int, j: int, l: int|
        0 <= i < after.len() && 0 <= k < after[i].len() && 0 <= j < after.len() && 0 <= l
            < after[j].len() && (i != j || k != l) implies (#[trigger] after[i][k]).uid@
        != (#[trigger] after[j][l]).uid@ by {
        let (si, sk) = place_before(lists, from, to, i, k);
        let (sj, sl) = place_before(lists, from, to, j, l);
        assert(0 <= si < lists.len() && 0 <= sk < lists[si].len());
        assert(0 <= sj < lists.len() && 0 <= sl < lists[sj].len());
        assert(after[i][k] == lists[si][sk]);
        assert(after[j][l] == lists[sj][sl]);
        assert(si != sj || sk != sl);
    }
}

/// Every drop that the interleaved view can give rise to can be carried
/// out: a job taken from its own slot may go to any other slot of the view
/// of any run.
pub proof fn lemma_drop_in_view_can_move(lists: Seq<Seq<Job>>, from: Position, to: Position)
    requires
        from.run_idx < lists.len(),
        to.run_idx < lists.len(),
        from.item_idx % 2 == 1,
        from.item_idx < 2 * lists[from.run_idx as int].len() + 1,
        to.item_idx < 2 * lists[to.run_idx as int].len() + 1,
        from != to,
    ensures
        can_move(lists, from, to),
{
}

} // verus!
