//! Coordinates into the interleaved leg/job view of a run.

use vstd::prelude::*;

verus! {

/// A slot in the interleaved view of a run: even slots are legs, odd slots
/// are jobs. A position is only meaningful for the job list it was computed
/// from.
#[derive(Clone, Copy, Debug, PartialEq, Eq, Structural)]
pub struct Position {
    pub run_idx: usize,
    pub item_idx: usize,
}

/// The sequence number of the job at or to the left of slot `item_idx`, if any.
pub open spec fn left_seq_of(item_idx: int) -> Option<int> {
    if item_idx <= 0 {
        None
    } else {
        Some((item_idx - 1) / 2)
    }
}

/// The slot that holds the job with sequence number `seq`.
pub open spec fn job_slot(seq: int) -> int {
    2 * seq + 1
}

impl Position {
    pub fn new(run_idx: usize, item_idx: usize) -> (pos: Self)
        ensures
            pos.run_idx == run_idx,
            pos.item_idx == item_idx,
    {
        Self { run_idx, item_idx }
    }

    /// The sequence number of the job at or to the left of this slot, if
    /// any, as a mathematical integer.
    pub open spec fn left_seq(&self) -> Option<int> {
        left_seq_of(self.item_idx as int)
    }

    /// The sequence number of the nearest job at or left of this slot;
    /// `None` for the leading leg, which has no job to its left.
    pub fn left_job_seq(&self) -> (seq: Option<usize>)
        ensures
            match seq {
                Some(s) => self.left_seq() == Some(s as int),
                None => self.left_seq().is_none(),
            },
    {
        if self.item_idx == 0 {
            return None;
        }
        Some((self.item_idx - 1) / 2)
    }

    /// Whether this slot holds a leg: the even slots do.
    pub open spec fn leg_slot(&self) -> bool {
        self.item_idx % 2 == 0
    }

    /// Whether this slot is a leg.
    pub fn is_leg(&self) -> (leg: bool)
        ensures
            leg == self.leg_slot(),
    {
        self.item_idx % 2 == 0
    }
}

/// The slot of a job leads back to that job: the job with sequence number
/// `seq` stands in slot `2 * seq + 1`, which is no leg, and the job at or
/// left of that slot is `seq`.
pub proof fn lemma_job_slot_round_trip(run_idx: usize, seq: usize)
    requires
        job_slot(seq as int) <= usize::MAX,
    ensures
        (Position { run_idx, item_idx: job_slot(seq as int) as usize }).left_seq() == Some(
            seq as int,
        ),
        !(Position { run_idx, item_idx: job_slot(seq as int) as usize }).leg_slot(),
{
}

/// The leading slot of every run is a leg with no job to its left.
pub proof fn lemma_leading_slot_has_no_left_job(run_idx: usize)
    ensures
        (Position { run_idx, item_idx: 0 }).left_seq().is_none(),
        (Position { run_idx, item_idx: 0 }).leg_slot(),
{
}

} // verus!
