//! The drag state machine: what each user event does to the schedule and
//! what it asks of the page.
//!
//! The machine decides; it touches neither the page nor the store. Each
//! step hands back the effects that its caller is to carry out.

use vstd::prelude::*;
use crate::animation_strategy::Strategy;
use crate::animations::{
    first_right_of, lemma_push_idempotent, lemma_push_keeps_uids_distinct, push_subsequent_jobs,
    pushed_jobs, pushed_lists,
};
use crate::dnd::{can_move, lemma_move_keeps_uids_distinct, move_job, moved};
use crate::position::Position;
use crate::schedule::{
    fresh_runs, job_lists, lemma_fresh_uids_distinct, new_runs, same_lanes, uids_distinct,
    AppState, Job, Location, Run, JOBS_PER_RUN, RUN_COUNT,
};

verus! {

/// Whether a job is being carried, and over which slot. `marked` tells
/// whether the flags have been recomputed since the cursor came to `hover`:
/// not yet when the drag has only begun there.
#[derive(Clone, Copy, Debug, PartialEq, Eq, Structural)]
pub enum DragState {
    Idle,
    Dragging { origin: Position, hover: Option<Position>, marked: bool },
}

/// A user event. `Reset` brings the locations for the jobs of the fresh
/// schedule.
#[derive(Clone, Copy, Debug, PartialEq)]
pub enum Msg {
    DragStart(Position),
    Drop(Position),
    DragOver(Position),
    DragEnter(Position),
    DragLeave(Position),
    SetAnimationStrategy(Strategy),
    Reset([[Location; JOBS_PER_RUN]; RUN_COUNT]),
}

/// What a step asks of the store.
#[derive(Clone, Copy, Debug, PartialEq, Eq, Structural)]
pub enum Storage {
    Untouched,
    Save,
    Delete,
}

/// A request to hide the item in a slot or to show it again.
#[derive(Clone, Copy, Debug, PartialEq, Eq, Structural)]
pub struct Visibility {
    pub pos: Position,
    pub visible: bool,
}

/// What a step asks of its caller: whether to draw the page anew, which
/// item to hide or show again, and what to do with the stored schedule.
#[derive(Clone, Copy, Debug, PartialEq, Eq, Structural)]
pub struct Effects {
    pub redraw: bool,
    pub visibility: Option<Visibility>,
    pub storage: Storage,
}

/// The schedule together with the drag in progress. While the drag is
/// marked, the flags stand as the cursor's coming to the slot under it
/// leaves them.
#[derive(Debug, PartialEq)]
pub struct App {
    state: AppState,
    drag: DragState,
}

/// A step that asks for nothing.
pub open spec fn no_effects() -> Effects {
    Effects { redraw: false, visibility: None, storage: Storage::Untouched }
}

/// The leading slot of the run that `pos` lies in: the pivot that has the
/// whole run behind it.
pub open spec fn run_start(pos: Position) -> Position {
    Position { run_idx: pos.run_idx, item_idx: 0 }
}

/// The job lists after the cursor, last seen over `hover`, has come to
/// `pos`: the run it left, if it left one, is released, and the jobs right
/// of `pos` are pushed.
pub open spec fn entered(lists: Seq<Seq<Job>>, hover: Option<Position>, pos: Position) -> Seq<
    Seq<Job>,
> {
    match hover {
        Some(h) => if h.run_idx == pos.run_idx {
            pushed_lists(lists, pos, true)
        } else {
            pushed_lists(pushed_lists(lists, run_start(h), false), pos, true)
        },
        None => pushed_lists(lists, pos, true),
    }
}

/// The job lists after the job from `origin` was dropped at `pos`: the job
/// has moved and the run it went to is released.
pub open spec fn dropped(lists: Seq<Seq<Job>>, origin: Position, pos: Position) -> Seq<Seq<Job>> {
    pushed_lists(moved(lists, origin, pos), pos, false)
}

/// Whether a drop at `pos` moves a job: one is being carried, and not back
/// to its own slot.
pub open spec fn drop_moves(drag: DragState, pos: Position) -> bool {
    drag matches DragState::Dragging { origin, .. } && origin != pos
}

/// Whether the flags need no recomputing when the cursor comes to `pos`:
/// it is recorded over `pos` and the flags were recomputed when it came
/// there.
pub open spec fn enter_is_redundant(drag: DragState, pos: Position) -> bool {
    drag matches DragState::Dragging { hover, marked, .. } && marked && hover == Some(pos)
}

/// The drag with its mark taken off.
pub open spec fn unmarked(drag: DragState) -> DragState {
    match drag {
        DragState::Dragging { origin, hover, .. } => DragState::Dragging {
            origin,
            hover,
            marked: false,
        },
        DragState::Idle => DragState::Idle,
    }
}

/// Whether the flags in `lists` bear out the mark of `drag`: where the drag
/// is marked, recomputing the flags for the slot under the cursor would
/// change nothing.
pub open spec fn flags_stand(lists: Seq<Seq<Job>>, drag: DragState) -> bool {
    match drag {
        DragState::Dragging { hover, marked, .. } => marked ==> match hover {
            Some(h) => pushed_lists(lists, h, true) == lists,
            None => false,
        },
        DragState::Idle => true,
    }
}

/// The step relation: whether `msg` takes `pre` to `post` and asks for
/// `effects`.
pub open spec fn steps(pre: App, msg: Msg, post: App, effects: Effects) -> bool {
    let unchanged = post.schedule() == pre.schedule() && post.dragging() == pre.dragging();
    let redraw = Effects { redraw: true, visibility: None, storage: Storage::Untouched };
    match msg {
        Msg::DragStart(pos) => {
            &&& post.schedule() == pre.schedule()
            &&& post.dragging() == (DragState::Dragging {
                origin: pos,
                hover: Some(pos),
                marked: false,
            })
            &&& effects == (Effects {
                redraw: false,
                visibility: Some(Visibility { pos, visible: false }),
                storage: Storage::Untouched,
            })
        },
        Msg::Drop(pos) => if drop_moves(pre.dragging(), pos) {
            let origin = pre.dragging()->origin;
            &&& post.schedule().animation_strategy == pre.schedule().animation_strategy
            &&& same_lanes(pre.schedule().runs@, post.schedule().runs@)
            &&& job_lists(post.schedule().runs@) == dropped(
                job_lists(pre.schedule().runs@),
                origin,
                pos,
            )
            &&& post.dragging() == DragState::Idle
            &&& effects == (Effects {
                redraw: true,
                visibility: Some(Visibility { pos: origin, visible: true }),
                storage: Storage::Save,
            })
        } else {
            unchanged && effects == no_effects()
        },
        Msg::DragEnter(pos) => match pre.dragging() {
            DragState::Dragging { origin, hover, marked } => {
                &&& post.schedule().animation_strategy == pre.schedule().animation_strategy
                &&& same_lanes(pre.schedule().runs@, post.schedule().runs@)
                &&& job_lists(post.schedule().runs@) == entered(
                    job_lists(pre.schedule().runs@),
                    hover,
                    pos,
                )
                &&& post.dragging() == (DragState::Dragging {
                    origin,
                    hover: Some(pos),
                    marked: true,
                })
                &&& if enter_is_redundant(pre.dragging(), pos) {
                    unchanged && effects == no_effects()
                } else {
                    effects == redraw
                }
            },
            DragState::Idle => unchanged && effects == no_effects(),
        },
        Msg::DragOver(_) => unchanged && effects == no_effects(),
        Msg::DragLeave(_) => unchanged && effects == no_effects(),
        Msg::SetAnimationStrategy(strategy) => {
            &&& post.schedule().runs == pre.schedule().runs
            &&& post.schedule().animation_strategy == strategy
            &&& post.dragging() == pre.dragging()
            &&& effects == redraw
        },
        Msg::Reset(locations) => {
            &&& fresh_runs(post.schedule().runs@, locations)
            &&& post.schedule().animation_strategy == pre.schedule().animation_strategy
            &&& post.dragging() == unmarked(pre.dragging())
            &&& effects == (Effects { redraw: true, visibility: None, storage: Storage::Delete })
        },
    }
}

/// Whether `msg` may be handed to the machine in state `app`. Only a drop
/// that moves a job asks for anything: the move must be one that can be
/// carried out.
pub open spec fn accepts(app: App, msg: Msg) -> bool {
    match msg {
        Msg::Drop(pos) => drop_moves(app.dragging(), pos) ==> can_move(
            job_lists(app.schedule().runs@),
            app.dragging()->origin,
            pos,
        ),
        _ => true,
    }
}

/// What the cursor's coming to `pos` does to the run it comes to: the jobs
/// right of `pos` are pushed and may not be pulled, the jobs at or left of
/// it rest and may be pulled, and each job stays in its place.
pub proof fn lemma_enter_pushes_right_of_cursor(
    lists: Seq<Seq<Job>>,
    hover: Option<Position>,
    pos: Position,
)
    requires
        pos.run_idx < lists.len(),
    ensures
        entered(lists, hover, pos).len() == lists.len(),
        entered(lists, hover, pos)[pos.run_idx as int].len() == lists[pos.run_idx as int].len(),
        forall|k: int|
            0 <= k < lists[pos.run_idx as int].len() ==> {
                let job = #[trigger] entered(lists, hover, pos)[pos.run_idx as int][k];
                &&& job.pushed == (k >= first_right_of(pos))
                &&& job.pull == (k < first_right_of(pos))
                &&& job.uid == lists[pos.run_idx as int][k].uid
                &&& job.color == lists[pos.run_idx as int][k].color
                &&& job.location == lists[pos.run_idx as int][k].location
            },
{
}

/// A uid names one job for as long as the machine runs: if no two jobs
/// share a uid before a step, none do after it.
pub proof fn lemma_step_keeps_uids_distinct(pre: App, msg: Msg, post: App, effects: Effects)
    requires
        accepts(pre, msg),
        steps(pre, msg, post, effects),
        uids_distinct(job_lists(pre.schedule().runs@)),
    ensures
        uids_distinct(job_lists(post.schedule().runs@)),
{
    let lists = job_lists(pre.schedule().runs@);
    match msg {
        Msg::Drop(pos) => {
            if drop_moves(pre.dragging(), pos) {
                let origin = pre.dragging()->origin;
                lemma_move_keeps_uids_distinct(lists, origin, pos);
                lemma_push_keeps_uids_distinct(moved(lists, origin, pos), pos, false);
            }
        },
        Msg::DragEnter(pos) => {
            match pre.dragging() {
                DragState::Dragging { hover, .. } => {
                    match hover {
                        Some(h) => {
                            if h.run_idx == pos.run_idx {
                                lemma_push_keeps_uids_distinct(lists, pos, true);
                            } else {
                                lemma_push_keeps_uids_distinct(lists, run_start(h), false);
                                lemma_push_keeps_uids_distinct(
                                    pushed_lists(lists, run_start(h), false),
                                    pos,
                                    true,
                                );
                            }
                        },
                        None => {
                            lemma_push_keeps_uids_distinct(lists, pos, true);
                        },
                    }
                },
                DragState::Idle => {},
            }
        },
        Msg::Reset(locations) => {
            lemma_fresh_uids_distinct(post.schedule().runs@, locations);
        },
        _ => {},
    }
}

/// Whether some job of the list is pushed.
pub open spec fn shows_push(jobs: Seq<Job>) -> bool {
    exists|k: int| 0 <= k < jobs.len() && (#[trigger] jobs[k]).pushed
}

/// At most one run shows push feedback at a time: if before the cursor
/// comes to `pos` no run but the one it was over has a pushed job, then
/// afterwards no run but the one it is over has.
pub proof fn lemma_enter_pushes_one_run(
    lists: Seq<Seq<Job>>,
    hover: Option<Position>,
    pos: Position,
)
    requires
        forall|r: int|
            0 <= r < lists.len() && shows_push(#[trigger] lists[r]) ==> match hover {
                Some(h) => h.run_idx == r,
                None => false,
            },
    ensures
        entered(lists, hover, pos).len() == lists.len(),
        forall|r: int|
            0 <= r < lists.len() && shows_push(#[trigger] entered(lists, hover, pos)[r]) ==> r
                == pos.run_idx,
{
    let after = entered(lists, hover, pos);
    assert forall|r: int| 0 <= r < lists.len() && r != pos.run_idx implies !shows_push(
        #[trigger] after[r],
    ) by {
        match hover {
            Some(h) => {
                if h.run_idx == r {
                    let released = pushed_lists(lists, run_start(h), false);
                    assert(after[r] == released[r]);
                    assert(released[r] == pushed_jobs(lists[r], 0, false));
                    assert(forall|k: int|
                        0 <= k < after[r].len() ==> !(#[trigger] after[r][k]).pushed);
                } else {
                    assert(after[r] == lists[r]);
                }
            },
            None => {
                assert(after[r] == lists[r]);
            },
        }
    }
}

/// Once the cursor has come to a slot, its coming there again would change
/// nothing: the flags that it would recompute are the flags that stand.
pub proof fn lemma_enter_again_changes_nothing(
    lists: Seq<Seq<Job>>,
    hover: Option<Position>,
    pos: Position,
)
    ensures
        entered(entered(lists, hover, pos), Some(pos), pos) == entered(lists, hover, pos),
{
    match hover {
        Some(h) => {
            if h.run_idx == pos.run_idx {
                lemma_push_idempotent(lists, pos, true);
            } else {
                lemma_push_idempotent(pushed_lists(lists, run_start(h), false), pos, true);
            }
        },
        None => {
            lemma_push_idempotent(lists, pos, true);
        },
    }
}

/// A drop ends the push feedback: if before it no run but the one dropped
/// on has a pushed job, then afterwards none has.
pub proof fn lemma_drop_releases_all(lists: Seq<Seq<Job>>, origin: Position, pos: Position)
    requires
        can_move(lists, origin, pos),
        forall|r: int| 0 <= r < lists.len() && shows_push(#[trigger] lists[r]) ==> r == pos.run_idx,
    ensures
        dropped(lists, origin, pos).len() == lists.len(),
        forall|r: int| 0 <= r < lists.len() ==> !shows_push(#[trigger] dropped(lists, origin, pos)[r]),
{
    let after = dropped(lists, origin, pos);
    let seq = origin.left_seq().unwrap();
    assert forall|r: int| 0 <= r < lists.len() implies !shows_push(#[trigger] after[r]) by {
        if r == pos.run_idx {
            assert(forall|k: int| 0 <= k < after[r].len() ==> !(#[trigger] after[r][k]).pushed);
        } else if r == origin.run_idx {
            assert(after[r] == lists[r].remove(seq));
            assert forall|k: int| 0 <= k < after[r].len() implies !(#[trigger] after[r][k]).pushed by {
                if k < seq {
                    assert(after[r][k] == lists[r][k]);
                } else {
                    assert(after[r][k] == lists[r][k + 1]);
                }
            }
        } else {
            assert(after[r] == lists[r]);
        }
    }
}

impl App {
    #[verifier::type_invariant]
    spec fn marks_hold(self) -> bool {
        flags_stand(job_lists(self.state.runs@), self.drag)
    }

    /// The schedule that the machine holds.
    pub closed spec fn schedule(&self) -> AppState {
        self.state
    }

    /// The drag that the machine is in.
    pub closed spec fn dragging(&self) -> DragState {
        self.drag
    }

    /// The schedule.
    pub fn state(&self) -> (state: &AppState)
        ensures
            *state == self.schedule(),
    {
        &self.state
    }

    /// The drag in progress.
    pub fn drag(&self) -> (drag: DragState)
        ensures
            drag == self.dragging(),
    {
        self.drag
    }

    /// The machine at start: the stored runs where there are any, else a
    /// fresh schedule at the locations given; no animation, nothing carried.
    pub fn create(stored: Option<Vec<Run>>, locations: &[[Location; JOBS_PER_RUN]; RUN_COUNT]) -> (app:
        App)
        ensures
            app.dragging() == DragState::Idle,
            app.schedule().animation_strategy == Strategy::Off,
            match stored {
                Some(runs) => app.schedule().runs == runs,
                None => fresh_runs(app.schedule().runs@, *locations),
            },
    {
        let runs = match stored {
            Some(runs) => runs,
            None => new_runs(locations),
        };
        App { state: AppState { runs, animation_strategy: Strategy::Off }, drag: DragState::Idle }
    }

    /// Hands the schedule out to be worked on, leaving one without runs
    /// behind. The drag must be unmarked, so that any flags bear it out.
    fn take_state(&mut self) -> (state: AppState)
        requires
            !(old(self).drag matches DragState::Dragging { marked: true, .. }),
        ensures
            state == old(self).state,
            final(self).drag == old(self).drag,
    {
        let mut state = AppState {
            runs: Vec::new(),
            animation_strategy: self.state.animation_strategy,
        };
        core::mem::swap(&mut self.state, &mut state);
        state
    }

    /// Takes one step.
    ///
    /// - `DragStart` records the slot as origin and as the slot under the
    ///   cursor, unmarked, and asks to hide the item.
    /// - `DragEnter`, while a job is carried, recomputes the flags and
    ///   records the slot, marked. Where the slot is recorded and marked
    ///   already, the flags stand as they would be recomputed, and the step
    ///   leaves everything as it is and asks for nothing. While no job is
    ///   carried it does nothing.
    /// - `Drop`, while a job is carried and not onto its own slot, moves
    ///   the job, releases the run it went to, asks to show the item again
    ///   and to save, and ends the drag; otherwise it does nothing.
    /// - `DragOver` and `DragLeave` do nothing.
    /// - `SetAnimationStrategy` sets the strategy.
    /// - `Reset` replaces the runs by a fresh schedule, takes the mark off
    ///   the drag and asks to delete what is stored.
    pub fn update(&mut self, msg: Msg) -> (effects: Effects)
        requires
            accepts(*old(self), msg),
        ensures
            steps(*old(self), msg, *final(self), effects),
    {
        proof {
            use_type_invariant(&*self);
        }
        let ghost lists = job_lists(self.state.runs@);
        match msg {
            Msg::DragStart(pos) => {
                self.drag = DragState::Dragging { origin: pos, hover: Some(pos), marked: false };
                Effects {
                    redraw: false,
                    visibility: Some(Visibility { pos, visible: false }),
                    storage: Storage::Untouched,
                }
            },
            Msg::Drop(to_pos) => {
                match self.drag {
                    DragState::Dragging { origin, hover: _, marked: _ } => {
                        if origin == to_pos {
                            return Effects {
                                redraw: false,
                                visibility: None,
                                storage: Storage::Untouched,
                            };
                        }
                        self.drag = DragState::Idle;
                        let mut state = self.take_state();
                        move_job(origin, to_pos, &mut state);
                        push_subsequent_jobs(&to_pos, false, &mut state.runs);
                        self.state = state;
                        Effects {
                            redraw: true,
                            visibility: Some(Visibility { pos: origin, visible: true }),
                            storage: Storage::Save,
                        }
                    },
                    DragState::Idle => Effects {
                        redraw: false,
                        visibility: None,
                        storage: Storage::Untouched,
                    },
                }
            },
            Msg::DragEnter(pos) => {
                match self.drag {
                    DragState::Dragging { origin, hover, marked } => {
                        if marked {
                            match hover {
                                Some(dragging_over_pos) => {
                                    if dragging_over_pos == pos {
                                        return Effects {
                                            redraw: false,
                                            visibility: None,
                                            storage: Storage::Untouched,
                                        };
                                    }
                                },
                                None => {},
                            }
                        }
                        self.drag = DragState::Dragging { origin, hover, marked: false };
                        let mut state = self.take_state();
                        match hover {
                            Some(dragging_over_pos) => {
                                if dragging_over_pos.run_idx == pos.run_idx {
                                    push_subsequent_jobs(&pos, true, &mut state.runs);
                                } else {
                                    let prev_run_pos = Position::new(dragging_over_pos.run_idx, 0);
                                    push_subsequent_jobs(&prev_run_pos, false, &mut state.runs);
                                    push_subsequent_jobs(&pos, true, &mut state.runs);
                                }
                            },
                            None => {
                                push_subsequent_jobs(&pos, true, &mut state.runs);
                            },
                        }
                        proof {
                            lemma_enter_again_changes_nothing(lists, hover, pos);
                        }
                        self.state = state;
                        self.drag = DragState::Dragging { origin, hover: Some(pos), marked: true };
                        Effects { redraw: true, visibility: None, storage: Storage::Untouched }
                    },
                    DragState::Idle => Effects {
                        redraw: false,
                        visibility: None,
                        storage: Storage::Untouched,
                    },
                }
            },
            Msg::DragOver(_pos) => Effects {
                redraw: false,
                visibility: None,
                storage: Storage::Untouched,
            },
            Msg::DragLeave(_pos) => Effects {
                redraw: false,
                visibility: None,
                storage: Storage::Untouched,
            },
            Msg::Reset(locations) => {
                match self.drag {
                    DragState::Dragging { origin, hover, marked: _ } => {
                        self.drag = DragState::Dragging { origin, hover, marked: false };
                    },
                    DragState::Idle => {},
                }
                self.state.runs = new_runs(&locations);
                Effects { redraw: true, visibility: None, storage: Storage::Delete }
            },
            Msg::SetAnimationStrategy(strategy) => {
                self.state.animation_strategy = strategy;
                Effects { redraw: true, visibility: None, storage: Storage::Untouched }
            },
        }
    }
}

} // verus!
