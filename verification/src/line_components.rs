//! The interleaved view of a run: what each leg and each job of a lane is
//! drawn from, slot by slot.
//!
//! A run of `k` jobs is laid out as `2k + 1` items: a leg, then each job
//! followed by a leg. Legs are not stored; they are made here from the jobs
//! on either side.

use vstd::prelude::*;
use vstd::string::StringExecFns;
use crate::animation_strategy::{classes_of, get_classes, push_active, push_base, Strategy};
use crate::position::{job_slot, left_seq_of, Position};
use crate::schedule::{Job, Location};
use crate::text::{decimal, decimal_string};

verus! {

/// What a job is drawn from.
#[derive(Clone, Debug, PartialEq)]
pub struct JobProps {
    pub pos: Position,
    pub label: String,
    pub color: String,
    pub pushed: bool,
    pub pull: bool,
    pub animation_strategy: Strategy,
}

/// What a leg is drawn from. `ends` holds the locations of the two jobs
/// that an inner leg lies between, from which its duration follows; a leg
/// at either end of a run has none and a fixed duration.
#[derive(Clone, Debug, PartialEq)]
pub struct LegProps {
    pub pos: Position,
    pub color: String,
    pub ends: Option<(Location, Location)>,
    pub stretched: bool,
    pub pushed: bool,
    pub animation_strategy: Strategy,
}

/// What a run is drawn from.
#[derive(Clone, Debug, PartialEq)]
pub struct RunProps {
    pub run_idx: usize,
    pub jobs: Vec<Job>,
    pub color: String,
    pub start_time: usize,
    pub end_time: usize,
    pub animation_strategy: Strategy,
}

/// One item of the interleaved view.
#[derive(Clone, Debug, PartialEq)]
pub enum RunItem {
    Leg(LegProps),
    Job(JobProps),
}

/// The element id of the item in a slot.
pub open spec fn item_id_of(pos: Position) -> Seq<char> {
    "item-run"@ + decimal(pos.run_idx as nat) + "-seq"@ + decimal(pos.item_idx as nat)
}

/// The element id of a run.
pub open spec fn run_id_of(run_idx: usize) -> Seq<char> {
    "run"@ + decimal(run_idx as nat)
}

/// The class of a job.
pub open spec fn job_class_of(push: bool, strategy: Strategy) -> Seq<char> {
    let technique = strategy.techniques().1;
    "job"@ + push_base(technique) + if push {
        push_active(technique)
    } else {
        ""@
    }
}

/// The class of a leg. A leg that is both stretched and pushed shows as
/// stretched.
pub open spec fn leg_class_of(stretch: bool, push: bool, strategy: Strategy) -> Seq<char> {
    "leg"@ + classes_of(strategy).0 + if stretch {
        classes_of(strategy).1
    } else if push {
        classes_of(strategy).2
    } else {
        ""@
    }
}

/// The id of the element drawn for the item in slot `pos`. It follows the
/// slot, not the item: after a move the same id may name another item.
pub fn make_item_id(pos: &Position) -> (id: String)
    ensures
        id@ == item_id_of(*pos),
{
    let run = decimal_string(pos.run_idx);
    let item = decimal_string(pos.item_idx);
    String::from_str("item-run").concat(run.as_str()).concat("-seq").concat(item.as_str())
}

/// The id of the element drawn for a run.
pub fn make_run_id(run_idx: usize) -> (id: String)
    ensures
        id@ == run_id_of(run_idx),
{
    let run = decimal_string(run_idx);
    String::from_str("run").concat(run.as_str())
}

/// The class of a job under a strategy, pushed or not.
pub fn job_class(push: bool, strategy: Strategy) -> (class: String)
    ensures
        class@ == job_class_of(push, strategy),
{
    let (_, push_approach) = strategy.parts();
    let (push_base, pushed) = push_approach.push_classes();
    String::from_str("job").concat(push_base.as_str()).concat(
        if push {
            pushed.as_str()
        } else {
            ""
        },
    )
}

/// The class of a leg under a strategy, from its two flags.
pub fn leg_class(stretch: bool, push: bool, strategy: Strategy) -> (class: String)
    ensures
        class@ == leg_class_of(stretch, push, strategy),
{
    let (base, stretched, pushed) = get_classes(strategy);
    String::from_str("leg").concat(base.as_str()).concat(
        if stretch {
            stretched.as_str()
        } else if push {
            pushed.as_str()
        } else {
            ""
        },
    )
}

/// Style declarations written one after another, with `"; "` between them.
pub open spec fn style_of(styles: Seq<&str>) -> Seq<char>
    decreases styles.len(),
{
    if styles.len() == 0 {
        Seq::empty()
    } else if styles.len() == 1 {
        styles[0]@
    } else {
        style_of(styles.drop_last()) + "; "@ + styles.last()@
    }
}

/// The outline that frames a job in its colour.
pub fn border(color: &str) -> (style: String)
    ensures
        style@ == "outline: solid 5px "@ + color@ + "; outline-offset: -5px"@,
{
    String::from_str("outline: solid 5px ").concat(color).concat("; outline-offset: -5px")
}

/// The background that fills a run with its colour.
pub fn bg(color: &str) -> (style: String)
    ensures
        style@ == "background-color: "@ + color@,
{
    String::from_str("background-color: ").concat(color)
}

/// The width of an item in pixels.
pub fn width_px(width: u32) -> (style: String)
    ensures
        style@ == "width: "@ + decimal(width as nat) + "px"@,
{
    let pixels = decimal_string(width as usize);
    String::from_str("width: ").concat(pixels.as_str()).concat("px")
}

/// Joins style declarations into the style text of an element.
pub fn to_style(styles: Vec<&str>) -> (style: String)
    ensures
        style@ == style_of(styles@),
{
    let mut style = String::new();
    let mut i: usize = 0;
    while i < styles.len()
        invariant
            i <= styles.len(),
            style@ == style_of(styles@.take(i as int)),
        decreases styles.len() - i,
    {
        if i > 0 {
            style.append("; ");
        }
        style.append(styles[i]);
        proof {
            let now = styles@.take(i + 1);
            assert(now.drop_last() =~= styles@.take(i as int));
            assert(now.last() == styles@[i as int]);
            assert(style@ =~= style_of(now));
        }
        i += 1;
    }
    assert(styles@.take(styles.len() as int) =~= styles@);
    style
}

impl RunProps {
    /// Whether every slot of the run has an index that fits the machine.
    pub open spec fn fits(&self) -> bool {
        2 * self.jobs@.len() + 1 <= usize::MAX
    }

    /// The job with sequence number `k`, as it is drawn.
    pub open spec fn job_item(&self, k: int) -> JobProps {
        JobProps {
            pos: Position { run_idx: self.run_idx, item_idx: job_slot(k) as usize },
            label: self.jobs@[k].uid,
            color: self.jobs@[k].color,
            pushed: self.jobs@[k].pushed,
            pull: self.jobs@[k].pull,
            animation_strategy: self.animation_strategy,
        }
    }

    /// The leg left of the job with sequence number `k`, as it is drawn;
    /// with `k` the number of jobs, the closing leg.
    ///
    /// A leg stretches when the job right of it is pushed and the job left
    /// of it, if there is one, is not. It is pushed along when the job left
    /// of it is.
    pub open spec fn leg_item(&self, k: int) -> LegProps {
        let jobs = self.jobs@;
        LegProps {
            pos: Position { run_idx: self.run_idx, item_idx: (2 * k) as usize },
            color: self.color,
            ends: if 0 < k < jobs.len() {
                Some((jobs[k - 1].location, jobs[k].location))
            } else {
                None
            },
            stretched: k < jobs.len() && jobs[k].pushed && !(0 < k && jobs[k - 1].pushed),
            pushed: 0 < k && jobs[k - 1].pushed,
            animation_strategy: self.animation_strategy,
        }
    }

    /// The length of the run's time window in minutes, which gives the lane
    /// its width.
    pub fn day_length(&self) -> (minutes: usize)
        requires
            self.start_time <= self.end_time,
        ensures
            minutes == self.end_time - self.start_time,
    {
        self.end_time - self.start_time
    }

    /// The item in slot `i`.
    pub open spec fn item(&self, i: int) -> RunItem {
        if i % 2 == 0 {
            RunItem::Leg(self.leg_item(i / 2))
        } else {
            RunItem::Job(self.job_item((i - 1) / 2))
        }
    }

    /// The interleaved view: a leg, then each job followed by a leg.
    pub open spec fn interleaved(&self) -> Seq<RunItem> {
        Seq::new(2 * self.jobs@.len() + 1, |i: int| self.item(i))
    }
}

fn render_job(pos: Position, job: &Job, run_props: &RunProps) -> (props: JobProps)
    ensures
        props == (JobProps {
            pos,
            label: job.uid,
            color: job.color,
            pushed: job.pushed,
            pull: job.pull,
            animation_strategy: run_props.animation_strategy,
        }),
{
    JobProps {
        pos,
        label: job.uid.clone(),
        color: job.color.clone(),
        pushed: job.pushed,
        pull: job.pull,
        animation_strategy: run_props.animation_strategy,
    }
}

fn render_leg(
    pos: Position,
    ends: Option<(Location, Location)>,
    stretched: bool,
    pushed: bool,
    run_props: &RunProps,
) -> (props: LegProps)
    ensures
        props == (LegProps {
            pos,
            color: run_props.color,
            ends,
            stretched,
            pushed,
            animation_strategy: run_props.animation_strategy,
        }),
{
    LegProps {
        pos,
        color: run_props.color.clone(),
        ends,
        stretched,
        pushed,
        animation_strategy: run_props.animation_strategy,
    }
}

/// Lays a run out as its interleaved view.
pub fn construct_run_elements(run_props: &RunProps) -> (items: Vec<RunItem>)
    requires
        run_props.fits(),
    ensures
        items@ == run_props.interleaved(),
{
    let mut items: Vec<RunItem> = Vec::new();
    let run_idx = run_props.run_idx;
    let n = run_props.jobs.len();

    let stretched = n > 0 && run_props.jobs[0].pushed;
    let first_leg = render_leg(Position { run_idx, item_idx: 0 }, None, stretched, false, run_props);
    items.push(RunItem::Leg(first_leg));

    let mut seq: usize = 0;
    while seq < n
        invariant
            run_props.fits(),
            n == run_props.jobs@.len(),
            run_idx == run_props.run_idx,
            seq <= n,
            items@.len() == 2 * seq + 1,
            forall|i: int| 0 <= i < items@.len() ==> items@[i] == run_props.item(i),
        decreases n - seq,
    {
        let job = &run_props.jobs[seq];
        let pos = Position { run_idx, item_idx: 2 * seq + 1 };
        items.push(RunItem::Job(render_job(pos, job, run_props)));

        let pos = Position { run_idx, item_idx: 2 * seq + 2 };
        let leg = if seq + 1 < n {
            let next = &run_props.jobs[seq + 1];
            let stretched = next.pushed && !job.pushed;
            render_leg(pos, Some((job.location, next.location)), stretched, job.pushed, run_props)
        } else {
            render_leg(pos, None, false, job.pushed, run_props)
        };
        items.push(RunItem::Leg(leg));
        seq += 1;
    }
    assert(items@ =~= run_props.interleaved());
    items
}

/// The interleaved view of every run alternates: it starts and ends with a
/// leg, a leg stands in each even slot and a job in each odd one, and the
/// jobs are as many as half the items less one. The job with sequence number
/// `k` stands in the slot whose left job is `k`. This holds of whatever job
/// list a run has, and so of every run after any moves.
pub proof fn lemma_interleaved_alternates(run_props: RunProps)
    ensures
        run_props.interleaved().len() == 2 * run_props.jobs@.len() + 1,
        run_props.jobs@.len() == (run_props.interleaved().len() - 1) / 2,
        run_props.interleaved().first() is Leg,
        run_props.interleaved().last() is Leg,
        forall|i: int|
            0 <= i < run_props.interleaved().len() ==> (#[trigger] run_props.interleaved()[i] is Leg
                <==> i % 2 == 0),
        forall|i: int|
            0 <= i < run_props.interleaved().len() ==> (#[trigger] run_props.interleaved()[i] is Job
                <==> i % 2 == 1),
        forall|k: int|
            0 <= k < run_props.jobs@.len() ==> {
                &&& left_seq_of(job_slot(k)) == Some(k)
                &&& #[trigger] run_props.interleaved()[job_slot(k)] == RunItem::Job(
                    run_props.job_item(k),
                )
            },
{
}

} // verus!
