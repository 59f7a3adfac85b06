use timeline::animation_strategy::Strategy;
use timeline::dnd::move_job;
use timeline::line_components::{
    bg, border, construct_run_elements, make_item_id, make_run_id, to_style, width_px, JobProps,
    LegProps, RunItem, RunProps,
};
use timeline::position::Position;
use timeline::schedule::{AppState, Job, Location, Run};

fn spot(k: u32) -> Location {
    Location { lat_bits: k, lon_bits: 2 * k }
}

fn job(k: u32, pushed: bool) -> Job {
    Job {
        uid: format!("job{}", k),
        color: format!("#00000{}", k),
        location: spot(k),
        pushed,
        pull: !pushed,
    }
}

fn props(run_idx: usize, pushed: &[bool]) -> RunProps {
    RunProps {
        run_idx,
        jobs: pushed.iter().enumerate().map(|(k, p)| job(k as u32, *p)).collect(),
        color: "#488A99".to_string(),
        start_time: 0,
        end_time: 180,
        animation_strategy: Strategy::ScaleAndSlide,
    }
}

fn leg(
    run_idx: usize,
    item_idx: usize,
    ends: Option<(u32, u32)>,
    stretched: bool,
    pushed: bool,
) -> RunItem {
    RunItem::Leg(LegProps {
        pos: Position::new(run_idx, item_idx),
        color: "#488A99".to_string(),
        ends: ends.map(|(a, b)| (spot(a), spot(b))),
        stretched,
        pushed,
        animation_strategy: Strategy::ScaleAndSlide,
    })
}

fn job_item(run_idx: usize, item_idx: usize, k: u32, pushed: bool) -> RunItem {
    RunItem::Job(JobProps {
        pos: Position::new(run_idx, item_idx),
        label: format!("job{}", k),
        color: format!("#00000{}", k),
        pushed,
        pull: !pushed,
        animation_strategy: Strategy::ScaleAndSlide,
    })
}

fn alternates(items: &[RunItem], run_idx: usize, jobs: usize) {
    assert_eq!(items.len(), 2 * jobs + 1);
    assert_eq!(jobs, (items.len() - 1) / 2);
    for (i, item) in items.iter().enumerate() {
        match item {
            RunItem::Leg(leg) => {
                assert_eq!(i % 2, 0);
                assert_eq!(leg.pos, Position::new(run_idx, i));
                assert!(leg.pos.is_leg());
            }
            RunItem::Job(job) => {
                assert_eq!(i % 2, 1);
                assert_eq!(job.pos, Position::new(run_idx, i));
                assert_eq!(job.pos.left_job_seq(), Some((i - 1) / 2));
            }
        }
    }
}

#[test]
fn an_empty_run_is_one_leg() {
    let items = construct_run_elements(&props(2, &[]));
    assert_eq!(items, [leg(2, 0, None, false, false)]);
}

#[test]
fn a_run_of_one_job() {
    let items = construct_run_elements(&props(0, &[false]));
    assert_eq!(
        items,
        [leg(0, 0, None, false, false), job_item(0, 1, 0, false), leg(0, 2, None, false, false)]
    );
}

#[test]
fn a_run_at_rest() {
    let items = construct_run_elements(&props(1, &[false, false, false]));
    assert_eq!(
        items,
        [
            leg(1, 0, None, false, false),
            job_item(1, 1, 0, false),
            leg(1, 2, Some((0, 1)), false, false),
            job_item(1, 3, 1, false),
            leg(1, 4, Some((1, 2)), false, false),
            job_item(1, 5, 2, false),
            leg(1, 6, None, false, false),
        ]
    );
}

#[test]
fn the_leg_before_the_first_pushed_job_stretches() {
    let items = construct_run_elements(&props(0, &[false, true, true]));
    assert_eq!(
        items,
        [
            leg(0, 0, None, false, false),
            job_item(0, 1, 0, false),
            leg(0, 2, Some((0, 1)), true, false),
            job_item(0, 3, 1, true),
            leg(0, 4, Some((1, 2)), false, true),
            job_item(0, 5, 2, true),
            leg(0, 6, None, false, true),
        ]
    );
}

#[test]
fn the_leading_leg_stretches_when_every_job_is_pushed() {
    let items = construct_run_elements(&props(0, &[true, true]));
    assert_eq!(
        items,
        [
            leg(0, 0, None, true, false),
            job_item(0, 1, 0, true),
            leg(0, 2, Some((0, 1)), false, true),
            job_item(0, 3, 1, true),
            leg(0, 4, None, false, true),
        ]
    );
}

#[test]
fn the_view_alternates_for_every_length() {
    for jobs in 0..12usize {
        let pushed: Vec<bool> = (0..jobs).map(|k| k % 3 == 1).collect();
        let items = construct_run_elements(&props(4, &pushed));
        alternates(&items, 4, jobs);
        assert!(matches!(items.first(), Some(RunItem::Leg(_))));
        assert!(matches!(items.last(), Some(RunItem::Leg(_))));
    }
}

#[test]
fn the_view_alternates_after_moves() {
    let mut state = AppState {
        runs: (0..3usize)
            .map(|r| Run {
                jobs: (0..(r as u32 + 1)).map(|k| job(k, false)).collect(),
                color: "#488A99".to_string(),
                start_time: 0,
                end_time: 180,
            })
            .collect(),
        animation_strategy: Strategy::ScaleAndSlide,
    };
    let moves = [((2, 5), (0, 0)), ((0, 1), (1, 4)), ((1, 3), (1, 0)), ((2, 1), (0, 2))];
    for ((from_run, from_item), (to_run, to_item)) in moves {
        move_job(Position::new(from_run, from_item), Position::new(to_run, to_item), &mut state);
        for (run_idx, run) in state.runs.iter().enumerate() {
            let run_props = RunProps {
                run_idx,
                jobs: run.jobs.clone(),
                color: run.color.clone(),
                start_time: run.start_time,
                end_time: run.end_time,
                animation_strategy: state.animation_strategy,
            };
            alternates(&construct_run_elements(&run_props), run_idx, run.jobs.len());
        }
    }
    let lens: Vec<usize> = state.runs.iter().map(|run| run.jobs.len()).collect();
    assert_eq!(lens.iter().sum::<usize>(), 6);
}

#[test]
fn item_ids_follow_the_slot() {
    assert_eq!(make_item_id(&Position::new(0, 0)), "item-run0-seq0");
    assert_eq!(make_item_id(&Position::new(1, 12)), "item-run1-seq12");
    assert_eq!(make_item_id(&Position::new(305, 7)), "item-run305-seq7");
}

#[test]
fn run_ids() {
    assert_eq!(make_run_id(0), "run0");
    assert_eq!(make_run_id(9), "run9");
    assert_eq!(make_run_id(10), "run10");
    assert_eq!(make_run_id(4096), "run4096");
}

#[test]
fn day_length_is_the_width_of_the_window() {
    let mut run_props = props(0, &[false]);
    assert_eq!(run_props.day_length(), 180);
    run_props.start_time = 45;
    assert_eq!(run_props.day_length(), 135);
    run_props.end_time = 45;
    assert_eq!(run_props.day_length(), 0);
}

#[test]
fn border_frames_in_the_color() {
    assert_eq!(border("#488A99"), "outline: solid 5px #488A99; outline-offset: -5px");
    assert_eq!(border(""), "outline: solid 5px ; outline-offset: -5px");
}

#[test]
fn background_in_the_color() {
    assert_eq!(bg("#CE5A57"), "background-color: #CE5A57");
}

#[test]
fn width_in_pixels() {
    assert_eq!(width_px(0), "width: 0px");
    assert_eq!(width_px(25), "width: 25px");
    assert_eq!(width_px(4500), "width: 4500px");
    assert_eq!(width_px(u32::MAX), "width: 4294967295px");
}

#[test]
fn styles_are_joined_by_semicolons() {
    assert_eq!(to_style(vec![]), "");
    assert_eq!(to_style(vec!["width: 25px"]), "width: 25px");
    assert_eq!(
        to_style(vec!["background-color: #CE5A57", "width: 180px"]),
        "background-color: #CE5A57; width: 180px"
    );
    assert_eq!(to_style(vec!["a", "", "b"]), "a; ; b");
    assert_eq!(
        to_style(vec![&border("#488A99"), &width_px(25)]),
        "outline: solid 5px #488A99; outline-offset: -5px; width: 25px"
    );
}
