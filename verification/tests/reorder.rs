use timeline::animation_strategy::Strategy;
use timeline::dnd::{is_valid_move, move_job};
use timeline::position::Position;
use timeline::schedule::{AppState, Job, Location, Run};

fn job(uid: &str) -> Job {
    Job {
        uid: uid.to_string(),
        color: "#C9A66B".to_string(),
        location: Location { lat_bits: 1, lon_bits: 2 },
        pushed: false,
        pull: false,
    }
}

fn run(uids: &[&str]) -> Run {
    Run {
        jobs: uids.iter().map(|uid| job(uid)).collect(),
        color: "#C9A66B".to_string(),
        start_time: 0,
        end_time: 180,
    }
}

fn state(runs: &[&[&str]]) -> AppState {
    AppState {
        runs: runs.iter().map(|uids| run(uids)).collect(),
        animation_strategy: Strategy::Transform,
    }
}

fn uids(state: &AppState) -> Vec<Vec<String>> {
    state
        .runs
        .iter()
        .map(|run| run.jobs.iter().map(|job| job.uid.clone()).collect())
        .collect()
}

fn expect(state: &AppState, runs: &[&[&str]]) {
    let want: Vec<Vec<String>> =
        runs.iter().map(|uids| uids.iter().map(|uid| uid.to_string()).collect()).collect();
    assert_eq!(uids(state), want);
}

fn job_count(state: &AppState) -> usize {
    state.runs.iter().map(|run| run.jobs.len()).sum()
}

#[test]
fn move_first_job_onto_the_last_in_the_same_run() {
    let mut s = state(&[&["J0", "J1", "J2"]]);
    move_job(Position::new(0, 1), Position::new(0, 5), &mut s);
    expect(&s, &[&["J1", "J2", "J0"]]);
}

#[test]
fn move_into_an_empty_run_at_any_slot() {
    for item_idx in 0..6 {
        let mut s = state(&[&["J0"], &[]]);
        move_job(Position::new(0, 1), Position::new(1, item_idx), &mut s);
        expect(&s, &[&[], &["J0"]]);
    }
}

#[test]
fn move_later_in_the_same_run_onto_a_leg() {
    let mut s = state(&[&["J0", "J1", "J2"]]);
    move_job(Position::new(0, 1), Position::new(0, 4), &mut s);
    expect(&s, &[&["J1", "J0", "J2"]]);

    let mut s = state(&[&["J0", "J1", "J2"]]);
    move_job(Position::new(0, 1), Position::new(0, 6), &mut s);
    expect(&s, &[&["J1", "J2", "J0"]]);
}

#[test]
fn move_onto_a_neighbouring_leg_changes_nothing() {
    let mut s = state(&[&["J0", "J1", "J2"]]);
    move_job(Position::new(0, 3), Position::new(0, 2), &mut s);
    expect(&s, &[&["J0", "J1", "J2"]]);

    let mut s = state(&[&["J0", "J1", "J2"]]);
    move_job(Position::new(0, 3), Position::new(0, 4), &mut s);
    expect(&s, &[&["J0", "J1", "J2"]]);
}

#[test]
fn move_earlier_in_the_same_run() {
    let mut s = state(&[&["J0", "J1", "J2"]]);
    move_job(Position::new(0, 5), Position::new(0, 0), &mut s);
    expect(&s, &[&["J2", "J0", "J1"]]);

    let mut s = state(&[&["J0", "J1", "J2"]]);
    move_job(Position::new(0, 5), Position::new(0, 1), &mut s);
    expect(&s, &[&["J0", "J2", "J1"]]);

    let mut s = state(&[&["J0", "J1", "J2"]]);
    move_job(Position::new(0, 5), Position::new(0, 2), &mut s);
    expect(&s, &[&["J0", "J2", "J1"]]);
}

#[test]
fn move_across_runs_goes_behind_the_left_job() {
    let mut s = state(&[&["A0", "A1"], &["B0", "B1", "B2"]]);
    move_job(Position::new(0, 3), Position::new(1, 3), &mut s);
    expect(&s, &[&["A0"], &["B0", "B1", "A1", "B2"]]);

    let mut s = state(&[&["A0", "A1"], &["B0", "B1", "B2"]]);
    move_job(Position::new(0, 1), Position::new(1, 0), &mut s);
    expect(&s, &[&["A1"], &["A0", "B0", "B1", "B2"]]);

    let mut s = state(&[&["A0", "A1"], &["B0", "B1", "B2"]]);
    move_job(Position::new(0, 1), Position::new(1, 6), &mut s);
    expect(&s, &[&["A1"], &["B0", "B1", "B2", "A0"]]);
}

#[test]
fn move_across_runs_to_an_earlier_run() {
    let mut s = state(&[&["A0", "A1"], &["B0"], &["C0", "C1"]]);
    move_job(Position::new(2, 3), Position::new(0, 2), &mut s);
    expect(&s, &[&["A0", "C1", "A1"], &["B0"], &["C0"]]);
}

#[test]
fn a_leg_slot_as_origin_takes_the_job_left_of_it() {
    let mut s = state(&[&["A0", "A1"], &["B0"]]);
    move_job(Position::new(0, 2), Position::new(1, 0), &mut s);
    expect(&s, &[&["A1"], &["A0", "B0"]]);
}

#[test]
fn move_keeps_the_job_whole() {
    let mut s = state(&[&["A0", "A1"], &["B0"]]);
    s.runs[0].jobs[1].pushed = true;
    s.runs[0].jobs[1].location = Location { lat_bits: 77, lon_bits: 88 };
    s.runs[0].jobs[1].color = "#123456".to_string();
    let carried = s.runs[0].jobs[1].clone();
    move_job(Position::new(0, 3), Position::new(1, 2), &mut s);
    assert_eq!(s.runs[1].jobs[1], carried);
}

#[test]
fn move_keeps_lanes_and_strategy() {
    let mut s = state(&[&["A0", "A1"], &["B0"]]);
    s.runs[1].color = "#488A99".to_string();
    s.runs[1].start_time = 30;
    s.runs[1].end_time = 90;
    move_job(Position::new(0, 1), Position::new(1, 1), &mut s);
    assert_eq!(s.animation_strategy, Strategy::Transform);
    assert_eq!(s.runs.len(), 2);
    assert_eq!(s.runs[0].color, "#C9A66B");
    assert_eq!((s.runs[0].start_time, s.runs[0].end_time), (0, 180));
    assert_eq!(s.runs[1].color, "#488A99");
    assert_eq!((s.runs[1].start_time, s.runs[1].end_time), (30, 90));
}

#[test]
fn move_conserves_the_number_of_jobs() {
    let lists: [&[&str]; 3] = [&["A0", "A1", "A2"], &[], &["C0", "C1"]];
    for from_run in 0..3 {
        for from_seq in 0..lists[from_run].len() {
            for to_run in 0..3 {
                for to_item in 0..(2 * lists[to_run].len() + 1) {
                    let from = Position::new(from_run, 2 * from_seq + 1);
                    let to = Position::new(to_run, to_item);
                    if from == to {
                        continue;
                    }
                    let mut s = state(&lists);
                    assert!(is_valid_move(from, to, &s));
                    move_job(from, to, &mut s);
                    assert_eq!(job_count(&s), 5);
                    let mut all: Vec<String> = uids(&s).into_iter().flatten().collect();
                    all.sort();
                    assert_eq!(all, ["A0", "A1", "A2", "C0", "C1"]);
                }
            }
        }
    }
}

#[test]
fn sequence_of_moves_keeps_every_job() {
    let mut s = state(&[&["A0", "A1", "A2"], &["B0"], &[]]);
    move_job(Position::new(0, 1), Position::new(2, 0), &mut s);
    expect(&s, &[&["A1", "A2"], &["B0"], &["A0"]]);
    move_job(Position::new(1, 1), Position::new(0, 4), &mut s);
    expect(&s, &[&["A1", "A2", "B0"], &[], &["A0"]]);
    move_job(Position::new(0, 5), Position::new(0, 0), &mut s);
    expect(&s, &[&["B0", "A1", "A2"], &[], &["A0"]]);
    move_job(Position::new(2, 1), Position::new(1, 0), &mut s);
    expect(&s, &[&["B0", "A1", "A2"], &["A0"], &[]]);
    assert_eq!(job_count(&s), 4);
}

#[test]
fn valid_moves_are_told_from_invalid_ones() {
    let s = state(&[&["A0", "A1"], &[]]);
    assert!(is_valid_move(Position::new(0, 1), Position::new(0, 3), &s));
    assert!(is_valid_move(Position::new(0, 1), Position::new(1, 9), &s));
    // No job lies left of the leading leg.
    assert!(!is_valid_move(Position::new(0, 0), Position::new(1, 0), &s));
    // No such run.
    assert!(!is_valid_move(Position::new(2, 1), Position::new(0, 0), &s));
    assert!(!is_valid_move(Position::new(0, 1), Position::new(2, 0), &s));
    // No such job.
    assert!(!is_valid_move(Position::new(0, 5), Position::new(1, 0), &s));
    assert!(!is_valid_move(Position::new(1, 1), Position::new(0, 0), &s));
    // The landing index would lie behind the end of the run.
    assert!(!is_valid_move(Position::new(0, 1), Position::new(0, 9), &s));
    assert!(!is_valid_move(Position::new(0, 3), Position::new(0, 3), &s));
}
