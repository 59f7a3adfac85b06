use timeline::position::Position;

#[test]
fn new_keeps_both_indices() {
    let pos = Position::new(3, 8);
    assert_eq!(pos.run_idx, 3);
    assert_eq!(pos.item_idx, 8);
    assert_eq!(pos, Position { run_idx: 3, item_idx: 8 });
}

#[test]
fn leading_slot_has_no_left_job() {
    for run in 0..10 {
        assert_eq!(Position::new(run, 0).left_job_seq(), None);
        assert!(Position::new(run, 0).is_leg());
    }
}

#[test]
fn left_job_seq_of_the_first_slots() {
    assert_eq!(Position::new(0, 1).left_job_seq(), Some(0));
    assert_eq!(Position::new(0, 2).left_job_seq(), Some(0));
    assert_eq!(Position::new(0, 3).left_job_seq(), Some(1));
    assert_eq!(Position::new(0, 4).left_job_seq(), Some(1));
    assert_eq!(Position::new(0, 5).left_job_seq(), Some(2));
    assert_eq!(Position::new(7, 6).left_job_seq(), Some(2));
}

#[test]
fn job_slot_round_trip() {
    for run in 0..4 {
        for s in 0..200usize {
            let pos = Position::new(run, 2 * s + 1);
            assert_eq!(pos.left_job_seq(), Some(s));
            assert!(!pos.is_leg());
        }
    }
}

#[test]
fn round_trip_at_the_largest_slot() {
    let s = (usize::MAX - 1) / 2;
    assert_eq!(Position::new(0, 2 * s + 1).left_job_seq(), Some(s));
    assert_eq!(Position::new(0, usize::MAX).left_job_seq(), Some(s));
}

#[test]
fn legs_stand_in_even_slots() {
    for i in 0..50usize {
        assert_eq!(Position::new(0, i).is_leg(), i % 2 == 0);
    }
}

#[test]
fn a_leg_and_the_job_left_of_it_share_the_left_job() {
    for s in 0..50usize {
        assert_eq!(
            Position::new(1, 2 * s + 1).left_job_seq(),
            Position::new(1, 2 * s + 2).left_job_seq()
        );
    }
}
