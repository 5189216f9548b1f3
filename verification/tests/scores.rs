use coin_in_the_sky::scores::Scores;

#[test]
fn scores_start_at_zero() {
    let scores = Scores::default();
    assert_eq!(scores.end_score, 0);
    assert_eq!(scores.best_score, 0);
    assert!(!scores.new_record);
}

#[test]
fn a_better_score_is_a_new_record() {
    let mut scores = Scores { end_score: 3, best_score: 10, new_record: false };
    scores.register_score(11);
    assert_eq!(scores, Scores { end_score: 11, best_score: 11, new_record: true });
}

#[test]
fn an_equal_score_is_no_record() {
    let mut scores = Scores { end_score: 3, best_score: 10, new_record: true };
    scores.register_score(10);
    assert_eq!(scores, Scores { end_score: 10, best_score: 10, new_record: false });
}

#[test]
fn a_worse_score_leaves_the_best_alone() {
    let mut scores = Scores { end_score: 10, best_score: 10, new_record: true };
    scores.register_score(4);
    assert_eq!(scores, Scores { end_score: 4, best_score: 10, new_record: false });
}

#[test]
fn a_first_score_of_zero_is_no_record() {
    let mut scores = Scores::default();
    scores.register_score(0);
    assert_eq!(scores, Scores { end_score: 0, best_score: 0, new_record: false });
}

#[test]
fn a_negative_score_never_beats_the_start() {
    let mut scores = Scores::default();
    scores.register_score(-5);
    assert_eq!(scores, Scores { end_score: -5, best_score: 0, new_record: false });
}

#[test]
fn the_best_score_is_the_running_maximum() {
    let mut scores = Scores::default();
    let flights = [5, 3, 9, 9, 2, 12, 0, 11];
    let records = [true, false, true, false, false, true, false, false];
    let bests = [5, 5, 9, 9, 9, 12, 12, 12];
    for i in 0..flights.len() {
        scores.register_score(flights[i]);
        assert_eq!(scores.end_score, flights[i]);
        assert_eq!(scores.new_record, records[i]);
        assert_eq!(scores.best_score, bests[i]);
    }
}

#[test]
fn scores_at_the_ends_of_the_range() {
    let mut scores = Scores::default();
    scores.register_score(i32::MAX);
    assert_eq!(scores, Scores { end_score: i32::MAX, best_score: i32::MAX, new_record: true });
    scores.register_score(i32::MIN);
    assert_eq!(scores, Scores { end_score: i32::MIN, best_score: i32::MAX, new_record: false });
}
