//! Vote upsert semantics and score computation, on the store directly.

use babibapp::store::Store;

#[test]
fn upvote_twice_leaves_one_row() {
    let mut store = Store::new();
    store.set_student_comment_vote(1, 10, true).unwrap();
    assert_eq!(store.student_comment_votes.len(), 1);
    store.set_student_comment_vote(1, 10, true).unwrap();
    assert_eq!(store.student_comment_votes.len(), 1);
    assert!(store.student_comment_votes[0].upvote);
    assert_eq!(store.student_comment_votes[0].comment_id, 1);
    assert_eq!(store.student_comment_votes[0].student_id, 10);
}

#[test]
fn downvote_after_upvote_flips_in_place() {
    let mut store = Store::new();
    let first = store.set_student_comment_vote(1, 10, true).unwrap();
    let second = store.set_student_comment_vote(1, 10, false).unwrap();
    assert_eq!(store.student_comment_votes.len(), 1);
    assert_eq!(first.id, second.id);
    assert!(!store.student_comment_votes[0].upvote);
}

#[test]
fn unvote_removes_the_row() {
    let mut store = Store::new();
    store.set_student_comment_vote(1, 10, true).unwrap();
    let removed = store.unvote_student_comment(1, 10);
    assert!(removed.is_some());
    assert_eq!(store.student_comment_votes.len(), 0);
}

#[test]
fn unvote_without_a_vote_is_a_distinct_no_op() {
    let mut store = Store::new();
    store.set_student_comment_vote(1, 10, true).unwrap();
    let missing = store.unvote_student_comment(1, 11);
    assert!(missing.is_none());
    assert_eq!(store.student_comment_votes.len(), 1);
    let removed = store.unvote_student_comment(1, 10);
    assert!(removed.is_some());
    assert!(store.unvote_student_comment(1, 10).is_none());
}

#[test]
fn distinct_voters_get_distinct_rows() {
    let mut store = Store::new();
    store.set_student_comment_vote(1, 10, true).unwrap();
    store.set_student_comment_vote(1, 11, true).unwrap();
    store.set_student_comment_vote(2, 10, false).unwrap();
    assert_eq!(store.student_comment_votes.len(), 3);
}

#[test]
fn score_is_upvotes_minus_downvotes() {
    let mut store = Store::new();
    store.set_student_comment_vote(5, 1, true).unwrap();
    store.set_student_comment_vote(5, 2, true).unwrap();
    store.set_student_comment_vote(5, 3, true).unwrap();
    store.set_student_comment_vote(5, 4, false).unwrap();
    store.set_student_comment_vote(6, 1, false).unwrap();
    assert_eq!(store.student_comment_score(5), 2);
    assert_eq!(store.student_comment_score(6), -1);
}

#[test]
fn score_of_an_unvoted_comment_is_zero() {
    let store = Store::new();
    assert_eq!(store.student_comment_score(1), 0);
    let mut store = Store::new();
    store.set_student_comment_vote(7, 1, true).unwrap();
    assert_eq!(store.student_comment_score(8), 0);
}

#[test]
fn flipping_changes_the_score() {
    let mut store = Store::new();
    store.set_student_comment_vote(5, 1, true).unwrap();
    assert_eq!(store.student_comment_score(5), 1);
    store.set_student_comment_vote(5, 1, false).unwrap();
    assert_eq!(store.student_comment_score(5), -1);
    store.unvote_student_comment(5, 1);
    assert_eq!(store.student_comment_score(5), 0);
}

#[test]
fn teacher_comment_votes_behave_the_same() {
    let mut store = Store::new();
    store.set_teacher_comment_vote(1, 10, true).unwrap();
    store.set_teacher_comment_vote(1, 10, true).unwrap();
    assert_eq!(store.teacher_comment_votes.len(), 1);
    store.set_teacher_comment_vote(1, 11, false).unwrap();
    assert_eq!(store.teacher_comment_score(1), 0);
    store.unvote_teacher_comment(1, 11);
    assert_eq!(store.teacher_comment_score(1), 1);
    assert!(store.unvote_teacher_comment(1, 11).is_none());
}
