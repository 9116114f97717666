//! Exercises the quiz engine and the answer commitments.
use financial_golf::QuizError;
use financial_golf::QuizSession;
use financial_golf::compute_hash;

use sha2::Digest;

#[test]
fn commitment_matches_the_real_digest() {
    let expected = hex::encode(sha2::Sha256::digest(b"f1n4nc14Lg0Lf_s4Lt_v11"));
    assert_eq!(compute_hash(1), expected);
    let expected0 = hex::encode(sha2::Sha256::digest(b"f1n4nc14Lg0Lf_s4Lt_v10"));
    assert_eq!(compute_hash(0), expected0);
    let expected12 = hex::encode(sha2::Sha256::digest(b"f1n4nc14Lg0Lf_s4Lt_v112"));
    assert_eq!(compute_hash(12), expected12);
}

#[test]
fn curriculum_has_ten_questions_and_serves_the_first() {
    let q = QuizSession::default();
    assert_eq!(q.questions.len(), 10);
    assert_eq!(q.current_index, 0);
    let r = q.current();
    assert!(!r.is_complete);
    assert_eq!(r.current_number, 1);
    assert_eq!(r.total, 10);
    let question = r.question.expect("a question is due");
    assert_eq!(question.question, "What is an emergency fund?");
    assert_eq!(question.options.len(), 4);
    assert_eq!(question.options[1], "Savings specifically for unexpected expenses");
}

#[test]
fn correct_answers_advance_and_grade_true() {
    let mut q = QuizSession::default();
    let answers = [1usize, 1, 0, 2, 3, 1, 1, 2, 0, 1];
    for (n, answer) in answers.iter().enumerate() {
        assert_eq!(q.current_index, n);
        assert_eq!(q.submit(*answer), Ok(true));
        assert_eq!(q.current_index, n + 1);
    }
    let r = q.current();
    assert!(r.is_complete);
    assert!(r.question.is_none());
    assert_eq!(r.current_number, 10);
    assert_eq!(r.total, 10);
}

#[test]
fn wrong_answer_grades_false_but_advances() {
    let mut q = QuizSession::default();
    assert_eq!(q.submit(0), Ok(false));
    assert_eq!(q.current_index, 1);
}

#[test]
fn out_of_range_selection_is_rejected_unchanged() {
    let mut q = QuizSession::default();
    assert_eq!(q.submit(4), Err(QuizError::OptionOutOfRange));
    assert_eq!(q.current_index, 0);
    assert_eq!(q.submit(usize::MAX), Err(QuizError::OptionOutOfRange));
    assert_eq!(q.current_index, 0);
}

#[test]
fn submitting_past_completion_is_a_false_no_op() {
    let mut q = QuizSession::default();
    for _ in 0..10 {
        q.submit(1).expect("in range");
    }
    assert_eq!(q.current_index, 10);
    assert_eq!(q.submit(1), Ok(false));
    assert_eq!(q.current_index, 10);
}

#[test]
fn reset_serves_the_first_question_verbatim() {
    let mut q = QuizSession::default();
    for _ in 0..10 {
        q.submit(2).expect("in range");
    }
    assert!(q.current().is_complete);
    q.reset();
    assert_eq!(q.current_index, 0);
    let r = q.current();
    assert!(!r.is_complete);
    assert_eq!(r.question.expect("a question is due").question, "What is an emergency fund?");
}
