//! Quiz progression engine.
//!
//! A session holds a fixed, ordered curriculum and a cursor. Serving
//! a question never mutates; submitting an answer grades it against
//! the question's one-way commitment and advances the cursor whether
//! right or wrong; resetting puts the cursor back to the start. The
//! correct index itself never appears in the session state.
use vstd::prelude::*;

verus! {

use crate::commit::commit_of;
use crate::commit::compute_hash;

/// A question as served to a caller: text and options only, never
/// the commitment.
pub struct QuizQuestion {
    pub question: String,
    pub options: Vec<String>,
}

/// A stored question: text, ordered options, and the commitment of
/// the correct option index.
pub struct Question {
    pub question: String,
    pub options: Vec<String>,
    pub commitment: String,
}

/// The snapshot a quiz operation returns: either the question at the
/// cursor with its position, or a completion signal.
pub struct QuizResponse {
    pub is_complete: bool,
    pub question: Option<QuizQuestion>,
    pub current_number: usize,
    pub total: usize,
}

/// Rejection of a quiz operation; the session is left unchanged.
#[derive(Clone, Copy, PartialEq, Eq, Structural, Debug)]
pub enum QuizError {
    /// The selected option index is not an option of the current
    /// question.
    OptionOutOfRange,
}

/// A quiz session: the fixed curriculum and the cursor.
pub struct QuizSession {
    pub questions: Vec<Question>,
    pub current_index: usize,
}

/// The session a reset leaves behind: the cursor back at the start,
/// the curriculum untouched.
pub open spec fn reset_spec(s: QuizSession) -> QuizSession {
    QuizSession { current_index: 0, ..s }
}

/// The question at the cursor.
pub open spec fn current_question(s: QuizSession) -> Question {
    s.questions@[s.current_index as int]
}

impl QuizSession {
    /// The cursor never passes the end of the curriculum.
    pub open spec fn wf(&self) -> bool {
        self.current_index <= self.questions@.len()
    }

    /// Whether the cursor has reached the end of the curriculum.
    pub open spec fn complete(&self) -> bool {
        self.current_index >= self.questions@.len()
    }

    /// Serve the question at the cursor, or the completion signal;
    /// the session is not mutated.
    pub fn current(&self) -> (r: QuizResponse)
        requires
            self.wf(),
        ensures
            r.total == self.questions@.len(),
            r.is_complete == self.complete(),
            self.complete() ==> r.question is None && r.current_number == self.current_index,
            !self.complete() ==> {
                &&& r.question is Some
                &&& r.current_number == self.current_index + 1
            },
            r.question matches Some(q) ==> {
                &&& q.question@ == current_question(*self).question@
                &&& q.options.deep_view() == current_question(*self).options.deep_view()
            },
    {
        if self.current_index >= self.questions.len() {
            return QuizResponse {
                is_complete: true,
                question: None,
                current_number: self.current_index,
                total: self.questions.len(),
            };
        }
        let q = &self.questions[self.current_index];
        QuizResponse {
            is_complete: false,
            question: Some(QuizQuestion { question: q.question.clone(), options: q.options.clone() }),
            current_number: self.current_index + 1,
            total: self.questions.len(),
        }
    }

    /// Grade a submitted option index against the current question's
    /// commitment, advancing the cursor whether right or wrong.
    /// Submitting past completion is a no-op returning `false`; an
    /// index that is not an option of the current question is
    /// rejected and changes nothing.
    pub fn submit(&mut self, selected: usize) -> (res: Result<bool, QuizError>)
        requires
            old(self).wf(),
        ensures
            final(self).wf(),
            final(self).questions == old(self).questions,
            final(self).current_index >= old(self).current_index,
            old(self).complete() ==> res == Ok::<bool, QuizError>(false) && *final(self) == *old(
                self,
            ),
            !old(self).complete() && selected >= current_question(*old(self)).options@.len()
                ==> res == Err::<bool, QuizError>(QuizError::OptionOutOfRange) && *final(self)
                == *old(self),
            !old(self).complete() && selected < current_question(*old(self)).options@.len() ==> {
                &&& final(self).current_index == old(self).current_index + 1
                &&& res == Ok::<bool, QuizError>(
                    current_question(*old(self)).commitment@ == commit_of(selected as nat),
                )
            },
    {
        if self.current_index >= self.questions.len() {
            return Ok(false);
        }
        let q = &self.questions[self.current_index];
        if selected >= q.options.len() {
            return Err(QuizError::OptionOutOfRange);
        }
        let hashed = compute_hash(selected);
        let correct = hashed == q.commitment;
        self.current_index = self.current_index + 1;
        Ok(correct)
    }

    /// Put the cursor back at the first question; the curriculum is
    /// neither reshuffled nor regenerated.
    pub fn reset(&mut self)
        requires
            old(self).wf(),
        ensures
            final(self).wf(),
            *final(self) == reset_spec(*old(self)),
            final(self).current_index == 0,
            final(self).questions == old(self).questions,
    {
        self.current_index = 0;
    }
}

/// The committed correct option index of each curriculum question.
pub open spec fn curriculum_answer(i: int) -> nat {
    if i == 2 || i == 8 {
        0
    } else if i == 3 || i == 7 {
        2
    } else if i == 4 {
        3
    } else {
        1
    }
}

/// Build a four-option question committing to the given answer index.
fn make_question(text: &str, o0: &str, o1: &str, o2: &str, o3: &str, answer: usize) -> (q: Question)
    ensures
        q.question@ == text@,
        q.options@.len() == 4,
        q.options.deep_view() == seq![o0@, o1@, o2@, o3@],
        q.commitment@ == commit_of(answer as nat),
{
    let mut options: Vec<String> = Vec::new();
    options.push(o0.to_owned());
    options.push(o1.to_owned());
    options.push(o2.to_owned());
    options.push(o3.to_owned());
    proof {
        assert(options.deep_view() =~= seq![o0@, o1@, o2@, o3@]);
    }
    Question { question: text.to_owned(), options, commitment: compute_hash(answer) }
}

impl Default for QuizSession {
    /// The static curriculum: ten four-option questions, each
    /// carrying only the commitment of its correct index, with the
    /// cursor at the start.
    fn default() -> (s: Self)
        ensures
            s.wf(),
            s.current_index == 0,
            s.questions@.len() == 10,
            forall|i: int|
                0 <= i < 10 ==> (#[trigger] s.questions@[i]).commitment@ == commit_of(
                    curriculum_answer(i),
                ),
            forall|i: int| 0 <= i < 10 ==> (#[trigger] s.questions@[i]).options@.len() == 4,
            forall|i: int| 0 <= i < 10 ==> curriculum_answer(i) < 4,
            s.questions@[0].question@ == "What is an emergency fund?"@,
    {
        let mut questions: Vec<Question> = Vec::new();
        questions.push(
            make_question(
                "What is an emergency fund?",
                "Money for buying a new video game",
                "Savings specifically for unexpected expenses",
                "A loan from the bank",
                "Money you invest in the stock market",
                1,
            ),
        );
        questions.push(
            make_question(
                "What does ROI stand for?",
                "Rate of Inflation",
                "Return on Investment",
                "Risk over Income",
                "Ratio of Interest",
                1,
            ),
        );
        questions.push(
            make_question(
                "Which of the following is considered a 'fixed expense'?",
                "Monthly rent",
                "Groceries",
                "Entertainment",
                "Gas for your car",
                0,
            ),
        );
        questions.push(
            make_question(
                "What is compound interest?",
                "Interest you pay on credit cards",
                "Interest calculated only on the initial principal",
                "Interest earned on both the principal and the accumulated interest",
                "A type of tax",
                2,
            ),
        );
        questions.push(
            make_question(
                "What is the purpose of a credit score?",
                "To determine your tax bracket",
                "To show how much money you have in the bank",
                "To track your daily spending",
                "To measure your creditworthiness and likelihood to repay debt",
                3,
            ),
        );
        questions.push(
            make_question(
                "What is a 'bull market'?",
                "A market where prices are falling",
                "A market where prices are rising",
                "A market only for agricultural goods",
                "A market with no trading activity",
                1,
            ),
        );
        questions.push(
            make_question(
                "What does it mean to 'diversify' your investments?",
                "Putting all your money into one successful company",
                "Spreading your money across different types of investments to reduce risk",
                "Only investing in international stocks",
                "Keeping all your money in a savings account",
                1,
            ),
        );
        questions.push(
            make_question(
                "Which asset is generally considered the most 'liquid'?",
                "Real Estate",
                "A 10-year Treasury Bond",
                "Cash in a checking account",
                "Collectibles (like art or trading cards)",
                2,
            ),
        );
        questions.push(
            make_question(
                "What is inflation?",
                "The general increase in prices and fall in the purchasing power of money",
                "When a balloon pops",
                "A sudden increase in your paycheck",
                "The interest paid on savings accounts",
                0,
            ),
        );
        questions.push(
            make_question(
                "What does 'pay yourself first' mean in budgeting?",
                "Buying things you want before paying bills",
                "Setting aside a portion of your income for savings or investing before paying any other expenses",
                "Paying your own salary if you own a business",
                "Taking out a cash advance",
                1,
            ),
        );
        QuizSession { questions, current_index: 0 }
    }
}

/// Reset law: after a reset the cursor is zero, the session is not
/// complete when the curriculum is non-empty, and the question then
/// at the cursor is the first question, text and all.
pub proof fn lemma_reset_then_current(s: QuizSession)
    requires
        s.questions@.len() > 0,
    ensures
        reset_spec(s).current_index == 0,
        !reset_spec(s).complete(),
        current_question(reset_spec(s)) == s.questions@[0],
{
}

} // verus!
