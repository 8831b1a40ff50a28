//! The quiz aggregate: a `Quiz` with its nested `Question`s and their nested
//! `Answer`s, treated as one consistency unit. Each entity carries an opaque
//! surrogate id assigned at creation; conversational turns never address
//! entities by id, only by natural key (title or text), so the mathematical
//! views of these types omit the id.

use vstd::prelude::*;

verus! {

/// Mathematical view of an [`Answer`]: its text and correctness flag.
pub struct AnswerView {
    pub text: Seq<char>,
    pub is_correct: bool,
}

/// Mathematical view of a [`Question`]: its text and the ordered answers.
pub struct QuestionView {
    pub text: Seq<char>,
    pub answers: Seq<AnswerView>,
}

/// Mathematical view of a [`Quiz`]: title, description, author and the
/// ordered questions.
pub struct QuizView {
    pub title: Seq<char>,
    pub description: Seq<char>,
    pub author: Seq<char>,
    pub questions: Seq<QuestionView>,
}

/// One selectable answer of a question.
#[derive(Debug)]
pub struct Answer {
    pub uuid: u128,
    pub text: String,
    pub is_correct: bool,
}

/// One question of a quiz with its ordered answers.
#[derive(Debug)]
pub struct Question {
    pub uuid: u128,
    pub text: String,
    pub answers: Vec<Answer>,
}

/// A whole quiz: title (unique across the repository), description, author
/// and the ordered questions.
#[derive(Debug)]
pub struct Quiz {
    pub uuid: u128,
    pub title: String,
    pub description: String,
    pub author: String,
    pub questions: Vec<Question>,
}

impl View for Answer {
    type V = AnswerView;

    open spec fn view(&self) -> AnswerView {
        AnswerView { text: self.text@, is_correct: self.is_correct }
    }
}

impl DeepView for Answer {
    type V = AnswerView;

    open spec fn deep_view(&self) -> AnswerView {
        self.view()
    }
}

impl View for Question {
    type V = QuestionView;

    open spec fn view(&self) -> QuestionView {
        QuestionView { text: self.text@, answers: self.answers.deep_view() }
    }
}

impl DeepView for Question {
    type V = QuestionView;

    open spec fn deep_view(&self) -> QuestionView {
        self.view()
    }
}

impl View for Quiz {
    type V = QuizView;

    open spec fn view(&self) -> QuizView {
        QuizView {
            title: self.title@,
            description: self.description@,
            author: self.author@,
            questions: self.questions.deep_view(),
        }
    }
}

impl DeepView for Quiz {
    type V = QuizView;

    open spec fn deep_view(&self) -> QuizView {
        self.view()
    }
}

/// Relies on `uuid::Uuid::new_v4`, which draws a fresh random identifier.
/// The value is random, so nothing is promised of it.
#[verifier::external_body]
fn fresh_uuid() -> u128 {
    uuid::Uuid::new_v4().as_u128()
}

impl Answer {
    /// A new answer with a freshly assigned surrogate id.
    pub fn new(text: String, is_correct: bool) -> (r: Answer)
        ensures
            r@ == (AnswerView { text: text@, is_correct }),
    {
        Answer { uuid: fresh_uuid(), text, is_correct }
    }

    /// Rebuilds an answer from an already stored row, keeping its id.
    pub fn retreive(uuid: u128, text: String, is_correct: bool) -> (r: Answer)
        ensures
            r@ == (AnswerView { text: text@, is_correct }),
            r.uuid == uuid,
    {
        Answer { uuid, text, is_correct }
    }

    pub fn text(&self) -> (r: String)
        ensures
            r@ == self@.text,
    {
        self.text.clone()
    }

    pub fn is_correct(&self) -> (r: bool)
        ensures
            r == self@.is_correct,
    {
        self.is_correct
    }

    pub fn uuid(&self) -> (r: u128)
        ensures
            r == self.uuid,
    {
        self.uuid
    }

    /// A deep copy: same id, same view.
    pub fn duplicate(&self) -> (r: Answer)
        ensures
            r@ == self@,
            r.uuid == self.uuid,
    {
        Answer { uuid: self.uuid, text: self.text.clone(), is_correct: self.is_correct }
    }
}

impl Question {
    /// A new question with a freshly assigned surrogate id.
    pub fn new(text: String, answers: Option<Vec<Answer>>) -> (r: Question)
        ensures
            r@.text == text@,
            r@.answers == match answers {
                Some(a) => a.deep_view(),
                None => Seq::<AnswerView>::empty(),
            },
    {
        match answers {
            Some(a) => Question { uuid: fresh_uuid(), text, answers: a },
            None => {
                let v: Vec<Answer> = Vec::new();
                proof {
                    assert(v.deep_view() =~= Seq::<AnswerView>::empty());
                }
                Question { uuid: fresh_uuid(), text, answers: v }
            },
        }
    }

    /// Rebuilds a question from an already stored row, keeping its id; the
    /// answers are loaded separately and added afterwards.
    pub fn retreive(uuid: u128, text: String) -> (r: Question)
        ensures
            r@.text == text@,
            r@.answers == Seq::<AnswerView>::empty(),
            r.uuid == uuid,
    {
        let v: Vec<Answer> = Vec::new();
        proof {
            assert(v.deep_view() =~= Seq::<AnswerView>::empty());
        }
        Question { uuid, text, answers: v }
    }

    pub fn text(&self) -> (r: String)
        ensures
            r@ == self@.text,
    {
        self.text.clone()
    }

    pub fn answers(&self) -> (r: &Vec<Answer>)
        ensures
            r.deep_view() == self@.answers,
    {
        &self.answers
    }

    pub fn add_answer(&mut self, answer: Answer)
        ensures
            final(self)@.text == old(self)@.text,
            final(self)@.answers == old(self)@.answers.push(answer@),
            final(self).uuid == old(self).uuid,
    {
        self.answers.push(answer);
        proof {
            assert(self@.answers =~= old(self)@.answers.push(self.answers[self.answers.len() - 1]@));
        }
    }

    pub fn uuid(&self) -> (r: u128)
        ensures
            r == self.uuid,
    {
        self.uuid
    }

    /// A deep copy: same ids, same view.
    pub fn duplicate(&self) -> (r: Question)
        ensures
            r@ == self@,
            r.uuid == self.uuid,
    {
        let mut answers: Vec<Answer> = Vec::new();
        let mut i: usize = 0;
        while i < self.answers.len()
            invariant
                i <= self.answers.len(),
                answers@.len() == i as int,
                answers.deep_view() == self.answers.deep_view().take(i as int),
            decreases self.answers.len() - i,
        {
            let a = self.answers[i].duplicate();
            proof {
                assert(a.deep_view() == self.answers.deep_view()[i as int]);
            }
            answers.push(a);
            i = i + 1;
            proof {
                assert forall|j: int| 0 <= j && j < i as int implies answers.deep_view()[j]
                    == self.answers.deep_view().take(i as int)[j] by {
                    assert(answers.deep_view()[j] == answers@[j].deep_view());
                }
                assert(answers.deep_view() =~= self.answers.deep_view().take(i as int));
            }
        }
        proof {
            assert(self.answers.deep_view().take(i as int) =~= self.answers.deep_view());
        }
        let r = Question { uuid: self.uuid, text: self.text.clone(), answers };
        proof {
            assert(r@ =~= self@);
        }
        r
    }
}

impl Quiz {
    /// A new quiz with a freshly assigned surrogate id.
    pub fn new(title: String, description: String, author: String, questions: Option<
        Vec<Question>,
    >) -> (r: Quiz)
        ensures
            r@.title == title@,
            r@.description == description@,
            r@.author == author@,
            r@.questions == match questions {
                Some(q) => q.deep_view(),
                None => Seq::<QuestionView>::empty(),
            },
    {
        match questions {
            Some(q) => Quiz { uuid: fresh_uuid(), title, description, author, questions: q },
            None => {
                let v: Vec<Question> = Vec::new();
                proof {
                    assert(v.deep_view() =~= Seq::<QuestionView>::empty());
                }
                Quiz { uuid: fresh_uuid(), title, description, author, questions: v }
            },
        }
    }

    /// Rebuilds a quiz from an already stored row, keeping its id; the
    /// questions are loaded separately and added afterwards.
    pub fn retreive(uuid: u128, title: String, description: String, author: String) -> (r: Quiz)
        ensures
            r@.title == title@,
            r@.description == description@,
            r@.author == author@,
            r@.questions == Seq::<QuestionView>::empty(),
            r.uuid == uuid,
    {
        let v: Vec<Question> = Vec::new();
        proof {
            assert(v.deep_view() =~= Seq::<QuestionView>::empty());
        }
        Quiz { uuid, title, description, author, questions: v }
    }

    pub fn uuid(&self) -> (r: u128)
        ensures
            r == self.uuid,
    {
        self.uuid
    }

    pub fn title(&self) -> (r: &String)
        ensures
            r@ == self@.title,
    {
        &self.title
    }

    pub fn description(&self) -> (r: &String)
        ensures
            r@ == self@.description,
    {
        &self.description
    }

    pub fn author(&self) -> (r: &String)
        ensures
            r@ == self@.author,
    {
        &self.author
    }

    pub fn questions(&self) -> (r: &Vec<Question>)
        ensures
            r.deep_view() == self@.questions,
    {
        &self.questions
    }

    pub fn add_question(&mut self, question: Question)
        ensures
            final(self)@.title == old(self)@.title,
            final(self)@.description == old(self)@.description,
            final(self)@.author == old(self)@.author,
            final(self)@.questions == old(self)@.questions.push(question@),
            final(self).uuid == old(self).uuid,
    {
        self.questions.push(question);
        proof {
            assert(self@.questions =~= old(self)@.questions.push(
                self.questions[self.questions.len() - 1]@,
            ));
        }
    }

    /// A deep copy: same ids, same view.
    pub fn duplicate(&self) -> (r: Quiz)
        ensures
            r@ == self@,
            r.uuid == self.uuid,
    {
        let mut questions: Vec<Question> = Vec::new();
        let mut i: usize = 0;
        while i < self.questions.len()
            invariant
                i <= self.questions.len(),
                questions@.len() == i as int,
                questions.deep_view() == self.questions.deep_view().take(i as int),
            decreases self.questions.len() - i,
        {
            let q = self.questions[i].duplicate();
            proof {
                assert(q.deep_view() == self.questions.deep_view()[i as int]);
            }
            questions.push(q);
            i = i + 1;
            proof {
                assert forall|j: int| 0 <= j && j < i as int implies questions.deep_view()[j]
                    == self.questions.deep_view().take(i as int)[j] by {
                    assert(questions.deep_view()[j] == questions@[j].deep_view());
                }
                assert(questions.deep_view() =~= self.questions.deep_view().take(i as int));
            }
        }
        proof {
            assert(self.questions.deep_view().take(i as int) =~= self.questions.deep_view());
        }
        let r = Quiz {
            uuid: self.uuid,
            title: self.title.clone(),
            description: self.description.clone(),
            author: self.author.clone(),
            questions,
        };
        proof {
            assert(r@ =~= self@);
        }
        r
    }
}

/// A deep copy of an answer list: same ids, same views.
pub fn dup_answers(answers: &Vec<Answer>) -> (r: Vec<Answer>)
    ensures
        r.deep_view() == answers.deep_view(),
{
    let mut out: Vec<Answer> = Vec::new();
    let mut i: usize = 0;
    while i < answers.len()
        invariant
            i <= answers.len(),
            out@.len() == i as int,
            out.deep_view() == answers.deep_view().take(i as int),
        decreases answers.len() - i,
    {
        let a = answers[i].duplicate();
        proof {
            assert(a.deep_view() == answers.deep_view()[i as int]);
        }
        out.push(a);
        i = i + 1;
        proof {
            assert forall|j: int| 0 <= j && j < i as int implies out.deep_view()[j]
                == answers.deep_view().take(i as int)[j] by {
                assert(out.deep_view()[j] == out@[j].deep_view());
            }
            assert(out.deep_view() =~= answers.deep_view().take(i as int));
        }
    }
    proof {
        assert(answers.deep_view().take(i as int) =~= answers.deep_view());
    }
    out
}

/// A deep copy of a question list: same ids, same views.
pub fn dup_questions(questions: &Vec<Question>) -> (r: Vec<Question>)
    ensures
        r.deep_view() == questions.deep_view(),
{
    let mut out: Vec<Question> = Vec::new();
    let mut i: usize = 0;
    while i < questions.len()
        invariant
            i <= questions.len(),
            out@.len() == i as int,
            out.deep_view() == questions.deep_view().take(i as int),
        decreases questions.len() - i,
    {
        let q = questions[i].duplicate();
        proof {
            assert(q.deep_view() == questions.deep_view()[i as int]);
        }
        out.push(q);
        i = i + 1;
        proof {
            assert forall|j: int| 0 <= j && j < i as int implies out.deep_view()[j]
                == questions.deep_view().take(i as int)[j] by {
                assert(out.deep_view()[j] == out@[j].deep_view());
            }
            assert(out.deep_view() =~= questions.deep_view().take(i as int));
        }
    }
    proof {
        assert(questions.deep_view().take(i as int) =~= questions.deep_view());
    }
    out
}

} // verus!
