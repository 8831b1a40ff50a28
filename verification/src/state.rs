//! Per-user dialogue state: which inputs are valid and what happens next.
//! The states group into four families: idle (`Start`), construction of a new
//! quiz, running a quiz, and editing an existing quiz tree. Each variant
//! carries exactly the data its transitions need.

use vstd::prelude::*;

use crate::quiz::Answer;
use crate::quiz::AnswerView;
use crate::quiz::Question;
use crate::quiz::QuestionView;
use crate::quiz::Quiz;
use crate::quiz::QuizView;

verus! {

/// The draft of a quiz under construction, held only in session state. It is
/// threaded through the construction states and committed as one unit at the
/// end; abandoning the construction leaves no partial rows in storage.
#[derive(Debug)]
pub struct QuizData {
    pub quiz_name: String,
    pub description: String,
    pub author: String,
    pub questions: Vec<Question>,
}

/// Mathematical view of a [`QuizData`] draft.
pub struct QuizDataView {
    pub quiz_name: Seq<char>,
    pub description: Seq<char>,
    pub author: Seq<char>,
    pub questions: Seq<QuestionView>,
}

impl View for QuizData {
    type V = QuizDataView;

    open spec fn view(&self) -> QuizDataView {
        QuizDataView {
            quiz_name: self.quiz_name@,
            description: self.description@,
            author: self.author@,
            questions: self.questions.deep_view(),
        }
    }
}

impl DeepView for QuizData {
    type V = QuizDataView;

    open spec fn deep_view(&self) -> QuizDataView {
        self.view()
    }
}

/// The per-user dialogue position.
#[derive(Debug)]
pub enum QuizState {
    /// Idle: initial and terminal; entered on session start, cancel, or
    /// completion of any flow.
    Start,
    /// Construction: waiting for the title of the new quiz.
    ReceiveQuizName,
    /// Construction: title taken, waiting for the description.
    ReceiveQuizDescription { quiz_name: String },
    /// Construction: draft assembled, waiting for the yes/no decision on
    /// adding the first (or another) question.
    ReceiveQuizAuthor { quiz_info: QuizData },
    /// Construction: waiting for the text of a new question.
    ReceiveNewQuestion { quiz_info: QuizData },
    /// Construction: waiting for the text of a new answer.
    ReceiveNewAnswer { quiz_info: QuizData, new_question: String, answers: Vec<Answer> },
    /// Construction: waiting for the yes/no correctness of the pending answer.
    ReceiveAnswerIsCorrect {
        quiz_info: QuizData,
        new_question: String,
        answers: Vec<Answer>,
        new_answer: String,
    },
    /// Construction: waiting for the yes/no decision on adding another answer.
    ReceiveAddAnotherAnswer { quiz_info: QuizData, new_question: String, answers: Vec<Answer> },
    /// Construction: waiting for the yes/no decision on adding another
    /// question.
    ReceiveAddAnotherQuestion { quiz_info: QuizData },
    /// Runner: waiting for the title of the quiz to take.
    Selection,
    /// Runner: quiz loaded, waiting for the yes/no confirmation to begin.
    ReadyToRun { quiz: Quiz, curr_idx: usize },
    /// Runner: traversing the questions and collecting answers.
    Running { quiz: Quiz, curr_idx: usize, score: u32 },
    /// Runner: a finished run.
    Done { score: u32 },
    /// Editor: waiting for the title of the quiz to edit.
    StartSelect,
    /// Editor: a quiz is selected, waiting for the action on it.
    HandleQuiz { quiz_name: String },
    /// Editor: a question is selected, waiting for the action on it.
    HandleQuestion { quiz_name: String, question_name: String },
    /// Editor: waiting for the new quiz title.
    EditName { quiz_name: String },
    /// Editor: waiting for the new quiz description.
    EditDescription { quiz_name: String },
    /// Editor: waiting for the text of the question to add.
    AddQuestion { quiz_name: String },
    /// Editor: question text taken, collecting its answers.
    AddQuestionText { quiz_name: String, text: String, answers: Vec<Answer> },
    /// Editor: waiting for the correctness of a pending answer of an added
    /// question.
    AddQuestionAnswer { quiz_name: String, text: String, answers: Vec<Answer>, new_answer: String },
    /// Editor: correctness taken for the pending answer of an added question.
    AddQuestionCorectness {
        quiz_name: String,
        text: String,
        answers: Vec<Answer>,
        new_answer: String,
        is_correct: bool,
    },
    /// Editor: waiting for the decision on another answer of an added
    /// question.
    AddQuestionReceiveAnotherAnswer { quiz_name: String, text: String, answers: Vec<Answer> },
    /// Editor: waiting for the question to select.
    SelectQuestion { quiz_name: String },
    /// Editor: waiting for the new question text.
    EditQuestionText { quiz_name: String, question_name: String },
    /// Editor: a question marked for deletion.
    DeleteQuestion { quiz_name: String, question_name: String },
    /// Editor: waiting for the text of the answer to add.
    AddAnswer { quiz_name: String, question_name: String },
    /// Editor: answer text taken for an added answer.
    AddAnswerText { quiz_name: String, question_name: String, text: String },
    /// Editor: waiting for the yes/no correctness of the added answer.
    AddAnswerCorrectness { quiz_name: String, question_name: String, text: String },
    /// Editor: waiting for the answer to select.
    SelectAnswer { quiz_name: String, question_name: String },
    /// Editor: an answer is selected, waiting for the action on it.
    HandleAnswer { quiz_name: String, question_name: String, answer_name: String },
    /// Editor: waiting for the new answer text.
    EditAnswerText { quiz_name: String, question_name: String, answer_name: String },
    /// Editor: waiting for the yes/no correctness of the selected answer.
    EditCorectness { quiz_name: String, question_name: String, answer_name: String },
    /// Editor: an answer marked for deletion.
    DeleteAnswer { quiz_name: String, question_name: String, answer_name: String },
}

/// Mathematical view of a [`QuizState`], variant for variant.
pub enum StateView {
    Start,
    ReceiveQuizName,
    ReceiveQuizDescription { quiz_name: Seq<char> },
    ReceiveQuizAuthor { quiz_info: QuizDataView },
    ReceiveNewQuestion { quiz_info: QuizDataView },
    ReceiveNewAnswer { quiz_info: QuizDataView, new_question: Seq<char>, answers: Seq<AnswerView> },
    ReceiveAnswerIsCorrect {
        quiz_info: QuizDataView,
        new_question: Seq<char>,
        answers: Seq<AnswerView>,
        new_answer: Seq<char>,
    },
    ReceiveAddAnotherAnswer {
        quiz_info: QuizDataView,
        new_question: Seq<char>,
        answers: Seq<AnswerView>,
    },
    ReceiveAddAnotherQuestion { quiz_info: QuizDataView },
    Selection,
    ReadyToRun { quiz: QuizView, curr_idx: usize },
    Running { quiz: QuizView, curr_idx: usize, score: u32 },
    Done { score: u32 },
    StartSelect,
    HandleQuiz { quiz_name: Seq<char> },
    HandleQuestion { quiz_name: Seq<char>, question_name: Seq<char> },
    EditName { quiz_name: Seq<char> },
    EditDescription { quiz_name: Seq<char> },
    AddQuestion { quiz_name: Seq<char> },
    AddQuestionText { quiz_name: Seq<char>, text: Seq<char>, answers: Seq<AnswerView> },
    AddQuestionAnswer {
        quiz_name: Seq<char>,
        text: Seq<char>,
        answers: Seq<AnswerView>,
        new_answer: Seq<char>,
    },
    AddQuestionCorectness {
        quiz_name: Seq<char>,
        text: Seq<char>,
        answers: Seq<AnswerView>,
        new_answer: Seq<char>,
        is_correct: bool,
    },
    AddQuestionReceiveAnotherAnswer {
        quiz_name: Seq<char>,
        text: Seq<char>,
        answers: Seq<AnswerView>,
    },
    SelectQuestion { quiz_name: Seq<char> },
    EditQuestionText { quiz_name: Seq<char>, question_name: Seq<char> },
    DeleteQuestion { quiz_name: Seq<char>, question_name: Seq<char> },
    AddAnswer { quiz_name: Seq<char>, question_name: Seq<char> },
    AddAnswerText { quiz_name: Seq<char>, question_name: Seq<char>, text: Seq<char> },
    AddAnswerCorrectness { quiz_name: Seq<char>, question_name: Seq<char>, text: Seq<char> },
    SelectAnswer { quiz_name: Seq<char>, question_name: Seq<char> },
    HandleAnswer { quiz_name: Seq<char>, question_name: Seq<char>, answer_name: Seq<char> },
    EditAnswerText { quiz_name: Seq<char>, question_name: Seq<char>, answer_name: Seq<char> },
    EditCorectness { quiz_name: Seq<char>, question_name: Seq<char>, answer_name: Seq<char> },
    DeleteAnswer { quiz_name: Seq<char>, question_name: Seq<char>, answer_name: Seq<char> },
}

impl View for QuizState {
    type V = StateView;

    open spec fn view(&self) -> StateView {
        match self {
            QuizState::Start => StateView::Start,
            QuizState::ReceiveQuizName => StateView::ReceiveQuizName,
            QuizState::ReceiveQuizDescription { quiz_name } => StateView::ReceiveQuizDescription {
                quiz_name: quiz_name@,
            },
            QuizState::ReceiveQuizAuthor { quiz_info } => StateView::ReceiveQuizAuthor {
                quiz_info: quiz_info@,
            },
            QuizState::ReceiveNewQuestion { quiz_info } => StateView::ReceiveNewQuestion {
                quiz_info: quiz_info@,
            },
            QuizState::ReceiveNewAnswer { quiz_info, new_question, answers } => {
                StateView::ReceiveNewAnswer {
                    quiz_info: quiz_info@,
                    new_question: new_question@,
                    answers: answers.deep_view(),
                }
            },
            QuizState::ReceiveAnswerIsCorrect { quiz_info, new_question, answers, new_answer } => {
                StateView::ReceiveAnswerIsCorrect {
                    quiz_info: quiz_info@,
                    new_question: new_question@,
                    answers: answers.deep_view(),
                    new_answer: new_answer@,
                }
            },
            QuizState::ReceiveAddAnotherAnswer { quiz_info, new_question, answers } => {
                StateView::ReceiveAddAnotherAnswer {
                    quiz_info: quiz_info@,
                    new_question: new_question@,
                    answers: answers.deep_view(),
                }
            },
            QuizState::ReceiveAddAnotherQuestion { quiz_info } => {
                StateView::ReceiveAddAnotherQuestion { quiz_info: quiz_info@ }
            },
            QuizState::Selection => StateView::Selection,
            QuizState::ReadyToRun { quiz, curr_idx } => StateView::ReadyToRun {
                quiz: quiz@,
                curr_idx: *curr_idx,
            },
            QuizState::Running { quiz, curr_idx, score } => StateView::Running {
                quiz: quiz@,
                curr_idx: *curr_idx,
                score: *score,
            },
            QuizState::Done { score } => StateView::Done { score: *score },
            QuizState::StartSelect => StateView::StartSelect,
            QuizState::HandleQuiz { quiz_name } => StateView::HandleQuiz { quiz_name: quiz_name@ },
            QuizState::HandleQuestion { quiz_name, question_name } => StateView::HandleQuestion {
                quiz_name: quiz_name@,
                question_name: question_name@,
            },
            QuizState::EditName { quiz_name } => StateView::EditName { quiz_name: quiz_name@ },
            QuizState::EditDescription { quiz_name } => StateView::EditDescription {
                quiz_name: quiz_name@,
            },
            QuizState::AddQuestion { quiz_name } => StateView::AddQuestion {
                quiz_name: quiz_name@,
            },
            QuizState::AddQuestionText { quiz_name, text, answers } => StateView::AddQuestionText {
                quiz_name: quiz_name@,
                text: text@,
                answers: answers.deep_view(),
            },
            QuizState::AddQuestionAnswer { quiz_name, text, answers, new_answer } => {
                StateView::AddQuestionAnswer {
                    quiz_name: quiz_name@,
                    text: text@,
                    answers: answers.deep_view(),
                    new_answer: new_answer@,
                }
            },
            QuizState::AddQuestionCorectness { quiz_name, text, answers, new_answer, is_correct } => {
                StateView::AddQuestionCorectness {
                    quiz_name: quiz_name@,
                    text: text@,
                    answers: answers.deep_view(),
                    new_answer: new_answer@,
                    is_correct: *is_correct,
                }
            },
            QuizState::AddQuestionReceiveAnotherAnswer { quiz_name, text, answers } => {
                StateView::AddQuestionReceiveAnotherAnswer {
                    quiz_name: quiz_name@,
                    text: text@,
                    answers: answers.deep_view(),
                }
            },
            QuizState::SelectQuestion { quiz_name } => StateView::SelectQuestion {
                quiz_name: quiz_name@,
            },
            QuizState::EditQuestionText { quiz_name, question_name } => {
                StateView::EditQuestionText {
                    quiz_name: quiz_name@,
                    question_name: question_name@,
                }
            },
            QuizState::DeleteQuestion { quiz_name, question_name } => StateView::DeleteQuestion {
                quiz_name: quiz_name@,
                question_name: question_name@,
            },
            QuizState::AddAnswer { quiz_name, question_name } => StateView::AddAnswer {
                quiz_name: quiz_name@,
                question_name: question_name@,
            },
            QuizState::AddAnswerText { quiz_name, question_name, text } => {
                StateView::AddAnswerText {
                    quiz_name: quiz_name@,
                    question_name: question_name@,
                    text: text@,
                }
            },
            QuizState::AddAnswerCorrectness { quiz_name, question_name, text } => {
                StateView::AddAnswerCorrectness {
                    quiz_name: quiz_name@,
                    question_name: question_name@,
                    text: text@,
                }
            },
            QuizState::SelectAnswer { quiz_name, question_name } => StateView::SelectAnswer {
                quiz_name: quiz_name@,
                question_name: question_name@,
            },
            QuizState::HandleAnswer { quiz_name, question_name, answer_name } => {
                StateView::HandleAnswer {
                    quiz_name: quiz_name@,
                    question_name: question_name@,
                    answer_name: answer_name@,
                }
            },
            QuizState::EditAnswerText { quiz_name, question_name, answer_name } => {
                StateView::EditAnswerText {
                    quiz_name: quiz_name@,
                    question_name: question_name@,
                    answer_name: answer_name@,
                }
            },
            QuizState::EditCorectness { quiz_name, question_name, answer_name } => {
                StateView::EditCorectness {
                    quiz_name: quiz_name@,
                    question_name: question_name@,
                    answer_name: answer_name@,
                }
            },
            QuizState::DeleteAnswer { quiz_name, question_name, answer_name } => {
                StateView::DeleteAnswer {
                    quiz_name: quiz_name@,
                    question_name: question_name@,
                    answer_name: answer_name@,
                }
            },
        }
    }
}

impl QuizData {
    /// A deep copy: same view.
    pub fn duplicate(&self) -> (r: QuizData)
        ensures
            r@ == self@,
    {
        QuizData {
            quiz_name: self.quiz_name.clone(),
            description: self.description.clone(),
            author: self.author.clone(),
            questions: crate::quiz::dup_questions(&self.questions),
        }
    }
}

impl QuizState {
    /// A deep copy: same view.
    pub fn duplicate(&self) -> (r: QuizState)
        ensures
            r@ == self@,
    {
        match self {
            QuizState::Start => QuizState::Start,
            QuizState::ReceiveQuizName => QuizState::ReceiveQuizName,
            QuizState::ReceiveQuizDescription { quiz_name } => QuizState::ReceiveQuizDescription {
                quiz_name: quiz_name.clone(),
            },
            QuizState::ReceiveQuizAuthor { quiz_info } => QuizState::ReceiveQuizAuthor {
                quiz_info: quiz_info.duplicate(),
            },
            QuizState::ReceiveNewQuestion { quiz_info } => QuizState::ReceiveNewQuestion {
                quiz_info: quiz_info.duplicate(),
            },
            QuizState::ReceiveNewAnswer { quiz_info, new_question, answers } => {
                QuizState::ReceiveNewAnswer {
                    quiz_info: quiz_info.duplicate(),
                    new_question: new_question.clone(),
                    answers: crate::quiz::dup_answers(answers),
                }
            },
            QuizState::ReceiveAnswerIsCorrect { quiz_info, new_question, answers, new_answer } => {
                QuizState::ReceiveAnswerIsCorrect {
                    quiz_info: quiz_info.duplicate(),
                    new_question: new_question.clone(),
                    answers: crate::quiz::dup_answers(answers),
                    new_answer: new_answer.clone(),
                }
            },
            QuizState::ReceiveAddAnotherAnswer { quiz_info, new_question, answers } => {
                QuizState::ReceiveAddAnotherAnswer {
                    quiz_info: quiz_info.duplicate(),
                    new_question: new_question.clone(),
                    answers: crate::quiz::dup_answers(answers),
                }
            },
            QuizState::ReceiveAddAnotherQuestion { quiz_info } => {
                QuizState::ReceiveAddAnotherQuestion { quiz_info: quiz_info.duplicate() }
            },
            QuizState::Selection => QuizState::Selection,
            QuizState::ReadyToRun { quiz, curr_idx } => QuizState::ReadyToRun {
                quiz: quiz.duplicate(),
                curr_idx: *curr_idx,
            },
            QuizState::Running { quiz, curr_idx, score } => QuizState::Running {
                quiz: quiz.duplicate(),
                curr_idx: *curr_idx,
                score: *score,
            },
            QuizState::Done { score } => QuizState::Done { score: *score },
            QuizState::StartSelect => QuizState::StartSelect,
            QuizState::HandleQuiz { quiz_name } => QuizState::HandleQuiz {
                quiz_name: quiz_name.clone(),
            },
            QuizState::HandleQuestion { quiz_name, question_name } => QuizState::HandleQuestion {
                quiz_name: quiz_name.clone(),
                question_name: question_name.clone(),
            },
            QuizState::EditName { quiz_name } => QuizState::EditName {
                quiz_name: quiz_name.clone(),
            },
            QuizState::EditDescription { quiz_name } => QuizState::EditDescription {
                quiz_name: quiz_name.clone(),
            },
            QuizState::AddQuestion { quiz_name } => QuizState::AddQuestion {
                quiz_name: quiz_name.clone(),
            },
            QuizState::AddQuestionText { quiz_name, text, answers } => {
                QuizState::AddQuestionText {
                    quiz_name: quiz_name.clone(),
                    text: text.clone(),
                    answers: crate::quiz::dup_answers(answers),
                }
            },
            QuizState::AddQuestionAnswer { quiz_name, text, answers, new_answer } => {
                QuizState::AddQuestionAnswer {
                    quiz_name: quiz_name.clone(),
                    text: text.clone(),
                    answers: crate::quiz::dup_answers(answers),
                    new_answer: new_answer.clone(),
                }
            },
            QuizState::AddQuestionCorectness {
                quiz_name,
                text,
                answers,
                new_answer,
                is_correct,
            } => QuizState::AddQuestionCorectness {
                quiz_name: quiz_name.clone(),
                text: text.clone(),
                answers: crate::quiz::dup_answers(answers),
                new_answer: new_answer.clone(),
                is_correct: *is_correct,
            },
            QuizState::AddQuestionReceiveAnotherAnswer { quiz_name, text, answers } => {
                QuizState::AddQuestionReceiveAnotherAnswer {
                    quiz_name: quiz_name.clone(),
                    text: text.clone(),
                    answers: crate::quiz::dup_answers(answers),
                }
            },
            QuizState::SelectQuestion { quiz_name } => QuizState::SelectQuestion {
                quiz_name: quiz_name.clone(),
            },
            QuizState::EditQuestionText { quiz_name, question_name } => {
                QuizState::EditQuestionText {
                    quiz_name: quiz_name.clone(),
                    question_name: question_name.clone(),
                }
            },
            QuizState::DeleteQuestion { quiz_name, question_name } => QuizState::DeleteQuestion {
                quiz_name: quiz_name.clone(),
                question_name: question_name.clone(),
            },
            QuizState::AddAnswer { quiz_name, question_name } => QuizState::AddAnswer {
                quiz_name: quiz_name.clone(),
                question_name: question_name.clone(),
            },
            QuizState::AddAnswerText { quiz_name, question_name, text } => {
                QuizState::AddAnswerText {
                    quiz_name: quiz_name.clone(),
                    question_name: question_name.clone(),
                    text: text.clone(),
                }
            },
            QuizState::AddAnswerCorrectness { quiz_name, question_name, text } => {
                QuizState::AddAnswerCorrectness {
                    quiz_name: quiz_name.clone(),
                    question_name: question_name.clone(),
                    text: text.clone(),
                }
            },
            QuizState::SelectAnswer { quiz_name, question_name } => QuizState::SelectAnswer {
                quiz_name: quiz_name.clone(),
                question_name: question_name.clone(),
            },
            QuizState::HandleAnswer { quiz_name, question_name, answer_name } => {
                QuizState::HandleAnswer {
                    quiz_name: quiz_name.clone(),
                    question_name: question_name.clone(),
                    answer_name: answer_name.clone(),
                }
            },
            QuizState::EditAnswerText { quiz_name, question_name, answer_name } => {
                QuizState::EditAnswerText {
                    quiz_name: quiz_name.clone(),
                    question_name: question_name.clone(),
                    answer_name: answer_name.clone(),
                }
            },
            QuizState::EditCorectness { quiz_name, question_name, answer_name } => {
                QuizState::EditCorectness {
                    quiz_name: quiz_name.clone(),
                    question_name: question_name.clone(),
                    answer_name: answer_name.clone(),
                }
            },
            QuizState::DeleteAnswer { quiz_name, question_name, answer_name } => {
                QuizState::DeleteAnswer {
                    quiz_name: quiz_name.clone(),
                    question_name: question_name.clone(),
                    answer_name: answer_name.clone(),
                }
            },
        }
    }
}

impl Default for QuizState {
    /// A fresh dialogue begins idle.
    fn default() -> (r: QuizState)
        ensures
            r@ == StateView::Start,
    {
        QuizState::Start
    }
}

} // verus!
