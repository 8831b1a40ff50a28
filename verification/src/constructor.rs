//! The construction flow: authoring a new quiz turn by turn. The flow never
//! touches the repository before the final commit; each transition produces a
//! new draft value that threads the accumulating data through the states, so
//! an abandoned construction leaves no partial rows in storage. Each handler
//! is specified against a model function of the same name.

use vstd::prelude::*;

use crate::events::act_send_keep;
use crate::events::act_send_remove;
use crate::events::act_send_rows;
use crate::events::send_keep;
use crate::events::send_remove;
use crate::events::send_rows;
use crate::events::Msg;
use crate::events::MsgView;
use crate::events::Turn;
use crate::events::TurnView;
use crate::keyboard::action_keyboard;
use crate::keyboard::action_labels;
use crate::keyboard::yes_no_keyboard;
use crate::keyboard::yes_no_labels;
use crate::quiz::Answer;
use crate::quiz::AnswerView;
use crate::quiz::Question;
use crate::quiz::QuizView;
use crate::state::QuizData;
use crate::state::QuizDataView;
use crate::state::QuizState;
use crate::state::StateView;
use crate::store::has_quiz;
use crate::store::quiz_wf;
use crate::store::QuizStore;
use crate::tokens::affirmative;
use crate::tokens::is_affirmative;
use crate::tokens::is_negative;
use crate::tokens::negative;

verus! {

/// The aggregate a draft commits as.
pub open spec fn draft_quiz(d: QuizDataView) -> QuizView {
    QuizView {
        title: d.quiz_name,
        description: d.description,
        author: d.author,
        questions: d.questions,
    }
}

/// Collecting the title: a non-empty title that is not yet taken advances to
/// description collection; a taken or empty one re-prompts without advancing.
pub open spec fn model_receive_quiz_description(
    s: Seq<QuizView>,
    chat_id: i64,
    text: Option<Seq<char>>,
) -> TurnView {
    match text {
        Some(title) => if title.len() == 0 {
            TurnView {
                next: StateView::ReceiveQuizName,
                actions: seq![send_keep(chat_id, MsgView::TitleMissing)],
            }
        } else if has_quiz(s, title) {
            TurnView {
                next: StateView::ReceiveQuizName,
                actions: seq![send_keep(chat_id, MsgView::TitleExists)],
            }
        } else {
            TurnView {
                next: StateView::ReceiveQuizDescription { quiz_name: title },
                actions: seq![send_keep(chat_id, MsgView::AskDescription)],
            }
        },
        None => TurnView {
            next: StateView::ReceiveQuizName,
            actions: seq![send_keep(chat_id, MsgView::TitleMissing)],
        },
    }
}

/// Collecting the title (see [`model_receive_quiz_description`]).
pub fn receive_quiz_description(store: &QuizStore, chat_id: i64, text: Option<String>) -> (r: Turn)
    ensures
        r@ == model_receive_quiz_description(store@, chat_id, text.deep_view()),
{
    match text {
        Some(title) => {
            if title.as_str().is_empty() {
                crate::events::turn1(
                    QuizState::ReceiveQuizName,
                    act_send_keep(chat_id, Msg::TitleMissing),
                )
            } else {
                match store.retreive_quiz(title.as_str()) {
                    Some(_) => crate::events::turn1(
                        QuizState::ReceiveQuizName,
                        act_send_keep(chat_id, Msg::TitleExists),
                    ),
                    None => crate::events::turn1(
                        QuizState::ReceiveQuizDescription { quiz_name: title },
                        act_send_keep(chat_id, Msg::AskDescription),
                    ),
                }
            }
        },
        None => crate::events::turn1(
            QuizState::ReceiveQuizName,
            act_send_keep(chat_id, Msg::TitleMissing),
        ),
    }
}

/// Collecting the description: any text completes the draft header (the
/// author is the requesting user) and asks about the first question.
pub open spec fn model_receive_quiz_author(
    chat_id: i64,
    username: Seq<char>,
    quiz_name: Seq<char>,
    text: Option<Seq<char>>,
) -> TurnView {
    match text {
        Some(description) => TurnView {
            next: StateView::ReceiveQuizAuthor {
                quiz_info: QuizDataView {
                    quiz_name: quiz_name,
                    description: description,
                    author: username,
                    questions: Seq::empty(),
                },
            },
            actions: seq![send_rows(chat_id, MsgView::AskFirstQuestion, yes_no_labels())],
        },
        None => TurnView {
            next: StateView::ReceiveQuizDescription { quiz_name },
            actions: seq![send_keep(chat_id, MsgView::DescriptionMissing)],
        },
    }
}

/// Collecting the description (see [`model_receive_quiz_author`]).
pub fn receive_quiz_author(chat_id: i64, username: &String, quiz_name: String, text: Option<
    String,
>) -> (r: Turn)
    ensures
        r@ == model_receive_quiz_author(chat_id, username@, quiz_name@, text.deep_view()),
{
    match text {
        Some(description) => {
            let quiz_info = QuizData {
                quiz_name,
                description,
                author: username.clone(),
                questions: Vec::new(),
            };
            proof {
                assert(quiz_info.questions.deep_view() =~= Seq::<crate::quiz::QuestionView>::empty());
            }
            crate::events::turn1(
                QuizState::ReceiveQuizAuthor { quiz_info },
                act_send_rows(chat_id, Msg::AskFirstQuestion, yes_no_keyboard()),
            )
        },
        None => crate::events::turn1(
            QuizState::ReceiveQuizDescription { quiz_name },
            act_send_keep(chat_id, Msg::DescriptionMissing),
        ),
    }
}

/// Deciding on another question. An affirmative token asks for the question
/// text; a negative one commits the accumulated draft to the repository as
/// one unit — on success the dialogue is idle again, on a conflict the state
/// does not advance; anything else re-prompts without a change. The decision
/// is taken both right after the draft header is assembled and after each
/// sealed question; `another` says which of the two states asked, so that a
/// re-prompt stays exactly where it was.
pub open spec fn model_receive_new_question(
    s: Seq<QuizView>,
    chat_id: i64,
    username: Seq<char>,
    admin: Seq<char>,
    quiz_info: QuizDataView,
    another: bool,
    text: Option<Seq<char>>,
) -> (Seq<QuizView>, TurnView) {
    let stay = if another {
        StateView::ReceiveAddAnotherQuestion { quiz_info }
    } else {
        StateView::ReceiveQuizAuthor { quiz_info }
    };
    match text {
        Some(t) => if is_affirmative(t) {
            (
                s,
                TurnView {
                    next: StateView::ReceiveNewQuestion { quiz_info },
                    actions: seq![send_remove(chat_id, MsgView::AskQuestionText)],
                },
            )
        } else if is_negative(t) {
            if !has_quiz(s, quiz_info.quiz_name) && quiz_wf(draft_quiz(quiz_info)) {
                (
                    s.push(draft_quiz(quiz_info)),
                    TurnView {
                        next: StateView::Start,
                        actions: seq![
                            send_rows(
                                chat_id,
                                MsgView::QuizSaved { title: quiz_info.quiz_name },
                                action_labels(username, admin),
                            ),
                        ],
                    },
                )
            } else {
                (
                    s,
                    TurnView {
                        next: stay,
                        actions: seq![send_keep(chat_id, MsgView::TitleExists)],
                    },
                )
            }
        } else {
            (
                s,
                TurnView {
                    next: stay,
                    actions: seq![send_rows(chat_id, MsgView::InvalidYesNo, yes_no_labels())],
                },
            )
        },
        None => (
            s,
            TurnView {
                next: stay,
                actions: seq![send_rows(chat_id, MsgView::InvalidYesNo, yes_no_labels())],
            },
        ),
    }
}

/// Deciding on another question (see [`model_receive_new_question`]).
pub fn receive_new_question(
    store: &mut QuizStore,
    chat_id: i64,
    username: &String,
    admin: &String,
    quiz_info: QuizData,
    another: bool,
    text: Option<String>,
) -> (r: Turn)
    requires
        old(store).wf(),
    ensures
        final(store).wf(),
        (final(store)@, r@) == model_receive_new_question(
            old(store)@,
            chat_id,
            username@,
            admin@,
            quiz_info@,
            another,
            text.deep_view(),
        ),
{
    let ghost d = quiz_info@;
    match text {
        Some(t) => {
            if affirmative(t.as_str()) {
                crate::events::turn1(
                    QuizState::ReceiveNewQuestion { quiz_info },
                    act_send_remove(chat_id, Msg::AskQuestionText),
                )
            } else if negative(t.as_str()) {
                let name = quiz_info.quiz_name.clone();
                let new_quiz = crate::quiz::Quiz::new(
                    quiz_info.quiz_name.clone(),
                    quiz_info.description.clone(),
                    quiz_info.author.clone(),
                    Some(crate::quiz::dup_questions(&quiz_info.questions)),
                );
                proof {
                    assert(new_quiz@ == draft_quiz(d));
                }
                match store.create_quiz(new_quiz) {
                    Ok(saved) => crate::events::turn1(
                        QuizState::Start,
                        act_send_rows(
                            chat_id,
                            Msg::QuizSaved { title: name },
                            action_keyboard(username.as_str(), admin.as_str()),
                        ),
                    ),
                    Err(_) => {
                        let stay = if another {
                            QuizState::ReceiveAddAnotherQuestion { quiz_info }
                        } else {
                            QuizState::ReceiveQuizAuthor { quiz_info }
                        };
                        crate::events::turn1(stay, act_send_keep(chat_id, Msg::TitleExists))
                    },
                }
            } else {
                let stay = if another {
                    QuizState::ReceiveAddAnotherQuestion { quiz_info }
                } else {
                    QuizState::ReceiveQuizAuthor { quiz_info }
                };
                crate::events::turn1(
                    stay,
                    act_send_rows(chat_id, Msg::InvalidYesNo, yes_no_keyboard()),
                )
            }
        },
        None => {
            let stay = if another {
                QuizState::ReceiveAddAnotherQuestion { quiz_info }
            } else {
                QuizState::ReceiveQuizAuthor { quiz_info }
            };
            crate::events::turn1(stay, act_send_rows(chat_id, Msg::InvalidYesNo, yes_no_keyboard()))
        },
    }
}

/// Collecting a question's text: any text opens its answer list.
pub open spec fn model_receive_new_answer(
    chat_id: i64,
    quiz_info: QuizDataView,
    text: Option<Seq<char>>,
) -> TurnView {
    match text {
        Some(question) => TurnView {
            next: StateView::ReceiveNewAnswer {
                quiz_info,
                new_question: question,
                answers: Seq::empty(),
            },
            actions: seq![send_keep(chat_id, MsgView::AskAnswerText)],
        },
        None => TurnView {
            next: StateView::ReceiveNewQuestion { quiz_info },
            actions: seq![send_keep(chat_id, MsgView::AnswerMissing)],
        },
    }
}

/// Collecting a question's text (see [`model_receive_new_answer`]).
pub fn receive_new_answer(chat_id: i64, quiz_info: QuizData, text: Option<String>) -> (r: Turn)
    ensures
        r@ == model_receive_new_answer(chat_id, quiz_info@, text.deep_view()),
{
    match text {
        Some(question) => {
            let answers: Vec<Answer> = Vec::new();
            proof {
                assert(answers.deep_view() =~= Seq::<AnswerView>::empty());
            }
            crate::events::turn1(
                QuizState::ReceiveNewAnswer { quiz_info, new_question: question, answers },
                act_send_keep(chat_id, Msg::AskAnswerText),
            )
        },
        None => crate::events::turn1(
            QuizState::ReceiveNewQuestion { quiz_info },
            act_send_keep(chat_id, Msg::AnswerMissing),
        ),
    }
}

/// Collecting an answer's text: any text asks for its correctness.
pub open spec fn model_receive_answer_is_correct(
    chat_id: i64,
    quiz_info: QuizDataView,
    new_question: Seq<char>,
    answers: Seq<AnswerView>,
    text: Option<Seq<char>>,
) -> TurnView {
    match text {
        Some(answer) => TurnView {
            next: StateView::ReceiveAnswerIsCorrect {
                quiz_info,
                new_question,
                answers,
                new_answer: answer,
            },
            actions: seq![send_rows(chat_id, MsgView::AskIsCorrect, yes_no_labels())],
        },
        None => TurnView {
            next: StateView::ReceiveNewAnswer { quiz_info, new_question, answers },
            actions: seq![send_keep(chat_id, MsgView::AnswerMissing)],
        },
    }
}

/// Collecting an answer's text (see [`model_receive_answer_is_correct`]).
pub fn receive_answer_is_correct(
    chat_id: i64,
    quiz_info: QuizData,
    new_question: String,
    answers: Vec<Answer>,
    text: Option<String>,
) -> (r: Turn)
    ensures
        r@ == model_receive_answer_is_correct(
            chat_id,
            quiz_info@,
            new_question@,
            answers.deep_view(),
            text.deep_view(),
        ),
{
    match text {
        Some(answer) => crate::events::turn1(
            QuizState::ReceiveAnswerIsCorrect {
                quiz_info,
                new_question,
                answers,
                new_answer: answer,
            },
            act_send_rows(chat_id, Msg::AskIsCorrect, yes_no_keyboard()),
        ),
        None => crate::events::turn1(
            QuizState::ReceiveNewAnswer { quiz_info, new_question, answers },
            act_send_keep(chat_id, Msg::AnswerMissing),
        ),
    }
}

/// Recording the pending answer's correctness: an affirmative or negative
/// token appends the answer to the question's list, in input order; anything
/// else re-prompts without a change.
pub open spec fn model_receive_add_another_answer_or_question(
    chat_id: i64,
    quiz_info: QuizDataView,
    new_question: Seq<char>,
    answers: Seq<AnswerView>,
    new_answer: Seq<char>,
    text: Option<Seq<char>>,
) -> TurnView {
    match text {
        Some(t) => if is_affirmative(t) {
            TurnView {
                next: StateView::ReceiveAddAnotherAnswer {
                    quiz_info,
                    new_question,
                    answers: answers.push(AnswerView { text: new_answer, is_correct: true }),
                },
                actions: seq![send_keep(chat_id, MsgView::AnswerRecorded { correct: true })],
            }
        } else if is_negative(t) {
            TurnView {
                next: StateView::ReceiveAddAnotherAnswer {
                    quiz_info,
                    new_question,
                    answers: answers.push(AnswerView { text: new_answer, is_correct: false }),
                },
                actions: seq![send_keep(chat_id, MsgView::AnswerRecorded { correct: false })],
            }
        } else {
            TurnView {
                next: StateView::ReceiveAnswerIsCorrect {
                    quiz_info,
                    new_question,
                    answers,
                    new_answer,
                },
                actions: seq![send_keep(chat_id, MsgView::InvalidYesNo)],
            }
        },
        None => TurnView {
            next: StateView::ReceiveAnswerIsCorrect { quiz_info, new_question, answers, new_answer },
            actions: seq![send_keep(chat_id, MsgView::InvalidYesNo)],
        },
    }
}

/// Recording the pending answer's correctness (see
/// [`model_receive_add_another_answer_or_question`]).
pub fn receive_add_another_answer_or_question(
    chat_id: i64,
    quiz_info: QuizData,
    new_question: String,
    answers: Vec<Answer>,
    new_answer: String,
    text: Option<String>,
) -> (r: Turn)
    ensures
        r@ == model_receive_add_another_answer_or_question(
            chat_id,
            quiz_info@,
            new_question@,
            answers.deep_view(),
            new_answer@,
            text.deep_view(),
        ),
{
    let ghost answers0 = answers.deep_view();
    match text {
        Some(t) => {
            if affirmative(t.as_str()) {
                let mut answers = answers;
                let added = Answer::new(new_answer, true);
                let ghost pre = answers@;
                answers.push(added);
                proof {
                    assert(crate::store::seq_deep(pre) == answers0) by {
                        assert(crate::store::seq_deep(pre) =~= answers0);
                    }
                    crate::store::lemma_deep_push(pre, answers@, answers@[answers@.len() - 1]);
                    crate::store::lemma_vec_deep(&answers);
                }
                crate::events::turn1(
                    QuizState::ReceiveAddAnotherAnswer { quiz_info, new_question, answers },
                    act_send_keep(chat_id, Msg::AnswerRecorded { correct: true }),
                )
            } else if negative(t.as_str()) {
                let mut answers = answers;
                let added = Answer::new(new_answer, false);
                let ghost pre = answers@;
                answers.push(added);
                proof {
                    assert(crate::store::seq_deep(pre) == answers0) by {
                        assert(crate::store::seq_deep(pre) =~= answers0);
                    }
                    crate::store::lemma_deep_push(pre, answers@, answers@[answers@.len() - 1]);
                    crate::store::lemma_vec_deep(&answers);
                }
                crate::events::turn1(
                    QuizState::ReceiveAddAnotherAnswer { quiz_info, new_question, answers },
                    act_send_keep(chat_id, Msg::AnswerRecorded { correct: false }),
                )
            } else {
                crate::events::turn1(
                    QuizState::ReceiveAnswerIsCorrect {
                        quiz_info,
                        new_question,
                        answers,
                        new_answer,
                    },
                    act_send_keep(chat_id, Msg::InvalidYesNo),
                )
            }
        },
        None => crate::events::turn1(
            QuizState::ReceiveAnswerIsCorrect { quiz_info, new_question, answers, new_answer },
            act_send_keep(chat_id, Msg::InvalidYesNo),
        ),
    }
}

/// Deciding on another answer. An affirmative token loops back to answer
/// collection; a negative one seals the question — its answers in input
/// order — onto the draft and asks about another question; anything else
/// re-prompts without a change.
pub open spec fn model_receive_add_new_answer(
    chat_id: i64,
    quiz_info: QuizDataView,
    new_question: Seq<char>,
    answers: Seq<AnswerView>,
    text: Option<Seq<char>>,
) -> TurnView {
    match text {
        Some(t) => if is_affirmative(t) {
            TurnView {
                next: StateView::ReceiveNewAnswer { quiz_info, new_question, answers },
                actions: seq![send_remove(chat_id, MsgView::AskAnotherAnswerText)],
            }
        } else if is_negative(t) {
            TurnView {
                next: StateView::ReceiveQuizAuthor {
                    quiz_info: QuizDataView {
                        questions: quiz_info.questions.push(
                            crate::quiz::QuestionView { text: new_question, answers },
                        ),
                        ..quiz_info
                    },
                },
                actions: seq![send_rows(chat_id, MsgView::QuestionSaved, yes_no_labels())],
            }
        } else {
            TurnView {
                next: StateView::ReceiveAddAnotherAnswer { quiz_info, new_question, answers },
                actions: seq![send_keep(chat_id, MsgView::InvalidYesNo)],
            }
        },
        None => TurnView {
            next: StateView::ReceiveAddAnotherAnswer { quiz_info, new_question, answers },
            actions: seq![send_keep(chat_id, MsgView::InvalidYesNo)],
        },
    }
}

/// Deciding on another answer (see [`model_receive_add_new_answer`]).
pub fn receive_add_new_answer(
    chat_id: i64,
    quiz_info: QuizData,
    new_question: String,
    answers: Vec<Answer>,
    text: Option<String>,
) -> (r: Turn)
    ensures
        r@ == model_receive_add_new_answer(
            chat_id,
            quiz_info@,
            new_question@,
            answers.deep_view(),
            text.deep_view(),
        ),
{
    let ghost d = quiz_info@;
    match text {
        Some(t) => {
            if affirmative(t.as_str()) {
                crate::events::turn1(
                    QuizState::ReceiveNewAnswer { quiz_info, new_question, answers },
                    act_send_remove(chat_id, Msg::AskAnotherAnswerText),
                )
            } else if negative(t.as_str()) {
                let mut quiz_info = quiz_info;
                let question_added = Question::new(new_question, Some(answers));
                let ghost pre = quiz_info.questions@;
                quiz_info.questions.push(question_added);
                proof {
                    assert(crate::store::seq_deep(pre) == d.questions) by {
                        assert(crate::store::seq_deep(pre) =~= d.questions);
                    }
                    crate::store::lemma_deep_push(
                        pre,
                        quiz_info.questions@,
                        quiz_info.questions@[quiz_info.questions@.len() - 1],
                    );
                    crate::store::lemma_vec_deep(&quiz_info.questions);
                }
                crate::events::turn1(
                    QuizState::ReceiveQuizAuthor { quiz_info },
                    act_send_rows(chat_id, Msg::QuestionSaved, yes_no_keyboard()),
                )
            } else {
                crate::events::turn1(
                    QuizState::ReceiveAddAnotherAnswer { quiz_info, new_question, answers },
                    act_send_keep(chat_id, Msg::InvalidYesNo),
                )
            }
        },
        None => crate::events::turn1(
            QuizState::ReceiveAddAnotherAnswer { quiz_info, new_question, answers },
            act_send_keep(chat_id, Msg::InvalidYesNo),
        ),
    }
}

} // verus!
