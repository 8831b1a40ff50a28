//! The editor flow: selecting an existing quiz and mutating its tree
//! directly in storage, addressed by the natural-key path (quiz title,
//! question text, answer text). A literal upward-navigation token moves one
//! level up, re-displaying the parent; unrecognized input re-prompts without
//! a change. Renaming a quiz carries the new title forward into the next
//! state; renaming a question or an answer keeps the key the state already
//! holds.

use vstd::prelude::*;

use crate::events::act_send_keep;
use crate::events::act_send_rows;
use crate::events::send_keep;
use crate::events::send_rows;
use crate::events::Msg;
use crate::events::MsgView;
use crate::events::Turn;
use crate::events::TurnView;
use crate::keyboard::action_keyboard;
use crate::keyboard::action_labels;
use crate::keyboard::edit_answer_keyboard;
use crate::keyboard::edit_answer_labels;
use crate::keyboard::edit_question_keyboard;
use crate::keyboard::edit_question_labels;
use crate::keyboard::edit_quiz_keyboard;
use crate::keyboard::edit_quiz_labels;
use crate::keyboard::name_labels;
use crate::keyboard::names_keyboard;
use crate::keyboard::yes_no_keyboard;
use crate::keyboard::yes_no_labels;
use crate::quiz::QuestionView;
use crate::quiz::QuizView;
use crate::state::QuizState;
use crate::state::StateView;
use crate::store::find_quiz;
use crate::store::has_answer;
use crate::store::has_answer_path;
use crate::store::has_question;
use crate::store::has_question_path;
use crate::store::has_quiz;
use crate::store::question_in;
use crate::store::quiz_at;
use crate::store::QuizStore;
use crate::tokens::affirmative;
use crate::tokens::is_affirmative;
use crate::tokens::is_negative;
use crate::tokens::negative;
use crate::tokens::str_eq;

verus! {

/// Selecting the quiz to edit: an existing title is shown with the
/// quiz-level menu; an unknown one or missing text re-prompts.
pub open spec fn model_select_quiz(
    s: Seq<QuizView>,
    chat_id: i64,
    text: Option<Seq<char>>,
) -> TurnView {
    match text {
        Some(title) => if has_quiz(s, title) {
            TurnView {
                next: StateView::HandleQuiz { quiz_name: title },
                actions: seq![
                    send_rows(
                        chat_id,
                        MsgView::QuizChosen { title: quiz_at(s, title).title },
                        edit_quiz_labels(),
                    ),
                    send_keep(chat_id, MsgView::ShowQuiz { quiz: quiz_at(s, title) }),
                ],
            }
        } else {
            TurnView {
                next: StateView::StartSelect,
                actions: seq![send_keep(chat_id, MsgView::QuizNotFound { title })],
            }
        },
        None => TurnView {
            next: StateView::StartSelect,
            actions: seq![send_keep(chat_id, MsgView::SelectQuizToEdit)],
        },
    }
}

/// Selecting the quiz to edit (see [`model_select_quiz`]).
pub fn select_quiz(store: &QuizStore, chat_id: i64, text: Option<String>) -> (r: Turn)
    ensures
        r@ == model_select_quiz(store@, chat_id, text.deep_view()),
{
    match text {
        Some(title) => {
            match store.retreive_quiz(title.as_str()) {
                Some(quiz) => {
                    let chosen = Msg::QuizChosen { title: quiz.title().clone() };
                    crate::events::turn2(
                        QuizState::HandleQuiz { quiz_name: title },
                        act_send_rows(chat_id, chosen, edit_quiz_keyboard()),
                        act_send_keep(chat_id, Msg::ShowQuiz { quiz }),
                    )
                },
                None => crate::events::turn1(
                    QuizState::StartSelect,
                    act_send_keep(chat_id, Msg::QuizNotFound { title }),
                ),
            }
        },
        None => crate::events::turn1(
            QuizState::StartSelect,
            act_send_keep(chat_id, Msg::SelectQuizToEdit),
        ),
    }
}

/// Acting on the selected quiz: navigate up, delete the quiz with its
/// descendants, or choose what to edit next. Unrecognized input re-prompts.
pub open spec fn model_handle_quiz(
    s: Seq<QuizView>,
    chat_id: i64,
    username: Seq<char>,
    admin: Seq<char>,
    quiz_name: Seq<char>,
    text: Option<Seq<char>>,
) -> (Seq<QuizView>, TurnView) {
    match text {
        Some(t) => if t == "/back"@ {
            (
                s,
                TurnView {
                    next: StateView::Start,
                    actions: seq![
                        send_rows(chat_id, MsgView::ReturningBack, action_labels(username, admin)),
                    ],
                },
            )
        } else if t == "Delete quiz🗑️"@ {
            (
                if has_quiz(s, quiz_name) {
                    s.remove(find_quiz(s, quiz_name))
                } else {
                    s
                },
                TurnView {
                    next: StateView::Start,
                    actions: seq![
                        send_rows(
                            chat_id,
                            MsgView::DeletedQuiz { title: quiz_name },
                            action_labels(username, admin),
                        ),
                    ],
                },
            )
        } else if t == "Edit name"@ {
            (
                s,
                TurnView {
                    next: StateView::EditName { quiz_name },
                    actions: seq![send_keep(chat_id, MsgView::NewQuizNamePrompt)],
                },
            )
        } else if t == "Edit description"@ {
            (
                s,
                TurnView {
                    next: StateView::EditDescription { quiz_name },
                    actions: seq![send_keep(chat_id, MsgView::NewQuizDescriptionPrompt)],
                },
            )
        } else if t == "Add question"@ {
            (
                s,
                TurnView {
                    next: StateView::AddQuestion { quiz_name },
                    actions: seq![send_keep(chat_id, MsgView::AddQuestionPrompt)],
                },
            )
        } else if t == "Edit question"@ {
            let names = if has_quiz(s, quiz_name) {
                quiz_at(s, quiz_name).questions.map_values(|q: QuestionView| q.text)
            } else {
                Seq::<Seq<char>>::empty()
            };
            if names.len() == 0 {
                (
                    s,
                    TurnView {
                        next: StateView::SelectQuestion { quiz_name },
                        actions: seq![send_keep(chat_id, MsgView::NoQuestionsAvailable)],
                    },
                )
            } else {
                (
                    s,
                    TurnView {
                        next: StateView::SelectQuestion { quiz_name },
                        actions: seq![
                            send_rows(chat_id, MsgView::ChooseQuestionToEdit, name_labels(names)),
                        ],
                    },
                )
            }
        } else {
            (
                s,
                TurnView {
                    next: StateView::HandleQuiz { quiz_name },
                    actions: seq![send_keep(chat_id, MsgView::InvalidInput)],
                },
            )
        },
        None => (
            s,
            TurnView {
                next: StateView::HandleQuiz { quiz_name },
                actions: seq![send_keep(chat_id, MsgView::InvalidInput)],
            },
        ),
    }
}

/// Acting on the selected quiz (see [`model_handle_quiz`]).
pub fn handle_quiz(
    store: &mut QuizStore,
    chat_id: i64,
    username: &String,
    admin: &String,
    quiz_name: String,
    text: Option<String>,
) -> (r: Turn)
    requires
        old(store).wf(),
    ensures
        final(store).wf(),
        (final(store)@, r@) == model_handle_quiz(
            old(store)@,
            chat_id,
            username@,
            admin@,
            quiz_name@,
            text.deep_view(),
        ),
{
    match text {
        Some(t) => {
            if str_eq(t.as_str(), "/back") {
                crate::events::turn1(
                    QuizState::Start,
                    act_send_rows(
                        chat_id,
                        Msg::ReturningBack,
                        action_keyboard(username.as_str(), admin.as_str()),
                    ),
                )
            } else if str_eq(t.as_str(), "Delete quiz🗑️") {
                let deleted = store.delete_quiz(quiz_name.as_str());
                crate::events::turn1(
                    QuizState::Start,
                    act_send_rows(
                        chat_id,
                        Msg::DeletedQuiz { title: deleted },
                        action_keyboard(username.as_str(), admin.as_str()),
                    ),
                )
            } else if str_eq(t.as_str(), "Edit name") {
                crate::events::turn1(
                    QuizState::EditName { quiz_name },
                    act_send_keep(chat_id, Msg::NewQuizNamePrompt),
                )
            } else if str_eq(t.as_str(), "Edit description") {
                crate::events::turn1(
                    QuizState::EditDescription { quiz_name },
                    act_send_keep(chat_id, Msg::NewQuizDescriptionPrompt),
                )
            } else if str_eq(t.as_str(), "Add question") {
                crate::events::turn1(
                    QuizState::AddQuestion { quiz_name },
                    act_send_keep(chat_id, Msg::AddQuestionPrompt),
                )
            } else if str_eq(t.as_str(), "Edit question") {
                let names = store.retreive_all_question_names(quiz_name.as_str());
                if names.len() == 0 {
                    proof {
                        assert(names.deep_view() =~= Seq::<Seq<char>>::empty());
                    }
                    crate::events::turn1(
                        QuizState::SelectQuestion { quiz_name },
                        act_send_keep(chat_id, Msg::NoQuestionsAvailable),
                    )
                } else {
                    proof {
                        assert(names.deep_view().len() == names@.len());
                    }
                    crate::events::turn1(
                        QuizState::SelectQuestion { quiz_name },
                        act_send_rows(chat_id, Msg::ChooseQuestionToEdit, names_keyboard(names)),
                    )
                }
            } else {
                crate::events::turn1(
                    QuizState::HandleQuiz { quiz_name },
                    act_send_keep(chat_id, Msg::InvalidInput),
                )
            }
        },
        None => crate::events::turn1(
            QuizState::HandleQuiz { quiz_name },
            act_send_keep(chat_id, Msg::InvalidInput),
        ),
    }
}

/// Renaming the selected quiz: on success the new title is carried forward
/// into the next state; a refusal (unknown title or taken name) keeps the
/// old one.
pub open spec fn model_edit_name(
    s: Seq<QuizView>,
    chat_id: i64,
    quiz_name: Seq<char>,
    text: Option<Seq<char>>,
) -> (Seq<QuizView>, TurnView) {
    match text {
        Some(new) => if has_quiz(s, quiz_name) && (new == quiz_name || !has_quiz(s, new)) {
            (
                s.update(
                    find_quiz(s, quiz_name),
                    (QuizView { title: new, ..quiz_at(s, quiz_name) }),
                ),
                TurnView {
                    next: StateView::HandleQuiz { quiz_name: new },
                    actions: seq![send_keep(chat_id, MsgView::NameUpdated)],
                },
            )
        } else {
            (
                s,
                TurnView {
                    next: StateView::HandleQuiz { quiz_name },
                    actions: seq![send_keep(chat_id, MsgView::GenericError)],
                },
            )
        },
        None => (
            s,
            TurnView {
                next: StateView::EditName { quiz_name },
                actions: seq![send_keep(chat_id, MsgView::NothingEntered)],
            },
        ),
    }
}

/// Renaming the selected quiz (see [`model_edit_name`]).
pub fn edit_name(store: &mut QuizStore, chat_id: i64, quiz_name: String, text: Option<String>) -> (r:
    Turn)
    requires
        old(store).wf(),
    ensures
        final(store).wf(),
        (final(store)@, r@) == model_edit_name(old(store)@, chat_id, quiz_name@, text.deep_view()),
{
    match text {
        Some(new) => {
            match store.edit_name(quiz_name.as_str(), new.as_str()) {
                Ok(updated) => crate::events::turn1(
                    QuizState::HandleQuiz { quiz_name: updated },
                    act_send_keep(chat_id, Msg::NameUpdated),
                ),
                Err(_) => crate::events::turn1(
                    QuizState::HandleQuiz { quiz_name },
                    act_send_keep(chat_id, Msg::GenericError),
                ),
            }
        },
        None => crate::events::turn1(
            QuizState::EditName { quiz_name },
            act_send_keep(chat_id, Msg::NothingEntered),
        ),
    }
}

/// Replacing the selected quiz's description; an unknown title is reported
/// and nothing changes.
pub open spec fn model_edit_description(
    s: Seq<QuizView>,
    chat_id: i64,
    quiz_name: Seq<char>,
    text: Option<Seq<char>>,
) -> (Seq<QuizView>, TurnView) {
    match text {
        Some(new) => if has_quiz(s, quiz_name) {
            (
                s.update(
                    find_quiz(s, quiz_name),
                    (QuizView { description: new, ..quiz_at(s, quiz_name) }),
                ),
                TurnView {
                    next: StateView::HandleQuiz { quiz_name },
                    actions: seq![send_keep(chat_id, MsgView::DescriptionUpdated)],
                },
            )
        } else {
            (
                s,
                TurnView {
                    next: StateView::EditDescription { quiz_name },
                    actions: seq![send_keep(chat_id, MsgView::QuizNotFound { title: quiz_name })],
                },
            )
        },
        None => (
            s,
            TurnView {
                next: StateView::EditDescription { quiz_name },
                actions: seq![send_keep(chat_id, MsgView::NothingEntered)],
            },
        ),
    }
}

/// Replacing the selected quiz's description (see
/// [`model_edit_description`]).
pub fn edit_description(
    store: &mut QuizStore,
    chat_id: i64,
    quiz_name: String,
    text: Option<String>,
) -> (r: Turn)
    requires
        old(store).wf(),
    ensures
        final(store).wf(),
        (final(store)@, r@) == model_edit_description(
            old(store)@,
            chat_id,
            quiz_name@,
            text.deep_view(),
        ),
{
    match text {
        Some(new) => {
            match store.edit_description(quiz_name.as_str(), new.as_str()) {
                Ok(_) => crate::events::turn1(
                    QuizState::HandleQuiz { quiz_name },
                    act_send_keep(chat_id, Msg::DescriptionUpdated),
                ),
                Err(_) => crate::events::turn1(
                    QuizState::EditDescription { quiz_name: quiz_name.clone() },
                    act_send_keep(chat_id, Msg::QuizNotFound { title: quiz_name }),
                ),
            }
        },
        None => crate::events::turn1(
            QuizState::EditDescription { quiz_name },
            act_send_keep(chat_id, Msg::NothingEntered),
        ),
    }
}

/// Selecting the question to edit: an existing text is shown with the
/// question-level menu; an unknown one or missing text re-prompts.
pub open spec fn model_select_question(
    s: Seq<QuizView>,
    chat_id: i64,
    quiz_name: Seq<char>,
    text: Option<Seq<char>>,
) -> TurnView {
    match text {
        Some(qt) => if has_question_path(s, quiz_name, qt) {
            TurnView {
                next: StateView::HandleQuestion { quiz_name, question_name: qt },
                actions: seq![
                    send_rows(
                        chat_id,
                        MsgView::QuestionSelected { text: question_in(s, quiz_name, qt).text },
                        edit_question_labels(),
                    ),
                    send_keep(
                        chat_id,
                        MsgView::ShowQuestion { question: question_in(s, quiz_name, qt) },
                    ),
                ],
            }
        } else {
            TurnView {
                next: StateView::SelectQuestion { quiz_name },
                actions: seq![send_keep(chat_id, MsgView::QuestionNotFound { text: qt })],
            }
        },
        None => TurnView {
            next: StateView::SelectQuestion { quiz_name },
            actions: seq![send_keep(chat_id, MsgView::ChooseQuestionToEdit)],
        },
    }
}

/// Selecting the question to edit (see [`model_select_question`]).
pub fn select_question(store: &QuizStore, chat_id: i64, quiz_name: String, text: Option<
    String,
>) -> (r: Turn)
    ensures
        r@ == model_select_question(store@, chat_id, quiz_name@, text.deep_view()),
{
    match text {
        Some(qt) => {
            match store.retreive_question(quiz_name.as_str(), qt.as_str()) {
                Some(question) => {
                    let selected = Msg::QuestionSelected { text: question.text() };
                    crate::events::turn2(
                        QuizState::HandleQuestion { quiz_name, question_name: qt },
                        act_send_rows(chat_id, selected, edit_question_keyboard()),
                        act_send_keep(chat_id, Msg::ShowQuestion { question }),
                    )
                },
                None => crate::events::turn1(
                    QuizState::SelectQuestion { quiz_name },
                    act_send_keep(chat_id, Msg::QuestionNotFound { text: qt }),
                ),
            }
        },
        None => crate::events::turn1(
            QuizState::SelectQuestion { quiz_name },
            act_send_keep(chat_id, Msg::ChooseQuestionToEdit),
        ),
    }
}

/// Acting on the selected question: navigate up (re-displaying the quiz),
/// delete the question with its answers, or choose what to edit next.
pub open spec fn model_handle_question(
    s: Seq<QuizView>,
    chat_id: i64,
    quiz_name: Seq<char>,
    question_name: Seq<char>,
    text: Option<Seq<char>>,
) -> (Seq<QuizView>, TurnView) {
    match text {
        Some(t) => if t == "/back"@ {
            if has_quiz(s, quiz_name) {
                (
                    s,
                    TurnView {
                        next: StateView::HandleQuiz { quiz_name },
                        actions: seq![
                            send_keep(chat_id, MsgView::ReturningBack),
                            send_rows(
                                chat_id,
                                MsgView::ShowQuiz { quiz: quiz_at(s, quiz_name) },
                                edit_quiz_labels(),
                            ),
                        ],
                    },
                )
            } else {
                (
                    s,
                    TurnView {
                        next: StateView::HandleQuiz { quiz_name },
                        actions: seq![
                            send_keep(chat_id, MsgView::ReturningBack),
                            send_keep(chat_id, MsgView::QuizNotFound { title: quiz_name }),
                        ],
                    },
                )
            }
        } else if t == "Delete question"@ {
            if has_question_path(s, quiz_name, question_name) {
                (
                    s.update(
                        find_quiz(s, quiz_name),
                        (QuizView {
                            questions: quiz_at(s, quiz_name).questions.remove(
                                crate::store::find_question(
                                    quiz_at(s, quiz_name).questions,
                                    question_name,
                                ),
                            ),
                            ..quiz_at(s, quiz_name)
                        }),
                    ),
                    TurnView {
                        next: StateView::HandleQuiz { quiz_name },
                        actions: seq![
                            send_rows(chat_id, MsgView::QuestionDeleted, edit_quiz_labels()),
                        ],
                    },
                )
            } else {
                (
                    s,
                    TurnView {
                        next: StateView::HandleQuiz { quiz_name },
                        actions: seq![send_keep(chat_id, MsgView::GenericError)],
                    },
                )
            }
        } else if t == "Edit text"@ {
            (
                s,
                TurnView {
                    next: StateView::EditQuestionText { quiz_name, question_name },
                    actions: seq![send_keep(chat_id, MsgView::NewQuestionTextPrompt)],
                },
            )
        } else if t == "Add answer"@ {
            (
                s,
                TurnView {
                    next: StateView::AddAnswer { quiz_name, question_name },
                    actions: seq![send_keep(chat_id, MsgView::AddAnswerPrompt)],
                },
            )
        } else if t == "Edit answer"@ {
            let names = if has_question_path(s, quiz_name, question_name) {
                crate::keyboard::answer_texts(question_in(s, quiz_name, question_name).answers)
            } else {
                Seq::<Seq<char>>::empty()
            };
            (
                s,
                TurnView {
                    next: StateView::SelectAnswer { quiz_name, question_name },
                    actions: seq![
                        send_rows(chat_id, MsgView::ChooseAnswerToEdit, name_labels(names)),
                    ],
                },
            )
        } else {
            (
                s,
                TurnView {
                    next: StateView::HandleQuestion { quiz_name, question_name },
                    actions: seq![send_keep(chat_id, MsgView::InvalidInput)],
                },
            )
        },
        None => (
            s,
            TurnView {
                next: StateView::HandleQuestion { quiz_name, question_name },
                actions: seq![send_keep(chat_id, MsgView::InvalidInput)],
            },
        ),
    }
}

/// Acting on the selected question (see [`model_handle_question`]).
pub fn handle_question(
    store: &mut QuizStore,
    chat_id: i64,
    quiz_name: String,
    question_name: String,
    text: Option<String>,
) -> (r: Turn)
    requires
        old(store).wf(),
    ensures
        final(store).wf(),
        (final(store)@, r@) == model_handle_question(
            old(store)@,
            chat_id,
            quiz_name@,
            question_name@,
            text.deep_view(),
        ),
{
    match text {
        Some(t) => {
            if str_eq(t.as_str(), "/back") {
                match store.retreive_quiz(quiz_name.as_str()) {
                    Some(quiz) => crate::events::turn2(
                        QuizState::HandleQuiz { quiz_name },
                        act_send_keep(chat_id, Msg::ReturningBack),
                        act_send_rows(chat_id, Msg::ShowQuiz { quiz }, edit_quiz_keyboard()),
                    ),
                    None => crate::events::turn2(
                        QuizState::HandleQuiz { quiz_name: quiz_name.clone() },
                        act_send_keep(chat_id, Msg::ReturningBack),
                        act_send_keep(chat_id, Msg::QuizNotFound { title: quiz_name }),
                    ),
                }
            } else if str_eq(t.as_str(), "Delete question") {
                match store.delete_question(quiz_name.as_str(), question_name.as_str()) {
                    Ok(_) => crate::events::turn1(
                        QuizState::HandleQuiz { quiz_name },
                        act_send_rows(chat_id, Msg::QuestionDeleted, edit_quiz_keyboard()),
                    ),
                    Err(_) => crate::events::turn1(
                        QuizState::HandleQuiz { quiz_name },
                        act_send_keep(chat_id, Msg::GenericError),
                    ),
                }
            } else if str_eq(t.as_str(), "Edit text") {
                crate::events::turn1(
                    QuizState::EditQuestionText { quiz_name, question_name },
                    act_send_keep(chat_id, Msg::NewQuestionTextPrompt),
                )
            } else if str_eq(t.as_str(), "Add answer") {
                crate::events::turn1(
                    QuizState::AddAnswer { quiz_name, question_name },
                    act_send_keep(chat_id, Msg::AddAnswerPrompt),
                )
            } else if str_eq(t.as_str(), "Edit answer") {
                let names = store.retreive_all_answers_names(
                    quiz_name.as_str(),
                    question_name.as_str(),
                );
                proof {
                    if !has_question_path(store@, quiz_name@, question_name@) {
                        assert(names.deep_view() =~= Seq::<Seq<char>>::empty());
                    }
                }
                crate::events::turn1(
                    QuizState::SelectAnswer { quiz_name, question_name },
                    act_send_rows(chat_id, Msg::ChooseAnswerToEdit, names_keyboard(names)),
                )
            } else {
                crate::events::turn1(
                    QuizState::HandleQuestion { quiz_name, question_name },
                    act_send_keep(chat_id, Msg::InvalidInput),
                )
            }
        },
        None => crate::events::turn1(
            QuizState::HandleQuestion { quiz_name, question_name },
            act_send_keep(chat_id, Msg::InvalidInput),
        ),
    }
}

/// Renaming the selected question; the state keeps the key it already holds.
pub open spec fn model_edit_question_text(
    s: Seq<QuizView>,
    chat_id: i64,
    quiz_name: Seq<char>,
    question_name: Seq<char>,
    text: Option<Seq<char>>,
) -> (Seq<QuizView>, TurnView) {
    match text {
        Some(new) => if has_question_path(s, quiz_name, question_name) && (new == question_name
            || !has_question(quiz_at(s, quiz_name).questions, new)) {
            (
                s.update(
                    find_quiz(s, quiz_name),
                    (QuizView {
                        questions: quiz_at(s, quiz_name).questions.update(
                            crate::store::find_question(
                                quiz_at(s, quiz_name).questions,
                                question_name,
                            ),
                            (QuestionView {
                                text: new,
                                ..question_in(s, quiz_name, question_name)
                            }),
                        ),
                        ..quiz_at(s, quiz_name)
                    }),
                ),
                TurnView {
                    next: StateView::HandleQuestion { quiz_name, question_name },
                    actions: seq![
                        send_rows(chat_id, MsgView::QuestionTextUpdated, edit_question_labels()),
                    ],
                },
            )
        } else {
            (
                s,
                TurnView {
                    next: StateView::EditQuestionText { quiz_name, question_name },
                    actions: seq![send_keep(chat_id, MsgView::GenericError)],
                },
            )
        },
        None => (
            s,
            TurnView {
                next: StateView::EditQuestionText { quiz_name, question_name },
                actions: seq![send_keep(chat_id, MsgView::InvalidInput)],
            },
        ),
    }
}

/// Renaming the selected question (see [`model_edit_question_text`]).
pub fn edit_question_text(
    store: &mut QuizStore,
    chat_id: i64,
    quiz_name: String,
    question_name: String,
    text: Option<String>,
) -> (r: Turn)
    requires
        old(store).wf(),
    ensures
        final(store).wf(),
        (final(store)@, r@) == model_edit_question_text(
            old(store)@,
            chat_id,
            quiz_name@,
            question_name@,
            text.deep_view(),
        ),
{
    match text {
        Some(new) => {
            match store.edit_text(quiz_name.as_str(), question_name.as_str(), new.as_str()) {
                Ok(_) => crate::events::turn1(
                    QuizState::HandleQuestion { quiz_name, question_name },
                    act_send_rows(chat_id, Msg::QuestionTextUpdated, edit_question_keyboard()),
                ),
                Err(_) => crate::events::turn1(
                    QuizState::EditQuestionText { quiz_name, question_name },
                    act_send_keep(chat_id, Msg::GenericError),
                ),
            }
        },
        None => crate::events::turn1(
            QuizState::EditQuestionText { quiz_name, question_name },
            act_send_keep(chat_id, Msg::InvalidInput),
        ),
    }
}

/// Adding a question to the selected quiz in storage.
pub open spec fn model_editor_add_question(
    s: Seq<QuizView>,
    chat_id: i64,
    quiz_name: Seq<char>,
    text: Option<Seq<char>>,
) -> (Seq<QuizView>, TurnView) {
    match text {
        Some(t) => if has_quiz(s, quiz_name) && !has_question(quiz_at(s, quiz_name).questions, t) {
            (
                s.update(
                    find_quiz(s, quiz_name),
                    (QuizView {
                        questions: quiz_at(s, quiz_name).questions.push(
                            (QuestionView {
                                text: t,
                                answers: Seq::<crate::quiz::AnswerView>::empty(),
                            }),
                        ),
                        ..quiz_at(s, quiz_name)
                    }),
                ),
                TurnView {
                    next: StateView::HandleQuiz { quiz_name },
                    actions: seq![send_keep(chat_id, MsgView::QuestionCreated { text: t })],
                },
            )
        } else {
            (
                s,
                TurnView {
                    next: StateView::AddQuestion { quiz_name },
                    actions: seq![send_keep(chat_id, MsgView::TryAgainLater)],
                },
            )
        },
        None => (
            s,
            TurnView {
                next: StateView::AddQuestion { quiz_name },
                actions: seq![send_keep(chat_id, MsgView::InvalidInput)],
            },
        ),
    }
}

/// Adding a question to the selected quiz (see
/// [`model_editor_add_question`]).
pub fn editor_add_question(
    store: &mut QuizStore,
    chat_id: i64,
    quiz_name: String,
    text: Option<String>,
) -> (r: Turn)
    requires
        old(store).wf(),
    ensures
        final(store).wf(),
        (final(store)@, r@) == model_editor_add_question(
            old(store)@,
            chat_id,
            quiz_name@,
            text.deep_view(),
        ),
{
    match text {
        Some(t) => {
            match store.create_question(quiz_name.as_str(), t.as_str()) {
                Ok(_) => crate::events::turn1(
                    QuizState::HandleQuiz { quiz_name },
                    act_send_keep(chat_id, Msg::QuestionCreated { text: t }),
                ),
                Err(_) => crate::events::turn1(
                    QuizState::AddQuestion { quiz_name },
                    act_send_keep(chat_id, Msg::TryAgainLater),
                ),
            }
        },
        None => crate::events::turn1(
            QuizState::AddQuestion { quiz_name },
            act_send_keep(chat_id, Msg::InvalidInput),
        ),
    }
}

/// Collecting the text of the answer to add: any text asks for its
/// correctness.
pub open spec fn model_editor_add_answer(
    chat_id: i64,
    quiz_name: Seq<char>,
    question_name: Seq<char>,
    text: Option<Seq<char>>,
) -> TurnView {
    match text {
        Some(t) => TurnView {
            next: StateView::AddAnswerCorrectness { quiz_name, question_name, text: t },
            actions: seq![send_rows(chat_id, MsgView::AskCorrectness, yes_no_labels())],
        },
        None => TurnView {
            next: StateView::AddAnswer { quiz_name, question_name },
            actions: seq![send_keep(chat_id, MsgView::InvalidInput)],
        },
    }
}

/// Collecting the text of the answer to add (see
/// [`model_editor_add_answer`]).
pub fn editor_add_answer(
    chat_id: i64,
    quiz_name: String,
    question_name: String,
    text: Option<String>,
) -> (r: Turn)
    ensures
        r@ == model_editor_add_answer(chat_id, quiz_name@, question_name@, text.deep_view()),
{
    match text {
        Some(t) => crate::events::turn1(
            QuizState::AddAnswerCorrectness { quiz_name, question_name, text: t },
            act_send_rows(chat_id, Msg::AskCorrectness, yes_no_keyboard()),
        ),
        None => crate::events::turn1(
            QuizState::AddAnswer { quiz_name, question_name },
            act_send_keep(chat_id, Msg::InvalidInput),
        ),
    }
}

/// Storing the added answer. Known quirk, kept deliberately: the negative
/// reply also stores the answer as correct, though the confirmation it sends
/// reads "incorrect".
pub open spec fn model_editor_add_corectness(
    s: Seq<QuizView>,
    chat_id: i64,
    quiz_name: Seq<char>,
    question_name: Seq<char>,
    answer_name: Seq<char>,
    text: Option<Seq<char>>,
) -> (Seq<QuizView>, TurnView) {
    match text {
        Some(t) => if is_affirmative(t) || is_negative(t) {
            if has_question_path(s, quiz_name, question_name) && !has_answer(
                question_in(s, quiz_name, question_name).answers,
                answer_name,
            ) {
                (
                    s.update(
                        find_quiz(s, quiz_name),
                        (QuizView {
                            questions: quiz_at(s, quiz_name).questions.update(
                                crate::store::find_question(
                                    quiz_at(s, quiz_name).questions,
                                    question_name,
                                ),
                                (QuestionView {
                                    answers: question_in(
                                        s,
                                        quiz_name,
                                        question_name,
                                    ).answers.push(
                                        (crate::quiz::AnswerView {
                                            text: answer_name,
                                            is_correct: true,
                                        }),
                                    ),
                                    ..question_in(s, quiz_name, question_name)
                                }),
                            ),
                            ..quiz_at(s, quiz_name)
                        }),
                    ),
                    TurnView {
                        next: StateView::HandleQuestion { quiz_name, question_name },
                        actions: seq![
                            send_rows(
                                chat_id,
                                MsgView::AnswerSaved {
                                    name: answer_name,
                                    correct: is_affirmative(t),
                                },
                                edit_question_labels(),
                            ),
                        ],
                    },
                )
            } else {
                (
                    s,
                    TurnView {
                        next: StateView::AddAnswerCorrectness {
                            quiz_name,
                            question_name,
                            text: answer_name,
                        },
                        actions: seq![send_keep(chat_id, MsgView::TryAgainLater)],
                    },
                )
            }
        } else {
            (
                s,
                TurnView {
                    next: StateView::AddAnswerCorrectness {
                        quiz_name,
                        question_name,
                        text: answer_name,
                    },
                    actions: seq![send_keep(chat_id, MsgView::InvalidInput)],
                },
            )
        },
        None => (
            s,
            TurnView {
                next: StateView::AddAnswerCorrectness {
                    quiz_name,
                    question_name,
                    text: answer_name,
                },
                actions: seq![send_keep(chat_id, MsgView::InvalidInput)],
            },
        ),
    }
}

/// Storing the added answer (see [`model_editor_add_corectness`]).
pub fn editor_add_corectness(
    store: &mut QuizStore,
    chat_id: i64,
    quiz_name: String,
    question_name: String,
    answer_name: String,
    text: Option<String>,
) -> (r: Turn)
    requires
        old(store).wf(),
    ensures
        final(store).wf(),
        (final(store)@, r@) == model_editor_add_corectness(
            old(store)@,
            chat_id,
            quiz_name@,
            question_name@,
            answer_name@,
            text.deep_view(),
        ),
{
    match text {
        Some(t) => {
            let yes = affirmative(t.as_str());
            let no = negative(t.as_str());
            if yes || no {
                // Both replies store the answer as correct; only the
                // confirmation differs. Kept as the flow has always behaved.
                match store.create_answer(
                    quiz_name.as_str(),
                    question_name.as_str(),
                    answer_name.as_str(),
                    true,
                ) {
                    Ok(_) => crate::events::turn1(
                        QuizState::HandleQuestion { quiz_name, question_name },
                        act_send_rows(
                            chat_id,
                            Msg::AnswerSaved { name: answer_name, correct: yes },
                            edit_question_keyboard(),
                        ),
                    ),
                    Err(_) => crate::events::turn1(
                        QuizState::AddAnswerCorrectness {
                            quiz_name,
                            question_name,
                            text: answer_name,
                        },
                        act_send_keep(chat_id, Msg::TryAgainLater),
                    ),
                }
            } else {
                crate::events::turn1(
                    QuizState::AddAnswerCorrectness { quiz_name, question_name, text: answer_name },
                    act_send_keep(chat_id, Msg::InvalidInput),
                )
            }
        },
        None => crate::events::turn1(
            QuizState::AddAnswerCorrectness { quiz_name, question_name, text: answer_name },
            act_send_keep(chat_id, Msg::InvalidInput),
        ),
    }
}

/// Selecting the answer to edit: an existing text is shown with the
/// answer-level menu; an unknown one or missing text re-prompts.
pub open spec fn model_select_answer(
    s: Seq<QuizView>,
    chat_id: i64,
    quiz_name: Seq<char>,
    question_name: Seq<char>,
    text: Option<Seq<char>>,
) -> TurnView {
    match text {
        Some(at) => if has_answer_path(s, quiz_name, question_name, at) {
            TurnView {
                next: StateView::HandleAnswer { quiz_name, question_name, answer_name: at },
                actions: seq![
                    send_rows(
                        chat_id,
                        MsgView::AnswerSelected {
                            text: crate::store::answer_in(s, quiz_name, question_name, at).text,
                        },
                        edit_answer_labels(),
                    ),
                    send_keep(
                        chat_id,
                        MsgView::ShowAnswer {
                            answer: crate::store::answer_in(s, quiz_name, question_name, at),
                        },
                    ),
                ],
            }
        } else {
            TurnView {
                next: StateView::SelectAnswer { quiz_name, question_name },
                actions: seq![send_keep(chat_id, MsgView::AnswerNotFound)],
            }
        },
        None => TurnView {
            next: StateView::SelectAnswer { quiz_name, question_name },
            actions: seq![send_keep(chat_id, MsgView::InvalidInput)],
        },
    }
}

/// Selecting the answer to edit (see [`model_select_answer`]).
pub fn select_answer(
    store: &QuizStore,
    chat_id: i64,
    quiz_name: String,
    question_name: String,
    text: Option<String>,
) -> (r: Turn)
    ensures
        r@ == model_select_answer(store@, chat_id, quiz_name@, question_name@, text.deep_view()),
{
    match text {
        Some(at) => {
            match store.retreive_answer(quiz_name.as_str(), question_name.as_str(), at.as_str()) {
                Some(answer) => {
                    let selected = Msg::AnswerSelected { text: answer.text() };
                    crate::events::turn2(
                        QuizState::HandleAnswer { quiz_name, question_name, answer_name: at },
                        act_send_rows(chat_id, selected, edit_answer_keyboard()),
                        act_send_keep(chat_id, Msg::ShowAnswer { answer }),
                    )
                },
                None => crate::events::turn1(
                    QuizState::SelectAnswer { quiz_name, question_name },
                    act_send_keep(chat_id, Msg::AnswerNotFound),
                ),
            }
        },
        None => crate::events::turn1(
            QuizState::SelectAnswer { quiz_name, question_name },
            act_send_keep(chat_id, Msg::InvalidInput),
        ),
    }
}

/// Acting on the selected answer: navigate up (re-displaying the question),
/// delete the answer, or choose what to edit next.
pub open spec fn model_handle_answer(
    s: Seq<QuizView>,
    chat_id: i64,
    quiz_name: Seq<char>,
    question_name: Seq<char>,
    answer_name: Seq<char>,
    text: Option<Seq<char>>,
) -> (Seq<QuizView>, TurnView) {
    match text {
        Some(t) => if t == "/back"@ {
            if has_question_path(s, quiz_name, question_name) {
                (
                    s,
                    TurnView {
                        next: StateView::HandleQuestion { quiz_name, question_name },
                        actions: seq![
                            send_keep(chat_id, MsgView::ReturningBack),
                            send_rows(
                                chat_id,
                                MsgView::ShowQuestion {
                                    question: question_in(s, quiz_name, question_name),
                                },
                                edit_question_labels(),
                            ),
                        ],
                    },
                )
            } else {
                (
                    s,
                    TurnView {
                        next: StateView::HandleQuestion { quiz_name, question_name },
                        actions: seq![
                            send_keep(chat_id, MsgView::ReturningBack),
                            send_keep(chat_id, MsgView::QuestionNotFound { text: question_name }),
                        ],
                    },
                )
            }
        } else if t == "Delete answer"@ {
            if has_answer_path(s, quiz_name, question_name, answer_name) {
                (
                    s.update(
                        find_quiz(s, quiz_name),
                        (QuizView {
                            questions: quiz_at(s, quiz_name).questions.update(
                                crate::store::find_question(
                                    quiz_at(s, quiz_name).questions,
                                    question_name,
                                ),
                                (QuestionView {
                                    answers: question_in(
                                        s,
                                        quiz_name,
                                        question_name,
                                    ).answers.remove(
                                        crate::store::find_answer(
                                            question_in(s, quiz_name, question_name).answers,
                                            answer_name,
                                        ),
                                    ),
                                    ..question_in(s, quiz_name, question_name)
                                }),
                            ),
                            ..quiz_at(s, quiz_name)
                        }),
                    ),
                    TurnView {
                        next: StateView::HandleQuestion { quiz_name, question_name },
                        actions: seq![
                            send_rows(chat_id, MsgView::AnswerDeleted, edit_question_labels()),
                        ],
                    },
                )
            } else {
                (
                    s,
                    TurnView {
                        next: StateView::HandleQuestion { quiz_name, question_name },
                        actions: seq![send_keep(chat_id, MsgView::GenericError)],
                    },
                )
            }
        } else if t == "Edit text"@ {
            (
                s,
                TurnView {
                    next: StateView::EditAnswerText { quiz_name, question_name, answer_name },
                    actions: seq![send_keep(chat_id, MsgView::NewAnswerTextPrompt)],
                },
            )
        } else if t == "Edit corectness"@ {
            (
                s,
                TurnView {
                    next: StateView::EditCorectness { quiz_name, question_name, answer_name },
                    actions: seq![send_rows(chat_id, MsgView::AskCorrectness, yes_no_labels())],
                },
            )
        } else if t == "Back"@ {
            (
                s,
                TurnView {
                    next: StateView::HandleQuestion { quiz_name, question_name },
                    actions: seq![
                        send_rows(chat_id, MsgView::HandleQuestionPrompt, edit_question_labels()),
                    ],
                },
            )
        } else {
            (
                s,
                TurnView {
                    next: StateView::HandleAnswer { quiz_name, question_name, answer_name },
                    actions: seq![send_keep(chat_id, MsgView::InvalidInput)],
                },
            )
        },
        None => (
            s,
            TurnView {
                next: StateView::HandleAnswer { quiz_name, question_name, answer_name },
                actions: seq![send_keep(chat_id, MsgView::InvalidInput)],
            },
        ),
    }
}

/// Acting on the selected answer (see [`model_handle_answer`]).
pub fn handle_answer(
    store: &mut QuizStore,
    chat_id: i64,
    quiz_name: String,
    question_name: String,
    answer_name: String,
    text: Option<String>,
) -> (r: Turn)
    requires
        old(store).wf(),
    ensures
        final(store).wf(),
        (final(store)@, r@) == model_handle_answer(
            old(store)@,
            chat_id,
            quiz_name@,
            question_name@,
            answer_name@,
            text.deep_view(),
        ),
{
    match text {
        Some(t) => {
            if str_eq(t.as_str(), "/back") {
                match store.retreive_question(quiz_name.as_str(), question_name.as_str()) {
                    Some(question) => crate::events::turn2(
                        QuizState::HandleQuestion { quiz_name, question_name },
                        act_send_keep(chat_id, Msg::ReturningBack),
                        act_send_rows(
                            chat_id,
                            Msg::ShowQuestion { question },
                            edit_question_keyboard(),
                        ),
                    ),
                    None => crate::events::turn2(
                        QuizState::HandleQuestion {
                            quiz_name,
                            question_name: question_name.clone(),
                        },
                        act_send_keep(chat_id, Msg::ReturningBack),
                        act_send_keep(chat_id, Msg::QuestionNotFound { text: question_name }),
                    ),
                }
            } else if str_eq(t.as_str(), "Delete answer") {
                match store.delete_answer(
                    quiz_name.as_str(),
                    question_name.as_str(),
                    answer_name.as_str(),
                ) {
                    Ok(_) => crate::events::turn1(
                        QuizState::HandleQuestion { quiz_name, question_name },
                        act_send_rows(chat_id, Msg::AnswerDeleted, edit_question_keyboard()),
                    ),
                    Err(_) => crate::events::turn1(
                        QuizState::HandleQuestion { quiz_name, question_name },
                        act_send_keep(chat_id, Msg::GenericError),
                    ),
                }
            } else if str_eq(t.as_str(), "Edit text") {
                crate::events::turn1(
                    QuizState::EditAnswerText { quiz_name, question_name, answer_name },
                    act_send_keep(chat_id, Msg::NewAnswerTextPrompt),
                )
            } else if str_eq(t.as_str(), "Edit corectness") {
                crate::events::turn1(
                    QuizState::EditCorectness { quiz_name, question_name, answer_name },
                    act_send_rows(chat_id, Msg::AskCorrectness, yes_no_keyboard()),
                )
            } else if str_eq(t.as_str(), "Back") {
                crate::events::turn1(
                    QuizState::HandleQuestion { quiz_name, question_name },
                    act_send_rows(chat_id, Msg::HandleQuestionPrompt, edit_question_keyboard()),
                )
            } else {
                crate::events::turn1(
                    QuizState::HandleAnswer { quiz_name, question_name, answer_name },
                    act_send_keep(chat_id, Msg::InvalidInput),
                )
            }
        },
        None => crate::events::turn1(
            QuizState::HandleAnswer { quiz_name, question_name, answer_name },
            act_send_keep(chat_id, Msg::InvalidInput),
        ),
    }
}

/// Renaming the selected answer; the state keeps the key it already holds.
pub open spec fn model_edit_answer_text(
    s: Seq<QuizView>,
    chat_id: i64,
    quiz_name: Seq<char>,
    question_name: Seq<char>,
    answer_name: Seq<char>,
    text: Option<Seq<char>>,
) -> (Seq<QuizView>, TurnView) {
    match text {
        Some(new) => if has_answer_path(s, quiz_name, question_name, answer_name) && (new
            == answer_name || !has_answer(question_in(s, quiz_name, question_name).answers, new)) {
            (
                s.update(
                    find_quiz(s, quiz_name),
                    (QuizView {
                        questions: quiz_at(s, quiz_name).questions.update(
                            crate::store::find_question(
                                quiz_at(s, quiz_name).questions,
                                question_name,
                            ),
                            (QuestionView {
                                answers: question_in(s, quiz_name, question_name).answers.update(
                                    crate::store::find_answer(
                                        question_in(s, quiz_name, question_name).answers,
                                        answer_name,
                                    ),
                                    (crate::quiz::AnswerView {
                                        text: new,
                                        ..crate::store::answer_in(
                                            s,
                                            quiz_name,
                                            question_name,
                                            answer_name,
                                        )
                                    }),
                                ),
                                ..question_in(s, quiz_name, question_name)
                            }),
                        ),
                        ..quiz_at(s, quiz_name)
                    }),
                ),
                TurnView {
                    next: StateView::HandleAnswer { quiz_name, question_name, answer_name },
                    actions: seq![
                        send_rows(
                            chat_id,
                            MsgView::AnswerTextUpdated { new_text: new },
                            edit_answer_labels(),
                        ),
                    ],
                },
            )
        } else {
            (
                s,
                TurnView {
                    next: StateView::EditAnswerText { quiz_name, question_name, answer_name },
                    actions: seq![send_keep(chat_id, MsgView::GenericError)],
                },
            )
        },
        None => (
            s,
            TurnView {
                next: StateView::EditAnswerText { quiz_name, question_name, answer_name },
                actions: seq![send_keep(chat_id, MsgView::InvalidInput)],
            },
        ),
    }
}

/// Renaming the selected answer (see [`model_edit_answer_text`]).
pub fn edit_answer_text(
    store: &mut QuizStore,
    chat_id: i64,
    quiz_name: String,
    question_name: String,
    answer_name: String,
    text: Option<String>,
) -> (r: Turn)
    requires
        old(store).wf(),
    ensures
        final(store).wf(),
        (final(store)@, r@) == model_edit_answer_text(
            old(store)@,
            chat_id,
            quiz_name@,
            question_name@,
            answer_name@,
            text.deep_view(),
        ),
{
    match text {
        Some(new) => {
            match store.edit_answer_text(
                quiz_name.as_str(),
                question_name.as_str(),
                answer_name.as_str(),
                new.as_str(),
            ) {
                Ok(updated) => crate::events::turn1(
                    QuizState::HandleAnswer { quiz_name, question_name, answer_name },
                    act_send_rows(
                        chat_id,
                        Msg::AnswerTextUpdated { new_text: updated },
                        edit_answer_keyboard(),
                    ),
                ),
                Err(_) => crate::events::turn1(
                    QuizState::EditAnswerText { quiz_name, question_name, answer_name },
                    act_send_keep(chat_id, Msg::GenericError),
                ),
            }
        },
        None => crate::events::turn1(
            QuizState::EditAnswerText { quiz_name, question_name, answer_name },
            act_send_keep(chat_id, Msg::InvalidInput),
        ),
    }
}

/// Setting the selected answer's correctness by natural key: only that row
/// changes.
pub open spec fn model_edit_corectness(
    s: Seq<QuizView>,
    chat_id: i64,
    quiz_name: Seq<char>,
    question_name: Seq<char>,
    answer_name: Seq<char>,
    text: Option<Seq<char>>,
) -> (Seq<QuizView>, TurnView) {
    match text {
        Some(t) => if is_affirmative(t) || is_negative(t) {
            if has_answer_path(s, quiz_name, question_name, answer_name) {
                (
                    s.update(
                        find_quiz(s, quiz_name),
                        (QuizView {
                            questions: quiz_at(s, quiz_name).questions.update(
                                crate::store::find_question(
                                    quiz_at(s, quiz_name).questions,
                                    question_name,
                                ),
                                (QuestionView {
                                    answers: question_in(
                                        s,
                                        quiz_name,
                                        question_name,
                                    ).answers.update(
                                        crate::store::find_answer(
                                            question_in(s, quiz_name, question_name).answers,
                                            answer_name,
                                        ),
                                        (crate::quiz::AnswerView {
                                            is_correct: is_affirmative(t),
                                            ..crate::store::answer_in(
                                                s,
                                                quiz_name,
                                                question_name,
                                                answer_name,
                                            )
                                        }),
                                    ),
                                    ..question_in(s, quiz_name, question_name)
                                }),
                            ),
                            ..quiz_at(s, quiz_name)
                        }),
                    ),
                    TurnView {
                        next: StateView::HandleAnswer { quiz_name, question_name, answer_name },
                        actions: seq![
                            send_keep(
                                chat_id,
                                MsgView::CorrectnessSet {
                                    name: answer_name,
                                    correct: is_affirmative(t),
                                },
                            ),
                        ],
                    },
                )
            } else {
                (
                    s,
                    TurnView {
                        next: StateView::EditCorectness { quiz_name, question_name, answer_name },
                        actions: seq![send_keep(chat_id, MsgView::GenericError)],
                    },
                )
            }
        } else {
            (
                s,
                TurnView {
                    next: StateView::EditCorectness { quiz_name, question_name, answer_name },
                    actions: seq![send_keep(chat_id, MsgView::InvalidInput)],
                },
            )
        },
        None => (
            s,
            TurnView {
                next: StateView::EditCorectness { quiz_name, question_name, answer_name },
                actions: seq![send_keep(chat_id, MsgView::InvalidInput)],
            },
        ),
    }
}

/// Setting the selected answer's correctness (see
/// [`model_edit_corectness`]).
pub fn edit_corectness(
    store: &mut QuizStore,
    chat_id: i64,
    quiz_name: String,
    question_name: String,
    answer_name: String,
    text: Option<String>,
) -> (r: Turn)
    requires
        old(store).wf(),
    ensures
        final(store).wf(),
        (final(store)@, r@) == model_edit_corectness(
            old(store)@,
            chat_id,
            quiz_name@,
            question_name@,
            answer_name@,
            text.deep_view(),
        ),
{
    match text {
        Some(t) => {
            let yes = affirmative(t.as_str());
            let no = negative(t.as_str());
            if yes || no {
                match store.edit_corectness(
                    quiz_name.as_str(),
                    question_name.as_str(),
                    answer_name.as_str(),
                    yes,
                ) {
                    Ok(_) => crate::events::turn1(
                        QuizState::HandleAnswer {
                            quiz_name,
                            question_name,
                            answer_name: answer_name.clone(),
                        },
                        act_send_keep(
                            chat_id,
                            Msg::CorrectnessSet { name: answer_name, correct: yes },
                        ),
                    ),
                    Err(_) => crate::events::turn1(
                        QuizState::EditCorectness { quiz_name, question_name, answer_name },
                        act_send_keep(chat_id, Msg::GenericError),
                    ),
                }
            } else {
                crate::events::turn1(
                    QuizState::EditCorectness { quiz_name, question_name, answer_name },
                    act_send_keep(chat_id, Msg::InvalidInput),
                )
            }
        },
        None => crate::events::turn1(
            QuizState::EditCorectness { quiz_name, question_name, answer_name },
            act_send_keep(chat_id, Msg::InvalidInput),
        ),
    }
}

} // verus!
