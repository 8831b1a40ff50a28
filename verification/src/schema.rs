//! The top-level dialogue machine: one transition from (state, inbound
//! event) to (next state, outbound actions), calling the repository where
//! needed. The reserved commands are handled first, in any state; then the
//! event is routed to the handler of the current state family; any (state,
//! event) pair not matched falls back to a generic reply without changing
//! state. `handle_event` is the engine entry: it reads the user's dialogue,
//! runs the transition and writes the state back under the version it read.

use vstd::prelude::*;

use crate::commands::spec_parse_command;
use crate::commands::Command;
use crate::commands::parse_command;
use crate::dialogue::next_version;
use crate::dialogue::state_of;
use crate::dialogue::version_of;
use crate::dialogue::DialogueStore;
use crate::events::act_send_keep;
use crate::events::act_send_remove;
use crate::events::act_send_rows;
use crate::events::send_keep;
use crate::events::send_remove;
use crate::events::send_rows;
use crate::events::Action;
use crate::events::ActionView;
use crate::events::Event;
use crate::events::EventView;
use crate::events::Msg;
use crate::events::MsgView;
use crate::events::Turn;
use crate::events::TurnView;
use crate::keyboard::action_keyboard;
use crate::keyboard::action_labels;
use crate::keyboard::name_labels;
use crate::keyboard::names_keyboard;
use crate::quiz::QuizView;
use crate::state::QuizState;
use crate::state::StateView;
use crate::store::QuizStore;

verus! {

/// The top-level menu in the idle state: start a construction, pick a quiz
/// to take, or pick one to edit. Unrecognized input re-prompts.
pub open spec fn model_choose_what_to_do(
    s: Seq<QuizView>,
    chat_id: i64,
    text: Option<Seq<char>>,
) -> TurnView {
    match text {
        Some(t) => if t == "Create a new quiz🏗️"@ {
            TurnView {
                next: StateView::ReceiveQuizName,
                actions: seq![send_remove(chat_id, MsgView::AskQuizTitle)],
            }
        } else if t == "Take a quiz📝"@ {
            if s.len() == 0 {
                TurnView {
                    next: StateView::Start,
                    actions: seq![send_keep(chat_id, MsgView::NoQuizzesAvailable)],
                }
            } else {
                TurnView {
                    next: StateView::Selection,
                    actions: seq![
                        send_rows(
                            chat_id,
                            MsgView::ChooseQuizToTake,
                            name_labels(s.map_values(|q: QuizView| q.title)),
                        ),
                    ],
                }
            }
        } else if t == "Edit an existing quiz✏️️"@ {
            if s.len() == 0 {
                TurnView {
                    next: StateView::Start,
                    actions: seq![send_keep(chat_id, MsgView::NoQuizzesAvailable)],
                }
            } else {
                TurnView {
                    next: StateView::StartSelect,
                    actions: seq![
                        send_rows(
                            chat_id,
                            MsgView::SelectQuizToEdit,
                            name_labels(s.map_values(|q: QuizView| q.title)),
                        ),
                    ],
                }
            }
        } else {
            TurnView {
                next: StateView::Start,
                actions: seq![send_keep(chat_id, MsgView::InvalidInput)],
            }
        },
        None => TurnView {
            next: StateView::Start,
            actions: seq![send_keep(chat_id, MsgView::InvalidInput)],
        },
    }
}

/// The top-level menu (see [`model_choose_what_to_do`]).
pub fn choose_what_to_do(store: &QuizStore, chat_id: i64, text: Option<String>) -> (r: Turn)
    ensures
        r@ == model_choose_what_to_do(store@, chat_id, text.deep_view()),
{
    match text {
        Some(t) => {
            if crate::tokens::str_eq(t.as_str(), "Create a new quiz🏗️") {
                crate::events::turn1(
                    QuizState::ReceiveQuizName,
                    act_send_remove(chat_id, Msg::AskQuizTitle),
                )
            } else if crate::tokens::str_eq(t.as_str(), "Take a quiz📝") {
                let names = store.retreive_all_quiz_names();
                if names.len() == 0 {
                    crate::events::turn1(
                        QuizState::Start,
                        act_send_keep(chat_id, Msg::NoQuizzesAvailable),
                    )
                } else {
                    crate::events::turn1(
                        QuizState::Selection,
                        act_send_rows(chat_id, Msg::ChooseQuizToTake, names_keyboard(names)),
                    )
                }
            } else if crate::tokens::str_eq(t.as_str(), "Edit an existing quiz✏️️") {
                let names = store.retreive_all_quiz_names();
                if names.len() == 0 {
                    crate::events::turn1(
                        QuizState::Start,
                        act_send_keep(chat_id, Msg::NoQuizzesAvailable),
                    )
                } else {
                    crate::events::turn1(
                        QuizState::StartSelect,
                        act_send_rows(chat_id, Msg::SelectQuizToEdit, names_keyboard(names)),
                    )
                }
            } else {
                crate::events::turn1(QuizState::Start, act_send_keep(chat_id, Msg::InvalidInput))
            }
        },
        None => crate::events::turn1(QuizState::Start, act_send_keep(chat_id, Msg::InvalidInput)),
    }
}

/// The whole machine, one turn: reserved commands first, then the current
/// state's handler, then the fallback. Returns the repository as it stands
/// after the turn together with the turn itself.
pub open spec fn model_transition(
    s: Seq<QuizView>,
    state: StateView,
    event: EventView,
    admin: Seq<char>,
) -> (Seq<QuizView>, TurnView) {
    match event {
        EventView::Message { chat_id, username, text } => {
            let cmd = match text {
                Some(t) => spec_parse_command(t),
                None => None,
            };
            if cmd == Some(Command::Help) {
                (
                    s,
                    TurnView { next: state, actions: seq![send_keep(chat_id, MsgView::Help)] },
                )
            } else if cmd == Some(Command::Cancel) {
                (
                    s,
                    TurnView {
                        next: StateView::Start,
                        actions: seq![send_keep(chat_id, MsgView::Cancelling)],
                    },
                )
            } else if cmd == Some(Command::Start) {
                (
                    s,
                    TurnView {
                        next: StateView::Start,
                        actions: seq![
                            send_rows(
                                chat_id,
                                MsgView::ChooseWhatToDo,
                                action_labels(username, admin),
                            ),
                        ],
                    },
                )
            } else {
                match state {
                    StateView::Start => (s, model_choose_what_to_do(s, chat_id, text)),
                    StateView::ReceiveQuizName => (
                        s,
                        crate::constructor::model_receive_quiz_description(s, chat_id, text),
                    ),
                    StateView::ReceiveQuizDescription { quiz_name } => (
                        s,
                        crate::constructor::model_receive_quiz_author(
                            chat_id,
                            username,
                            quiz_name,
                            text,
                        ),
                    ),
                    StateView::ReceiveQuizAuthor { quiz_info } => {
                        crate::constructor::model_receive_new_question(
                            s,
                            chat_id,
                            username,
                            admin,
                            quiz_info,
                            false,
                            text,
                        )
                    },
                    StateView::ReceiveAddAnotherQuestion { quiz_info } => {
                        crate::constructor::model_receive_new_question(
                            s,
                            chat_id,
                            username,
                            admin,
                            quiz_info,
                            true,
                            text,
                        )
                    },
                    StateView::ReceiveNewQuestion { quiz_info } => (
                        s,
                        crate::constructor::model_receive_new_answer(chat_id, quiz_info, text),
                    ),
                    StateView::ReceiveNewAnswer { quiz_info, new_question, answers } => (
                        s,
                        crate::constructor::model_receive_answer_is_correct(
                            chat_id,
                            quiz_info,
                            new_question,
                            answers,
                            text,
                        ),
                    ),
                    StateView::ReceiveAnswerIsCorrect {
                        quiz_info,
                        new_question,
                        answers,
                        new_answer,
                    } => (
                        s,
                        crate::constructor::model_receive_add_another_answer_or_question(
                            chat_id,
                            quiz_info,
                            new_question,
                            answers,
                            new_answer,
                            text,
                        ),
                    ),
                    StateView::ReceiveAddAnotherAnswer { quiz_info, new_question, answers } => (
                        s,
                        crate::constructor::model_receive_add_new_answer(
                            chat_id,
                            quiz_info,
                            new_question,
                            answers,
                            text,
                        ),
                    ),
                    StateView::Selection => (
                        s,
                        crate::runner::model_selection(s, chat_id, text),
                    ),
                    StateView::ReadyToRun { quiz, curr_idx } => (
                        s,
                        crate::runner::model_running_ready(
                            chat_id,
                            username,
                            admin,
                            quiz,
                            curr_idx,
                            text,
                        ),
                    ),
                    StateView::StartSelect => (
                        s,
                        crate::editor::model_select_quiz(s, chat_id, text),
                    ),
                    StateView::HandleQuiz { quiz_name } => crate::editor::model_handle_quiz(
                        s,
                        chat_id,
                        username,
                        admin,
                        quiz_name,
                        text,
                    ),
                    StateView::EditName { quiz_name } => crate::editor::model_edit_name(
                        s,
                        chat_id,
                        quiz_name,
                        text,
                    ),
                    StateView::EditDescription { quiz_name } => {
                        crate::editor::model_edit_description(s, chat_id, quiz_name, text)
                    },
                    StateView::SelectQuestion { quiz_name } => (
                        s,
                        crate::editor::model_select_question(s, chat_id, quiz_name, text),
                    ),
                    StateView::HandleQuestion { quiz_name, question_name } => {
                        crate::editor::model_handle_question(
                            s,
                            chat_id,
                            quiz_name,
                            question_name,
                            text,
                        )
                    },
                    StateView::EditQuestionText { quiz_name, question_name } => {
                        crate::editor::model_edit_question_text(
                            s,
                            chat_id,
                            quiz_name,
                            question_name,
                            text,
                        )
                    },
                    StateView::AddQuestion { quiz_name } => {
                        crate::editor::model_editor_add_question(s, chat_id, quiz_name, text)
                    },
                    StateView::AddAnswer { quiz_name, question_name } => (
                        s,
                        crate::editor::model_editor_add_answer(
                            chat_id,
                            quiz_name,
                            question_name,
                            text,
                        ),
                    ),
                    StateView::AddAnswerCorrectness { quiz_name, question_name, text: pending } => {
                        crate::editor::model_editor_add_corectness(
                            s,
                            chat_id,
                            quiz_name,
                            question_name,
                            pending,
                            text,
                        )
                    },
                    StateView::SelectAnswer { quiz_name, question_name } => (
                        s,
                        crate::editor::model_select_answer(
                            s,
                            chat_id,
                            quiz_name,
                            question_name,
                            text,
                        ),
                    ),
                    StateView::HandleAnswer { quiz_name, question_name, answer_name } => {
                        crate::editor::model_handle_answer(
                            s,
                            chat_id,
                            quiz_name,
                            question_name,
                            answer_name,
                            text,
                        )
                    },
                    StateView::EditAnswerText { quiz_name, question_name, answer_name } => {
                        crate::editor::model_edit_answer_text(
                            s,
                            chat_id,
                            quiz_name,
                            question_name,
                            answer_name,
                            text,
                        )
                    },
                    StateView::EditCorectness { quiz_name, question_name, answer_name } => {
                        crate::editor::model_edit_corectness(
                            s,
                            chat_id,
                            quiz_name,
                            question_name,
                            answer_name,
                            text,
                        )
                    },
                    _ => (
                        s,
                        TurnView {
                            next: state,
                            actions: seq![send_keep(chat_id, MsgView::UnableToHandle)],
                        },
                    ),
                }
            }
        },
        EventView::Callback { chat_id, username, callback_id, data, message } => {
            match state {
                StateView::Running { quiz, curr_idx, score } => (
                    s,
                    crate::runner::model_take_answer(
                        chat_id,
                        username,
                        admin,
                        callback_id,
                        data,
                        message,
                        quiz,
                        curr_idx,
                        score,
                    ),
                ),
                _ => (s, TurnView { next: state, actions: Seq::<ActionView>::empty() }),
            }
        },
    }
}

/// One turn of the machine (see [`model_transition`]).
pub fn transition(store: &mut QuizStore, state: QuizState, event: Event, admin: &String) -> (r:
    Turn)
    requires
        old(store).wf(),
    ensures
        final(store).wf(),
        (final(store)@, r@) == model_transition(old(store)@, state@, event@, admin@),
{
    match event {
        Event::Message { chat_id, username, text } => {
            let cmd = match &text {
                Some(t) => parse_command(t.as_str()),
                None => None,
            };
            match cmd {
                Some(Command::Help) => {
                    return crate::events::turn1(state, act_send_keep(chat_id, Msg::Help));
                },
                Some(Command::Cancel) => {
                    return crate::events::turn1(
                        QuizState::Start,
                        act_send_keep(chat_id, Msg::Cancelling),
                    );
                },
                Some(Command::Start) => {
                    return crate::events::turn1(
                        QuizState::Start,
                        act_send_rows(
                            chat_id,
                            Msg::ChooseWhatToDo,
                            action_keyboard(username.as_str(), admin.as_str()),
                        ),
                    );
                },
                _ => {},
            }
            match state {
                QuizState::Start => choose_what_to_do(store, chat_id, text),
                QuizState::ReceiveQuizName => crate::constructor::receive_quiz_description(
                    store,
                    chat_id,
                    text,
                ),
                QuizState::ReceiveQuizDescription { quiz_name } => {
                    crate::constructor::receive_quiz_author(chat_id, &username, quiz_name, text)
                },
                QuizState::ReceiveQuizAuthor { quiz_info } => {
                    crate::constructor::receive_new_question(
                        store,
                        chat_id,
                        &username,
                        admin,
                        quiz_info,
                        false,
                        text,
                    )
                },
                QuizState::ReceiveAddAnotherQuestion { quiz_info } => {
                    crate::constructor::receive_new_question(
                        store,
                        chat_id,
                        &username,
                        admin,
                        quiz_info,
                        true,
                        text,
                    )
                },
                QuizState::ReceiveNewQuestion { quiz_info } => {
                    crate::constructor::receive_new_answer(chat_id, quiz_info, text)
                },
                QuizState::ReceiveNewAnswer { quiz_info, new_question, answers } => {
                    crate::constructor::receive_answer_is_correct(
                        chat_id,
                        quiz_info,
                        new_question,
                        answers,
                        text,
                    )
                },
                QuizState::ReceiveAnswerIsCorrect {
                    quiz_info,
                    new_question,
                    answers,
                    new_answer,
                } => {
                    crate::constructor::receive_add_another_answer_or_question(
                        chat_id,
                        quiz_info,
                        new_question,
                        answers,
                        new_answer,
                        text,
                    )
                },
                QuizState::ReceiveAddAnotherAnswer { quiz_info, new_question, answers } => {
                    crate::constructor::receive_add_new_answer(
                        chat_id,
                        quiz_info,
                        new_question,
                        answers,
                        text,
                    )
                },
                QuizState::Selection => crate::runner::selection(store, chat_id, text),
                QuizState::ReadyToRun { quiz, curr_idx } => {
                    crate::runner::running_ready(chat_id, &username, admin, quiz, curr_idx, text)
                },
                QuizState::StartSelect => crate::editor::select_quiz(store, chat_id, text),
                QuizState::HandleQuiz { quiz_name } => {
                    crate::editor::handle_quiz(store, chat_id, &username, admin, quiz_name, text)
                },
                QuizState::EditName { quiz_name } => crate::editor::edit_name(
                    store,
                    chat_id,
                    quiz_name,
                    text,
                ),
                QuizState::EditDescription { quiz_name } => crate::editor::edit_description(
                    store,
                    chat_id,
                    quiz_name,
                    text,
                ),
                QuizState::SelectQuestion { quiz_name } => crate::editor::select_question(
                    store,
                    chat_id,
                    quiz_name,
                    text,
                ),
                QuizState::HandleQuestion { quiz_name, question_name } => {
                    crate::editor::handle_question(store, chat_id, quiz_name, question_name, text)
                },
                QuizState::EditQuestionText { quiz_name, question_name } => {
                    crate::editor::edit_question_text(
                        store,
                        chat_id,
                        quiz_name,
                        question_name,
                        text,
                    )
                },
                QuizState::AddQuestion { quiz_name } => crate::editor::editor_add_question(
                    store,
                    chat_id,
                    quiz_name,
                    text,
                ),
                QuizState::AddAnswer { quiz_name, question_name } => {
                    crate::editor::editor_add_answer(chat_id, quiz_name, question_name, text)
                },
                QuizState::AddAnswerCorrectness { quiz_name, question_name, text: pending } => {
                    crate::editor::editor_add_corectness(
                        store,
                        chat_id,
                        quiz_name,
                        question_name,
                        pending,
                        text,
                    )
                },
                QuizState::SelectAnswer { quiz_name, question_name } => {
                    crate::editor::select_answer(store, chat_id, quiz_name, question_name, text)
                },
                QuizState::HandleAnswer { quiz_name, question_name, answer_name } => {
                    crate::editor::handle_answer(
                        store,
                        chat_id,
                        quiz_name,
                        question_name,
                        answer_name,
                        text,
                    )
                },
                QuizState::EditAnswerText { quiz_name, question_name, answer_name } => {
                    crate::editor::edit_answer_text(
                        store,
                        chat_id,
                        quiz_name,
                        question_name,
                        answer_name,
                        text,
                    )
                },
                QuizState::EditCorectness { quiz_name, question_name, answer_name } => {
                    crate::editor::edit_corectness(
                        store,
                        chat_id,
                        quiz_name,
                        question_name,
                        answer_name,
                        text,
                    )
                },
                other => crate::events::turn1(other, act_send_keep(chat_id, Msg::UnableToHandle)),
            }
        },
        Event::Callback { chat_id, username, callback_id, data, message } => {
            match state {
                QuizState::Running { quiz, curr_idx, score } => crate::runner::take_answer(
                    chat_id,
                    &username,
                    admin,
                    callback_id,
                    data,
                    message,
                    quiz,
                    curr_idx,
                    score,
                ),
                other => crate::events::turn0(other),
            }
        },
    }
}

/// The state a user's dialogue is in, idle when none is stored.
pub open spec fn dialogue_state_or_start(
    d: Seq<crate::dialogue::DialogueEntryView>,
    user: u64,
) -> StateView {
    match state_of(d, user) {
        Some(st) => st,
        None => StateView::Start,
    }
}

/// The engine entry for one inbound event: read the user's dialogue, run the
/// transition against the repository, and write the next state back under
/// the version that was read. Events of one user are serialized by that
/// versioned write; here, with the whole turn under one borrow, the write
/// always lands.
pub fn handle_event(
    dialogue: &mut DialogueStore,
    store: &mut QuizStore,
    user: u64,
    event: Event,
    admin: &String,
) -> (r: Vec<Action>)
    requires
        old(dialogue).wf(),
        old(store).wf(),
    ensures
        final(dialogue).wf(),
        final(store).wf(),
        final(store)@ == model_transition(
            old(store)@,
            dialogue_state_or_start(old(dialogue)@, user),
            event@,
            admin@,
        ).0,
        r.deep_view() == model_transition(
            old(store)@,
            dialogue_state_or_start(old(dialogue)@, user),
            event@,
            admin@,
        ).1.actions,
        state_of(final(dialogue)@, user) == Some(
            model_transition(
                old(store)@,
                dialogue_state_or_start(old(dialogue)@, user),
                event@,
                admin@,
            ).1.next,
        ),
        version_of(final(dialogue)@, user) == next_version(version_of(old(dialogue)@, user)),
        forall|w: u64|
            w != user ==> version_of(final(dialogue)@, w) == version_of(old(dialogue)@, w)
                && state_of(final(dialogue)@, w) == state_of(old(dialogue)@, w),
{
    let (version, state) = dialogue.get(user);
    let turn = transition(store, state, event, admin);
    let committed = dialogue.set(user, version, turn.next);
    proof {
        assert(committed);
    }
    turn.actions
}

} // verus!
