//! The runner flow: read-only traversal of a stored quiz and scoring. Before
//! a question is presented, questions without answers are skipped (with a
//! notice each); when the traversal is exhausted the run ends immediately,
//! reporting the score over the questions that could be answered at all.
//! An answer selection is matched by exact text, first match wins; a correct
//! one scores a point and the presented question is annotated in place.

use vstd::prelude::*;

use crate::events::act_send_choices;
use crate::events::act_send_keep;
use crate::events::act_send_remove;
use crate::events::act_send_rows;
use crate::events::send_choices;
use crate::events::send_keep;
use crate::events::send_remove;
use crate::events::send_rows;
use crate::events::Action;
use crate::events::ActionView;
use crate::events::Msg;
use crate::events::MsgView;
use crate::events::SourceMessage;
use crate::events::SourceMessageView;
use crate::events::Turn;
use crate::events::TurnView;
use crate::keyboard::action_keyboard;
use crate::keyboard::action_labels;
use crate::keyboard::answer_texts;
use crate::keyboard::answers_keyboard;
use crate::keyboard::yes_no_keyboard;
use crate::keyboard::yes_no_labels;
use crate::quiz::Quiz;
use crate::quiz::QuestionView;
use crate::quiz::QuizView;
use crate::state::QuizState;
use crate::state::StateView;
use crate::store::find_answer;
use crate::store::has_quiz;
use crate::store::quiz_at;
use crate::store::QuizStore;
use crate::tokens::affirmative;
use crate::tokens::is_affirmative;
use crate::tokens::is_negative;
use crate::tokens::negative;

verus! {

/// The first index at or after `from` whose question has at least one
/// answer, or the question count when the rest are all bare.
pub open spec fn next_with_answers(qs: Seq<QuestionView>, from: int) -> int
    decreases qs.len() - from,
{
    if from >= qs.len() {
        qs.len() as int
    } else if qs[from].answers.len() > 0 {
        from
    } else {
        next_with_answers(qs, from + 1)
    }
}

/// A stretch of bare questions followed by an answered one (or the end)
/// determines [`next_with_answers`].
pub proof fn lemma_next_with_answers_is(qs: Seq<QuestionView>, from: int, n: int)
    requires
        0 <= from <= n <= qs.len(),
        forall|j: int| from <= j < n ==> qs[j].answers.len() == 0,
        n == qs.len() || qs[n].answers.len() > 0,
    ensures
        next_with_answers(qs, from) == n,
    decreases n - from,
{
    if from < n {
        lemma_next_with_answers_is(qs, from + 1, n);
    }
}

/// How many questions have at least one answer: the denominator of the final
/// report.
pub open spec fn answerable_count(qs: Seq<QuestionView>) -> int
    decreases qs.len(),
{
    if qs.len() == 0 {
        0
    } else {
        answerable_count(qs.drop_last()) + if qs.last().answers.len() > 0 {
            1int
        } else {
            0int
        }
    }
}

/// The count is bounded by the question count.
pub proof fn lemma_answerable_count_bounds(qs: Seq<QuestionView>)
    ensures
        0 <= answerable_count(qs) <= qs.len(),
    decreases qs.len(),
{
    if qs.len() > 0 {
        lemma_answerable_count_bounds(qs.drop_last());
    }
}

/// A quiz whose questions all have zero answers has nothing to answer.
pub proof fn lemma_answerable_count_zero(qs: Seq<QuestionView>)
    requires
        forall|j: int| 0 <= j < qs.len() ==> qs[j].answers.len() == 0,
    ensures
        answerable_count(qs) == 0,
    decreases qs.len(),
{
    if qs.len() > 0 {
        assert forall|j: int| 0 <= j < qs.drop_last().len() implies qs.drop_last()[j].answers.len()
            == 0 by {
            assert(qs.drop_last()[j] == qs[j]);
        }
        lemma_answerable_count_zero(qs.drop_last());
        assert(qs.last().answers.len() == 0);
    }
}

/// One skip notice per question skipped.
pub open spec fn skip_notices(chat_id: i64, k: int) -> Seq<ActionView> {
    Seq::new(
        if k < 0 {
            0nat
        } else {
            k as nat
        },
        |i: int| send_keep(chat_id, MsgView::SkipNotice),
    )
}

/// One more point on a correct answer; the score is already saturated at the
/// type's ceiling otherwise.
pub open spec fn bump(score: u32) -> u32 {
    if score == u32::MAX {
        score
    } else {
        (score + 1) as u32
    }
}

/// Selecting the quiz to take: an existing title is loaded read-only into
/// the session and introduced; an unknown one or missing text re-prompts
/// without a change.
pub open spec fn model_selection(
    s: Seq<QuizView>,
    chat_id: i64,
    text: Option<Seq<char>>,
) -> TurnView {
    match text {
        Some(title) => if has_quiz(s, title) {
            TurnView {
                next: StateView::ReadyToRun { quiz: quiz_at(s, title), curr_idx: 0 },
                actions: seq![
                    send_rows(
                        chat_id,
                        MsgView::QuizIntro {
                            title: quiz_at(s, title).title,
                            description: quiz_at(s, title).description,
                            author: quiz_at(s, title).author,
                            question_count: quiz_at(s, title).questions.len() as usize,
                        },
                        yes_no_labels(),
                    ),
                ],
            }
        } else {
            TurnView {
                next: StateView::Selection,
                actions: seq![send_keep(chat_id, MsgView::QuizNotFound { title })],
            }
        },
        None => TurnView {
            next: StateView::Selection,
            actions: seq![send_keep(chat_id, MsgView::NoInput)],
        },
    }
}

/// Selecting the quiz to take (see [`model_selection`]).
pub fn selection(store: &QuizStore, chat_id: i64, text: Option<String>) -> (r: Turn)
    ensures
        r@ == model_selection(store@, chat_id, text.deep_view()),
{
    match text {
        Some(title) => {
            match store.retreive_quiz(title.as_str()) {
                Some(quiz) => {
                    let intro = Msg::QuizIntro {
                        title: quiz.title().clone(),
                        description: quiz.description().clone(),
                        author: quiz.author().clone(),
                        question_count: quiz.questions.len(),
                    };
                    crate::events::turn1(
                        QuizState::ReadyToRun { quiz, curr_idx: 0 },
                        act_send_rows(chat_id, intro, yes_no_keyboard()),
                    )
                },
                None => crate::events::turn1(
                    QuizState::Selection,
                    act_send_keep(chat_id, Msg::QuizNotFound { title }),
                ),
            }
        },
        None => crate::events::turn1(QuizState::Selection, act_send_keep(chat_id, Msg::NoInput)),
    }
}

/// Confirming the run. An affirmative token begins the traversal at the
/// first question that has answers, skipping bare ones with a notice each;
/// when nothing can be presented the run ends at once, reporting the score
/// accumulated so far (none yet). A negative token aborts to idle; anything
/// else re-prompts without a change.
pub open spec fn model_running_ready(
    chat_id: i64,
    username: Seq<char>,
    admin: Seq<char>,
    quiz: QuizView,
    curr_idx: usize,
    text: Option<Seq<char>>,
) -> TurnView {
    match text {
        Some(t) => if is_affirmative(t) {
            if quiz.questions.len() == 0 {
                TurnView {
                    next: StateView::Start,
                    actions: seq![
                        send_rows(chat_id, MsgView::NoQuestions, action_labels(username, admin)),
                    ],
                }
            } else {
                let n = next_with_answers(quiz.questions, curr_idx as int);
                if n == quiz.questions.len() {
                    TurnView {
                        next: StateView::Start,
                        actions: seq![send_remove(chat_id, MsgView::LetsBegin)] + skip_notices(
                            chat_id,
                            n - curr_idx,
                        ) + seq![
                            send_rows(
                                chat_id,
                                MsgView::QuizResult {
                                    score: 0,
                                    total: answerable_count(quiz.questions) as usize,
                                },
                                action_labels(username, admin),
                            ),
                        ],
                    }
                } else {
                    TurnView {
                        next: StateView::Running { quiz, curr_idx: n as usize, score: 0 },
                        actions: seq![send_remove(chat_id, MsgView::LetsBegin)] + skip_notices(
                            chat_id,
                            n - curr_idx,
                        ) + seq![
                            send_choices(
                                chat_id,
                                MsgView::AskQuestion {
                                    number: (n + 1) as usize,
                                    text: quiz.questions[n].text,
                                },
                                answer_texts(quiz.questions[n].answers),
                            ),
                        ],
                    }
                }
            }
        } else if is_negative(t) {
            TurnView {
                next: StateView::Start,
                actions: seq![
                    send_keep(chat_id, MsgView::QuitQuiz),
                    send_rows(chat_id, MsgView::WhatNext, action_labels(username, admin)),
                ],
            }
        } else {
            TurnView {
                next: StateView::ReadyToRun { quiz, curr_idx },
                actions: seq![send_keep(chat_id, MsgView::InvalidYesNo)],
            }
        },
        None => TurnView {
            next: StateView::ReadyToRun { quiz, curr_idx },
            actions: seq![send_keep(chat_id, MsgView::InvalidYesNo)],
        },
    }
}

/// Confirming the run (see [`model_running_ready`]).
pub fn running_ready(
    chat_id: i64,
    username: &String,
    admin: &String,
    quiz: Quiz,
    curr_idx: usize,
    text: Option<String>,
) -> (r: Turn)
    ensures
        r@ == model_running_ready(chat_id, username@, admin@, quiz@, curr_idx, text.deep_view()),
{
    match text {
        Some(t) => {
            if affirmative(t.as_str()) {
                let len = quiz.questions.len();
                if len == 0 {
                    return crate::events::turn1(
                        QuizState::Start,
                        act_send_rows(
                            chat_id,
                            Msg::NoQuestions,
                            action_keyboard(username.as_str(), admin.as_str()),
                        ),
                    );
                }
                proof {
                    crate::store::lemma_vec_deep(&quiz.questions);
                }
                let mut actions: Vec<Action> = Vec::new();
                actions.push(act_send_remove(chat_id, Msg::LetsBegin));
                let mut n: usize = if curr_idx < len {
                    curr_idx
                } else {
                    len
                };
                while n < len && quiz.questions[n].answers().len() == 0
                    invariant
                        n <= len,
                        len == quiz@.questions.len(),
                        curr_idx <= n || (curr_idx >= len && n == len),
                        forall|j: int|
                            curr_idx as int <= j < n as int ==> quiz@.questions[j].answers.len()
                                == 0,
                        forall|j: int|
                            0 <= j < quiz@.questions.len() ==> #[trigger] quiz@.questions[j]
                                == quiz.questions@[j].deep_view(),
                        actions.deep_view() =~= seq![send_remove(chat_id, MsgView::LetsBegin)]
                            + skip_notices(chat_id, n - curr_idx),
                    decreases len - n,
                {
                    let ghost prevd = actions.deep_view();
                    let ghost prev = actions@;
                    actions.push(act_send_keep(chat_id, Msg::SkipNotice));
                    n = n + 1;
                    proof {
                        crate::store::lemma_deep_push(
                            prev,
                            actions@,
                            actions@[actions@.len() - 1],
                        );
                        crate::store::lemma_vec_deep(&actions);
                        assert(crate::store::seq_deep(prev) == prevd) by {
                            assert(crate::store::seq_deep(prev) =~= prevd);
                        }
                        assert(actions.deep_view() =~= seq![
                            send_remove(chat_id, MsgView::LetsBegin),
                        ] + skip_notices(chat_id, n - curr_idx));
                    }
                }
                proof {
                    if curr_idx <= len {
                        lemma_next_with_answers_is(
                            quiz@.questions,
                            if curr_idx < len {
                                curr_idx as int
                            } else {
                                len as int
                            },
                            n as int,
                        );
                        if curr_idx >= len {
                            assert(next_with_answers(quiz@.questions, curr_idx as int) == len);
                        }
                    } else {
                        assert(next_with_answers(quiz@.questions, curr_idx as int) == len);
                    }
                    lemma_answerable_count_bounds(quiz@.questions);
                }
                if n == len {
                    let total = count_answerable(&quiz);
                    let mut out = actions;
                    out.push(
                        act_send_rows(
                            chat_id,
                            Msg::QuizResult { score: 0, total },
                            action_keyboard(username.as_str(), admin.as_str()),
                        ),
                    );
                    let t = Turn { next: QuizState::Start, actions: out };
                    proof {
                        assert(t@.actions =~= model_running_ready(
                            chat_id,
                            username@,
                            admin@,
                            quiz@,
                            curr_idx,
                            text.deep_view(),
                        ).actions);
                    }
                    t
                } else {
                    let labels = answers_keyboard(quiz.questions[n].answers());
                    let number: usize = n + 1;
                    let qtext = quiz.questions[n].text();
                    proof {
                        assert(quiz.questions@[n as int].deep_view()
                            == quiz@.questions[n as int]);
                    }
                    let mut out = actions;
                    out.push(
                        act_send_choices(chat_id, Msg::AskQuestion { number, text: qtext }, labels),
                    );
                    let t = Turn {
                        next: QuizState::Running { quiz, curr_idx: n, score: 0 },
                        actions: out,
                    };
                    proof {
                        assert(t@.actions =~= model_running_ready(
                            chat_id,
                            username@,
                            admin@,
                            t@.next->Running_quiz,
                            curr_idx,
                            text.deep_view(),
                        ).actions);
                    }
                    t
                }
            } else if negative(t.as_str()) {
                crate::events::turn2(
                    QuizState::Start,
                    act_send_keep(chat_id, Msg::QuitQuiz),
                    act_send_rows(
                        chat_id,
                        Msg::WhatNext,
                        action_keyboard(username.as_str(), admin.as_str()),
                    ),
                )
            } else {
                crate::events::turn1(
                    QuizState::ReadyToRun { quiz, curr_idx },
                    act_send_keep(chat_id, Msg::InvalidYesNo),
                )
            }
        },
        None => crate::events::turn1(
            QuizState::ReadyToRun { quiz, curr_idx },
            act_send_keep(chat_id, Msg::InvalidYesNo),
        ),
    }
}

/// How many questions of the quiz have at least one answer.
fn count_answerable(quiz: &Quiz) -> (r: usize)
    ensures
        r as int == answerable_count(quiz@.questions),
{
    proof {
        crate::store::lemma_vec_deep(&quiz.questions);
        lemma_answerable_count_bounds(quiz@.questions);
    }
    let mut count: usize = 0;
    let mut i: usize = 0;
    let len = quiz.questions.len();
    while i < len
        invariant
            i <= len,
            len == quiz@.questions.len(),
            count as int == answerable_count(quiz@.questions.take(i as int)),
            count <= i,
            forall|j: int|
                0 <= j < quiz@.questions.len() ==> #[trigger] quiz@.questions[j]
                    == quiz.questions@[j].deep_view(),
        decreases len - i,
    {
        let has = quiz.questions[i].answers().len() > 0;
        proof {
            assert(quiz@.questions.take(i as int + 1).drop_last() =~= quiz@.questions.take(
                i as int,
            ));
            assert(quiz@.questions.take(i as int + 1).last() == quiz@.questions[i as int]);
            lemma_answerable_count_bounds(quiz@.questions.take(i as int));
        }
        if has {
            count = count + 1;
        }
        i = i + 1;
    }
    proof {
        assert(quiz@.questions.take(i as int) =~= quiz@.questions);
    }
    count
}

/// The acknowledgement and in-place annotation that every answered selection
/// produces: the callback is acknowledged, and the presented question's
/// message — when the transport reported it — is edited to carry the
/// feedback.
pub open spec fn base_actions(
    chat_id: i64,
    callback_id: Seq<char>,
    message: Option<SourceMessageView>,
    given: Seq<char>,
    correct: bool,
) -> Seq<ActionView> {
    seq![ActionView::AnswerCallback { callback_id }] + match message {
        Some(m) => seq![
            ActionView::EditMessage {
                chat_id,
                message_id: m.message_id,
                body: MsgView::AnswerFeedback { given, correct },
            },
        ],
        None => Seq::<ActionView>::empty(),
    }
}

/// Taking an answer selection. The chosen text is matched against the
/// current question's answers, first match wins; a correct match scores a
/// point and the question message is annotated in place. The traversal then
/// advances, skipping bare questions, and either presents the next question
/// or ends the run with the final report. A selection that matches nothing
/// (or arrives without data) falls back without changing the run.
pub open spec fn model_take_answer(
    chat_id: i64,
    username: Seq<char>,
    admin: Seq<char>,
    callback_id: Seq<char>,
    data: Option<Seq<char>>,
    message: Option<SourceMessageView>,
    quiz: QuizView,
    curr_idx: usize,
    score: u32,
) -> TurnView {
    match data {
        None => TurnView {
            next: StateView::Running { quiz, curr_idx, score },
            actions: Seq::<ActionView>::empty(),
        },
        Some(given) => {
            if curr_idx as int >= quiz.questions.len() || find_answer(
                quiz.questions[curr_idx as int].answers,
                given,
            ) < 0 {
                TurnView {
                    next: StateView::Running { quiz, curr_idx, score },
                    actions: seq![
                        ActionView::AnswerCallback { callback_id },
                        send_keep(chat_id, MsgView::GenericError),
                    ],
                }
            } else {
                let k = find_answer(quiz.questions[curr_idx as int].answers, given);
                let correct = quiz.questions[curr_idx as int].answers[k].is_correct;
                let new_score = if correct {
                    bump(score)
                } else {
                    score
                };
                let base = base_actions(chat_id, callback_id, message, given, correct);
                if curr_idx as int + 1 >= quiz.questions.len() {
                    TurnView {
                        next: StateView::Start,
                        actions: base + seq![
                            send_keep(chat_id, MsgView::Congratulations),
                            send_keep(
                                chat_id,
                                MsgView::QuizResult {
                                    score: new_score,
                                    total: answerable_count(quiz.questions) as usize,
                                },
                            ),
                            send_rows(chat_id, MsgView::WhatNext, action_labels(username, admin)),
                        ],
                    }
                } else {
                    let n = next_with_answers(quiz.questions, curr_idx as int + 1);
                    if n == quiz.questions.len() {
                        TurnView {
                            next: StateView::Start,
                            actions: base + skip_notices(chat_id, n - (curr_idx as int + 1)) + seq![
                                send_rows(
                                    chat_id,
                                    MsgView::QuizResult {
                                        score: new_score,
                                        total: answerable_count(quiz.questions) as usize,
                                    },
                                    action_labels(username, admin),
                                ),
                            ],
                        }
                    } else {
                        TurnView {
                            next: StateView::Running {
                                quiz,
                                curr_idx: n as usize,
                                score: new_score,
                            },
                            actions: base + skip_notices(chat_id, n - (curr_idx as int + 1)) + seq![
                                send_choices(
                                    chat_id,
                                    MsgView::AskQuestion {
                                        number: (n + 1) as usize,
                                        text: quiz.questions[n].text,
                                    },
                                    answer_texts(quiz.questions[n].answers),
                                ),
                            ],
                        }
                    }
                }
            }
        },
    }
}

/// Taking an answer selection (see [`model_take_answer`]).
pub fn take_answer(
    chat_id: i64,
    username: &String,
    admin: &String,
    callback_id: String,
    data: Option<String>,
    message: Option<SourceMessage>,
    quiz: Quiz,
    curr_idx: usize,
    score: u32,
) -> (r: Turn)
    ensures
        r@ == model_take_answer(
            chat_id,
            username@,
            admin@,
            callback_id@,
            data.deep_view(),
            message.deep_view(),
            quiz@,
            curr_idx,
            score,
        ),
{
    let given = match data {
        None => {
            return crate::events::turn0(QuizState::Running { quiz, curr_idx, score });
        },
        Some(given) => given,
    };
    proof {
        crate::store::lemma_vec_deep(&quiz.questions);
    }
    let len = quiz.questions.len();
    if curr_idx >= len {
        return crate::events::turn2(
            QuizState::Running { quiz, curr_idx, score },
            Action::AnswerCallback { callback_id },
            act_send_keep(chat_id, Msg::GenericError),
        );
    }
    let k = match crate::store::answer_pos(&quiz.questions[curr_idx], given.as_str()) {
        None => {
            return crate::events::turn2(
                QuizState::Running { quiz, curr_idx, score },
                Action::AnswerCallback { callback_id },
                act_send_keep(chat_id, Msg::GenericError),
            );
        },
        Some(k) => k,
    };
    proof {
        assert(quiz.questions@[curr_idx as int].deep_view() == quiz@.questions[curr_idx as int]);
        crate::store::lemma_vec_deep(&quiz.questions[curr_idx as int].answers);
    }
    let correct = quiz.questions[curr_idx].answers[k].is_correct;
    proof {
        assert(correct == quiz@.questions[curr_idx as int].answers[k as int].is_correct);
    }
    let new_score: u32 = if correct {
        if score == u32::MAX {
            score
        } else {
            score + 1
        }
    } else {
        score
    };
    let mut actions: Vec<Action> = Vec::new();
    actions.push(Action::AnswerCallback { callback_id });
    let ghost given_view = given@;
    match message {
        Some(m) => {
            actions.push(
                Action::EditMessage {
                    chat_id,
                    message_id: m.message_id,
                    body: Msg::AnswerFeedback { given: given.clone(), correct },
                },
            );
        },
        None => {},
    }
    let ghost base = base_actions(
        chat_id,
        callback_id@,
        message.deep_view(),
        given_view,
        correct,
    );
    proof {
        assert(actions.deep_view() =~= base);
    }
    if curr_idx + 1 >= len {
        let total = count_answerable(&quiz);
        proof {
            lemma_answerable_count_bounds(quiz@.questions);
        }
        actions.push(act_send_keep(chat_id, Msg::Congratulations));
        actions.push(act_send_keep(chat_id, Msg::QuizResult { score: new_score, total }));
        actions.push(
            act_send_rows(
                chat_id,
                Msg::WhatNext,
                action_keyboard(username.as_str(), admin.as_str()),
            ),
        );
        let t = Turn { next: QuizState::Start, actions };
        proof {
            assert(t@.actions =~= model_take_answer(
                chat_id,
                username@,
                admin@,
                callback_id@,
                Some(given_view),
                message.deep_view(),
                quiz@,
                curr_idx,
                score,
            ).actions);
        }
        t
    } else {
        let start: usize = curr_idx + 1;
        let mut n: usize = start;
        while n < len && quiz.questions[n].answers.len() == 0
            invariant
                start <= n <= len,
                len == quiz@.questions.len(),
                forall|j: int|
                    start as int <= j < n as int ==> quiz@.questions[j].answers.len() == 0,
                forall|j: int|
                    0 <= j < quiz@.questions.len() ==> #[trigger] quiz@.questions[j]
                        == quiz.questions@[j].deep_view(),
                actions.deep_view() =~= base + skip_notices(chat_id, n - start),
            decreases len - n,
        {
            let ghost prevd = actions.deep_view();
            let ghost prev = actions@;
            actions.push(act_send_keep(chat_id, Msg::SkipNotice));
            n = n + 1;
            proof {
                crate::store::lemma_deep_push(prev, actions@, actions@[actions@.len() - 1]);
                crate::store::lemma_vec_deep(&actions);
                assert(crate::store::seq_deep(prev) == prevd) by {
                    assert(crate::store::seq_deep(prev) =~= prevd);
                }
                assert(actions.deep_view() =~= base + skip_notices(chat_id, n - start));
            }
        }
        proof {
            lemma_next_with_answers_is(quiz@.questions, start as int, n as int);
            lemma_answerable_count_bounds(quiz@.questions);
        }
        if n == len {
            let total = count_answerable(&quiz);
            actions.push(
                act_send_rows(
                    chat_id,
                    Msg::QuizResult { score: new_score, total },
                    action_keyboard(username.as_str(), admin.as_str()),
                ),
            );
            let t = Turn { next: QuizState::Start, actions };
            proof {
                assert(t@.actions =~= model_take_answer(
                    chat_id,
                    username@,
                    admin@,
                    callback_id@,
                    Some(given_view),
                    message.deep_view(),
                    quiz@,
                    curr_idx,
                    score,
                ).actions);
            }
            t
        } else {
            let labels = answers_keyboard(&quiz.questions[n].answers);
            let number: usize = n + 1;
            let qtext = quiz.questions[n].text();
            proof {
                assert(quiz.questions@[n as int].deep_view() == quiz@.questions[n as int]);
            }
            actions.push(
                act_send_choices(chat_id, Msg::AskQuestion { number, text: qtext }, labels),
            );
            let t = Turn {
                next: QuizState::Running { quiz, curr_idx: n, score: new_score },
                actions,
            };
            proof {
                assert(t@.actions =~= model_take_answer(
                    chat_id,
                    username@,
                    admin@,
                    callback_id@,
                    Some(given_view),
                    message.deep_view(),
                    t@.next->Running_quiz,
                    curr_idx,
                    score,
                ).actions);
            }
            t
        }
    }
}

} // verus!
