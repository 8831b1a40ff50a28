//! Machine-wide laws, each proved against the transition model: the global
//! cancel rule, the rejection behaviour of the yes/no prompts, the emptiness
//! behaviour of a run, and the faithfulness of a whole construction
//! dialogue — the committed aggregate carries exactly the supplied title and
//! the questions and answers in input order.

use vstd::prelude::*;

use crate::commands::spec_parse_command;
use crate::constructor::draft_quiz;
use crate::events::ActionView;
use crate::events::EventView;
use crate::events::MsgView;
use crate::events::send_keep;
use crate::keyboard::action_labels;
use crate::quiz::AnswerView;
use crate::quiz::QuestionView;
use crate::quiz::QuizView;
use crate::runner::model_running_ready;
use crate::runner::skip_notices;
use crate::schema::model_transition;
use crate::state::QuizDataView;
use crate::state::StateView;
use crate::store::has_quiz;
use crate::store::quiz_wf;
use crate::tokens::is_affirmative;
use crate::tokens::is_negative;

verus! {

/// The text does not spell a reserved command.
pub open spec fn not_command(t: Seq<char>) -> bool {
    spec_parse_command(t) == Option::<crate::commands::Command>::None
}

/// The plain affirmative and negative tokens are no commands, and each
/// matches only its own side.
pub proof fn lemma_plain_tokens()
    ensures
        not_command("Yes"@),
        not_command("No"@),
        is_affirmative("Yes"@),
        is_negative("No"@),
        !is_negative("Yes"@),
        !is_affirmative("No"@),
{
    reveal_strlit("Yes");
    reveal_strlit("No");
    reveal_strlit("Yes✔️");
    reveal_strlit("No❌");
    reveal_strlit("/help");
    reveal_strlit("/cancel");
    reveal_strlit("/start");
    reveal_strlit("/back");
    assert("Yes"@.len() == 3);
    assert("No"@.len() == 2);
    assert("Yes✔️"@.len() == 5);
    assert("No❌"@.len() == 3);
    assert("/help"@.len() == 5);
    assert("/cancel"@.len() == 7);
    assert("/start"@.len() == 6);
    assert("/back"@.len() == 5);
    assert("No❌"@[0] == 'N');
    assert("Yes"@[0] == 'Y');
}

/// A cancel command, in any state whatsoever, forces the dialogue back to
/// idle, discards whatever the state carried, and leaves the repository
/// untouched.
pub proof fn lemma_cancel_resets(
    s: Seq<QuizView>,
    state: StateView,
    chat_id: i64,
    username: Seq<char>,
    admin: Seq<char>,
)
    ensures
        model_transition(
            s,
            state,
            EventView::Message { chat_id, username, text: Some("/cancel"@) },
            admin,
        ) == (
            s,
            crate::events::TurnView {
                next: StateView::Start,
                actions: seq![send_keep(chat_id, MsgView::Cancelling)],
            },
        ),
{
    reveal_strlit("/help");
    reveal_strlit("/cancel");
    assert("/help"@.len() == 5);
    assert("/cancel"@.len() == 7);
}


/// Submitting a title that is already present in storage never advances past
/// the title-collection state, and the repository is untouched.
pub proof fn lemma_taken_title_never_advances(
    s: Seq<QuizView>,
    chat_id: i64,
    username: Seq<char>,
    admin: Seq<char>,
    title: Seq<char>,
)
    requires
        has_quiz(s, title),
        not_command(title),
    ensures
        model_transition(
            s,
            StateView::ReceiveQuizName,
            EventView::Message { chat_id, username, text: Some(title) },
            admin,
        ).0 == s,
        model_transition(
            s,
            StateView::ReceiveQuizName,
            EventView::Message { chat_id, username, text: Some(title) },
            admin,
        ).1.next == StateView::ReceiveQuizName,
{
}

/// At every yes/no prompt of the machine, a text that is neither of the two
/// accepted token pairs (and no reserved command) is rejected: the state and
/// the repository stay exactly as they were.
pub proof fn lemma_rejection_keeps_state(
    s: Seq<QuizView>,
    state: StateView,
    chat_id: i64,
    username: Seq<char>,
    admin: Seq<char>,
    t: Seq<char>,
)
    requires
        !is_affirmative(t),
        !is_negative(t),
        not_command(t),
        state is ReceiveQuizAuthor || state is ReceiveAddAnotherQuestion
            || state is ReceiveAnswerIsCorrect || state is ReceiveAddAnotherAnswer
            || state is ReadyToRun || state is AddAnswerCorrectness || state is EditCorectness,
    ensures
        model_transition(
            s,
            state,
            EventView::Message { chat_id, username, text: Some(t) },
            admin,
        ).0 == s,
        model_transition(
            s,
            state,
            EventView::Message { chat_id, username, text: Some(t) },
            admin,
        ).1.next == state,
{
    match state {
        StateView::ReceiveQuizAuthor { .. } => {},
        StateView::ReceiveAddAnotherQuestion { .. } => {},
        StateView::ReceiveAnswerIsCorrect { .. } => {},
        StateView::ReceiveAddAnotherAnswer { .. } => {},
        StateView::ReadyToRun { .. } => {},
        StateView::AddAnswerCorrectness { .. } => {},
        StateView::EditCorectness { .. } => {},
        _ => {},
    }
}

/// Running a quiz whose questions all have zero answers ends at once, back
/// at idle, reporting a score of zero over zero answerable questions — and
/// no question is ever shown.
pub proof fn lemma_all_bare_run_ends(
    chat_id: i64,
    username: Seq<char>,
    admin: Seq<char>,
    quiz: QuizView,
    t: Seq<char>,
)
    requires
        is_affirmative(t),
        quiz.questions.len() > 0,
        forall|j: int| 0 <= j < quiz.questions.len() ==> quiz.questions[j].answers.len() == 0,
    ensures
        model_running_ready(chat_id, username, admin, quiz, 0, Some(t)).next == StateView::Start,
        model_running_ready(chat_id, username, admin, quiz, 0, Some(t)).actions == seq![
            crate::events::send_remove(chat_id, MsgView::LetsBegin),
        ] + skip_notices(chat_id, quiz.questions.len() as int) + seq![
            crate::events::send_rows(
                chat_id,
                MsgView::QuizResult { score: 0, total: 0 },
                action_labels(username, admin),
            ),
        ],
        forall|i: int|
            0 <= i < model_running_ready(chat_id, username, admin, quiz, 0, Some(t)).actions.len()
                ==> !shows_question(
                #[trigger] model_running_ready(chat_id, username, admin, quiz, 0, Some(t)).actions[i],
            ),
{
    crate::tokens::lemma_tokens_disjoint(t);
    crate::runner::lemma_next_with_answers_is(
        quiz.questions,
        0,
        quiz.questions.len() as int,
    );
    crate::runner::lemma_answerable_count_zero(quiz.questions);
    let turn = model_running_ready(chat_id, username, admin, quiz, 0, Some(t));
    assert forall|i: int| 0 <= i < turn.actions.len() implies !shows_question(
        #[trigger] turn.actions[i],
    ) by {
        if i == 0 {
        } else if i < turn.actions.len() - 1 {
            assert(turn.actions[i] == skip_notices(chat_id, quiz.questions.len() as int)[i - 1]);
        } else {
        }
    }
}

/// The action presents a question to the user.
pub open spec fn shows_question(a: ActionView) -> bool {
    match a {
        ActionView::Send { body: MsgView::AskQuestion { .. }, .. } => true,
        ActionView::EditMessage { body: MsgView::AskQuestion { .. }, .. } => true,
        _ => false,
    }
}

/// A message event of the construction dialogue.
pub open spec fn msg_ev(chat_id: i64, username: Seq<char>, t: Seq<char>) -> EventView {
    EventView::Message { chat_id, username, text: Some(t) }
}

/// The token that states the given correctness.
pub open spec fn tok_of(correct: bool) -> Seq<char> {
    if correct {
        "Yes"@
    } else {
        "No"@
    }
}

/// The machine run over a whole event sequence: the repository and the state
/// it ends in.
pub open spec fn run_events(
    s: Seq<QuizView>,
    st: StateView,
    evs: Seq<EventView>,
    admin: Seq<char>,
) -> (Seq<QuizView>, StateView)
    decreases evs.len(),
{
    if evs.len() == 0 {
        (s, st)
    } else {
        let step = model_transition(s, st, evs[0], admin);
        run_events(step.0, step.1.next, evs.skip(1), admin)
    }
}

/// Running a concatenation is running the parts one after the other.
pub proof fn lemma_run_append(
    s: Seq<QuizView>,
    st: StateView,
    a: Seq<EventView>,
    b: Seq<EventView>,
    admin: Seq<char>,
)
    ensures
        run_events(s, st, a + b, admin) == run_events(
            run_events(s, st, a, admin).0,
            run_events(s, st, a, admin).1,
            b,
            admin,
        ),
    decreases a.len(),
{
    if a.len() == 0 {
        assert(a + b =~= b);
    } else {
        assert((a + b)[0] == a[0]);
        assert((a + b).skip(1) =~= a.skip(1) + b);
        let step = model_transition(s, st, a[0], admin);
        lemma_run_append(step.0, step.1.next, a.skip(1), b, admin);
    }
}


/// One event runs one transition.
pub proof fn lemma_run_one(
    s: Seq<QuizView>,
    st: StateView,
    e: EventView,
    admin: Seq<char>,
)
    ensures
        run_events(s, st, seq![e], admin).0 == model_transition(s, st, e, admin).0,
        run_events(s, st, seq![e], admin).1 == model_transition(s, st, e, admin).1.next,
{
    let evs = seq![e];
    assert(evs[0] == e);
    let p = model_transition(s, st, e, admin);
    assert(run_events(s, st, evs, admin) == run_events(p.0, p.1.next, evs.skip(1), admin));
    assert(evs.skip(1) =~= Seq::<EventView>::empty());
    assert(run_events(p.0, p.1.next, Seq::<EventView>::empty(), admin) == (p.0, p.1.next));
}

/// Two events run two transitions, in order.
pub proof fn lemma_run_two(
    s: Seq<QuizView>,
    st: StateView,
    e1: EventView,
    e2: EventView,
    admin: Seq<char>,
)
    ensures
        run_events(s, st, seq![e1, e2], admin).0 == model_transition(
            model_transition(s, st, e1, admin).0,
            model_transition(s, st, e1, admin).1.next,
            e2,
            admin,
        ).0,
        run_events(s, st, seq![e1, e2], admin).1 == model_transition(
            model_transition(s, st, e1, admin).0,
            model_transition(s, st, e1, admin).1.next,
            e2,
            admin,
        ).1.next,
{
    let evs = seq![e1, e2];
    assert(evs[0] == e1);
    let p = model_transition(s, st, e1, admin);
    assert(run_events(s, st, evs, admin) == run_events(p.0, p.1.next, evs.skip(1), admin));
    assert(evs.skip(1) =~= seq![e2]);
    lemma_run_one(p.0, p.1.next, e2, admin);
}

/// The events that enter the remaining answers of one question, ending with
/// the decision not to add another.
pub open spec fn answers_chunk(
    chat_id: i64,
    username: Seq<char>,
    rest: Seq<AnswerView>,
) -> Seq<EventView>
    decreases rest.len(),
{
    if rest.len() == 0 {
        Seq::empty()
    } else {
        seq![
            msg_ev(chat_id, username, rest[0].text),
            msg_ev(chat_id, username, tok_of(rest[0].is_correct)),
        ] + if rest.len() == 1 {
            seq![msg_ev(chat_id, username, "No"@)]
        } else {
            seq![msg_ev(chat_id, username, "Yes"@)] + answers_chunk(
                chat_id,
                username,
                rest.skip(1),
            )
        }
    }
}

/// Entering the remaining answers appends them, in input order, to the ones
/// already collected, and seals the question onto the draft.
pub proof fn lemma_answers_chunk(
    s: Seq<QuizView>,
    chat_id: i64,
    username: Seq<char>,
    admin: Seq<char>,
    d: QuizDataView,
    qtext: Seq<char>,
    acc: Seq<AnswerView>,
    rest: Seq<AnswerView>,
)
    requires
        rest.len() >= 1,
        forall|i: int| 0 <= i < rest.len() ==> not_command(#[trigger] rest[i].text),
    ensures
        run_events(
            s,
            StateView::ReceiveNewAnswer { quiz_info: d, new_question: qtext, answers: acc },
            answers_chunk(chat_id, username, rest),
            admin,
        ) == (
            s,
            StateView::ReceiveQuizAuthor {
                quiz_info: QuizDataView {
                    questions: d.questions.push(
                        (QuestionView { text: qtext, answers: acc + rest }),
                    ),
                    ..d
                },
            },
        ),
    decreases rest.len(),
{
    lemma_plain_tokens();
    let st0 = StateView::ReceiveNewAnswer { quiz_info: d, new_question: qtext, answers: acc };
    let e1 = msg_ev(chat_id, username, rest[0].text);
    let e2 = msg_ev(chat_id, username, tok_of(rest[0].is_correct));
    let head = seq![e1, e2];
    let step1 = model_transition(s, st0, e1, admin);
    assert(step1.0 == s);
    assert(step1.1.next == StateView::ReceiveAnswerIsCorrect {
        quiz_info: d,
        new_question: qtext,
        answers: acc,
        new_answer: rest[0].text,
    });
    let step2 = model_transition(s, step1.1.next, e2, admin);
    assert(if rest[0].is_correct {
        is_affirmative(tok_of(rest[0].is_correct))
    } else {
        !is_affirmative(tok_of(rest[0].is_correct)) && is_negative(tok_of(rest[0].is_correct))
    });
    let pushed = acc.push(
        (AnswerView { text: rest[0].text, is_correct: rest[0].is_correct }),
    );
    assert(pushed == acc.push(rest[0]));
    assert(step2.0 == s);
    assert(step2.1.next == StateView::ReceiveAddAnotherAnswer {
        quiz_info: d,
        new_question: qtext,
        answers: acc.push(rest[0]),
    });
    lemma_run_two(s, st0, e1, e2, admin);
    assert(run_events(s, st0, head, admin) == (s, step2.1.next));
    if rest.len() == 1 {
        let tail = seq![msg_ev(chat_id, username, "No"@)];
        assert(answers_chunk(chat_id, username, rest) =~= head + tail);
        lemma_run_append(s, st0, head, tail, admin);
        lemma_run_one(s, step2.1.next, tail[0], admin);
        let step3 = model_transition(s, step2.1.next, tail[0], admin);
        assert(step3.0 == s);
        assert(acc.push(rest[0]) =~= acc + rest);
        assert(run_events(s, st0, answers_chunk(chat_id, username, rest), admin) == (
            s,
            step3.1.next,
        ));
    } else {
        let tail = seq![msg_ev(chat_id, username, "Yes"@)] + answers_chunk(
            chat_id,
            username,
            rest.skip(1),
        );
        assert(answers_chunk(chat_id, username, rest) =~= head + tail);
        lemma_run_append(s, st0, head, tail, admin);
        assert(tail[0] == msg_ev(chat_id, username, "Yes"@));
        let step3 = model_transition(s, step2.1.next, tail[0], admin);
        assert(step3.0 == s);
        assert(step3.1.next == StateView::ReceiveNewAnswer {
            quiz_info: d,
            new_question: qtext,
            answers: acc.push(rest[0]),
        });
        assert(tail.skip(1) =~= answers_chunk(chat_id, username, rest.skip(1)));
        assert forall|i: int| 0 <= i < rest.skip(1).len() implies not_command(
            #[trigger] rest.skip(1)[i].text,
        ) by {
            assert(rest.skip(1)[i] == rest[i + 1]);
        }
        lemma_answers_chunk(
            s,
            chat_id,
            username,
            admin,
            d,
            qtext,
            acc.push(rest[0]),
            rest.skip(1),
        );
        assert(acc.push(rest[0]) + rest.skip(1) =~= acc + rest);
        lemma_run_append(
            s,
            step2.1.next,
            seq![msg_ev(chat_id, username, "Yes"@)],
            answers_chunk(chat_id, username, rest.skip(1)),
            admin,
        );
        lemma_run_one(s, step2.1.next, msg_ev(chat_id, username, "Yes"@), admin);
    }
}

/// The events that enter the remaining questions, each with its answers,
/// ending with the decision not to add another — which commits the draft.
pub open spec fn questions_chunk(
    chat_id: i64,
    username: Seq<char>,
    rest: Seq<QuestionView>,
) -> Seq<EventView>
    decreases rest.len(),
{
    if rest.len() == 0 {
        seq![msg_ev(chat_id, username, "No"@)]
    } else {
        seq![msg_ev(chat_id, username, "Yes"@), msg_ev(chat_id, username, rest[0].text)]
            + answers_chunk(chat_id, username, rest[0].answers) + questions_chunk(
            chat_id,
            username,
            rest.skip(1),
        )
    }
}

/// Entering the remaining questions appends them, in input order, to the
/// draft, and the closing decision commits the finished aggregate as one
/// unit.
pub proof fn lemma_questions_chunk(
    s: Seq<QuizView>,
    chat_id: i64,
    username: Seq<char>,
    admin: Seq<char>,
    d: QuizDataView,
    rest: Seq<QuestionView>,
)
    requires
        forall|i: int| 0 <= i < rest.len() ==> #[trigger] rest[i].answers.len() >= 1,
        forall|i: int| 0 <= i < rest.len() ==> not_command(#[trigger] rest[i].text),
        forall|i: int, j: int|
            0 <= i < rest.len() && 0 <= j < rest[i].answers.len() ==> not_command(
                #[trigger] rest[i].answers[j].text,
            ),
        !has_quiz(s, d.quiz_name),
        quiz_wf(draft_quiz((QuizDataView { questions: d.questions + rest, ..d }))),
    ensures
        run_events(
            s,
            StateView::ReceiveQuizAuthor { quiz_info: d },
            questions_chunk(chat_id, username, rest),
            admin,
        ) == (
            s.push(draft_quiz((QuizDataView { questions: d.questions + rest, ..d }))),
            StateView::Start,
        ),
    decreases rest.len(),
{
    lemma_plain_tokens();
    let st0 = StateView::ReceiveQuizAuthor { quiz_info: d };
    if rest.len() == 0 {
        assert(d.questions + rest =~= d.questions);
        let df = (QuizDataView { questions: d.questions + rest, ..d });
        assert(df == d);
        let e = msg_ev(chat_id, username, "No"@);
        let step = model_transition(s, st0, e, admin);
        assert(step.0 == s.push(draft_quiz(d)));
        assert(step.1.next == StateView::Start);
        assert(questions_chunk(chat_id, username, rest) =~= seq![e]);
        lemma_run_one(s, st0, e, admin);
    } else {
        let e1 = msg_ev(chat_id, username, "Yes"@);
        let e2 = msg_ev(chat_id, username, rest[0].text);
        let head = seq![e1, e2];
        let step1 = model_transition(s, st0, e1, admin);
        assert(step1.0 == s);
        assert(step1.1.next == StateView::ReceiveNewQuestion { quiz_info: d });
        let step2 = model_transition(s, step1.1.next, e2, admin);
        assert(step2.0 == s);
        assert(step2.1.next == StateView::ReceiveNewAnswer {
            quiz_info: d,
            new_question: rest[0].text,
            answers: Seq::<AnswerView>::empty(),
        });
        lemma_run_two(s, st0, e1, e2, admin);
        assert(run_events(s, st0, head, admin) == (s, step2.1.next));
        let ac = answers_chunk(chat_id, username, rest[0].answers);
        let qc = questions_chunk(chat_id, username, rest.skip(1));
        assert(questions_chunk(chat_id, username, rest) =~= (head + ac) + qc);
        lemma_run_append(s, st0, head + ac, qc, admin);
        lemma_run_append(s, st0, head, ac, admin);
        lemma_answers_chunk(
            s,
            chat_id,
            username,
            admin,
            d,
            rest[0].text,
            Seq::<AnswerView>::empty(),
            rest[0].answers,
        );
        assert(Seq::<AnswerView>::empty() + rest[0].answers =~= rest[0].answers);
        let q0 = (QuestionView { text: rest[0].text, answers: rest[0].answers });
        assert(q0 == rest[0]);
        let d1 = (QuizDataView { questions: d.questions.push(rest[0]), ..d });
        assert(run_events(s, st0, head + ac, admin) == (
            s,
            StateView::ReceiveQuizAuthor { quiz_info: d1 },
        ));
        assert forall|i: int| 0 <= i < rest.skip(1).len() implies #[trigger] rest.skip(
            1,
        )[i].answers.len() >= 1 by {
            assert(rest.skip(1)[i] == rest[i + 1]);
        }
        assert forall|i: int| 0 <= i < rest.skip(1).len() implies not_command(
            #[trigger] rest.skip(1)[i].text,
        ) by {
            assert(rest.skip(1)[i] == rest[i + 1]);
        }
        assert forall|i: int, j: int|
            0 <= i < rest.skip(1).len() && 0 <= j < rest.skip(1)[i].answers.len() implies
            not_command(#[trigger] rest.skip(1)[i].answers[j].text) by {
            assert(rest.skip(1)[i] == rest[i + 1]);
        }
        assert(d1.questions + rest.skip(1) =~= d.questions + rest);
        lemma_questions_chunk(s, chat_id, username, admin, d1, rest.skip(1));
        assert((QuizDataView { questions: d1.questions + rest.skip(1), ..d1 })
            == (QuizDataView { questions: d.questions + rest, ..d }));
    }
}

/// The whole construction dialogue for a quiz: the title, the description,
/// then each question with its answers.
pub open spec fn construction_events(
    chat_id: i64,
    username: Seq<char>,
    title: Seq<char>,
    description: Seq<char>,
    questions: Seq<QuestionView>,
) -> Seq<EventView> {
    seq![msg_ev(chat_id, username, title), msg_ev(chat_id, username, description)]
        + questions_chunk(chat_id, username, questions)
}

/// Every valid construction dialogue commits exactly what was entered: the
/// stored title equals the supplied title, the author is the requesting
/// user, and the questions and their answers stand in input order. The
/// machine ends idle and nothing else in the repository has changed.
pub proof fn theorem_construction_faithful(
    s: Seq<QuizView>,
    chat_id: i64,
    username: Seq<char>,
    admin: Seq<char>,
    title: Seq<char>,
    description: Seq<char>,
    questions: Seq<QuestionView>,
)
    requires
        title.len() > 0,
        !has_quiz(s, title),
        not_command(title),
        not_command(description),
        forall|i: int| 0 <= i < questions.len() ==> #[trigger] questions[i].answers.len() >= 1,
        forall|i: int| 0 <= i < questions.len() ==> not_command(#[trigger] questions[i].text),
        forall|i: int, j: int|
            0 <= i < questions.len() && 0 <= j < questions[i].answers.len() ==> not_command(
                #[trigger] questions[i].answers[j].text,
            ),
        quiz_wf((QuizView { title, description, author: username, questions })),
    ensures
        run_events(
            s,
            StateView::ReceiveQuizName,
            construction_events(chat_id, username, title, description, questions),
            admin,
        ) == (
            s.push((QuizView { title, description, author: username, questions })),
            StateView::Start,
        ),
{
    let st0 = StateView::ReceiveQuizName;
    let e1 = msg_ev(chat_id, username, title);
    let e2 = msg_ev(chat_id, username, description);
    let head = seq![e1, e2];
    let step1 = model_transition(s, st0, e1, admin);
    assert(step1.0 == s);
    assert(step1.1.next == StateView::ReceiveQuizDescription { quiz_name: title });
    let step2 = model_transition(s, step1.1.next, e2, admin);
    assert(step2.0 == s);
    let d0 = QuizDataView {
        quiz_name: title,
        description,
        author: username,
        questions: Seq::empty(),
    };
    assert(step2.1.next == StateView::ReceiveQuizAuthor { quiz_info: d0 });
    lemma_run_two(s, st0, e1, e2, admin);
    assert(run_events(s, st0, head, admin) == (s, step2.1.next));
    let qc = questions_chunk(chat_id, username, questions);
    assert(construction_events(chat_id, username, title, description, questions) =~= head + qc);
    lemma_run_append(s, st0, head, qc, admin);
    assert(d0.questions + questions =~= questions);
    assert(quiz_wf(draft_quiz((QuizDataView { questions: d0.questions + questions, ..d0 }))));
    lemma_questions_chunk(s, chat_id, username, admin, d0, questions);
    assert(draft_quiz((QuizDataView { questions: d0.questions + questions, ..d0 }))
        == (QuizView { title, description, author: username, questions }));
}

/// What a construction commits can be retrieved: in the repository the run
/// leaves behind, the supplied title resolves to exactly the committed
/// aggregate.
pub proof fn lemma_committed_quiz_retrievable(s: Seq<QuizView>, q: QuizView)
    requires
        !has_quiz(s, q.title),
    ensures
        has_quiz(s.push(q), q.title),
        crate::store::quiz_at(s.push(q), q.title) == q,
{
    crate::store::lemma_find_quiz(s, q.title);
    assert forall|j: int| 0 <= j < s.len() implies s.push(q)[j].title != q.title by {
        assert(s.push(q)[j] == s[j]);
    }
    crate::store::lemma_find_quiz_is(s.push(q), q.title, s.len() as int);
}

} // verus!
