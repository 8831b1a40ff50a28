use quiz_bot::events::{Action, Event, Msg, OptionSet, SourceMessage, Turn};
use quiz_bot::quiz::{Answer, Question, Quiz};
use quiz_bot::commands::{parse_command, Command};
use quiz_bot::schema::transition;
use quiz_bot::state::{QuizData, QuizState};
use quiz_bot::store::QuizStore;

fn msg(text: &str) -> Event {
    Event::Message {
        chat_id: 7,
        username: "admin".to_string(),
        text: Some(text.to_string()),
    }
}

fn callback(data: &str) -> Event {
    Event::Callback {
        chat_id: 7,
        username: "admin".to_string(),
        callback_id: "cb1".to_string(),
        data: Some(data.to_string()),
        message: Some(SourceMessage {
            message_id: 42,
            text: "Question #2\nQ2".to_string(),
        }),
    }
}

fn admin() -> String {
    "admin".to_string()
}

fn step(store: &mut QuizStore, state: QuizState, text: &str) -> Turn {
    transition(store, state, msg(text), &admin())
}

/// Drives the whole construction dialogue and checks that the committed quiz
/// carries the supplied title and the questions and answers in input order.
#[test]
fn construction_commits_in_input_order() {
    let mut store = QuizStore::new();
    let t = step(&mut store, QuizState::Start, "Create a new quiz🏗️");
    assert!(matches!(t.next, QuizState::ReceiveQuizName));

    let t = step(&mut store, t.next, "Capitals");
    assert!(matches!(&t.next, QuizState::ReceiveQuizDescription { quiz_name } if quiz_name == "Capitals"));

    let t = step(&mut store, t.next, "European capitals");
    assert!(matches!(&t.next, QuizState::ReceiveQuizAuthor { .. }));

    let t = step(&mut store, t.next, "Yes✔️");
    assert!(matches!(&t.next, QuizState::ReceiveNewQuestion { .. }));

    let t = step(&mut store, t.next, "Capital of France?");
    let t = step(&mut store, t.next, "Paris");
    assert!(matches!(&t.next, QuizState::ReceiveAnswerIsCorrect { .. }));
    let t = step(&mut store, t.next, "Yes");
    assert!(matches!(&t.next, QuizState::ReceiveAddAnotherAnswer { .. }));
    let t = step(&mut store, t.next, "Yes");
    let t = step(&mut store, t.next, "Lyon");
    let t = step(&mut store, t.next, "No");
    let t = step(&mut store, t.next, "No");
    assert!(matches!(&t.next, QuizState::ReceiveQuizAuthor { .. }));

    // No more questions: commit.
    let t = step(&mut store, t.next, "No❌");
    assert!(matches!(t.next, QuizState::Start));
    assert!(
        matches!(&t.actions[0], Action::Send { body: Msg::QuizSaved { title }, .. } if title == "Capitals")
    );

    let quiz = store.retreive_quiz("Capitals").unwrap();
    assert_eq!(quiz.title(), "Capitals");
    assert_eq!(quiz.author(), "admin");
    assert_eq!(quiz.questions().len(), 1);
    let q = &quiz.questions()[0];
    assert_eq!(q.text(), "Capital of France?");
    assert_eq!(q.answers().len(), 2);
    assert_eq!(q.answers()[0].text(), "Paris");
    assert!(q.answers()[0].is_correct());
    assert_eq!(q.answers()[1].text(), "Lyon");
    assert!(!q.answers()[1].is_correct());
}

/// A title that is already present in storage never advances past the
/// title-collection state.
#[test]
fn duplicate_title_reprompts_without_advancing() {
    let mut store = QuizStore::new();
    store
        .create_quiz(Quiz::new(
            "T".to_string(),
            "d".to_string(),
            "a".to_string(),
            None,
        ))
        .unwrap();

    let t = step(&mut store, QuizState::ReceiveQuizName, "T");
    assert!(matches!(t.next, QuizState::ReceiveQuizName));
    assert!(matches!(&t.actions[0], Action::Send { body: Msg::TitleExists, .. }));
    assert_eq!(store.retreive_all_quiz_names().len(), 1);
}

/// An empty title is rejected and the title prompt repeats.
#[test]
fn empty_title_reprompts() {
    let mut store = QuizStore::new();
    let t = step(&mut store, QuizState::ReceiveQuizName, "");
    assert!(matches!(t.next, QuizState::ReceiveQuizName));
    assert!(matches!(&t.actions[0], Action::Send { body: Msg::TitleMissing, .. }));
}

/// With nothing stored, the menu reports that no quiz is available and the
/// dialogue stays idle.
#[test]
fn empty_store_offers_nothing() {
    let mut store = QuizStore::new();
    let t = step(&mut store, QuizState::Start, "Take a quiz📝");
    assert!(matches!(t.next, QuizState::Start));
    assert!(matches!(&t.actions[0], Action::Send { body: Msg::NoQuizzesAvailable, .. }));

    let t = step(&mut store, QuizState::Start, "Edit an existing quiz✏️️");
    assert!(matches!(t.next, QuizState::Start));
    assert!(matches!(&t.actions[0], Action::Send { body: Msg::NoQuizzesAvailable, .. }));
}

/// Affirmative/negative matching accepts exactly the two token pairs and
/// rejects everything else, leaving the state unchanged on rejection.
#[test]
fn yes_no_tokens_are_exact() {
    assert!(quiz_bot::tokens::affirmative("Yes"));
    assert!(quiz_bot::tokens::affirmative("Yes✔️"));
    assert!(!quiz_bot::tokens::affirmative("yes"));
    assert!(!quiz_bot::tokens::affirmative("YES"));
    assert!(!quiz_bot::tokens::affirmative("No"));
    assert!(!quiz_bot::tokens::affirmative("Yes "));
    assert!(quiz_bot::tokens::negative("No"));
    assert!(quiz_bot::tokens::negative("No❌"));
    assert!(!quiz_bot::tokens::negative("no"));
    assert!(!quiz_bot::tokens::negative("Yes"));

    let mut store = QuizStore::new();
    let state = QuizState::ReceiveQuizAuthor {
        quiz_info: QuizData {
            quiz_name: "T".to_string(),
            description: "d".to_string(),
            author: "admin".to_string(),
            questions: Vec::new(),
        },
    };
    let t = step(&mut store, state, "maybe");
    assert!(matches!(&t.next, QuizState::ReceiveQuizAuthor { quiz_info } if quiz_info.quiz_name == "T"));
    assert!(matches!(&t.actions[0], Action::Send { body: Msg::InvalidYesNo, .. }));
}

/// A cancel command from any state returns to idle and discards the draft.
#[test]
fn cancel_discards_draft_from_any_state() {
    let mut store = QuizStore::new();
    let state = QuizState::ReceiveNewAnswer {
        quiz_info: QuizData {
            quiz_name: "T".to_string(),
            description: "d".to_string(),
            author: "admin".to_string(),
            questions: Vec::new(),
        },
        new_question: "Q".to_string(),
        answers: vec![Answer::new("A".to_string(), true)],
    };
    let t = step(&mut store, state, "/cancel");
    assert!(matches!(t.next, QuizState::Start));
    assert!(matches!(&t.actions[0], Action::Send { body: Msg::Cancelling, .. }));
    // Nothing was committed.
    assert!(store.retreive_all_quiz_names().is_empty());

    let t = step(&mut store, QuizState::Selection, "/cancel");
    assert!(matches!(t.next, QuizState::Start));
}

/// Running a quiz where every question has zero answers ends immediately
/// with score 0 and no question ever shown.
#[test]
fn run_with_only_bare_questions_ends_at_once() {
    let mut store = QuizStore::new();
    let quiz = Quiz::new(
        "Empty".to_string(),
        "d".to_string(),
        "a".to_string(),
        Some(vec![
            Question::new("Q1".to_string(), None),
            Question::new("Q2".to_string(), None),
        ]),
    );
    let state = QuizState::ReadyToRun {
        quiz,
        curr_idx: 0,
    };
    let t = step(&mut store, state, "Yes✔️");
    assert!(matches!(t.next, QuizState::Start));
    let mut saw_report = false;
    for a in &t.actions {
        assert!(!matches!(
            a,
            Action::Send { body: Msg::AskQuestion { .. }, .. }
        ));
        if let Action::Send { body: Msg::QuizResult { score, total }, .. } = a {
            assert_eq!(*score, 0);
            assert_eq!(*total, 0);
            saw_report = true;
        }
    }
    assert!(saw_report);
}

/// Running `[Q1(answers=[]), Q2(answers=[A correct])]`: the engine skips Q1,
/// presents Q2, and selecting A yields the final report 1/1.
#[test]
fn run_skips_bare_question_and_scores_one_of_one() {
    let mut store = QuizStore::new();
    store
        .create_quiz(Quiz::new(
            "T".to_string(),
            "d".to_string(),
            "a".to_string(),
            Some(vec![
                Question::new("Q1".to_string(), None),
                Question::new(
                    "Q2".to_string(),
                    Some(vec![Answer::new("A".to_string(), true)]),
                ),
            ]),
        ))
        .unwrap();

    // Pick the quiz by title.
    let t = step(&mut store, QuizState::Selection, "T");
    assert!(matches!(&t.next, QuizState::ReadyToRun { curr_idx: 0, .. }));
    assert!(matches!(
        &t.actions[0],
        Action::Send { body: Msg::QuizIntro { question_count: 2, .. }, .. }
    ));

    // Confirm: Q1 is skipped with a notice, Q2 is presented.
    let t = step(&mut store, t.next, "Yes✔️");
    assert!(matches!(&t.next, QuizState::Running { curr_idx: 1, score: 0, .. }));
    assert!(t.actions.iter().any(|a| matches!(a, Action::Send { body: Msg::SkipNotice, .. })));
    let ask = t
        .actions
        .iter()
        .find(|a| matches!(a, Action::Send { body: Msg::AskQuestion { .. }, .. }))
        .unwrap();
    if let Action::Send { body: Msg::AskQuestion { number, text }, options, .. } = ask {
        assert_eq!(*number, 2);
        assert_eq!(text, "Q2");
        assert!(matches!(options, OptionSet::Choices(labels) if labels == &vec!["A".to_string()]));
    }

    // Select A: callback is acknowledged, the question message is annotated,
    // and the final report reads 1/1.
    let t = transition(&mut store, t.next, callback("A"), &admin());
    assert!(matches!(t.next, QuizState::Start));
    assert!(matches!(&t.actions[0], Action::AnswerCallback { callback_id } if callback_id == "cb1"));
    assert!(matches!(
        &t.actions[1],
        Action::EditMessage { message_id: 42, body: Msg::AnswerFeedback { given, correct: true }, .. } if given == "A"
    ));
    assert!(t.actions.iter().any(|a| matches!(
        a,
        Action::Send { body: Msg::QuizResult { score: 1, total: 1 }, .. }
    )));
}

/// A negative confirmation aborts the run back to idle.
#[test]
fn run_confirmation_no_aborts() {
    let mut store = QuizStore::new();
    let quiz = Quiz::new("T".to_string(), "d".to_string(), "a".to_string(), None);
    let t = step(&mut store, QuizState::ReadyToRun { quiz, curr_idx: 0 }, "No❌");
    assert!(matches!(t.next, QuizState::Start));
    assert!(matches!(&t.actions[0], Action::Send { body: Msg::QuitQuiz, .. }));
}

/// A wrong selection does not advance the run or the score.
#[test]
fn unknown_answer_selection_changes_nothing() {
    let mut store = QuizStore::new();
    let quiz = Quiz::new(
        "T".to_string(),
        "d".to_string(),
        "a".to_string(),
        Some(vec![Question::new(
            "Q".to_string(),
            Some(vec![Answer::new("A".to_string(), true)]),
        )]),
    );
    let state = QuizState::Running {
        quiz,
        curr_idx: 0,
        score: 0,
    };
    let t = transition(&mut store, state, callback("nonsense"), &admin());
    assert!(matches!(t.next, QuizState::Running { curr_idx: 0, score: 0, .. }));
    assert!(t.actions.iter().any(|a| matches!(a, Action::Send { body: Msg::GenericError, .. })));
}

#[test]
fn commands_parse_exactly() {
    assert_eq!(parse_command("/help"), Some(Command::Help));
    assert_eq!(parse_command("/cancel"), Some(Command::Cancel));
    assert_eq!(parse_command("/start"), Some(Command::Start));
    assert_eq!(parse_command("/back"), Some(Command::Back));
    assert_eq!(parse_command("/Help"), None);
    assert_eq!(parse_command("help"), None);
    assert_eq!(parse_command(""), None);
}

#[test]
fn help_and_start_are_global() {
    let mut store = QuizStore::new();
    let t = step(&mut store, QuizState::Selection, "/help");
    assert!(matches!(t.next, QuizState::Selection));
    assert!(matches!(&t.actions[0], Action::Send { body: Msg::Help, .. }));

    let t = step(&mut store, QuizState::Selection, "/start");
    assert!(matches!(t.next, QuizState::Start));
    assert!(matches!(&t.actions[0], Action::Send { body: Msg::ChooseWhatToDo, .. }));
}

#[test]
fn admin_menu_depends_on_username() {
    let rows = quiz_bot::keyboard::action_keyboard("admin", "admin");
    assert_eq!(rows.len(), 3);
    assert_eq!(rows[0], vec!["Take a quiz📝".to_string()]);
    let rows = quiz_bot::keyboard::action_keyboard("guest", "admin");
    assert_eq!(rows.len(), 1);
}

/// A message in a state that only takes callbacks falls to the fallback
/// without changing state; a callback outside a run does nothing.
#[test]
fn unmatched_pairs_fall_back() {
    let mut store = QuizStore::new();
    let quiz = Quiz::new("T".to_string(), "d".to_string(), "a".to_string(), None);
    let t = step(
        &mut store,
        QuizState::Running { quiz, curr_idx: 0, score: 0 },
        "hello",
    );
    assert!(matches!(t.next, QuizState::Running { .. }));
    assert!(matches!(&t.actions[0], Action::Send { body: Msg::UnableToHandle, .. }));

    let t = transition(&mut store, QuizState::Start, callback("A"), &admin());
    assert!(matches!(t.next, QuizState::Start));
    assert!(t.actions.is_empty());

    // A state no route ever reaches is caught by the same fallback.
    let t = step(&mut store, QuizState::Done { score: 3 }, "hello");
    assert!(matches!(t.next, QuizState::Done { score: 3 }));
    assert!(matches!(&t.actions[0], Action::Send { body: Msg::UnableToHandle, .. }));
}
